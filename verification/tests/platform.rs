use riscv_vmm::aia::{AIADevice, AiaError, AiaState};
use riscv_vmm::cpu_config::{
    get_cpu_template, CpuConfiguration, CustomCpuTemplate, KvmCapability, RegisterModifier,
    StaticCpuTemplate, VcpuFeatures,
};
use riscv_vmm::device::{DeviceType, MMIODeviceInfo};
use riscv_vmm::fdt::FdtError;
use riscv_vmm::kvm::Kvm;
use riscv_vmm::layout;
use riscv_vmm::memory::{
    arch_memory_regions, get_fdt_addr, get_kernel_start, GuestAddress, GuestMemory,
};
use riscv_vmm::names::{node_name_at, to_hex};
use riscv_vmm::system::{configure_system, placement_result, ConfigurationError};
use riscv_vmm::vcpu::{
    setup_boot_regs, KvmVcpu, KvmVcpuError, Peripherals, RegAccess, VcpuArchError, VcpuError,
};
use riscv_vmm::vm::{ArchVm, ArchVmError, VmState};
use riscv_vmm::writer::VmFdtError;

#[test]
fn memory_region_is_what_was_asked_for() {
    let regions = arch_memory_regions(0x1000_0000);
    assert_eq!(regions, vec![(GuestAddress(0x8000_0000), 0x1000_0000)]);
    let regions = arch_memory_regions(0);
    assert_eq!(regions, vec![(GuestAddress(0x8000_0000), 0)]);
}

#[test]
fn memory_region_is_bounded_by_the_platform() {
    let max = 0x00FF_8000_0000usize;
    assert_eq!(arch_memory_regions(max), vec![(GuestAddress(0x8000_0000), max)]);
    assert_eq!(arch_memory_regions(max + 1), vec![(GuestAddress(0x8000_0000), max)]);
    assert_eq!(arch_memory_regions(usize::MAX), vec![(GuestAddress(0x8000_0000), max)]);
    assert_eq!(layout::DRAM_MEM_MAX_SIZE, 1022 << 30);
}

#[test]
fn kernel_starts_above_the_system_memory() {
    assert_eq!(get_kernel_start(), 0x8020_0000);
    assert_eq!(layout::MMIO_MEM_START, 1 << 30);
    assert_eq!(layout::MMIO_MEM_SIZE, 1 << 30);
}

#[test]
fn blob_goes_to_the_top_of_memory() {
    let mem = GuestMemory::from_regions(&arch_memory_regions(0x1000_0000)).unwrap();
    assert_eq!(mem.last_addr(), GuestAddress(0x8fff_ffff));
    assert_eq!(get_fdt_addr(&mem), 0x8fff_ffff - 0x1_0000 + 1);
    let mem = GuestMemory::from_regions(&arch_memory_regions(0x1_0000)).unwrap();
    assert_eq!(get_fdt_addr(&mem), 0x8000_0000);
}

#[test]
fn blob_goes_to_the_start_of_small_memory() {
    let mem = GuestMemory::from_regions(&arch_memory_regions(0xffff)).unwrap();
    assert_eq!(get_fdt_addr(&mem), 0x8000_0000);
    let mem = GuestMemory::from_regions(&arch_memory_regions(1)).unwrap();
    assert_eq!(get_fdt_addr(&mem), 0x8000_0000);
}

#[test]
fn guest_memory_is_one_region_at_the_start_of_ram() {
    assert!(GuestMemory::from_regions(&vec![]).is_none());
    assert!(GuestMemory::from_regions(&arch_memory_regions(0)).is_none());
    assert!(GuestMemory::from_regions(&vec![(GuestAddress(0), 0x1000)]).is_none());
    assert!(GuestMemory::from_regions(&vec![(GuestAddress(0x8000_0000), 0x00FF_8000_0001)])
        .is_none());
    let two = vec![(GuestAddress(0x8000_0000), 0x1000), (GuestAddress(0x9000_0000), 0x1000)];
    assert!(GuestMemory::from_regions(&two).is_none());
    let mem = GuestMemory::from_regions(&vec![(GuestAddress(0x8000_0000), 0x1000)]).unwrap();
    assert_eq!(mem.start_addr(), GuestAddress(0x8000_0000));
    assert_eq!(mem.start_addr().raw_value(), 0x8000_0000);
    assert_eq!(mem.size(), 0x1000);
    assert!(mem.address_in_range(GuestAddress(0x8000_0000)));
    assert!(mem.address_in_range(GuestAddress(0x8000_0fff)));
    assert!(!mem.address_in_range(GuestAddress(0x8000_1000)));
    assert!(!mem.address_in_range(GuestAddress(0x7fff_ffff)));
}

#[test]
fn hexadecimal_names() {
    assert_eq!(to_hex(0, 0), "0");
    assert_eq!(to_hex(0xff, 0), "ff");
    assert_eq!(to_hex(0x4000_1000, 0), "40001000");
    assert_eq!(to_hex(u64::MAX, 0), "ffffffffffffffff");
    assert_eq!(to_hex(0x0800_0000, 8), "08000000");
    assert_eq!(to_hex(0xabc, 8), "00000abc");
    assert_eq!(to_hex(0x1_2345_6789, 8), "123456789");
    assert_eq!(node_name_at("cpu", 10, 0), "cpu@a");
    assert_eq!(node_name_at("imsics", 0x0800_0000, 8), "imsics@08000000");
}

#[test]
fn interrupt_controller_windows() {
    let aia = AIADevice::new(3, true);
    assert!(aia.msi_compatible());
    assert_eq!(aia.vcpu_count(), 3);
    assert_eq!(aia.aplic_properties(), [0, 0, 0, 0x4000]);
    assert_eq!(aia.imsic_properties(), [0, 0x0800_0000, 0, 0x3000]);
    assert_eq!(aia.imsic_compatibility(), "riscv,imsics");
    assert_eq!(aia.aplic_compatibility(), "riscv,aplic");
    let wired = AIADevice::new(255, false);
    assert!(!wired.msi_compatible());
    assert_eq!(wired.imsic_properties(), [0, 0x0800_0000, 0, 0xff000]);
    assert_eq!(AiaState::default(), AiaState);
}

#[test]
fn boot_registers_in_order() {
    let mem = GuestMemory::from_regions(&arch_memory_regions(0x1000_0000)).unwrap();
    let accesses = setup_boot_regs(&mem, 3, 0x8020_0000);
    assert_eq!(
        accesses,
        vec![
            RegAccess::Read { id: 0x8030000001000000 },
            RegAccess::WriteBack { id: 0x8030000001000000 },
            RegAccess::Write { id: 0x803000000200000a, value: 3 },
            RegAccess::Write { id: 0x8030000002000000, value: 0x8020_0000 },
            RegAccess::Write { id: 0x803000000200000b, value: 0x8fff_0000 },
            RegAccess::Read { id: 0x8030000004000000 },
        ]
    );
    assert_eq!(accesses[2].id(), 0x803000000200000a);
    let vcpu = KvmVcpu::new(3, Ok(())).unwrap();
    assert_eq!(vcpu.index, 3);
    assert_eq!(vcpu.configure(&mem, 0x8020_0000), accesses);
}

#[test]
fn hart_is_told_where_the_blob_is_placed() {
    for size in [0x1usize, 0xffff, 0x1_0000, 0x1_0001, 0x0800_0000, 0x00FF_8000_0000] {
        let mem = GuestMemory::from_regions(&arch_memory_regions(size)).unwrap();
        let accesses = KvmVcpu::new(0, Ok(())).unwrap().configure(&mem, 0x8020_0000);
        assert_eq!(
            accesses[4],
            RegAccess::Write { id: 0x803000000200000b, value: get_fdt_addr(&mem) }
        );
    }
    let small = GuestMemory::from_regions(&arch_memory_regions(0xffff)).unwrap();
    assert_eq!(
        setup_boot_regs(&small, 1, 0)[4],
        RegAccess::Write { id: 0x803000000200000b, value: 0x8000_0000 }
    );
    let mem = GuestMemory::from_regions(&arch_memory_regions(0x0800_0000)).unwrap();
    let aia = AIADevice::new(1, false);
    let placement = configure_system(&mem, b"quiet".to_vec(), &[], &aia, None).unwrap();
    assert_eq!(
        setup_boot_regs(&mem, 0, 0x8020_0000)[4],
        RegAccess::Write { id: 0x803000000200000b, value: placement.addr.raw_value() }
    );
    assert_eq!(placement.addr.raw_value(), 0x87ff_0000);
}

#[test]
fn refused_register_access_names_the_register() {
    let err = kvm_ioctls::Error::new(22);
    let read = RegAccess::Read { id: 7 };
    let back = RegAccess::WriteBack { id: 8 };
    let write = RegAccess::Write { id: 9, value: 1 };
    assert_eq!(read.failed(err), VcpuArchError::GetOneReg(7, err));
    assert_eq!(back.failed(err), VcpuArchError::SetOneReg(8, err));
    assert_eq!(write.failed(err), VcpuArchError::SetOneReg(9, err));
    assert_eq!(
        KvmVcpu::configure_failed(&write, err),
        KvmVcpuError::ConfigureRegisters(VcpuArchError::SetOneReg(9, err))
    );
    assert_eq!(KvmVcpu::new(0, Err(err)), Err(KvmVcpuError::CreateVcpu(err)));
}

#[test]
fn virtual_machine_gets_its_interrupt_controller_once_vcpus_exist() {
    let mut vm = ArchVm::new();
    assert!(!vm.has_irqchip());
    assert_eq!(vm.arch_pre_create_vcpus(4), Ok(()));
    assert!(!vm.has_irqchip());
    assert_eq!(vm.arch_post_create_vcpus(4, Ok(true)), Ok(()));
    assert!(vm.has_irqchip());
    assert_eq!(*vm.get_irqchip(), AIADevice::new(4, true));
    assert_eq!(VmState::default(), VmState { aia: AiaState });
}

#[test]
fn refused_interrupt_controller_leaves_the_virtual_machine_as_it_was() {
    let mut vm = ArchVm::new();
    let refused = kvm_ioctls::Error::new(19);
    assert_eq!(
        vm.setup_irqchip(2, Err(AiaError::CreateAIA(refused))),
        Err(ArchVmError::VmCreateAIA(AiaError::CreateAIA(refused)))
    );
    assert!(!vm.has_irqchip());
    assert_eq!(vm.setup_irqchip(2, Ok(false)), Ok(()));
    let attr = AiaError::DeviceAttribute(refused, true, 2);
    assert_eq!(
        vm.setup_irqchip(3, Err(AiaError::DeviceAttribute(refused, true, 2))),
        Err(ArchVmError::VmCreateAIA(attr))
    );
    assert_eq!(*vm.get_irqchip(), AIADevice::new(2, false));
}

#[test]
fn templates_change_nothing() {
    let template = CustomCpuTemplate::default();
    assert!(template.kvm_capabilities.is_empty());
    assert!(template.vcpu_features.is_empty());
    assert!(template.reg_modifiers.is_empty());
    assert!(template.reg_list().is_empty());
    assert!(template.validate().is_ok());
    let full = CustomCpuTemplate {
        kvm_capabilities: vec![KvmCapability::Add(1), KvmCapability::Remove(2)],
        vcpu_features: vec![VcpuFeatures],
        reg_modifiers: vec![RegisterModifier],
    };
    assert!(full.reg_list().is_empty());
    assert!(full.validate().is_ok());
    assert_eq!(CpuConfiguration.apply_template(&full), Ok(CpuConfiguration));
    assert!(CpuConfiguration::default().register_ids().is_empty());
    assert_eq!(get_cpu_template(&None), template);
    assert_eq!(VcpuFeatures::default(), VcpuFeatures);
}

#[test]
fn static_template_is_none() {
    assert!(StaticCpuTemplate::NoTemplate.is_none());
    assert!(StaticCpuTemplate::default().is_none());
    assert_eq!(StaticCpuTemplate::default().name(), "None");
}

#[test]
fn host_parameters_ignore_template_capabilities() {
    let kvm = Kvm::init_arch(32, vec![KvmCapability::Add(5)]).unwrap();
    assert_eq!(kvm.max_memslots, 32);
    assert!(kvm.kvm_cap_modifiers.is_empty());
    assert_eq!(Kvm::default_capabilities(), [36, 3, 89, 14, 70]);
    assert_eq!(
        Kvm::default_capabilities(),
        [
            kvm_bindings::KVM_CAP_IOEVENTFD,
            kvm_bindings::KVM_CAP_USER_MEMORY,
            kvm_bindings::KVM_CAP_DEVICE_CTRL,
            kvm_bindings::KVM_CAP_MP_STATE,
            kvm_bindings::KVM_CAP_ONE_REG,
        ]
    );
}

#[test]
fn system_configuration_places_the_blob() {
    let mem = GuestMemory::from_regions(&arch_memory_regions(0x0800_0000)).unwrap();
    let aia = AIADevice::new(1, false);
    let devices =
        vec![(DeviceType::Serial, MMIODeviceInfo { addr: 0x4000_0000, len: 0x1000, irq: Some(1) })];
    let placement = configure_system(&mem, b"quiet".to_vec(), &devices, &aia, None).unwrap();
    assert_eq!(placement.addr, GuestAddress(0x8800_0000 - 0x1_0000));
    let blob =
        riscv_vmm::fdt::create_fdt(&mem, b"quiet".to_vec(), 0x989680, &devices, &aia, None)
            .unwrap();
    assert_eq!(placement.blob, blob);
    assert!(placement.blob.len() <= 0x1_0000);
}

#[test]
fn system_configuration_hands_on_the_error_of_the_blob() {
    let mem = GuestMemory::from_regions(&arch_memory_regions(0x0800_0000)).unwrap();
    let aia = AIADevice::new(1, true);
    let r = configure_system(&mem, b"quiet".to_vec(), &[], &aia, None);
    assert_eq!(r, Err(ConfigurationError::SetupFDT(FdtError::GetDeviceAttr)));
    let r = configure_system(&mem, vec![0xff], &[], &aia, Some(1));
    assert_eq!(
        r,
        Err(ConfigurationError::SetupFDT(FdtError::CreateFdt(VmFdtError::InvalidString)))
    );
    assert_eq!(placement_result(true), Ok(()));
    assert_eq!(placement_result(false), Err(ConfigurationError::MemoryError));
}

#[test]
fn unhandled_exit_is_counted_and_fails_the_vcpu() {
    let mut peripherals = Peripherals::default();
    assert_eq!(peripherals.failures, 0);
    let r = peripherals.run_arch_emulation("Hlt".to_string());
    assert_eq!(r, Err(VcpuError::UnhandledKvmExit("Hlt".to_string())));
    assert_eq!(peripherals.failures, 1);
    let r = peripherals.run_arch_emulation("Shutdown".to_string());
    assert_eq!(r, Err(VcpuError::UnhandledKvmExit("Shutdown".to_string())));
    assert_eq!(peripherals.failures, 2);
    let mut full = Peripherals { failures: u64::MAX };
    assert!(full.run_arch_emulation(String::new()).is_err());
    assert_eq!(full.failures, u64::MAX);
}
