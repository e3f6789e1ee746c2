use riscv_vmm::regs::{
    core_reg_offset, nested_offset, reg_id, riscv64_reg_config_id,
    riscv64_reg_core_id, riscv64_reg_id, riscv64_reg_timer_id, ConfigField, CoreField, RegGroup,
    Riscv64RegisterVec, TimerField, UserReg, KVM_REG_RISCV_CONFIG, KVM_REG_RISCV_CORE,
    KVM_REG_RISCV_TIMER,
};

#[test]
fn test_isa_offset() {
    let off = ConfigField::Isa.offset();
    assert_eq!(off, 0);
}

#[test]
fn test_zicbom_block_size_offsset() {
    let off = ConfigField::ZicbomBlockSize.offset();
    assert_eq!(off, 8);
}

#[test]
fn test_mvendorid_offset() {
    let off = ConfigField::Mvendorid.offset();
    assert_eq!(off, 16);
}

#[test]
fn test_marchid_offset() {
    let off = ConfigField::Marchid.offset();
    assert_eq!(off, 24);
}

#[test]
fn test_mimpid_offset() {
    let off = ConfigField::Mimpid.offset();
    assert_eq!(off, 32);
}

#[test]
fn test_zicboz_block_size_offset() {
    let off = ConfigField::ZicbozBlockSize.offset();
    assert_eq!(off, 40);
}

#[test]
fn test_satp_mode_offset() {
    let off = ConfigField::SatpMode.offset();
    assert_eq!(off, 48);
}

#[test]
fn test_isa_id() {
    let off = ConfigField::Isa.offset();
    let id = riscv64_reg_config_id(off);
    assert_eq!(id, 0x8030000001000000);
}

#[test]
fn test_pc_id() {
    let off = nested_offset(CoreField::Regs.offset(), UserReg::Pc.offset()).unwrap();
    let id = riscv64_reg_core_id(off);
    assert_eq!(id, 0x8030000002000000);
}

#[test]
fn test_a0_id() {
    let off = nested_offset(CoreField::Regs.offset(), UserReg::A0.offset()).unwrap();
    let id = riscv64_reg_core_id(off);
    assert_eq!(id, 0x803000000200000a);
}

#[test]
fn test_a1_id() {
    let off = nested_offset(CoreField::Regs.offset(), UserReg::A1.offset()).unwrap();
    let id = riscv64_reg_core_id(off);
    assert_eq!(id, 0x803000000200000b);
}

#[test]
fn core_reg_offset_is_the_nested_offset() {
    assert_eq!(core_reg_offset(UserReg::Pc), 0);
    assert_eq!(core_reg_offset(UserReg::A0), 80);
    assert_eq!(core_reg_offset(UserReg::T6), 248);
    assert_eq!(CoreField::Mode.offset(), 256);
    assert_eq!(UserReg::T6.index(), 31);
}

#[test]
fn nested_offset_adds_or_gives_up() {
    assert_eq!(nested_offset(256, 8), Some(264));
    assert_eq!(nested_offset(usize::MAX, 1), None);
}

#[test]
fn timer_layout() {
    assert_eq!(TimerField::Frequency.offset(), 0);
    assert_eq!(TimerField::Time.offset(), 8);
    assert_eq!(TimerField::Compare.offset(), 16);
    assert_eq!(TimerField::State.offset(), 24);
    assert_eq!(riscv64_reg_timer_id(0), 0x8030000004000000);
    assert_eq!(riscv64_reg_timer_id(24), 0x8030000004000003);
}

#[test]
fn group_tags() {
    assert_eq!(RegGroup::Config.tag(), KVM_REG_RISCV_CONFIG);
    assert_eq!(RegGroup::Core.tag(), KVM_REG_RISCV_CORE);
    assert_eq!(RegGroup::Timer.tag(), KVM_REG_RISCV_TIMER);
    assert_eq!(reg_id(RegGroup::Core, 80), riscv64_reg_id(KVM_REG_RISCV_CORE, 80));
}

#[test]
fn unaligned_offset_names_the_register_it_lies_in() {
    assert_eq!(riscv64_reg_config_id(9), riscv64_reg_config_id(8));
    assert_eq!(riscv64_reg_config_id(15), 0x8030000001000001);
}

#[test]
fn identifiers_are_pairwise_distinct() {
    let groups = [RegGroup::Config, RegGroup::Core, RegGroup::Timer];
    let offsets = [0usize, 8, 16, 24, 32, 40, 48];
    let mut ids: Vec<u64> = Vec::new();
    for g in groups {
        for off in offsets {
            ids.push(reg_id(g, off));
        }
    }
    for i in 0..ids.len() {
        for j in 0..ids.len() {
            if i != j {
                assert_ne!(ids[i], ids[j]);
            }
        }
    }
    assert_eq!(ids.len(), 21);
}

#[test]
fn register_vec_starts_empty() {
    let v = Riscv64RegisterVec::default();
    assert!(v.ids.is_empty());
    assert!(v.data.is_empty());
    assert_eq!(v, v.clone());
}
