use riscv_vmm::aia::AIADevice;
use riscv_vmm::device::{DeviceType, MMIODeviceInfo};
use riscv_vmm::fdt::{create_fdt, placement_le, sort_by_addr, FdtError};
use riscv_vmm::memory::{arch_memory_regions, GuestMemory};
use riscv_vmm::writer::VmFdtError;
use vm_fdt::FdtWriter;

#[derive(Debug, Clone, PartialEq, Eq)]
enum Token {
    Begin(String),
    Prop(String, Vec<u8>),
    End,
}

fn be32(bytes: &[u8], at: usize) -> u32 {
    u32::from_be_bytes([bytes[at], bytes[at + 1], bytes[at + 2], bytes[at + 3]])
}

fn cstr(bytes: &[u8], at: usize) -> String {
    let mut end = at;
    while bytes[end] != 0 {
        end += 1;
    }
    String::from_utf8(bytes[at..end].to_vec()).unwrap()
}

// Reads the structure block of a blob back.
fn parse(blob: &[u8]) -> Vec<Token> {
    assert_eq!(be32(blob, 0), 0xd00dfeed);
    assert_eq!(be32(blob, 4) as usize, blob.len());
    let off_struct = be32(blob, 8) as usize;
    let off_strings = be32(blob, 12) as usize;
    let mut at = off_struct;
    let mut tokens = Vec::new();
    loop {
        let tag = be32(blob, at);
        at += 4;
        match tag {
            1 => {
                let name = cstr(blob, at);
                at += (name.len() + 1 + 3) / 4 * 4;
                tokens.push(Token::Begin(name));
            }
            2 => tokens.push(Token::End),
            3 => {
                let len = be32(blob, at) as usize;
                let nameoff = be32(blob, at + 4) as usize;
                at += 8;
                let data = blob[at..at + len].to_vec();
                at += (len + 3) / 4 * 4;
                tokens.push(Token::Prop(cstr(blob, off_strings + nameoff), data));
            }
            9 => break,
            other => panic!("unexpected tag {}", other),
        }
    }
    tokens
}

fn node_names(tokens: &[Token]) -> Vec<String> {
    let mut names = Vec::new();
    for t in tokens {
        if let Token::Begin(name) = t {
            names.push(name.clone());
        }
    }
    names
}

fn cells_of(tokens: &[Token], prop: &str) -> Vec<Vec<u32>> {
    let mut all = Vec::new();
    for t in tokens {
        if let Token::Prop(name, data) = t {
            if name == prop {
                let mut cells = Vec::new();
                let mut at = 0;
                while at + 4 <= data.len() {
                    cells.push(be32(data, at));
                    at += 4;
                }
                all.push(cells);
            }
        }
    }
    all
}

fn memory(size: usize) -> GuestMemory {
    GuestMemory::from_regions(&arch_memory_regions(size)).unwrap()
}

fn virtio(addr: u64, irq: u32) -> (DeviceType, MMIODeviceInfo) {
    (DeviceType::Virtio(2), MMIODeviceInfo { addr, len: 0x1000, irq: Some(irq) })
}

fn serial(addr: u64, irq: u32) -> (DeviceType, MMIODeviceInfo) {
    (DeviceType::Serial, MMIODeviceInfo { addr, len: 0x1000, irq: Some(irq) })
}

// The blob of a guest with two harts, message-signaled interrupts, a serial
// console and two virtual-I/O devices, written to the writer call by call.
fn two_hart_blob() -> Vec<u8> {
    let mut fdt = FdtWriter::new().unwrap();
    let root = fdt.begin_node("").unwrap();
    fdt.property_string("compatible", "linux,dummy-virt").unwrap();
    fdt.property_u32("#address-cells", 2).unwrap();
    fdt.property_u32("#size-cells", 2).unwrap();
    let cpus = fdt.begin_node("cpus").unwrap();
    fdt.property_u32("#address-cells", 1).unwrap();
    fdt.property_u32("#size-cells", 0).unwrap();
    fdt.property_u32("timebase-frequency", 0x989680).unwrap();
    for i in 0..2u32 {
        let cpu = fdt.begin_node(&format!("cpu@{:x}", i)).unwrap();
        fdt.property_string("device_type", "cpu").unwrap();
        fdt.property_string("compatible", "riscv").unwrap();
        fdt.property_string("mmu-type", "sv48").unwrap();
        fdt.property_string("riscv,isa", "rv64imafdc_smaia_ssaia").unwrap();
        fdt.property_string("status", "okay").unwrap();
        fdt.property_u32("reg", i).unwrap();
        fdt.property_u32("phandle", 259 + i).unwrap();
        let intc = fdt.begin_node("interrupt-controller").unwrap();
        fdt.property_string("compatible", "riscv,cpu-intc").unwrap();
        fdt.property_u32("#interrupt-cells", 1).unwrap();
        fdt.property_null("interrupt-controller").unwrap();
        fdt.property_u32("phandle", 3 + i).unwrap();
        fdt.end_node(intc).unwrap();
        fdt.end_node(cpu).unwrap();
    }
    fdt.end_node(cpus).unwrap();
    let mem = fdt.begin_node("memory@ram").unwrap();
    fdt.property_string("device_type", "memory").unwrap();
    fdt.property_array_u64("reg", &[0x8020_0000, 0x0800_0000 - 0x20_0000]).unwrap();
    fdt.end_node(mem).unwrap();
    let chosen = fdt.begin_node("chosen").unwrap();
    fdt.property_string("bootargs", "console=ttyS0 reboot=k").unwrap();
    fdt.end_node(chosen).unwrap();
    let imsic = fdt.begin_node("imsics@08000000").unwrap();
    fdt.property_string("compatible", "riscv,imsics").unwrap();
    fdt.property_array_u32("reg", &[0, 0x0800_0000, 0, 0x2000]).unwrap();
    fdt.property_u32("#interrupt-cells", 0).unwrap();
    fdt.property_null("interrupt-controller").unwrap();
    fdt.property_null("msi-controller").unwrap();
    fdt.property_u32("riscv,num-ids", 2047).unwrap();
    fdt.property_u32("phandle", 2).unwrap();
    fdt.property_array_u32("interrupts-extended", &[3, 9, 4, 9]).unwrap();
    fdt.end_node(imsic).unwrap();
    let aplic = fdt.begin_node("aplic@0").unwrap();
    fdt.property_string("compatible", "riscv,aplic").unwrap();
    fdt.property_array_u32("reg", &[0, 0, 0, 0x4000]).unwrap();
    fdt.property_u32("#interrupt-cells", 2).unwrap();
    fdt.property_null("interrupt-controller").unwrap();
    fdt.property_u32("riscv,num-sources", 96).unwrap();
    fdt.property_u32("phandle", 1).unwrap();
    fdt.property_u32("msi-parent", 2).unwrap();
    fdt.end_node(aplic).unwrap();
    let ser = fdt.begin_node("serial@40002000").unwrap();
    fdt.property_string("compatible", "ns16550a").unwrap();
    fdt.property_array_u64("reg", &[0x4000_2000, 0x1000]).unwrap();
    fdt.property_u32("clock-frequency", 3686400).unwrap();
    fdt.property_u32("interrupt-parent", 1).unwrap();
    fdt.property_array_u32("interrupts", &[3, 4]).unwrap();
    fdt.end_node(ser).unwrap();
    for (addr, irq) in [(0x4000_0000u64, 1u32), (0x4000_1000, 2)] {
        let node = fdt.begin_node(&format!("virtio_mmio@{:x}", addr)).unwrap();
        fdt.property_string("compatible", "virtio,mmio").unwrap();
        fdt.property_array_u64("reg", &[addr, 0x1000]).unwrap();
        fdt.property_array_u32("interrupts", &[irq, 1]).unwrap();
        fdt.property_u32("interrupt-parent", 1).unwrap();
        fdt.end_node(node).unwrap();
    }
    fdt.end_node(root).unwrap();
    fdt.finish().unwrap()
}

#[test]
fn blob_is_what_the_writer_makes_of_the_tree() {
    let mem = memory(0x0800_0000);
    let devices = vec![
        virtio(0x4000_1000, 2),
        serial(0x4000_2000, 3),
        virtio(0x4000_0000, 1),
    ];
    let aia = AIADevice::new(2, true);
    let blob = create_fdt(
        &mem,
        b"console=ttyS0 reboot=k".to_vec(),
        0x989680,
        &devices,
        &aia,
        Some(2047),
    )
    .unwrap();
    assert_eq!(blob, two_hart_blob());
}

#[test]
fn blob_does_not_depend_on_the_order_of_the_devices() {
    let mem = memory(0x0800_0000);
    let aia = AIADevice::new(1, false);
    let a = vec![
        virtio(0x4000_2000, 3),
        virtio(0x4000_0000, 1),
        serial(0x4000_3000, 4),
        virtio(0x4000_1000, 2),
    ];
    let b = vec![
        serial(0x4000_3000, 4),
        virtio(0x4000_1000, 2),
        virtio(0x4000_2000, 3),
        virtio(0x4000_0000, 1),
    ];
    let first = create_fdt(&mem, b"quiet".to_vec(), 1000, &a, &aia, None).unwrap();
    let again = create_fdt(&mem, b"quiet".to_vec(), 1000, &a, &aia, None).unwrap();
    let other = create_fdt(&mem, b"quiet".to_vec(), 1000, &b, &aia, None).unwrap();
    assert_eq!(first, again);
    assert_eq!(first, other);
}

#[test]
fn virtio_nodes_come_in_address_order_behind_the_serial_node() {
    let mem = memory(0x0800_0000);
    let aia = AIADevice::new(1, false);
    let devices = vec![
        virtio(0x4000_3000, 3),
        virtio(0x4000_1000, 1),
        serial(0x4000_0000, 4),
        virtio(0x4000_2000, 2),
    ];
    let blob = create_fdt(&mem, b"".to_vec(), 1000, &devices, &aia, None).unwrap();
    let names = node_names(&parse(&blob));
    assert_eq!(
        names,
        vec![
            "",
            "cpus",
            "cpu@0",
            "interrupt-controller",
            "memory@ram",
            "chosen",
            "aplic@0",
            "serial@40000000",
            "virtio_mmio@40001000",
            "virtio_mmio@40002000",
            "virtio_mmio@40003000",
        ]
    );
}

#[test]
fn phandles_are_unique_and_references_resolve() {
    let mem = memory(0x0800_0000);
    let aia = AIADevice::new(255, true);
    let devices = vec![virtio(0x4000_0000, 1), serial(0x4000_1000, 2)];
    let blob = create_fdt(&mem, b"x".to_vec(), 1, &devices, &aia, Some(63)).unwrap();
    let tokens = parse(&blob);
    let mut handles: Vec<u32> = cells_of(&tokens, "phandle").iter().map(|c| c[0]).collect();
    assert_eq!(handles.len(), 2 * 255 + 2);
    let all = handles.clone();
    handles.sort();
    handles.dedup();
    assert_eq!(handles.len(), all.len());
    for parent in cells_of(&tokens, "interrupt-parent") {
        assert_eq!(parent, vec![1]);
        assert!(all.contains(&parent[0]));
    }
    for parent in cells_of(&tokens, "msi-parent") {
        assert!(all.contains(&parent[0]));
    }
    let links = cells_of(&tokens, "interrupts-extended");
    assert_eq!(links.len(), 1);
    assert_eq!(links[0].len(), 2 * 255);
    for hart in 0..255usize {
        assert_eq!(links[0][2 * hart], 3 + hart as u32);
        assert_eq!(links[0][2 * hart + 1], 9);
        assert!(all.contains(&links[0][2 * hart]));
    }
    assert!(all.contains(&(259 + 254)));
    assert!(all.contains(&(3 + 254)));
}

#[test]
fn receiver_node_is_there_with_message_signaled_interrupts() {
    let mem = memory(0x0800_0000);
    let aia = AIADevice::new(4, true);
    let blob = create_fdt(&mem, b"x".to_vec(), 1, &[], &aia, Some(2047)).unwrap();
    let tokens = parse(&blob);
    let names = node_names(&tokens);
    assert_eq!(names.iter().filter(|n| n.starts_with("imsics@")).count(), 1);
    assert!(names.contains(&"imsics@08000000".to_string()));
    assert_eq!(cells_of(&tokens, "msi-parent"), vec![vec![2]]);
    assert_eq!(cells_of(&tokens, "riscv,num-ids"), vec![vec![2047]]);
    // The bank of receivers comes before the arbiter.
    let imsic = names.iter().position(|n| n == "imsics@08000000").unwrap();
    let aplic = names.iter().position(|n| n == "aplic@0").unwrap();
    assert!(imsic < aplic);
    // The parent is named in the arbiter's node, behind its phandle.
    let parent = tokens
        .iter()
        .position(|t| matches!(t, Token::Prop(n, _) if n == "msi-parent"))
        .unwrap();
    assert_eq!(tokens[parent - 1], Token::Prop("phandle".to_string(), vec![0, 0, 0, 1]));
    assert_eq!(tokens[parent + 1], Token::End);
    // Four per-hart windows of 0x1000 bytes.
    let regs = cells_of(&tokens, "reg");
    assert!(regs.contains(&vec![0, 0x0800_0000, 0, 0x4000]));
}

#[test]
fn receiver_node_is_absent_with_wired_interrupts() {
    let mem = memory(0x0800_0000);
    let aia = AIADevice::new(4, false);
    let blob = create_fdt(&mem, b"x".to_vec(), 1, &[], &aia, None).unwrap();
    let tokens = parse(&blob);
    let names = node_names(&tokens);
    assert_eq!(names.iter().filter(|n| n.starts_with("imsics@")).count(), 0);
    assert!(names.contains(&"aplic@0".to_string()));
    assert!(cells_of(&tokens, "msi-parent").is_empty());
    assert!(cells_of(&tokens, "interrupts-extended").is_empty());
    assert_eq!(cells_of(&tokens, "riscv,num-sources"), vec![vec![96]]);
    // The number of identities is not looked at.
    let same = create_fdt(&mem, b"x".to_vec(), 1, &[], &aia, Some(5)).unwrap();
    assert_eq!(blob, same);
}

#[test]
fn missing_identity_count_fails_with_message_signaled_interrupts() {
    let mem = memory(0x0800_0000);
    let aia = AIADevice::new(1, true);
    let r = create_fdt(&mem, b"x".to_vec(), 1, &[], &aia, None);
    assert_eq!(r, Err(FdtError::GetDeviceAttr));
}

#[test]
fn command_line_that_is_no_text_is_refused() {
    let mem = memory(0x0800_0000);
    let aia = AIADevice::new(1, true);
    let r = create_fdt(&mem, vec![0x66, 0xff, 0x6f], 1, &[], &aia, Some(1));
    assert_eq!(r, Err(FdtError::CreateFdt(VmFdtError::InvalidString)));
    // The refusal comes before the number of identities is missed.
    let r = create_fdt(&mem, vec![0xc0], 1, &[], &aia, None);
    assert_eq!(r, Err(FdtError::CreateFdt(VmFdtError::InvalidString)));
}

#[test]
fn command_line_with_a_nul_is_refused() {
    let mem = memory(0x0800_0000);
    let aia = AIADevice::new(1, false);
    let r = create_fdt(&mem, b"a\0b".to_vec(), 1, &[], &aia, None);
    assert_eq!(r, Err(FdtError::CreateFdt(VmFdtError::InvalidString)));
}

#[test]
fn command_line_is_handed_over_as_text() {
    let mem = memory(0x0800_0000);
    let aia = AIADevice::new(1, false);
    let cmdline = "root=/dev/vda r\u{e9}sum\u{e9}".as_bytes().to_vec();
    let blob = create_fdt(&mem, cmdline.clone(), 1, &[], &aia, None).unwrap();
    let tokens = parse(&blob);
    let mut expected = cmdline;
    expected.push(0);
    assert!(tokens.contains(&Token::Prop("bootargs".to_string(), expected)));
}

#[test]
fn memory_node_starts_above_the_system_memory() {
    let mem = memory(0x1000_0000);
    let aia = AIADevice::new(1, false);
    let blob = create_fdt(&mem, b"".to_vec(), 0x989680, &[], &aia, None).unwrap();
    let tokens = parse(&blob);
    let mut reg = Vec::new();
    reg.extend_from_slice(&0x8020_0000u64.to_be_bytes());
    reg.extend_from_slice(&(0x1000_0000u64 - 0x20_0000).to_be_bytes());
    let at = tokens.iter().position(|t| *t == Token::Begin("memory@ram".to_string())).unwrap();
    assert_eq!(tokens[at + 1], Token::Prop("device_type".to_string(), b"memory\0".to_vec()));
    assert_eq!(tokens[at + 2], Token::Prop("reg".to_string(), reg));
    assert_eq!(tokens[at + 3], Token::End);
    assert_eq!(cells_of(&tokens, "timebase-frequency"), vec![vec![0x989680]]);
}

#[test]
fn serial_is_level_triggered_and_virtio_edge_triggered() {
    let mem = memory(0x0800_0000);
    let aia = AIADevice::new(1, false);
    let devices = vec![serial(0x4000_0000, 7), virtio(0x4000_1000, 8)];
    let blob = create_fdt(&mem, b"".to_vec(), 1, &devices, &aia, None).unwrap();
    let tokens = parse(&blob);
    assert_eq!(cells_of(&tokens, "interrupts"), vec![vec![7, 4], vec![8, 1]]);
    assert_eq!(cells_of(&tokens, "clock-frequency"), vec![vec![3686400]]);
}

#[test]
fn root_begins_with_the_cell_widths() {
    let mem = memory(0x0800_0000);
    let aia = AIADevice::new(0, false);
    let blob = create_fdt(&mem, b"".to_vec(), 1, &[], &aia, None).unwrap();
    let tokens = parse(&blob);
    assert_eq!(tokens[0], Token::Begin(String::new()));
    assert_eq!(
        tokens[1],
        Token::Prop("compatible".to_string(), b"linux,dummy-virt\0".to_vec())
    );
    assert_eq!(tokens[2], Token::Prop("#address-cells".to_string(), vec![0, 0, 0, 2]));
    assert_eq!(tokens[3], Token::Prop("#size-cells".to_string(), vec![0, 0, 0, 2]));
    assert_eq!(node_names(&tokens), vec!["", "cpus", "memory@ram", "chosen", "aplic@0"]);
    assert_eq!(tokens[tokens.len() - 1], Token::End);
}

#[test]
fn cpu_node_carries_the_isa_with_the_aia_extensions() {
    let mem = memory(0x0800_0000);
    let aia = AIADevice::new(17, false);
    let blob = create_fdt(&mem, b"".to_vec(), 1, &[], &aia, None).unwrap();
    let tokens = parse(&blob);
    let at = tokens.iter().position(|t| *t == Token::Begin("cpu@10".to_string())).unwrap();
    assert_eq!(tokens[at + 1], Token::Prop("device_type".to_string(), b"cpu\0".to_vec()));
    assert_eq!(tokens[at + 2], Token::Prop("compatible".to_string(), b"riscv\0".to_vec()));
    assert_eq!(tokens[at + 3], Token::Prop("mmu-type".to_string(), b"sv48\0".to_vec()));
    assert_eq!(
        tokens[at + 4],
        Token::Prop("riscv,isa".to_string(), b"rv64imafdc_smaia_ssaia\0".to_vec())
    );
    assert_eq!(tokens[at + 5], Token::Prop("status".to_string(), b"okay\0".to_vec()));
    assert_eq!(tokens[at + 6], Token::Prop("reg".to_string(), vec![0, 0, 0, 16]));
    assert_eq!(tokens[at + 7], Token::Prop("phandle".to_string(), vec![0, 0, 1, 19]));
    assert_eq!(tokens[at + 8], Token::Begin("interrupt-controller".to_string()));
    assert_eq!(tokens[at + 12], Token::Prop("phandle".to_string(), vec![0, 0, 0, 19]));
}

#[test]
fn sorting_is_by_address_then_length_then_interrupt_line() {
    let d = |addr: u64, len: u64| MMIODeviceInfo { addr, len, irq: Some(1) };
    let mut devs = vec![d(3, 0), d(1, 1), d(3, 1), d(2, 0), d(1, 0)];
    sort_by_addr(&mut devs);
    assert_eq!(devs, vec![d(1, 0), d(1, 1), d(2, 0), d(3, 0), d(3, 1)]);
    let e = |irq: Option<u32>| MMIODeviceInfo { addr: 5, len: 5, irq };
    let mut devs = vec![e(Some(2)), e(None), e(Some(0)), e(Some(2))];
    sort_by_addr(&mut devs);
    assert_eq!(devs, vec![e(None), e(Some(0)), e(Some(2)), e(Some(2))]);
    assert!(placement_le(&e(None), &e(Some(0))));
    assert!(!placement_le(&e(Some(0)), &e(None)));
    assert!(placement_le(&d(1, 9), &d(2, 0)));
    assert!(!placement_le(&d(2, 0), &d(1, 9)));
    assert!(placement_le(&d(2, 0), &d(2, 0)));
    let mut none: Vec<MMIODeviceInfo> = Vec::new();
    sort_by_addr(&mut none);
    assert!(none.is_empty());
}

#[test]
fn serial_nodes_come_in_address_order() {
    let mem = memory(0x0800_0000);
    let aia = AIADevice::new(1, false);
    let a = vec![serial(0x4000_1000, 1), virtio(0x4000_0800, 3), serial(0x4000_0000, 2)];
    let b = vec![serial(0x4000_0000, 2), serial(0x4000_1000, 1), virtio(0x4000_0800, 3)];
    let first = create_fdt(&mem, b"".to_vec(), 1, &a, &aia, None).unwrap();
    let other = create_fdt(&mem, b"".to_vec(), 1, &b, &aia, None).unwrap();
    assert_eq!(first, other);
    let names = node_names(&parse(&first));
    assert_eq!(
        names[names.len() - 3..],
        ["serial@40000000", "serial@40001000", "virtio_mmio@40000800"]
    );
}

#[test]
fn serial_node_is_untouched_by_the_virtio_devices() {
    let mem = memory(0x0800_0000);
    let aia = AIADevice::new(1, false);
    let alone = vec![serial(0x4000_5000, 9)];
    let among =
        vec![virtio(0x4000_7000, 1), serial(0x4000_5000, 9), virtio(0x4000_1000, 2)];
    let first = parse(&create_fdt(&mem, b"".to_vec(), 1, &alone, &aia, None).unwrap());
    let other = parse(&create_fdt(&mem, b"".to_vec(), 1, &among, &aia, None).unwrap());
    let at = first.iter().position(|t| *t == Token::Begin("serial@40005000".to_string())).unwrap();
    let there =
        other.iter().position(|t| *t == Token::Begin("serial@40005000".to_string())).unwrap();
    assert_eq!(at, there);
    assert_eq!(first[at..at + 7], other[there..there + 7]);
    assert_eq!(node_names(&other).iter().filter(|n| n.starts_with("serial@")).count(), 1);
}

#[test]
fn devices_at_one_address_come_by_length_then_interrupt_line() {
    let mem = memory(0x0800_0000);
    let aia = AIADevice::new(1, false);
    let d = |len: u64, irq: u32| {
        (DeviceType::Virtio(1), MMIODeviceInfo { addr: 0x4000_0000, len, irq: Some(irq) })
    };
    let a = vec![d(0x2000, 1), d(0x1000, 7), d(0x1000, 3)];
    let b = vec![d(0x1000, 3), d(0x2000, 1), d(0x1000, 7)];
    let first = create_fdt(&mem, b"".to_vec(), 1, &a, &aia, None).unwrap();
    let other = create_fdt(&mem, b"".to_vec(), 1, &b, &aia, None).unwrap();
    assert_eq!(first, other);
    assert_eq!(cells_of(&parse(&first), "interrupts"), vec![vec![3, 1], vec![7, 1], vec![1, 1]]);
}

#[test]
fn like_devices_at_one_address_may_come_in_any_order() {
    let mem = memory(0x0800_0000);
    let aia = AIADevice::new(1, false);
    let a = vec![virtio(0x4000_1000, 1), virtio(0x4000_0000, 2), virtio(0x4000_1000, 1)];
    let b = vec![virtio(0x4000_0000, 2), virtio(0x4000_1000, 1), virtio(0x4000_1000, 1)];
    let first = create_fdt(&mem, b"".to_vec(), 1, &a, &aia, None).unwrap();
    let other = create_fdt(&mem, b"".to_vec(), 1, &b, &aia, None).unwrap();
    assert_eq!(first, other);
}
