//! What the device tree of a guest holds: the tree as a function of the
//! guest's memory, command line, timer frequency, interrupt controller and
//! devices.
//!
//! The order of the nodes is part of the format: firmware reads some of them
//! by position.

use vstd::prelude::*;
use crate::aia::{AIADevice, APLIC_COMPATIBILITY, IMSIC_COMPATIBILITY};
use crate::device::{Device, MMIODeviceInfo};
use crate::layout::{APLIC_START, DRAM_MEM_START, IMSIC_START, SYSTEM_MEM_SIZE};
use crate::memory::GuestMemory;
use crate::names::{hex_digits_padded, unit_name};
use crate::tree::{Item, Items, PropValue};

verus! {

/// Cells of an address in the tree.
pub const ADDRESS_CELLS: u32 = 0x2;

/// Cells of a size in the tree.
pub const SIZE_CELLS: u32 = 0x2;

/// Phandle of the interrupt controller of hart 0; that of hart `i` is `i`
/// higher.
pub const CPU_INTC_BASE_PHANDLE: u32 = 3;

/// Phandle of the node of hart 0; that of hart `i` is `i` higher.
pub const CPU_BASE_PHANDLE: u32 = 256 + CPU_INTC_BASE_PHANDLE;

/// Phandle of the arbiter.
pub const AIA_APLIC_PHANDLE: u32 = 1;

/// Phandle of the bank of interrupt receivers.
pub const AIA_IMSIC_PHANDLE: u32 = 2;

/// The supervisor external interrupt of a hart.
pub const S_MODE_EXT_IRQ: u32 = 9;

/// Trigger type of a level-triggered, active-high interrupt.
pub const IRQ_TYPE_LEVEL_HI: u32 = 4;

/// Trigger type of an edge-triggered, rising interrupt.
pub const IRQ_TYPE_EDGE_RISING: u32 = 1;

/// Number of interrupt sources of the arbiter.
pub const APLIC_NUM_SOURCES: u32 = 96;

/// Clock frequency of the serial console.
pub const SERIAL_CLOCK_FREQUENCY: u32 = 3686400;

/// Digits to which the address of the bank of receivers is padded in its
/// node's name.
pub const IMSIC_NAME_WIDTH: usize = 8;

/// A node opens.
pub open spec fn node_begin(name: &str) -> Item {
    Item::Begin(name@)
}

/// A text property.
pub open spec fn text_prop(name: &str, val: &str) -> Item {
    Item::Prop(name@, PropValue::Text(val@))
}

/// A property of one cell.
pub open spec fn cell_prop(name: &str, val: u32) -> Item {
    Item::Prop(name@, PropValue::Cell(val))
}

/// A property without a value.
pub open spec fn flag_prop(name: &str) -> Item {
    Item::Prop(name@, PropValue::Empty)
}

/// A property of 32-bit cells.
pub open spec fn cells_prop(name: &str, val: Seq<u32>) -> Item {
    Item::Prop(name@, PropValue::Cells(val))
}

/// A property of 64-bit cells.
pub open spec fn wide_prop(name: &str, val: Seq<u64>) -> Item {
    Item::Prop(name@, PropValue::Wide(val))
}

/// The name of the node `base` at `addr`.
pub open spec fn name_at(base: &str, addr: u64, width: usize) -> Seq<char> {
    unit_name(base@, hex_digits_padded(addr as nat, width as nat))
}

/// The properties with which the root node starts.
pub open spec fn root_header() -> Items {
    seq![
        node_begin(""),
        text_prop("compatible", "linux,dummy-virt"),
        cell_prop("#address-cells", ADDRESS_CELLS),
        cell_prop("#size-cells", SIZE_CELLS),
    ]
}

/// The node of hart `index`, with its interrupt controller as a child.
pub open spec fn cpu_items(index: u32) -> Items {
    seq![
        Item::Begin(name_at("cpu", index as u64, 0)),
        text_prop("device_type", "cpu"),
        text_prop("compatible", "riscv"),
        text_prop("mmu-type", "sv48"),
        text_prop("riscv,isa", "rv64imafdc_smaia_ssaia"),
        text_prop("status", "okay"),
        cell_prop("reg", index),
        cell_prop("phandle", (CPU_BASE_PHANDLE + index) as u32),
        node_begin("interrupt-controller"),
        text_prop("compatible", "riscv,cpu-intc"),
        cell_prop("#interrupt-cells", 1),
        flag_prop("interrupt-controller"),
        cell_prop("phandle", (CPU_INTC_BASE_PHANDLE + index) as u32),
        Item::End,
        Item::End,
    ]
}

/// The nodes of the harts `0..count`, in index order.
pub open spec fn cpu_nodes_items(count: nat) -> Items
    decreases count,
{
    if count == 0 {
        Seq::empty()
    } else {
        cpu_nodes_items((count - 1) as nat) + cpu_items((count - 1) as u32)
    }
}

/// The properties with which the `cpus` node starts.
pub open spec fn cpus_header(timer_freq: u32) -> Items {
    seq![
        node_begin("cpus"),
        cell_prop("#address-cells", 0x1),
        cell_prop("#size-cells", 0x0),
        cell_prop("timebase-frequency", timer_freq),
    ]
}

/// The `cpus` node: one node per hart.
pub open spec fn cpus_items(vcpu_count: u32, timer_freq: u32) -> Items {
    cpus_header(timer_freq) + cpu_nodes_items(vcpu_count as nat) + seq![Item::End]
}

/// Where the RAM that the guest may use begins: above the memory reserved
/// for the system.
pub open spec fn usable_mem_start() -> u64 {
    (DRAM_MEM_START + SYSTEM_MEM_SIZE) as u64
}

/// The size of the RAM that the guest may use.
pub open spec fn usable_mem_size(mem: GuestMemory) -> u64 {
    (mem.spec_last_addr() - DRAM_MEM_START - SYSTEM_MEM_SIZE + 1) as u64
}

/// The memory node: the RAM above the memory reserved for the system.
pub open spec fn memory_items(mem: GuestMemory) -> Items {
    seq![
        node_begin("memory@ram"),
        text_prop("device_type", "memory"),
        wide_prop("reg", seq![usable_mem_start(), usable_mem_size(mem)]),
        Item::End,
    ]
}

/// The `chosen` node: the boot command line.
pub open spec fn chosen_items(cmdline: Seq<char>) -> Items {
    seq![node_begin("chosen"), Item::Prop("bootargs"@, PropValue::Text(cmdline)), Item::End]
}

/// The interrupt links of the bank of receivers: for each hart in index
/// order, the phandle of its interrupt controller and the supervisor
/// external interrupt.
pub open spec fn hart_links(count: nat) -> Seq<u32>
    decreases count,
{
    if count == 0 {
        Seq::empty()
    } else {
        hart_links((count - 1) as nat).push((CPU_INTC_BASE_PHANDLE + count - 1) as u32).push(
            S_MODE_EXT_IRQ,
        )
    }
}

/// The node of the bank of interrupt receivers up to where the number of its
/// interrupt identities is needed.
pub open spec fn imsic_head(aia: AIADevice) -> Items {
    seq![
        Item::Begin(name_at("imsics", IMSIC_START, IMSIC_NAME_WIDTH)),
        text_prop("compatible", IMSIC_COMPATIBILITY),
        cells_prop("reg", aia.spec_imsic_properties()),
        cell_prop("#interrupt-cells", 0),
        flag_prop("interrupt-controller"),
        flag_prop("msi-controller"),
    ]
}

/// The node of the bank of interrupt receivers, which can tell `nr_ids`
/// interrupt identities apart.
pub open spec fn imsic_items(aia: AIADevice, nr_ids: u32) -> Items {
    seq![
        Item::Begin(name_at("imsics", IMSIC_START, IMSIC_NAME_WIDTH)),
        text_prop("compatible", IMSIC_COMPATIBILITY),
        cells_prop("reg", aia.spec_imsic_properties()),
        cell_prop("#interrupt-cells", 0),
        flag_prop("interrupt-controller"),
        flag_prop("msi-controller"),
        cell_prop("riscv,num-ids", nr_ids),
        cell_prop("phandle", AIA_IMSIC_PHANDLE),
        cells_prop("interrupts-extended", hart_links(aia.spec_vcpu_count() as nat)),
        Item::End,
    ]
}

/// The properties of the arbiter's node that do not depend on the receivers.
pub open spec fn aplic_header(aia: AIADevice) -> Items {
    seq![
        Item::Begin(name_at("aplic", APLIC_START, 0)),
        text_prop("compatible", APLIC_COMPATIBILITY),
        cells_prop("reg", aia.spec_aplic_properties()),
        cell_prop("#interrupt-cells", 2),
        flag_prop("interrupt-controller"),
        cell_prop("riscv,num-sources", APLIC_NUM_SOURCES),
        cell_prop("phandle", AIA_APLIC_PHANDLE),
    ]
}

/// The node of the arbiter. It refers to the bank of receivers where there is
/// one.
pub open spec fn aplic_items(aia: AIADevice) -> Items {
    if aia.spec_msi() {
        aplic_header(aia) + seq![cell_prop("msi-parent", AIA_IMSIC_PHANDLE), Item::End]
    } else {
        aplic_header(aia) + seq![Item::End]
    }
}

/// The nodes of the interrupt controller: the bank of receivers first, where
/// there is one, then the arbiter.
pub open spec fn aia_items(aia: AIADevice, nr_ids: Option<u32>) -> Items {
    if aia.spec_msi() {
        imsic_items(aia, nr_ids.unwrap()) + aplic_items(aia)
    } else {
        aplic_items(aia)
    }
}

/// The interrupt line of a device, or 0 for a device without one.
pub open spec fn irq_of(dev: MMIODeviceInfo) -> u32 {
    match dev.irq {
        Some(irq) => irq,
        None => 0,
    }
}

/// The node of a serial console: its interrupt is level-triggered.
pub open spec fn serial_items(dev: MMIODeviceInfo) -> Items {
    seq![
        Item::Begin(name_at("serial", dev.addr, 0)),
        text_prop("compatible", "ns16550a"),
        wide_prop("reg", seq![dev.addr, dev.len]),
        cell_prop("clock-frequency", SERIAL_CLOCK_FREQUENCY),
        cell_prop("interrupt-parent", AIA_APLIC_PHANDLE),
        cells_prop("interrupts", seq![irq_of(dev), IRQ_TYPE_LEVEL_HI]),
        Item::End,
    ]
}

/// The node of a virtual-I/O device: its interrupt is edge-triggered.
pub open spec fn virtio_items(dev: MMIODeviceInfo) -> Items {
    seq![
        Item::Begin(name_at("virtio_mmio", dev.addr, 0)),
        text_prop("compatible", "virtio,mmio"),
        wide_prop("reg", seq![dev.addr, dev.len]),
        cells_prop("interrupts", seq![irq_of(dev), IRQ_TYPE_EDGE_RISING]),
        cell_prop("interrupt-parent", AIA_APLIC_PHANDLE),
        Item::End,
    ]
}

/// The placements of the serial consoles among `devs`, in the order of
/// `devs`.
pub open spec fn serial_infos(devs: Seq<Device>) -> Seq<MMIODeviceInfo>
    decreases devs.len(),
{
    if devs.len() == 0 {
        Seq::empty()
    } else if devs.last().0 is Serial {
        serial_infos(devs.drop_last()).push(devs.last().1)
    } else {
        serial_infos(devs.drop_last())
    }
}

/// The placements of the virtual-I/O devices among `devs`, in the order of
/// `devs`.
pub open spec fn virtio_infos(devs: Seq<Device>) -> Seq<MMIODeviceInfo>
    decreases devs.len(),
{
    if devs.len() == 0 {
        Seq::empty()
    } else if devs.last().0 is Serial {
        virtio_infos(devs.drop_last())
    } else {
        virtio_infos(devs.drop_last()).push(devs.last().1)
    }
}

/// The order of placements: by address, then by length, then by interrupt
/// line, a placement without a line first.
pub open spec fn placement_leq(a: MMIODeviceInfo, b: MMIODeviceInfo) -> bool {
    let ia: int = match a.irq {
        Some(v) => v as int,
        None => -1,
    };
    let ib: int = match b.irq {
        Some(v) => v as int,
        None => -1,
    };
    a.addr < b.addr || (a.addr == b.addr && (a.len < b.len || (a.len == b.len && ia <= ib)))
}

/// `dev` put into `sorted` behind every placement that does not come after
/// it.
pub open spec fn insert_by_addr(sorted: Seq<MMIODeviceInfo>, dev: MMIODeviceInfo) -> Seq<
    MMIODeviceInfo,
>
    decreases sorted.len(),
{
    if sorted.len() == 0 {
        seq![dev]
    } else if placement_leq(sorted.last(), dev) {
        sorted.push(dev)
    } else {
        insert_by_addr(sorted.drop_last(), dev).push(sorted.last())
    }
}

/// `devs` in ascending order of address; placements at one address in
/// ascending order of length, then of interrupt line.
pub open spec fn sorted_by_addr(devs: Seq<MMIODeviceInfo>) -> Seq<MMIODeviceInfo>
    decreases devs.len(),
{
    if devs.len() == 0 {
        Seq::empty()
    } else {
        insert_by_addr(sorted_by_addr(devs.drop_last()), devs.last())
    }
}

/// One serial node for each of `devs`, in order.
pub open spec fn serial_nodes_items(devs: Seq<MMIODeviceInfo>) -> Items
    decreases devs.len(),
{
    if devs.len() == 0 {
        Seq::empty()
    } else {
        serial_nodes_items(devs.drop_last()) + serial_items(devs.last())
    }
}

/// One virtual-I/O node for each of `devs`, in order.
pub open spec fn virtio_nodes_items(devs: Seq<MMIODeviceInfo>) -> Items
    decreases devs.len(),
{
    if devs.len() == 0 {
        Seq::empty()
    } else {
        virtio_nodes_items(devs.drop_last()) + virtio_items(devs.last())
    }
}

/// The nodes of the devices: the serial consoles, then the virtual-I/O
/// devices, each class in ascending order of address. The order in which
/// the devices are given does not show.
pub open spec fn devices_items(devs: Seq<Device>) -> Items {
    serial_nodes_items(sorted_by_addr(serial_infos(devs))) + virtio_nodes_items(
        sorted_by_addr(virtio_infos(devs)),
    )
}

/// The whole tree.
pub open spec fn fdt_items(
    mem: GuestMemory,
    cmdline: Seq<char>,
    timer_freq: u32,
    devs: Seq<Device>,
    aia: AIADevice,
    nr_ids: Option<u32>,
) -> Items {
    root_header() + cpus_items(aia.spec_vcpu_count() as u32, timer_freq) + memory_items(mem)
        + chosen_items(cmdline) + aia_items(aia, nr_ids) + devices_items(devs) + seq![Item::End]
}

} // verus!
