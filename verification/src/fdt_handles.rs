//! Phandles: the numbers by which one node of the tree refers to another.
//! No two nodes share one, and every reference finds its node.

use vstd::prelude::*;
use crate::aia::AIADevice;
use crate::device::{Device, MMIODeviceInfo};
use crate::fdt::{lemma_hart_links_len, lemma_sorted_is_permutation, lemma_split_devices};
use crate::fdt_items::{
    aia_items, aplic_header, aplic_items, cell_prop, chosen_items, cpu_items, cpu_nodes_items,
    cpus_header, cpus_items, devices_items, fdt_items, hart_links, imsic_items, memory_items,
    name_at, root_header, serial_infos, serial_items, serial_nodes_items, sorted_by_addr,
    virtio_infos, virtio_items, virtio_nodes_items, AIA_APLIC_PHANDLE, AIA_IMSIC_PHANDLE,
    CPU_BASE_PHANDLE, CPU_INTC_BASE_PHANDLE, IMSIC_NAME_WIDTH, S_MODE_EXT_IRQ,
};
use crate::layout::IMSIC_START;
use crate::memory::GuestMemory;
use crate::tree::{Item, Items, PropValue};

verus! {

/// The phandle that an item gives to its node, if it gives one.
pub open spec fn declares(item: Item) -> Option<u32> {
    match item {
        Item::Prop(name, PropValue::Cell(v)) => if name == "phandle"@ {
            Some(v)
        } else {
            None
        },
        _ => None,
    }
}

/// The cells of `c` at even positions: of a list of interrupt links, the
/// phandles.
pub open spec fn evens(c: Seq<u32>) -> Seq<u32> {
    Seq::new((c.len() + 1) / 2, |i: int| c[2 * i])
}

/// The phandles that an item refers to: the interrupt parent, the parent for
/// message-signaled interrupts, or the targets of interrupt links.
pub open spec fn refers(item: Item) -> Seq<u32> {
    match item {
        Item::Prop(name, PropValue::Cell(v)) => if name == "interrupt-parent"@ || name
            == "msi-parent"@ {
            seq![v]
        } else {
            Seq::empty()
        },
        Item::Prop(name, PropValue::Cells(c)) => if name == "interrupts-extended"@ {
            evens(c)
        } else {
            Seq::empty()
        },
        _ => Seq::empty(),
    }
}

/// The phandles that the nodes of a tree have, in walk order.
pub open spec fn phandles(items: Items) -> Seq<u32>
    decreases items.len(),
{
    if items.len() == 0 {
        Seq::empty()
    } else {
        match declares(items.last()) {
            Some(v) => phandles(items.drop_last()).push(v),
            None => phandles(items.drop_last()),
        }
    }
}

/// The phandles that the nodes of a tree refer to, in walk order.
pub open spec fn references(items: Items) -> Seq<u32>
    decreases items.len(),
{
    if items.len() == 0 {
        Seq::empty()
    } else {
        references(items.drop_last()) + refers(items.last())
    }
}

/// The values of the one-cell properties named `name`, in walk order.
pub open spec fn cells_named(items: Items, name: Seq<char>) -> Seq<u32>
    decreases items.len(),
{
    if items.len() == 0 {
        Seq::empty()
    } else {
        match items.last() {
            Item::Prop(n, PropValue::Cell(v)) => if n == name {
                cells_named(items.drop_last(), name).push(v)
            } else {
                cells_named(items.drop_last(), name)
            },
            _ => cells_named(items.drop_last(), name),
        }
    }
}

/// The number of nodes named `name`.
pub open spec fn nodes_named(items: Items, name: Seq<char>) -> nat
    decreases items.len(),
{
    if items.len() == 0 {
        0
    } else {
        match items.last() {
            Item::Begin(n) => if n == name {
                nodes_named(items.drop_last(), name) + 1
            } else {
                nodes_named(items.drop_last(), name)
            },
            _ => nodes_named(items.drop_last(), name),
        }
    }
}

/// The phandles and references of one part of a tree behind another.
pub proof fn lemma_concat(a: Items, b: Items)
    ensures
        phandles(a + b) == phandles(a) + phandles(b),
        references(a + b) == references(a) + references(b),
    decreases b.len(),
{
    if b.len() == 0 {
        assert(a + b =~= a);
        assert(phandles(a) + phandles(b) =~= phandles(a));
        assert(references(a) + references(b) =~= references(a));
    } else {
        lemma_concat(a, b.drop_last());
        assert((a + b).drop_last() =~= a + b.drop_last());
        assert((a + b).last() == b.last());
        assert(phandles(a + b) =~= phandles(a) + phandles(b));
        assert(references(a + b) =~= references(a) + references(b));
    }
}

/// The cells and nodes of a name in one part of a tree behind another.
pub proof fn lemma_concat_named(a: Items, b: Items, name: Seq<char>)
    ensures
        cells_named(a + b, name) == cells_named(a, name) + cells_named(b, name),
        nodes_named(a + b, name) == nodes_named(a, name) + nodes_named(b, name),
    decreases b.len(),
{
    if b.len() == 0 {
        assert(a + b =~= a);
        assert(cells_named(a, name) + cells_named(b, name) =~= cells_named(a, name));
    } else {
        lemma_concat_named(a, b.drop_last(), name);
        assert((a + b).drop_last() =~= a + b.drop_last());
        assert((a + b).last() == b.last());
        assert(cells_named(a + b, name) =~= cells_named(a, name) + cells_named(b, name));
    }
}


/// The name of the node of the bank of interrupt receivers.
pub open spec fn imsic_name() -> Seq<char> {
    name_at("imsics", IMSIC_START, IMSIC_NAME_WIDTH)
}

/// What a part of a tree holds of phandles: those that its nodes have, those
/// that they refer to, the parents for message-signaled interrupts that they
/// name, and the number of nodes of the bank of receivers.
pub open spec fn holds(
    items: Items,
    handles: Seq<u32>,
    refs: Seq<u32>,
    msi_parents: Seq<u32>,
    receivers: nat,
) -> bool {
    &&& phandles(items) == handles
    &&& references(items) == refs
    &&& cells_named(items, "msi-parent"@) == msi_parents
    &&& nodes_named(items, imsic_name()) == receivers
}

/// A part of a tree without phandles, references and receivers.
pub open spec fn holds_nothing(items: Items) -> bool {
    holds(items, Seq::empty(), Seq::empty(), Seq::empty(), 0)
}

/// What two parts of a tree hold, one behind the other.
pub proof fn lemma_holds_concat(
    a: Items,
    b: Items,
    ha: Seq<u32>,
    ra: Seq<u32>,
    ma: Seq<u32>,
    na: nat,
    hb: Seq<u32>,
    rb: Seq<u32>,
    mb: Seq<u32>,
    nb: nat,
)
    requires
        holds(a, ha, ra, ma, na),
        holds(b, hb, rb, mb, nb),
    ensures
        holds(a + b, ha + hb, ra + rb, ma + mb, na + nb),
{
    lemma_concat(a, b);
    lemma_concat_named(a, b, "msi-parent"@);
    lemma_concat_named(a, b, imsic_name());
}

/// A part without phandles behind another changes nothing.
pub proof fn lemma_holds_more(
    a: Items,
    b: Items,
    ha: Seq<u32>,
    ra: Seq<u32>,
    ma: Seq<u32>,
    na: nat,
)
    requires
        holds(a, ha, ra, ma, na),
        holds_nothing(b),
    ensures
        holds(a + b, ha, ra, ma, na),
{
    lemma_holds_concat(a, b, ha, ra, ma, na, Seq::empty(), Seq::empty(), Seq::empty(), 0);
    assert(ha + Seq::<u32>::empty() =~= ha);
    assert(ra + Seq::<u32>::empty() =~= ra);
    assert(ma + Seq::<u32>::empty() =~= ma);
}

/// How the name of the node of the bank of receivers begins.
proof fn lemma_imsic_name()
    ensures
        imsic_name().len() >= 8,
        imsic_name()[0] == 'i',
        imsic_name()[1] == 'm',
{
    reveal_strlit("imsics");
    crate::names::lemma_padded_valid(IMSIC_START, IMSIC_NAME_WIDTH as nat);
}

/// How a name with a unit address begins.
proof fn lemma_name_start(base: &str, addr: u64)
    requires
        base@.len() >= 2,
    ensures
        name_at(base, addr, 0).len() >= 2,
        name_at(base, addr, 0)[0] == base@[0],
        name_at(base, addr, 0)[1] == base@[1],
{
}

/// A text of `len` characters that begins with `first`.
pub open spec fn text_like(s: &str, len: nat, first: char) -> bool {
    s@.len() == len && s@[0] == first
}

/// The names of the one-cell properties of a tree of a guest, by length and
/// first character: no two are alike in both but `compatible`, which has a
/// text, and `interrupts`, which has cells.
proof fn lemma_cell_names()
    ensures
        text_like("phandle", 7, 'p'),
        text_like("msi-parent", 10, 'm'),
        text_like("interrupt-parent", 16, 'i'),
        text_like("interrupts-extended", 19, 'i'),
        text_like("#address-cells", 14, '#'),
        text_like("#size-cells", 11, '#'),
        text_like("timebase-frequency", 18, 't'),
        text_like("reg", 3, 'r'),
        text_like("#interrupt-cells", 16, '#'),
        text_like("riscv,num-ids", 13, 'r'),
        text_like("riscv,num-sources", 17, 'r'),
        text_like("clock-frequency", 15, 'c'),
        text_like("interrupts", 10, 'i'),
        "interrupt-controller"@.len() == 20,
        "memory@ram"@.len() == 10,
        "memory@ram"@[1] == 'e',
        "interrupt-controller"@[1] == 'n',
        text_like("chosen", 6, 'c'),
        text_like("cpus", 4, 'c'),
        text_like("cpu", 3, 'c'),
        text_like("aplic", 5, 'a'),
        text_like("serial", 6, 's'),
        text_like("virtio_mmio", 11, 'v'),
        ""@.len() == 0,
{
    reveal_strlit("phandle");
    reveal_strlit("msi-parent");
    reveal_strlit("interrupt-parent");
    reveal_strlit("interrupts-extended");
    reveal_strlit("#address-cells");
    reveal_strlit("#size-cells");
    reveal_strlit("timebase-frequency");
    reveal_strlit("reg");
    reveal_strlit("#interrupt-cells");
    reveal_strlit("riscv,num-ids");
    reveal_strlit("riscv,num-sources");
    reveal_strlit("clock-frequency");
    reveal_strlit("interrupts");
    reveal_strlit("interrupt-controller");
    reveal_strlit("memory@ram");
    reveal_strlit("chosen");
    reveal_strlit("cpus");
    reveal_strlit("cpu");
    reveal_strlit("aplic");
    reveal_strlit("serial");
    reveal_strlit("virtio_mmio");
    reveal_strlit("");
}

/// A part of a tree holds what its phandles, references, parents and nodes
/// are seen to be.
proof fn lemma_holds_intro(
    items: Items,
    handles: Seq<u32>,
    refs: Seq<u32>,
    msi_parents: Seq<u32>,
    receivers: nat,
)
    requires
        phandles(items) =~= handles,
        references(items) =~= refs,
        cells_named(items, "msi-parent"@) =~= msi_parents,
        nodes_named(items, imsic_name()) == receivers,
    ensures
        holds(items, handles, refs, msi_parents, receivers),
{
}

/// The start of the root node and the end of a node hold no phandle.
proof fn lemma_root_holds()
    ensures
        holds_nothing(root_header()),
        holds_nothing(seq![Item::End]),
{
    lemma_cell_names();
    lemma_imsic_name();
    reveal_with_fuel(phandles, 5);
    reveal_with_fuel(references, 5);
    reveal_with_fuel(cells_named, 5);
    reveal_with_fuel(nodes_named, 5);
    lemma_holds_intro(root_header(), Seq::empty(), Seq::empty(), Seq::empty(), 0);
    lemma_holds_intro(seq![Item::End], Seq::empty(), Seq::empty(), Seq::empty(), 0);
}

/// The start of the `cpus` node holds no phandle.
proof fn lemma_cpus_header_holds(timer_freq: u32)
    ensures
        holds_nothing(cpus_header(timer_freq)),
{
    lemma_cell_names();
    lemma_imsic_name();
    reveal_with_fuel(phandles, 5);
    reveal_with_fuel(references, 5);
    reveal_with_fuel(cells_named, 5);
    reveal_with_fuel(nodes_named, 5);
    lemma_holds_intro(cpus_header(timer_freq), Seq::empty(), Seq::empty(), Seq::empty(), 0);
}

/// The node of a hart holds its phandle and that of its interrupt
/// controller.
proof fn lemma_cpu_holds(index: u32)
    requires
        index + CPU_BASE_PHANDLE <= u32::MAX,
    ensures
        holds(
            cpu_items(index),
            seq![(CPU_BASE_PHANDLE + index) as u32, (CPU_INTC_BASE_PHANDLE + index) as u32],
            Seq::empty(),
            Seq::empty(),
            0,
        ),
{
    lemma_cell_names();
    lemma_imsic_name();
    lemma_name_start("cpu", index as u64);
    reveal_with_fuel(phandles, 16);
    reveal_with_fuel(references, 16);
    reveal_with_fuel(cells_named, 16);
    reveal_with_fuel(nodes_named, 16);
    lemma_holds_intro(
        cpu_items(index),
        seq![(CPU_BASE_PHANDLE + index) as u32, (CPU_INTC_BASE_PHANDLE + index) as u32],
        Seq::empty(),
        Seq::empty(),
        0,
    );
}

/// The memory node holds no phandle.
proof fn lemma_memory_holds(mem: GuestMemory)
    ensures
        holds_nothing(memory_items(mem)),
{
    lemma_cell_names();
    lemma_imsic_name();
    reveal_with_fuel(phandles, 5);
    reveal_with_fuel(references, 5);
    reveal_with_fuel(cells_named, 5);
    reveal_with_fuel(nodes_named, 5);
    lemma_holds_intro(memory_items(mem), Seq::empty(), Seq::empty(), Seq::empty(), 0);
}

/// The `chosen` node holds no phandle, whatever the command line.
proof fn lemma_chosen_holds(cmdline: Seq<char>)
    ensures
        holds_nothing(chosen_items(cmdline)),
{
    lemma_cell_names();
    lemma_imsic_name();
    reveal_with_fuel(phandles, 4);
    reveal_with_fuel(references, 4);
    reveal_with_fuel(cells_named, 4);
    reveal_with_fuel(nodes_named, 4);
    lemma_holds_intro(chosen_items(cmdline), Seq::empty(), Seq::empty(), Seq::empty(), 0);
}

/// The node of the bank of receivers holds its phandle and refers to the
/// interrupt controller of each hart.
proof fn lemma_imsic_holds(aia: AIADevice, nr_ids: u32)
    ensures
        holds(
            imsic_items(aia, nr_ids),
            seq![AIA_IMSIC_PHANDLE],
            evens(hart_links(aia.spec_vcpu_count() as nat)),
            Seq::empty(),
            1,
        ),
{
    lemma_cell_names();
    lemma_imsic_name();
    reveal_with_fuel(phandles, 11);
    reveal_with_fuel(references, 11);
    reveal_with_fuel(cells_named, 11);
    reveal_with_fuel(nodes_named, 11);
    lemma_holds_intro(
        imsic_items(aia, nr_ids),
        seq![AIA_IMSIC_PHANDLE],
        evens(hart_links(aia.spec_vcpu_count() as nat)),
        Seq::empty(),
        1,
    );
}

/// The node of the arbiter holds its phandle and refers to the bank of
/// receivers where there is one.
proof fn lemma_aplic_holds(aia: AIADevice)
    ensures
        holds(
            aplic_items(aia),
            seq![AIA_APLIC_PHANDLE],
            if aia.spec_msi() {
                seq![AIA_IMSIC_PHANDLE]
            } else {
                Seq::empty()
            },
            if aia.spec_msi() {
                seq![AIA_IMSIC_PHANDLE]
            } else {
                Seq::empty()
            },
            0,
        ),
{
    lemma_cell_names();
    lemma_imsic_name();
    lemma_name_start("aplic", crate::layout::APLIC_START);
    reveal_with_fuel(phandles, 8);
    reveal_with_fuel(references, 8);
    reveal_with_fuel(cells_named, 8);
    reveal_with_fuel(nodes_named, 8);
    let head = aplic_header(aia);
    lemma_holds_intro(head, seq![AIA_APLIC_PHANDLE], Seq::empty(), Seq::empty(), 0);
    if aia.spec_msi() {
        let tail = seq![cell_prop("msi-parent", AIA_IMSIC_PHANDLE), Item::End];
        lemma_holds_intro(
            tail,
            Seq::empty(),
            seq![AIA_IMSIC_PHANDLE],
            seq![AIA_IMSIC_PHANDLE],
            0,
        );
        lemma_holds_concat(
            head,
            tail,
            seq![AIA_APLIC_PHANDLE],
            Seq::empty(),
            Seq::empty(),
            0,
            Seq::empty(),
            seq![AIA_IMSIC_PHANDLE],
            seq![AIA_IMSIC_PHANDLE],
            0,
        );
        assert(seq![AIA_APLIC_PHANDLE] + Seq::<u32>::empty() =~= seq![AIA_APLIC_PHANDLE]);
        assert(Seq::<u32>::empty() + seq![AIA_IMSIC_PHANDLE] =~= seq![AIA_IMSIC_PHANDLE]);
    } else {
        let tail = seq![Item::End];
        lemma_holds_intro(tail, Seq::empty(), Seq::empty(), Seq::empty(), 0);
        lemma_holds_more(head, tail, seq![AIA_APLIC_PHANDLE], Seq::empty(), Seq::empty(), 0);
    }
}

/// The node of a serial console refers to the arbiter.
proof fn lemma_serial_holds(dev: MMIODeviceInfo)
    ensures
        holds(serial_items(dev), Seq::empty(), seq![AIA_APLIC_PHANDLE], Seq::empty(), 0),
{
    lemma_cell_names();
    lemma_imsic_name();
    lemma_name_start("serial", dev.addr);
    reveal_with_fuel(phandles, 8);
    reveal_with_fuel(references, 8);
    reveal_with_fuel(cells_named, 8);
    reveal_with_fuel(nodes_named, 8);
    lemma_holds_intro(
        serial_items(dev),
        Seq::empty(),
        seq![AIA_APLIC_PHANDLE],
        Seq::empty(),
        0,
    );
}

/// The node of a virtual-I/O device refers to the arbiter.
proof fn lemma_virtio_holds(dev: MMIODeviceInfo)
    ensures
        holds(virtio_items(dev), Seq::empty(), seq![AIA_APLIC_PHANDLE], Seq::empty(), 0),
{
    lemma_cell_names();
    lemma_imsic_name();
    lemma_name_start("virtio_mmio", dev.addr);
    reveal_with_fuel(phandles, 7);
    reveal_with_fuel(references, 7);
    reveal_with_fuel(cells_named, 7);
    reveal_with_fuel(nodes_named, 7);
    lemma_holds_intro(
        virtio_items(dev),
        Seq::empty(),
        seq![AIA_APLIC_PHANDLE],
        Seq::empty(),
        0,
    );
}


/// The phandles of the nodes of the harts `0..count` and of their interrupt
/// controllers, in walk order.
pub open spec fn cpu_handles(count: nat) -> Seq<u32>
    decreases count,
{
    if count == 0 {
        Seq::empty()
    } else {
        cpu_handles((count - 1) as nat).push((CPU_BASE_PHANDLE + count - 1) as u32).push(
            (CPU_INTC_BASE_PHANDLE + count - 1) as u32,
        )
    }
}

/// `count` references to the arbiter.
pub open spec fn arbiter_refs(count: nat) -> Seq<u32> {
    Seq::new(count, |i: int| AIA_APLIC_PHANDLE)
}

/// The phandles of the tree of a guest, in walk order: those of the harts,
/// that of the bank of receivers if there is one, that of the arbiter.
pub open spec fn fdt_handles(aia: AIADevice) -> Seq<u32> {
    if aia.spec_msi() {
        cpu_handles(aia.spec_vcpu_count() as nat) + seq![AIA_IMSIC_PHANDLE, AIA_APLIC_PHANDLE]
    } else {
        cpu_handles(aia.spec_vcpu_count() as nat) + seq![AIA_APLIC_PHANDLE]
    }
}

/// The references of the tree of a guest with `devices` devices, in walk
/// order: from the bank of receivers, if there is one, to the interrupt
/// controller of each hart, and from the arbiter to the bank; from each
/// device to the arbiter.
pub open spec fn fdt_references(aia: AIADevice, devices: nat) -> Seq<u32> {
    if aia.spec_msi() {
        evens(hart_links(aia.spec_vcpu_count() as nat)) + seq![AIA_IMSIC_PHANDLE] + arbiter_refs(
            devices,
        )
    } else {
        arbiter_refs(devices)
    }
}

/// The phandles of the harts by position.
pub proof fn lemma_cpu_handles_at(count: nat, i: int)
    requires
        0 <= i < count,
    ensures
        cpu_handles(count).len() == 2 * count,
        cpu_handles(count)[2 * i] == (CPU_BASE_PHANDLE + i) as u32,
        cpu_handles(count)[2 * i + 1] == (CPU_INTC_BASE_PHANDLE + i) as u32,
    decreases count,
{
    lemma_cpu_handles_len(count);
    lemma_cpu_handles_len((count - 1) as nat);
    if i < count - 1 {
        lemma_cpu_handles_at((count - 1) as nat, i);
    }
}

/// Each hart has two phandles.
pub proof fn lemma_cpu_handles_len(count: nat)
    ensures
        cpu_handles(count).len() == 2 * count,
    decreases count,
{
    if count > 0 {
        lemma_cpu_handles_len((count - 1) as nat);
    }
}

/// The interrupt links of the bank of receivers by position.
pub proof fn lemma_hart_links_at(count: nat, i: int)
    requires
        0 <= i < count,
    ensures
        hart_links(count).len() == 2 * count,
        hart_links(count)[2 * i] == (CPU_INTC_BASE_PHANDLE + i) as u32,
        hart_links(count)[2 * i + 1] == S_MODE_EXT_IRQ,
    decreases count,
{
    lemma_hart_links_len(count);
    lemma_hart_links_len((count - 1) as nat);
    if i < count - 1 {
        lemma_hart_links_at((count - 1) as nat, i);
    }
}

/// The nodes of the harts hold the phandles of the harts.
proof fn lemma_cpu_nodes_hold(count: nat)
    requires
        count <= 256,
    ensures
        holds(cpu_nodes_items(count), cpu_handles(count), Seq::empty(), Seq::empty(), 0),
    decreases count,
{
    if count == 0 {
        lemma_holds_intro(
            cpu_nodes_items(0),
            Seq::empty(),
            Seq::empty(),
            Seq::empty(),
            0,
        );
    } else {
        let n = (count - 1) as nat;
        lemma_cpu_nodes_hold(n);
        lemma_cpu_holds(n as u32);
        lemma_holds_concat(
            cpu_nodes_items(n),
            cpu_items(n as u32),
            cpu_handles(n),
            Seq::empty(),
            Seq::empty(),
            0,
            seq![(CPU_BASE_PHANDLE + n) as u32, (CPU_INTC_BASE_PHANDLE + n) as u32],
            Seq::empty(),
            Seq::empty(),
            0,
        );
        assert(cpu_handles(n) + seq![
            (CPU_BASE_PHANDLE + n) as u32,
            (CPU_INTC_BASE_PHANDLE + n) as u32,
        ] =~= cpu_handles(count));
        assert(Seq::<u32>::empty() + Seq::<u32>::empty() =~= Seq::<u32>::empty());
    }
}

/// The `cpus` node holds the phandles of the harts.
proof fn lemma_cpus_hold(vcpu_count: u32, timer_freq: u32)
    requires
        vcpu_count <= 256,
    ensures
        holds(
            cpus_items(vcpu_count, timer_freq),
            cpu_handles(vcpu_count as nat),
            Seq::empty(),
            Seq::empty(),
            0,
        ),
{
    let head = cpus_header(timer_freq);
    let nodes = cpu_nodes_items(vcpu_count as nat);
    lemma_cpus_header_holds(timer_freq);
    lemma_cpu_nodes_hold(vcpu_count as nat);
    lemma_root_holds();
    lemma_holds_concat(
        head,
        nodes,
        Seq::empty(),
        Seq::empty(),
        Seq::empty(),
        0,
        cpu_handles(vcpu_count as nat),
        Seq::empty(),
        Seq::empty(),
        0,
    );
    assert(Seq::<u32>::empty() + cpu_handles(vcpu_count as nat) =~= cpu_handles(
        vcpu_count as nat,
    ));
    assert(Seq::<u32>::empty() + Seq::<u32>::empty() =~= Seq::<u32>::empty());
    lemma_holds_more(
        head + nodes,
        seq![Item::End],
        cpu_handles(vcpu_count as nat),
        Seq::empty(),
        Seq::empty(),
        0,
    );
}

/// The nodes of serial consoles refer to the arbiter, once each.
proof fn lemma_serial_nodes_hold(devs: Seq<MMIODeviceInfo>)
    ensures
        holds(
            serial_nodes_items(devs),
            Seq::empty(),
            arbiter_refs(devs.len()),
            Seq::empty(),
            0,
        ),
    decreases devs.len(),
{
    if devs.len() == 0 {
        lemma_holds_intro(
            serial_nodes_items(devs),
            Seq::empty(),
            arbiter_refs(0),
            Seq::empty(),
            0,
        );
    } else {
        lemma_serial_nodes_hold(devs.drop_last());
        lemma_serial_holds(devs.last());
        lemma_holds_concat(
            serial_nodes_items(devs.drop_last()),
            serial_items(devs.last()),
            Seq::empty(),
            arbiter_refs(devs.drop_last().len()),
            Seq::empty(),
            0,
            Seq::empty(),
            seq![AIA_APLIC_PHANDLE],
            Seq::empty(),
            0,
        );
        assert(arbiter_refs(devs.drop_last().len()) + seq![AIA_APLIC_PHANDLE] =~= arbiter_refs(
            devs.len(),
        ));
        assert(Seq::<u32>::empty() + Seq::<u32>::empty() =~= Seq::<u32>::empty());
    }
}

/// The nodes of virtual-I/O devices refer to the arbiter, once each.
proof fn lemma_virtio_nodes_hold(devs: Seq<MMIODeviceInfo>)
    ensures
        holds(
            virtio_nodes_items(devs),
            Seq::empty(),
            arbiter_refs(devs.len()),
            Seq::empty(),
            0,
        ),
    decreases devs.len(),
{
    if devs.len() == 0 {
        lemma_holds_intro(
            virtio_nodes_items(devs),
            Seq::empty(),
            arbiter_refs(0),
            Seq::empty(),
            0,
        );
    } else {
        lemma_virtio_nodes_hold(devs.drop_last());
        lemma_virtio_holds(devs.last());
        lemma_holds_concat(
            virtio_nodes_items(devs.drop_last()),
            virtio_items(devs.last()),
            Seq::empty(),
            arbiter_refs(devs.drop_last().len()),
            Seq::empty(),
            0,
            Seq::empty(),
            seq![AIA_APLIC_PHANDLE],
            Seq::empty(),
            0,
        );
        assert(arbiter_refs(devs.drop_last().len()) + seq![AIA_APLIC_PHANDLE] =~= arbiter_refs(
            devs.len(),
        ));
        assert(Seq::<u32>::empty() + Seq::<u32>::empty() =~= Seq::<u32>::empty());
    }
}

/// The nodes of the devices refer to the arbiter, once each.
proof fn lemma_devices_hold(devs: Seq<Device>)
    ensures
        holds(devices_items(devs), Seq::empty(), arbiter_refs(devs.len()), Seq::empty(), 0),
{
    let serial = sorted_by_addr(serial_infos(devs));
    let virtio = sorted_by_addr(virtio_infos(devs));
    lemma_split_devices(devs);
    lemma_sorted_is_permutation(serial_infos(devs));
    lemma_sorted_is_permutation(virtio_infos(devs));
    lemma_serial_nodes_hold(serial);
    lemma_virtio_nodes_hold(virtio);
    lemma_holds_concat(
        serial_nodes_items(serial),
        virtio_nodes_items(virtio),
        Seq::empty(),
        arbiter_refs(serial.len()),
        Seq::empty(),
        0,
        Seq::empty(),
        arbiter_refs(virtio.len()),
        Seq::empty(),
        0,
    );
    assert(arbiter_refs(serial.len()) + arbiter_refs(virtio.len()) =~= arbiter_refs(devs.len()));
    assert(Seq::<u32>::empty() + Seq::<u32>::empty() =~= Seq::<u32>::empty());
}

/// What the nodes of the interrupt controller hold.
pub open spec fn aia_handles(aia: AIADevice) -> Seq<u32> {
    if aia.spec_msi() {
        seq![AIA_IMSIC_PHANDLE, AIA_APLIC_PHANDLE]
    } else {
        seq![AIA_APLIC_PHANDLE]
    }
}

/// The references of the nodes of the interrupt controller.
pub open spec fn aia_references(aia: AIADevice) -> Seq<u32> {
    if aia.spec_msi() {
        evens(hart_links(aia.spec_vcpu_count() as nat)) + seq![AIA_IMSIC_PHANDLE]
    } else {
        Seq::empty()
    }
}

/// The parents for message-signaled interrupts that a tree names: the bank
/// of receivers where there is one, else none.
pub open spec fn msi_parents(aia: AIADevice) -> Seq<u32> {
    if aia.spec_msi() {
        seq![AIA_IMSIC_PHANDLE]
    } else {
        Seq::empty()
    }
}

/// The number of banks of receivers: one, or none.
pub open spec fn receivers(aia: AIADevice) -> nat {
    if aia.spec_msi() {
        1
    } else {
        0
    }
}

/// What the nodes of the interrupt controller hold.
proof fn lemma_aia_holds(aia: AIADevice, nr_ids: Option<u32>)
    ensures
        holds(
            aia_items(aia, nr_ids),
            aia_handles(aia),
            aia_references(aia),
            msi_parents(aia),
            receivers(aia),
        ),
{
    lemma_aplic_holds(aia);
    if aia.spec_msi() {
        lemma_imsic_holds(aia, nr_ids.unwrap());
        lemma_holds_concat(
            imsic_items(aia, nr_ids.unwrap()),
            aplic_items(aia),
            seq![AIA_IMSIC_PHANDLE],
            evens(hart_links(aia.spec_vcpu_count() as nat)),
            Seq::empty(),
            1,
            seq![AIA_APLIC_PHANDLE],
            seq![AIA_IMSIC_PHANDLE],
            seq![AIA_IMSIC_PHANDLE],
            0,
        );
        assert(seq![AIA_IMSIC_PHANDLE] + seq![AIA_APLIC_PHANDLE] =~= aia_handles(aia));
        assert(Seq::<u32>::empty() + seq![AIA_IMSIC_PHANDLE] =~= msi_parents(aia));
    }
}

/// What the tree of a guest holds of phandles.
pub proof fn lemma_fdt_holds(
    mem: GuestMemory,
    cmdline: Seq<char>,
    timer_freq: u32,
    devs: Seq<Device>,
    aia: AIADevice,
    nr_ids: Option<u32>,
)
    ensures
        holds(
            fdt_items(mem, cmdline, timer_freq, devs, aia, nr_ids),
            fdt_handles(aia),
            fdt_references(aia, devs.len()),
            msi_parents(aia),
            receivers(aia),
        ),
{
    let n = aia.spec_vcpu_count() as u32;
    let none = Seq::<u32>::empty();
    let ch = cpu_handles(n as nat);
    lemma_root_holds();
    lemma_cpus_hold(n, timer_freq);
    lemma_memory_holds(mem);
    lemma_chosen_holds(cmdline);
    lemma_aia_holds(aia, nr_ids);
    lemma_devices_hold(devs);
    let a = root_header();
    let b = a + cpus_items(n, timer_freq);
    let c = b + memory_items(mem);
    let d = c + chosen_items(cmdline);
    let e = d + aia_items(aia, nr_ids);
    let f = e + devices_items(devs);
    lemma_holds_concat(a, cpus_items(n, timer_freq), none, none, none, 0, ch, none, none, 0);
    assert(none + ch =~= ch);
    assert(none + none =~= none);
    lemma_holds_more(b, memory_items(mem), ch, none, none, 0);
    lemma_holds_more(c, chosen_items(cmdline), ch, none, none, 0);
    lemma_holds_concat(
        d,
        aia_items(aia, nr_ids),
        ch,
        none,
        none,
        0,
        aia_handles(aia),
        aia_references(aia),
        msi_parents(aia),
        receivers(aia),
    );
    assert(ch + aia_handles(aia) =~= fdt_handles(aia));
    assert(none + aia_references(aia) =~= aia_references(aia));
    assert(none + msi_parents(aia) =~= msi_parents(aia));
    lemma_holds_concat(
        e,
        devices_items(devs),
        fdt_handles(aia),
        aia_references(aia),
        msi_parents(aia),
        receivers(aia),
        none,
        arbiter_refs(devs.len()),
        none,
        0,
    );
    assert(fdt_handles(aia) + none =~= fdt_handles(aia));
    assert(aia_references(aia) + arbiter_refs(devs.len()) =~= fdt_references(aia, devs.len()));
    assert(msi_parents(aia) + none =~= msi_parents(aia));
    lemma_holds_more(
        f,
        seq![Item::End],
        fdt_handles(aia),
        fdt_references(aia, devs.len()),
        msi_parents(aia),
        receivers(aia),
    );
}

/// Phandle uniqueness: no two nodes of the tree of a guest share a phandle.
pub proof fn lemma_phandles_unique(
    mem: GuestMemory,
    cmdline: Seq<char>,
    timer_freq: u32,
    devs: Seq<Device>,
    aia: AIADevice,
    nr_ids: Option<u32>,
)
    ensures
        phandles(fdt_items(mem, cmdline, timer_freq, devs, aia, nr_ids)).no_duplicates(),
{
    lemma_fdt_holds(mem, cmdline, timer_freq, devs, aia, nr_ids);
    let n = aia.spec_vcpu_count() as nat;
    let h = fdt_handles(aia);
    lemma_cpu_handles_len(n);
    assert forall|i: int, j: int| 0 <= i < h.len() && 0 <= j < h.len() && i != j implies h[i]
        != h[j] by {
        if i < 2 * n {
            lemma_cpu_handles_at(n, i / 2);
        }
        if j < 2 * n {
            lemma_cpu_handles_at(n, j / 2);
        }
    }
}

/// Phandle closure: every phandle that a node of the tree of a guest refers
/// to is the phandle of a node of the tree.
pub proof fn lemma_references_resolve(
    mem: GuestMemory,
    cmdline: Seq<char>,
    timer_freq: u32,
    devs: Seq<Device>,
    aia: AIADevice,
    nr_ids: Option<u32>,
)
    ensures
        forall|k: int|
            0 <= k < references(fdt_items(mem, cmdline, timer_freq, devs, aia, nr_ids)).len()
                ==> phandles(fdt_items(mem, cmdline, timer_freq, devs, aia, nr_ids)).contains(
                #[trigger] references(fdt_items(mem, cmdline, timer_freq, devs, aia, nr_ids))[k],
            ),
{
    lemma_fdt_holds(mem, cmdline, timer_freq, devs, aia, nr_ids);
    let n = aia.spec_vcpu_count() as nat;
    let h = fdt_handles(aia);
    let r = fdt_references(aia, devs.len());
    lemma_cpu_handles_len(n);
    lemma_hart_links_len(n);
    assert forall|k: int| 0 <= k < r.len() implies h.contains(#[trigger] r[k]) by {
        if aia.spec_msi() {
            if k < n {
                lemma_hart_links_at(n, k);
                lemma_cpu_handles_at(n, k);
                assert(h[2 * k + 1] == r[k]);
            } else if k == n {
                assert(h[2 * n as int] == r[k]);
            } else {
                assert(h[2 * n as int + 1] == r[k]);
            }
        } else {
            assert(h[2 * n as int] == r[k]);
        }
    }
}

/// Conditional receiver node: where the interrupt controller delivers
/// message-signaled interrupts, the tree has one node of the bank of
/// receivers, and one node names a parent for such interrupts: the arbiter,
/// which names the phandle of the bank. Else the tree has no such node and
/// no node names such a parent.
pub proof fn lemma_receivers_conditional(
    mem: GuestMemory,
    cmdline: Seq<char>,
    timer_freq: u32,
    devs: Seq<Device>,
    aia: AIADevice,
    nr_ids: Option<u32>,
)
    ensures
        nodes_named(fdt_items(mem, cmdline, timer_freq, devs, aia, nr_ids), imsic_name()) == if aia.spec_msi() {
            1nat
        } else {
            0nat
        },
        cells_named(fdt_items(mem, cmdline, timer_freq, devs, aia, nr_ids), "msi-parent"@)
            == msi_parents(aia),
        cells_named(aplic_items(aia), "msi-parent"@) == msi_parents(aia),
        aia.spec_msi() ==> phandles(imsic_items(aia, nr_ids.unwrap())) == seq![AIA_IMSIC_PHANDLE]
            && nodes_named(imsic_items(aia, nr_ids.unwrap()), imsic_name()) == 1,
{
    lemma_fdt_holds(mem, cmdline, timer_freq, devs, aia, nr_ids);
    lemma_aplic_holds(aia);
    if aia.spec_msi() {
        lemma_imsic_holds(aia, nr_ids.unwrap());
    }
}

} // verus!
