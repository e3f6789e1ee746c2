//! Writing the device tree of a guest and making the blob of it.

use vstd::prelude::*;
use vstd::string::*;
use vstd::utf8::{
    decode_utf8, decode_utf8_encode_utf8, encode_utf8, is_ascii_chars, is_ascii_chars_encode_utf8,
    valid_utf8,
};
use vm_fdt::FdtWriter;
use crate::aia::AIADevice;
use crate::device::{Device, DeviceType, MMIODeviceInfo};
use crate::fdt_items::{
    aia_items, aplic_header, aplic_items, chosen_items, cpu_items, cpu_nodes_items, cpus_header,
    cpus_items, devices_items, fdt_items, hart_links, imsic_head, imsic_items, insert_by_addr, irq_of, placement_leq,
    memory_items, root_header, serial_infos, serial_items, serial_nodes_items, sorted_by_addr,
    usable_mem_size, usable_mem_start, virtio_infos, virtio_items, virtio_nodes_items,
    ADDRESS_CELLS, AIA_APLIC_PHANDLE, AIA_IMSIC_PHANDLE, APLIC_NUM_SOURCES, CPU_BASE_PHANDLE,
    CPU_INTC_BASE_PHANDLE, IMSIC_NAME_WIDTH, IRQ_TYPE_EDGE_RISING, IRQ_TYPE_LEVEL_HI,
    SERIAL_CLOCK_FREQUENCY, SIZE_CELLS, S_MODE_EXT_IRQ,
};
use crate::layout::{CMDLINE_MAX_SIZE, DRAM_MEM_START, IRQ_MAX, SYSTEM_MEM_SIZE};
use crate::memory::GuestMemory;
use crate::tree::{has_nul, open_depth, valid_base_name, valid_prop_name, Item, Items};
use crate::writer::{error_kind, handle_depth, kind_of_error, written, VmFdtError, MAX_NODE_DEPTH};

verus! {

/// Errors thrown while configuring the flattened device tree.
#[derive(Debug, PartialEq, Eq)]
pub enum FdtError {
    /// The writer refused a call.
    CreateFdt(VmFdtError),
    /// Reading the cache information failed.
    ReadCacheInfo(String),
    /// Failure in writing the blob into guest memory.
    WriteFdtToMemory,
    /// The interrupt controller did not tell the number of its interrupt
    /// identities.
    GetDeviceAttr,
}

/// Whether an error says that the tree grew too large for the writer.
pub open spec fn too_large(e: FdtError) -> bool {
    e == FdtError::CreateFdt(VmFdtError::PropertyValueTooLarge) || e == FdtError::CreateFdt(
        VmFdtError::TotalSizeTooLarge,
    )
}

/// A name that the writer accepts for a property.
pub open spec fn prop_name(name: &str) -> bool {
    valid_prop_name(name@) && !has_nul(name@)
}

/// A text that the writer accepts as a value, of `len` bytes.
pub open spec fn short_text(val: &str, len: nat) -> bool {
    !has_nul(val@) && encode_utf8(val@).len() == len
}

/// Whether the table of property names has room for `n` more items.
pub open spec fn room_for(items: Items, n: nat) -> bool {
    32 * (items.len() + n + 1) <= u32::MAX
}

/// What a writer of `node` leaves behind where it breaks off: what was
/// written before, and behind it the items of `node` up to the one that the
/// writer refused.
pub open spec fn broke_off(before: Items, after: Items, node: Items) -> bool {
    &&& before.is_prefix_of(after)
    &&& after.is_prefix_of(before + node)
    &&& after.len() < before.len() + node.len()
}

/// What writing `node` leaves behind and returns: on success the items of
/// `node` behind those written before, at the depth of before. It fails only
/// where the tree grows too large, and not while there is room; it then
/// breaks off at the item that is refused.
pub open spec fn appended(before: Items, after: Items, r: Result<(), FdtError>, node: Items) -> bool {
    &&& r is Ok ==> after == before + node && open_depth(after) == open_depth(before)
    &&& r is Err ==> too_large(r->Err_0) && broke_off(before, after, node)
    &&& room_for(before, node.len()) ==> r is Ok
}

/// A part of a node that breaks off leaves the node broken off: where `here`
/// holds what was written before and the start of `node`, and `part` is what
/// `node` goes on with.
pub proof fn lemma_broke_off_within(before: Items, here: Items, part: Items, node: Items)
    requires
        before.is_prefix_of(here),
        (here + part).is_prefix_of(before + node),
    ensures
        forall|after: Items| #[trigger]
            broke_off(here, after, part) ==> broke_off(before, after, node),
{
    assert forall|after: Items| #[trigger] broke_off(here, after, part) implies broke_off(
        before,
        after,
        node,
    ) by {
        let whole = before + node;
        assert(after =~= (here + part).subrange(0, after.len() as int));
        assert(here + part =~= whole.subrange(0, (here + part).len() as int));
        assert(after =~= whole.subrange(0, after.len() as int));
        assert(here =~= after.subrange(0, here.len() as int));
        assert(before =~= here.subrange(0, before.len() as int));
        assert(before =~= after.subrange(0, before.len() as int));
    }
}

/// Opening a node makes the tree one deeper, closing one makes it one less
/// deep.
pub broadcast proof fn lemma_depth_push(items: Items, item: Item)
    ensures
        #[trigger] open_depth(items.push(item)) == open_depth(items) + match item {
            Item::Begin(_) => 1int,
            Item::Prop(_, _) => 0int,
            Item::End => -1int,
        },
{
    assert(items.push(item).drop_last() =~= items);
}

/// The result of a writer call as this module's functions return it.
fn lift<T>(r: Result<T, vm_fdt::Error>) -> (out: Result<T, FdtError>)
    ensures
        match r {
            Ok(v) => out == Ok::<T, FdtError>(v),
            Err(e) => out == Err::<T, FdtError>(FdtError::CreateFdt(error_kind(e))),
        },
{
    match r {
        Ok(v) => Ok(v),
        Err(e) => Err(FdtError::CreateFdt(kind_of_error(e))),
    }
}

/// The writer takes the names and the text of the memory node.
pub(crate) proof fn lemma_memory_literals()
    ensures
        valid_base_name("memory"@),
        prop_name("device_type"),
        prop_name("reg"),
        short_text("memory", 6),
        "memory@ram"@ == crate::names::unit_name("memory"@, "ram"@),
        crate::tree::valid_unit_address("ram"@),
{
    reveal_strlit("memory");
    reveal_strlit("memory@ram");
    reveal_strlit("ram");
    reveal_strlit("device_type");
    reveal_strlit("reg");
    assert(is_ascii_chars("memory"@));
    is_ascii_chars_encode_utf8("memory"@);
    assert("memory@ram"@ =~= crate::names::unit_name("memory"@, "ram"@));
}

/// Writes the memory node.
fn create_memory_node(fdt: &mut FdtWriter, guest_mem: &GuestMemory) -> (r: Result<(), FdtError>)
    requires
        0 <= open_depth(written(*old(fdt))) < MAX_NODE_DEPTH,
        guest_mem.spec_size() > SYSTEM_MEM_SIZE,
    ensures
        appended(written(*old(fdt)), written(*final(fdt)), r, memory_items(*guest_mem)),
{
    broadcast use lemma_depth_push;

    proof {
        lemma_memory_literals();
        crate::names::lemma_unit_name_valid("memory"@, "ram"@);
    }
    let mem_size: u64 = guest_mem.last_addr().raw_value() - DRAM_MEM_START - SYSTEM_MEM_SIZE + 1;
    let mem_reg_prop: [u64; 2] = [DRAM_MEM_START + SYSTEM_MEM_SIZE, mem_size];
    let mem = lift(fdt.begin_node("memory@ram"))?;
    lift(fdt.property_string("device_type", "memory"))?;
    lift(fdt.property_array_u64("reg", mem_reg_prop.as_slice()))?;
    lift(fdt.end_node(mem))?;
    assert(mem_reg_prop@ =~= seq![usable_mem_start(), usable_mem_size(*guest_mem)]);
    assert(written(*fdt) =~= written(*old(fdt)) + memory_items(*guest_mem));
    Ok(())
}


/// The nodes of the first harts are the start of the nodes of all harts.
pub proof fn lemma_cpu_nodes_prefix(first: nat, count: nat)
    requires
        first <= count,
    ensures
        cpu_nodes_items(first).is_prefix_of(cpu_nodes_items(count)),
    decreases count,
{
    if first < count {
        lemma_cpu_nodes_prefix(first, (count - 1) as nat);
    }
}

/// The number of items in the nodes of the harts.
pub proof fn lemma_cpu_nodes_len(count: nat)
    ensures
        cpu_nodes_items(count).len() == 15 * count,
    decreases count,
{
    if count > 0 {
        lemma_cpu_nodes_len((count - 1) as nat);
    }
}

/// The number of interrupt links of the bank of receivers.
pub proof fn lemma_hart_links_len(count: nat)
    ensures
        hart_links(count).len() == 2 * count,
    decreases count,
{
    if count > 0 {
        lemma_hart_links_len((count - 1) as nat);
    }
}

/// The writer takes the names and the texts of the node of a hart.
pub(crate) proof fn lemma_cpu_literals()
    ensures
        valid_base_name("cpu"@),
        valid_base_name("interrupt-controller"@),
        !has_nul("interrupt-controller"@),
        prop_name("device_type"),
        prop_name("compatible"),
        prop_name("mmu-type"),
        prop_name("riscv,isa"),
        prop_name("status"),
        prop_name("reg"),
        prop_name("phandle"),
        prop_name("#interrupt-cells"),
        prop_name("interrupt-controller"),
        short_text("cpu", 3),
        short_text("riscv", 5),
        short_text("sv48", 4),
        short_text("rv64imafdc_smaia_ssaia", 22),
        short_text("okay", 4),
        short_text("riscv,cpu-intc", 14),
{
    reveal_strlit("cpu");
    reveal_strlit("interrupt-controller");
    reveal_strlit("device_type");
    reveal_strlit("compatible");
    reveal_strlit("mmu-type");
    reveal_strlit("riscv,isa");
    reveal_strlit("status");
    reveal_strlit("reg");
    reveal_strlit("phandle");
    reveal_strlit("#interrupt-cells");
    reveal_strlit("riscv");
    reveal_strlit("sv48");
    reveal_strlit("rv64imafdc_smaia_ssaia");
    reveal_strlit("okay");
    reveal_strlit("riscv,cpu-intc");
    assert(is_ascii_chars("cpu"@));
    assert(is_ascii_chars("riscv"@));
    assert(is_ascii_chars("sv48"@));
    assert(is_ascii_chars("rv64imafdc_smaia_ssaia"@));
    assert(is_ascii_chars("okay"@));
    assert(is_ascii_chars("riscv,cpu-intc"@));
    is_ascii_chars_encode_utf8("cpu"@);
    is_ascii_chars_encode_utf8("riscv"@);
    is_ascii_chars_encode_utf8("sv48"@);
    is_ascii_chars_encode_utf8("rv64imafdc_smaia_ssaia"@);
    is_ascii_chars_encode_utf8("okay"@);
    is_ascii_chars_encode_utf8("riscv,cpu-intc"@);
}

/// Writes the node of hart `cpu_index`, with its interrupt controller.
fn create_cpu_node(fdt: &mut FdtWriter, cpu_index: u32) -> (r: Result<(), FdtError>)
    requires
        0 <= open_depth(written(*old(fdt))) < MAX_NODE_DEPTH - 1,
        cpu_index + CPU_BASE_PHANDLE <= u32::MAX,
    ensures
        appended(written(*old(fdt)), written(*final(fdt)), r, cpu_items(cpu_index)),
{
    broadcast use lemma_depth_push;

    proof {
        lemma_cpu_literals();
        crate::names::lemma_padded_valid(cpu_index as u64, 0);
        crate::names::lemma_unit_name_valid(
            "cpu"@,
            crate::names::hex_digits_padded(cpu_index as nat, 0),
        );
    }
    let name = crate::names::node_name_at("cpu", cpu_index as u64, 0);
    let cpu = lift(fdt.begin_node(name.as_str()))?;
    lift(fdt.property_string("device_type", "cpu"))?;
    lift(fdt.property_string("compatible", "riscv"))?;
    lift(fdt.property_string("mmu-type", "sv48"))?;
    lift(fdt.property_string("riscv,isa", "rv64imafdc_smaia_ssaia"))?;
    lift(fdt.property_string("status", "okay"))?;
    lift(fdt.property_u32("reg", cpu_index))?;
    lift(fdt.property_u32("phandle", CPU_BASE_PHANDLE + cpu_index))?;

    let intc_node = lift(fdt.begin_node("interrupt-controller"))?;
    lift(fdt.property_string("compatible", "riscv,cpu-intc"))?;
    lift(fdt.property_u32("#interrupt-cells", 1u32))?;
    lift(fdt.property_null("interrupt-controller"))?;
    lift(fdt.property_u32("phandle", CPU_INTC_BASE_PHANDLE + cpu_index))?;
    lift(fdt.end_node(intc_node))?;

    lift(fdt.end_node(cpu))?;
    assert(written(*fdt) =~= written(*old(fdt)) + cpu_items(cpu_index));
    Ok(())
}

/// The writer takes the names of the `cpus` node.
pub(crate) proof fn lemma_cpus_literals()
    ensures
        valid_base_name("cpus"@),
        !has_nul("cpus"@),
        prop_name("#address-cells"),
        prop_name("#size-cells"),
        prop_name("timebase-frequency"),
{
    reveal_strlit("cpus");
    reveal_strlit("#address-cells");
    reveal_strlit("#size-cells");
    reveal_strlit("timebase-frequency");
}

/// Writes the `cpus` node with one node per hart.
fn create_cpu_nodes(fdt: &mut FdtWriter, vcpu_count: u32, timer_freq: u32) -> (r: Result<
    (),
    FdtError,
>)
    requires
        0 <= open_depth(written(*old(fdt))) < MAX_NODE_DEPTH - 2,
        vcpu_count + CPU_BASE_PHANDLE <= u32::MAX,
    ensures
        appended(written(*old(fdt)), written(*final(fdt)), r, cpus_items(vcpu_count, timer_freq)),
{
    broadcast use lemma_depth_push;

    proof {
        lemma_cpus_literals();
        lemma_cpu_nodes_len(vcpu_count as nat);
    }
    let ghost before = written(*fdt);
    let cpus = lift(fdt.begin_node("cpus"))?;

    lift(fdt.property_u32("#address-cells", 0x1))?;
    lift(fdt.property_u32("#size-cells", 0x0))?;
    lift(fdt.property_u32("timebase-frequency", timer_freq))?;
    assert(written(*fdt) =~= before + cpus_header(timer_freq));

    let mut cpu_index: u32 = 0;
    while cpu_index < vcpu_count
        invariant
            cpu_index <= vcpu_count,
            vcpu_count + CPU_BASE_PHANDLE <= u32::MAX,
            before == written(*old(fdt)),
            0 <= open_depth(before) < MAX_NODE_DEPTH - 2,
            open_depth(written(*fdt)) == open_depth(before) + 1,
            handle_depth(cpus) == open_depth(before) + 1,
            written(*fdt) == before + cpus_header(timer_freq) + cpu_nodes_items(cpu_index as nat),
            cpu_nodes_items(vcpu_count as nat).len() == 15 * vcpu_count,
        ensures
            cpu_index == vcpu_count,
        decreases vcpu_count - cpu_index,
    {
        let ghost here = written(*fdt);
        proof {
            lemma_cpu_nodes_len(cpu_index as nat);
            assert(here.len() == before.len() + 4 + 15 * cpu_index);
            assert(cpus_items(vcpu_count, timer_freq).len() == 5 + 15 * vcpu_count);
            lemma_cpu_nodes_prefix((cpu_index + 1) as nat, vcpu_count as nat);
            lemma_cpu_nodes_len((cpu_index + 1) as nat);
            assert(here + cpu_items(cpu_index) =~= before + cpus_header(timer_freq)
                + cpu_nodes_items((cpu_index + 1) as nat));
            assert((here + cpu_items(cpu_index)).is_prefix_of(
                before + cpus_items(vcpu_count, timer_freq),
            ));
            lemma_broke_off_within(
                before,
                here,
                cpu_items(cpu_index),
                cpus_items(vcpu_count, timer_freq),
            );
        }
        create_cpu_node(fdt, cpu_index)?;
        assert(written(*fdt) =~= before + cpus_header(timer_freq) + cpu_nodes_items(
            (cpu_index + 1) as nat,
        ));
        cpu_index = cpu_index + 1;
    }

    lift(fdt.end_node(cpus))?;
    assert(written(*fdt) =~= before + cpus_items(vcpu_count, timer_freq));
    Ok(())
}


/// The text of a command line given as bytes: its characters, unless the
/// bytes are no UTF-8 or hold a NUL.
pub open spec fn cmdline_text(bytes: Seq<u8>) -> Option<Seq<char>> {
    if valid_utf8(bytes) && !has_nul(decode_utf8(bytes)) {
        Some(decode_utf8(bytes))
    } else {
        None
    }
}

/// `String::from_utf8`: the text that the bytes encode, if they are UTF-8.
#[verifier::external_body]
fn string_from_utf8(bytes: Vec<u8>) -> (r: Option<String>)
    ensures
        r is Some <==> valid_utf8(bytes@),
        r matches Some(s) ==> s@ == decode_utf8(bytes@),
{
    String::from_utf8(bytes).ok()
}

/// The writer takes the names of the `chosen` node.
pub(crate) proof fn lemma_chosen_literals()
    ensures
        valid_base_name("chosen"@),
        !has_nul("chosen"@),
        prop_name("bootargs"),
{
    reveal_strlit("chosen");
    reveal_strlit("bootargs");
}

/// What writing the `chosen` node leaves behind and returns. A command line
/// that is no text is refused when the node is open and nothing is in it.
/// The text of one that is can be too large for the writer only from 4 GiB
/// on.
pub open spec fn chosen_outcome(
    before: Items,
    after: Items,
    r: Result<(), FdtError>,
    cmdline: Seq<u8>,
) -> bool {
    match cmdline_text(cmdline) {
        None => r == Err::<(), FdtError>(FdtError::CreateFdt(VmFdtError::InvalidString))
            && after == before.push(Item::Begin("chosen"@)),
        Some(t) => {
            &&& r is Ok ==> after == before + chosen_items(t) && open_depth(after) == open_depth(
                before,
            )
            &&& r is Err ==> too_large(r->Err_0) && broke_off(before, after, chosen_items(t))
            &&& room_for(before, 3) && cmdline.len() < u32::MAX ==> r is Ok
        },
    }
}

/// Writes the `chosen` node, which hands the command line to the guest. A
/// command line that is no text is refused.
fn create_chosen_node(fdt: &mut FdtWriter, cmdline: Vec<u8>) -> (r: Result<(), FdtError>)
    requires
        0 <= open_depth(written(*old(fdt))) < MAX_NODE_DEPTH,
    ensures
        chosen_outcome(written(*old(fdt)), written(*final(fdt)), r, cmdline@),
{
    broadcast use lemma_depth_push;

    proof {
        lemma_chosen_literals();
    }
    let ghost bytes = cmdline@;
    let chosen = lift(fdt.begin_node("chosen"))?;

    let cmdline_string = match string_from_utf8(cmdline) {
        Some(s) => s,
        None => { return Err(FdtError::CreateFdt(VmFdtError::InvalidString)); },
    };
    proof {
        decode_utf8_encode_utf8(bytes);
    }
    lift(fdt.property_string("bootargs", cmdline_string.as_str()))?;

    lift(fdt.end_node(chosen))?;
    assert(written(*fdt) =~= written(*old(fdt)) + chosen_items(cmdline_string@));
    Ok(())
}

/// The writer takes the names and the text of the node of the bank of
/// receivers.
pub(crate) proof fn lemma_imsic_literals()
    ensures
        valid_base_name("imsics"@),
        prop_name("compatible"),
        prop_name("reg"),
        prop_name("#interrupt-cells"),
        prop_name("interrupt-controller"),
        prop_name("msi-controller"),
        prop_name("riscv,num-ids"),
        prop_name("phandle"),
        prop_name("interrupts-extended"),
        short_text(crate::aia::IMSIC_COMPATIBILITY, 12),
{
    reveal_strlit("imsics");
    reveal_strlit("compatible");
    reveal_strlit("reg");
    reveal_strlit("#interrupt-cells");
    reveal_strlit("interrupt-controller");
    reveal_strlit("msi-controller");
    reveal_strlit("riscv,num-ids");
    reveal_strlit("phandle");
    reveal_strlit("interrupts-extended");
    reveal_strlit("riscv,imsics");
    assert(is_ascii_chars("riscv,imsics"@));
    is_ascii_chars_encode_utf8("riscv,imsics"@);
}

/// The writer takes the names and the text of the node of the arbiter.
pub(crate) proof fn lemma_aplic_literals()
    ensures
        valid_base_name("aplic"@),
        prop_name("compatible"),
        prop_name("reg"),
        prop_name("#interrupt-cells"),
        prop_name("interrupt-controller"),
        prop_name("riscv,num-sources"),
        prop_name("phandle"),
        prop_name("msi-parent"),
        short_text(crate::aia::APLIC_COMPATIBILITY, 11),
{
    reveal_strlit("aplic");
    reveal_strlit("compatible");
    reveal_strlit("reg");
    reveal_strlit("#interrupt-cells");
    reveal_strlit("interrupt-controller");
    reveal_strlit("riscv,num-sources");
    reveal_strlit("phandle");
    reveal_strlit("msi-parent");
    reveal_strlit("riscv,aplic");
    assert(is_ascii_chars("riscv,aplic"@));
    is_ascii_chars_encode_utf8("riscv,aplic"@);
}

/// The interrupt links of the bank of receivers of `num_cpus` harts.
fn hart_link_cells(num_cpus: u32) -> (irq_cells: Vec<u32>)
    requires
        num_cpus + CPU_INTC_BASE_PHANDLE <= u32::MAX,
    ensures
        irq_cells@ == hart_links(num_cpus as nat),
        irq_cells@.len() == 2 * num_cpus,
{
    let mut irq_cells: Vec<u32> = Vec::new();
    let mut i: u32 = 0;
    while i < num_cpus
        invariant
            i <= num_cpus,
            num_cpus + CPU_INTC_BASE_PHANDLE <= u32::MAX,
            irq_cells@ == hart_links(i as nat),
            irq_cells@.len() == 2 * i,
        decreases num_cpus - i,
    {
        irq_cells.push(CPU_INTC_BASE_PHANDLE + i);
        irq_cells.push(S_MODE_EXT_IRQ);
        i = i + 1;
    }
    irq_cells
}

/// What writing the node of the bank of receivers leaves behind and returns
/// where the number of interrupt identities is not known: the node is open
/// with its first properties, and nothing more is written. While the writer
/// has room no other error comes first.
pub open spec fn ids_missing(
    before: Items,
    after: Items,
    r: Result<(), FdtError>,
    aia: AIADevice,
) -> bool {
    &&& r is Err
    &&& r->Err_0 == FdtError::GetDeviceAttr || too_large(r->Err_0)
    &&& r->Err_0 == FdtError::GetDeviceAttr ==> after == before + imsic_head(aia)
    &&& too_large(r->Err_0) ==> !room_for(before, 10) && broke_off(before, after, imsic_head(aia))
}

/// Writes the node of the bank of interrupt receivers.
fn create_imsic_node(fdt: &mut FdtWriter, aia: &AIADevice, nr_ids: Option<u32>) -> (r: Result<
    (),
    FdtError,
>)
    requires
        0 <= open_depth(written(*old(fdt))) < MAX_NODE_DEPTH,
    ensures
        nr_ids is None ==> ids_missing(written(*old(fdt)), written(*final(fdt)), r, *aia),
        nr_ids matches Some(n) ==> appended(
            written(*old(fdt)),
            written(*final(fdt)),
            r,
            imsic_items(*aia, n),
        ),
{
    broadcast use lemma_depth_push;

    proof {
        lemma_imsic_literals();
        crate::names::lemma_padded_valid(crate::layout::IMSIC_START, IMSIC_NAME_WIDTH as nat);
        crate::names::lemma_unit_name_valid(
            "imsics"@,
            crate::names::hex_digits_padded(
                crate::layout::IMSIC_START as nat,
                IMSIC_NAME_WIDTH as nat,
            ),
        );
    }
    let imsic_name = crate::names::node_name_at(
        "imsics",
        crate::layout::IMSIC_START,
        IMSIC_NAME_WIDTH,
    );
    let imsic_node = lift(fdt.begin_node(imsic_name.as_str()))?;

    lift(fdt.property_string("compatible", aia.imsic_compatibility()))?;
    let imsic_reg_prop = aia.imsic_properties();
    lift(fdt.property_array_u32("reg", imsic_reg_prop.as_slice()))?;
    lift(fdt.property_u32("#interrupt-cells", 0u32))?;
    lift(fdt.property_null("interrupt-controller"))?;
    lift(fdt.property_null("msi-controller"))?;

    assert(written(*fdt) =~= written(*old(fdt)) + imsic_head(*aia));
    let aia_nr_ids: u32 = match nr_ids {
        Some(n) => n,
        None => { return Err(FdtError::GetDeviceAttr); },
    };

    lift(fdt.property_u32("riscv,num-ids", aia_nr_ids))?;
    lift(fdt.property_u32("phandle", AIA_IMSIC_PHANDLE))?;

    let num_cpus: u32 = aia.vcpu_count() as u32;
    let irq_cells = hart_link_cells(num_cpus);
    lift(fdt.property_array_u32("interrupts-extended", irq_cells.as_slice()))?;

    lift(fdt.end_node(imsic_node))?;
    assert(written(*fdt) =~= written(*old(fdt)) + imsic_items(*aia, aia_nr_ids));
    Ok(())
}

/// Writes the node of the arbiter.
fn create_aplic_node(fdt: &mut FdtWriter, aia: &AIADevice) -> (r: Result<(), FdtError>)
    requires
        0 <= open_depth(written(*old(fdt))) < MAX_NODE_DEPTH,
    ensures
        appended(written(*old(fdt)), written(*final(fdt)), r, aplic_items(*aia)),
{
    broadcast use lemma_depth_push;

    proof {
        lemma_aplic_literals();
        crate::names::lemma_padded_valid(crate::layout::APLIC_START, 0);
        crate::names::lemma_unit_name_valid(
            "aplic"@,
            crate::names::hex_digits_padded(crate::layout::APLIC_START as nat, 0),
        );
    }
    let aplic_name = crate::names::node_name_at("aplic", crate::layout::APLIC_START, 0);
    let aplic_node = lift(fdt.begin_node(aplic_name.as_str()))?;

    lift(fdt.property_string("compatible", aia.aplic_compatibility()))?;
    let reg_cells = aia.aplic_properties();
    lift(fdt.property_array_u32("reg", reg_cells.as_slice()))?;
    lift(fdt.property_u32("#interrupt-cells", 2u32))?;
    lift(fdt.property_null("interrupt-controller"))?;

    lift(fdt.property_u32("riscv,num-sources", APLIC_NUM_SOURCES))?;
    lift(fdt.property_u32("phandle", AIA_APLIC_PHANDLE))?;
    assert(written(*fdt) =~= written(*old(fdt)) + aplic_header(*aia));
    if aia.msi_compatible() {
        lift(fdt.property_u32("msi-parent", AIA_IMSIC_PHANDLE))?;
    }
    lift(fdt.end_node(aplic_node))?;
    assert(written(*fdt) =~= written(*old(fdt)) + aplic_items(*aia));
    Ok(())
}

/// What writing the nodes of the interrupt controller leaves behind and
/// returns. The number of interrupt identities is asked for only where there
/// are receivers, and only once their first properties are written; where it
/// is missing then, the node of the arbiter is not written.
pub open spec fn aia_outcome(
    before: Items,
    after: Items,
    r: Result<(), FdtError>,
    aia: AIADevice,
    nr_ids: Option<u32>,
) -> bool {
    if aia.spec_msi() && nr_ids is None {
        ids_missing(before, after, r, aia)
    } else {
        appended(before, after, r, aia_items(aia, nr_ids))
    }
}

/// Writes the nodes of the interrupt controller: the bank of receivers, if
/// there is one, then the arbiter.
fn create_aia_node(fdt: &mut FdtWriter, aia: &AIADevice, nr_ids: Option<u32>) -> (r: Result<
    (),
    FdtError,
>)
    requires
        0 <= open_depth(written(*old(fdt))) < MAX_NODE_DEPTH,
    ensures
        aia_outcome(written(*old(fdt)), written(*final(fdt)), r, *aia, nr_ids),
{
    if aia.msi_compatible() {
        create_imsic_node(fdt, aia, nr_ids)?;
    }
    create_aplic_node(fdt, aia)?;
    assert(written(*fdt) =~= written(*old(fdt)) + aia_items(*aia, nr_ids));
    Ok(())
}


/// The writer takes the names and the text of the node of a serial console.
pub(crate) proof fn lemma_serial_literals()
    ensures
        valid_base_name("serial"@),
        prop_name("compatible"),
        prop_name("reg"),
        prop_name("clock-frequency"),
        prop_name("interrupt-parent"),
        prop_name("interrupts"),
        short_text("ns16550a", 8),
{
    reveal_strlit("serial");
    reveal_strlit("compatible");
    reveal_strlit("reg");
    reveal_strlit("clock-frequency");
    reveal_strlit("interrupt-parent");
    reveal_strlit("interrupts");
    reveal_strlit("ns16550a");
    assert(is_ascii_chars("ns16550a"@));
    is_ascii_chars_encode_utf8("ns16550a"@);
}

/// The writer takes the names and the text of the node of a virtual-I/O
/// device.
pub(crate) proof fn lemma_virtio_literals()
    ensures
        valid_base_name("virtio_mmio"@),
        prop_name("compatible"),
        prop_name("reg"),
        prop_name("interrupt-parent"),
        prop_name("interrupts"),
        short_text("virtio,mmio", 11),
{
    reveal_strlit("virtio_mmio");
    reveal_strlit("compatible");
    reveal_strlit("reg");
    reveal_strlit("interrupt-parent");
    reveal_strlit("interrupts");
    reveal_strlit("virtio,mmio");
    assert(is_ascii_chars("virtio,mmio"@));
    is_ascii_chars_encode_utf8("virtio,mmio"@);
}

/// Writes the node of a virtual-I/O device.
fn create_virtio_node(fdt: &mut FdtWriter, dev_info: &MMIODeviceInfo) -> (r: Result<(), FdtError>)
    requires
        0 <= open_depth(written(*old(fdt))) < MAX_NODE_DEPTH,
        dev_info.irq is Some,
    ensures
        appended(written(*old(fdt)), written(*final(fdt)), r, virtio_items(*dev_info)),
{
    broadcast use lemma_depth_push;

    proof {
        lemma_virtio_literals();
        crate::names::lemma_padded_valid(dev_info.addr, 0);
        crate::names::lemma_unit_name_valid(
            "virtio_mmio"@,
            crate::names::hex_digits_padded(dev_info.addr as nat, 0),
        );
    }
    let name = crate::names::node_name_at("virtio_mmio", dev_info.addr, 0);
    let virtio_mmio = lift(fdt.begin_node(name.as_str()))?;
    let irq: [u32; 2] = [dev_info.irq.unwrap(), IRQ_TYPE_EDGE_RISING];
    let reg: [u64; 2] = [dev_info.addr, dev_info.len];

    lift(fdt.property_string("compatible", "virtio,mmio"))?;
    lift(fdt.property_array_u64("reg", reg.as_slice()))?;
    lift(fdt.property_array_u32("interrupts", irq.as_slice()))?;
    lift(fdt.property_u32("interrupt-parent", AIA_APLIC_PHANDLE))?;
    lift(fdt.end_node(virtio_mmio))?;
    assert(irq@ =~= seq![irq_of(*dev_info), IRQ_TYPE_EDGE_RISING]);
    assert(reg@ =~= seq![dev_info.addr, dev_info.len]);
    assert(written(*fdt) =~= written(*old(fdt)) + virtio_items(*dev_info));
    Ok(())
}

/// Writes the node of a serial console.
fn create_serial_node(fdt: &mut FdtWriter, dev_info: &MMIODeviceInfo) -> (r: Result<(), FdtError>)
    requires
        0 <= open_depth(written(*old(fdt))) < MAX_NODE_DEPTH,
        dev_info.irq is Some,
    ensures
        appended(written(*old(fdt)), written(*final(fdt)), r, serial_items(*dev_info)),
{
    broadcast use lemma_depth_push;

    proof {
        lemma_serial_literals();
        crate::names::lemma_padded_valid(dev_info.addr, 0);
        crate::names::lemma_unit_name_valid(
            "serial"@,
            crate::names::hex_digits_padded(dev_info.addr as nat, 0),
        );
    }
    let serial_reg_prop: [u64; 2] = [dev_info.addr, dev_info.len];
    let irq: [u32; 2] = [dev_info.irq.unwrap(), IRQ_TYPE_LEVEL_HI];

    let serial_name = crate::names::node_name_at("serial", dev_info.addr, 0);
    let serial_node = lift(fdt.begin_node(serial_name.as_str()))?;
    lift(fdt.property_string("compatible", "ns16550a"))?;
    lift(fdt.property_array_u64("reg", serial_reg_prop.as_slice()))?;
    lift(fdt.property_u32("clock-frequency", SERIAL_CLOCK_FREQUENCY))?;
    lift(fdt.property_u32("interrupt-parent", AIA_APLIC_PHANDLE))?;
    lift(fdt.property_array_u32("interrupts", irq.as_slice()))?;
    lift(fdt.end_node(serial_node))?;
    assert(irq@ =~= seq![irq_of(*dev_info), IRQ_TYPE_LEVEL_HI]);
    assert(serial_reg_prop@ =~= seq![dev_info.addr, dev_info.len]);
    assert(written(*fdt) =~= written(*old(fdt)) + serial_items(*dev_info));
    Ok(())
}

/// Putting `dev` behind every placement that does not come after it is
/// putting it at the index where those that come after it begin.
proof fn lemma_insert_at(sorted: Seq<MMIODeviceInfo>, dev: MMIODeviceInfo, idx: int)
    requires
        0 <= idx <= sorted.len(),
        forall|j: int| idx <= j < sorted.len() ==> !placement_leq(#[trigger] sorted[j], dev),
        idx > 0 ==> placement_leq(sorted[idx - 1], dev),
    ensures
        insert_by_addr(sorted, dev) == sorted.insert(idx, dev),
    decreases sorted.len(),
{
    if sorted.len() == 0 {
        assert(sorted.insert(idx, dev) =~= seq![dev]);
    } else if idx == sorted.len() {
        assert(sorted.insert(idx, dev) =~= sorted.push(dev));
    } else {
        assert(!placement_leq(sorted[sorted.len() - 1], dev));
        let front = sorted.drop_last();
        assert forall|j: int| idx <= j < front.len() implies !placement_leq(
            #[trigger] front[j],
            dev,
        ) by {
            assert(front[j] == sorted[j]);
        }
        lemma_insert_at(front, dev, idx);
        assert(front.insert(idx, dev).push(sorted.last()) =~= sorted.insert(idx, dev));
    }
}

/// Whether `a` does not come after `b`: by address, then by length, then by
/// interrupt line, a placement without a line first.
pub fn placement_le(a: &MMIODeviceInfo, b: &MMIODeviceInfo) -> (le: bool)
    ensures
        le == placement_leq(*a, *b),
{
    if a.addr != b.addr {
        a.addr < b.addr
    } else if a.len != b.len {
        a.len < b.len
    } else {
        match (a.irq, b.irq) {
            (None, _) => true,
            (Some(_), None) => false,
            (Some(x), Some(y)) => x <= y,
        }
    }
}

/// Puts `dev` into `sorted` behind every placement that does not come after
/// it.
fn insert_sorted(sorted: &mut Vec<MMIODeviceInfo>, dev: MMIODeviceInfo)
    ensures
        final(sorted)@ == insert_by_addr(old(sorted)@, dev),
{
    let mut idx: usize = sorted.len();
    while idx > 0 && !placement_le(&sorted[idx - 1], &dev)
        invariant
            idx <= sorted@.len(),
            sorted@ == old(sorted)@,
            forall|j: int| idx <= j < sorted@.len() ==> !placement_leq(#[trigger] sorted@[j], dev),
        decreases idx,
    {
        idx = idx - 1;
    }
    proof {
        lemma_insert_at(sorted@, dev, idx as int);
    }
    sorted.insert(idx, dev);
}

/// Sorts the placements by address, from low to high; placements at one
/// address by length, then by interrupt line.
pub fn sort_by_addr(devs: &mut Vec<MMIODeviceInfo>)
    ensures
        final(devs)@ == sorted_by_addr(old(devs)@),
{
    let mut sorted: Vec<MMIODeviceInfo> = Vec::new();
    let mut i: usize = 0;
    while i < devs.len()
        invariant
            i <= devs@.len(),
            devs@ == old(devs)@,
            sorted@ == sorted_by_addr(devs@.take(i as int)),
        decreases devs@.len() - i,
    {
        let dev = devs[i];
        assert(devs@.take(i + 1).drop_last() =~= devs@.take(i as int));
        insert_sorted(&mut sorted, dev);
        i = i + 1;
    }
    assert(devs@.take(i as int) =~= devs@);
    *devs = sorted;
}

/// Whether every device has an interrupt line.
pub open spec fn all_wired(devs: Seq<Device>) -> bool {
    forall|i: int| 0 <= i < devs.len() ==> (#[trigger] devs[i]).1.irq is Some
}

/// The number of items in the nodes of some serial consoles.
pub proof fn lemma_serial_nodes_len(devs: Seq<MMIODeviceInfo>)
    ensures
        serial_nodes_items(devs).len() == 7 * devs.len(),
    decreases devs.len(),
{
    if devs.len() > 0 {
        lemma_serial_nodes_len(devs.drop_last());
    }
}

/// The number of items in the nodes of some virtual-I/O devices.
pub proof fn lemma_virtio_nodes_len(devs: Seq<MMIODeviceInfo>)
    ensures
        virtio_nodes_items(devs).len() == 6 * devs.len(),
    decreases devs.len(),
{
    if devs.len() > 0 {
        lemma_virtio_nodes_len(devs.drop_last());
    }
}

/// Every device is a serial console or a virtual-I/O device, and the
/// placements taken from devices with interrupt lines have them.
pub proof fn lemma_split_devices(devs: Seq<Device>)
    ensures
        serial_infos(devs).len() + virtio_infos(devs).len() == devs.len(),
        all_wired(devs) ==> forall|i: int|
            0 <= i < serial_infos(devs).len() ==> (#[trigger] serial_infos(devs)[i]).irq is Some,
        all_wired(devs) ==> forall|i: int|
            0 <= i < virtio_infos(devs).len() ==> (#[trigger] virtio_infos(devs)[i]).irq is Some,
    decreases devs.len(),
{
    if devs.len() > 0 {
        lemma_split_devices(devs.drop_last());
        if all_wired(devs) {
            assert(devs.last().1.irq is Some);
            assert forall|i: int| 0 <= i < devs.drop_last().len() implies (
            #[trigger] devs.drop_last()[i]).1.irq is Some by {
                assert(devs.drop_last()[i] == devs[i]);
            }
        }
    }
}

/// Inserting keeps what was there and adds the new placement.
pub proof fn lemma_insert_keeps(sorted: Seq<MMIODeviceInfo>, dev: MMIODeviceInfo)
    ensures
        insert_by_addr(sorted, dev).len() == sorted.len() + 1,
        insert_by_addr(sorted, dev).to_multiset() == sorted.to_multiset().insert(dev),
    decreases sorted.len(),
{
    broadcast use vstd::seq_lib::group_to_multiset_ensures;

    if sorted.len() == 0 {
        assert(seq![dev] =~= Seq::<MMIODeviceInfo>::empty().push(dev));
    } else if placement_leq(sorted.last(), dev) {
    } else {
        lemma_insert_keeps(sorted.drop_last(), dev);
        assert(sorted =~= sorted.drop_last().push(sorted.last()));
        assert(insert_by_addr(sorted, dev).to_multiset() =~= sorted.to_multiset().insert(dev));
    }
}

/// Sorting keeps the placements: the same ones, each as often as before.
pub proof fn lemma_sorted_is_permutation(devs: Seq<MMIODeviceInfo>)
    ensures
        sorted_by_addr(devs).len() == devs.len(),
        sorted_by_addr(devs).to_multiset() == devs.to_multiset(),
    decreases devs.len(),
{
    broadcast use vstd::seq_lib::group_to_multiset_ensures;

    if devs.len() > 0 {
        lemma_sorted_is_permutation(devs.drop_last());
        lemma_insert_keeps(sorted_by_addr(devs.drop_last()), devs.last());
        assert(devs =~= devs.drop_last().push(devs.last()));
    } else {
        assert(devs =~= Seq::<MMIODeviceInfo>::empty());
    }
}

/// The nodes of the first serial consoles are the start of the nodes of all.
pub proof fn lemma_serial_nodes_prefix(devs: Seq<MMIODeviceInfo>, first: int)
    requires
        0 <= first <= devs.len(),
    ensures
        serial_nodes_items(devs.take(first)).is_prefix_of(serial_nodes_items(devs)),
    decreases devs.len(),
{
    if first < devs.len() {
        lemma_serial_nodes_prefix(devs.drop_last(), first);
        assert(devs.drop_last().take(first) =~= devs.take(first));
    } else {
        assert(devs.take(first) =~= devs);
    }
}

/// The nodes of the first virtual-I/O devices are the start of the nodes of
/// all.
pub proof fn lemma_virtio_nodes_prefix(devs: Seq<MMIODeviceInfo>, first: int)
    requires
        0 <= first <= devs.len(),
    ensures
        virtio_nodes_items(devs.take(first)).is_prefix_of(virtio_nodes_items(devs)),
    decreases devs.len(),
{
    if first < devs.len() {
        lemma_virtio_nodes_prefix(devs.drop_last(), first);
        assert(devs.drop_last().take(first) =~= devs.take(first));
    } else {
        assert(devs.take(first) =~= devs);
    }
}

/// Every placement of a sorted sequence has an interrupt line if every
/// placement had one before.
proof fn lemma_sorted_wired(devs: Seq<MMIODeviceInfo>)
    requires
        forall|i: int| 0 <= i < devs.len() ==> (#[trigger] devs[i]).irq is Some,
    ensures
        sorted_by_addr(devs).len() == devs.len(),
        forall|k: int|
            0 <= k < sorted_by_addr(devs).len() ==> (#[trigger] sorted_by_addr(devs)[k]).irq
                is Some,
{
    broadcast use vstd::seq_lib::group_to_multiset_ensures;

    lemma_sorted_is_permutation(devs);
    let sorted = sorted_by_addr(devs);
    assert forall|k: int| 0 <= k < sorted.len() implies (#[trigger] sorted[k]).irq is Some by {
        assert(sorted.to_multiset().contains(sorted[k]));
        assert(devs.to_multiset().contains(sorted[k]));
        assert(devs.contains(sorted[k]));
    }
}

/// Writes the nodes of the devices: the serial consoles, then the
/// virtual-I/O devices, each class by address from low to high.
fn create_devices_node(fdt: &mut FdtWriter, devices_info: &[Device]) -> (r: Result<(), FdtError>)
    requires
        0 <= open_depth(written(*old(fdt))) < MAX_NODE_DEPTH,
        all_wired(devices_info@),
    ensures
        r is Ok ==> written(*final(fdt)) == written(*old(fdt)) + devices_items(devices_info@)
            && open_depth(written(*final(fdt))) == open_depth(written(*old(fdt))),
        r is Err ==> too_large(r->Err_0) && broke_off(
            written(*old(fdt)),
            written(*final(fdt)),
            devices_items(devices_info@),
        ),
        room_for(written(*old(fdt)), 7 * devices_info@.len()) ==> r is Ok,
{
    let ghost before = written(*fdt);
    let ghost devs = devices_info@;
    // The devices wait here, each class for itself, until all are known.
    let mut ordered_serial_device: Vec<MMIODeviceInfo> = Vec::new();
    let mut ordered_virtio_device: Vec<MMIODeviceInfo> = Vec::new();

    let mut i: usize = 0;
    while i < devices_info.len()
        invariant
            i <= devs.len(),
            devs == devices_info@,
            ordered_serial_device@ == serial_infos(devs.take(i as int)),
            ordered_virtio_device@ == virtio_infos(devs.take(i as int)),
        decreases devs.len() - i,
    {
        let device_type = devices_info[i].0;
        let info = devices_info[i].1;
        proof {
            assert(devs.take(i + 1).drop_last() =~= devs.take(i as int));
            assert(devs.take(i + 1).last() == devs[i as int]);
        }
        match device_type {
            DeviceType::Serial => {
                ordered_serial_device.push(info);
            },
            DeviceType::Virtio(_) => {
                ordered_virtio_device.push(info);
            },
        }
        i = i + 1;
    }
    proof {
        assert(devs.take(i as int) =~= devs);
        lemma_split_devices(devs);
        lemma_sorted_wired(serial_infos(devs));
        lemma_sorted_wired(virtio_infos(devs));
    }

    // Sort each class by address and write it.
    sort_by_addr(&mut ordered_serial_device);
    sort_by_addr(&mut ordered_virtio_device);
    let ghost serial = sorted_by_addr(serial_infos(devs));
    let ghost virtio = sorted_by_addr(virtio_infos(devs));
    let mut k: usize = 0;
    while k < ordered_serial_device.len()
        invariant
            k <= serial.len(),
            serial == ordered_serial_device@,
            serial.len() + virtio.len() == devs.len(),
            devs == devices_info@,
            before == written(*old(fdt)),
            forall|j: int| 0 <= j < serial.len() ==> (#[trigger] serial[j]).irq is Some,
            serial == sorted_by_addr(serial_infos(devs)),
            virtio == sorted_by_addr(virtio_infos(devs)),
            0 <= open_depth(before) < MAX_NODE_DEPTH,
            open_depth(written(*fdt)) == open_depth(before),
            written(*fdt) == before + serial_nodes_items(serial.take(k as int)),
        ensures
            k == serial.len(),
        decreases serial.len() - k,
    {
        let ordered_device_info = ordered_serial_device[k];
        let ghost here = written(*fdt);
        proof {
            assert(serial.take(k + 1).drop_last() =~= serial.take(k as int));
            lemma_serial_nodes_len(serial.take(k as int));
            lemma_serial_nodes_prefix(serial, k + 1);
            assert(here + serial_items(serial[k as int]) =~= before + serial_nodes_items(
                serial.take(k + 1),
            ));
            assert((here + serial_items(serial[k as int])).is_prefix_of(
                before + devices_items(devs),
            ));
            lemma_broke_off_within(
                before,
                here,
                serial_items(serial[k as int]),
                devices_items(devs),
            );
        }
        create_serial_node(fdt, &ordered_device_info)?;
        assert(written(*fdt) =~= before + serial_nodes_items(serial.take(k + 1)));
        k = k + 1;
    }
    let ghost serial_part = before + serial_nodes_items(serial);
    proof {
        assert(serial.take(k as int) =~= serial);
        lemma_serial_nodes_len(serial);
    }
    let mut k: usize = 0;
    while k < ordered_virtio_device.len()
        invariant
            k <= virtio.len(),
            virtio == ordered_virtio_device@,
            serial.len() + virtio.len() == devs.len(),
            serial_part == before + serial_nodes_items(serial),
            serial_nodes_items(serial).len() == 7 * serial.len(),
            devs == devices_info@,
            before == written(*old(fdt)),
            forall|j: int| 0 <= j < virtio.len() ==> (#[trigger] virtio[j]).irq is Some,
            serial == sorted_by_addr(serial_infos(devs)),
            virtio == sorted_by_addr(virtio_infos(devs)),
            0 <= open_depth(before) < MAX_NODE_DEPTH,
            open_depth(written(*fdt)) == open_depth(before),
            written(*fdt) == serial_part + virtio_nodes_items(virtio.take(k as int)),
        ensures
            k == virtio.len(),
        decreases virtio.len() - k,
    {
        let ordered_device_info = ordered_virtio_device[k];
        let ghost here = written(*fdt);
        proof {
            assert(virtio.take(k + 1).drop_last() =~= virtio.take(k as int));
            lemma_virtio_nodes_len(virtio.take(k as int));
            lemma_virtio_nodes_prefix(virtio, k + 1);
            assert(here + virtio_items(virtio[k as int]) =~= serial_part + virtio_nodes_items(
                virtio.take(k + 1),
            ));
            assert((here + virtio_items(virtio[k as int])).is_prefix_of(
                before + devices_items(devs),
            ));
            lemma_broke_off_within(
                before,
                here,
                virtio_items(virtio[k as int]),
                devices_items(devs),
            );
        }
        create_virtio_node(fdt, &ordered_device_info)?;
        assert(written(*fdt) =~= serial_part + virtio_nodes_items(virtio.take(k + 1)));
        k = k + 1;
    }
    assert(virtio.take(k as int) =~= virtio);
    assert(written(*fdt) =~= before + devices_items(devs));
    Ok(())
}

/// What making the blob returns.
///
/// A command line that is no text is refused. With message-signaled
/// receivers and no number of interrupt identities there is no blob. Else the
/// blob is that of the tree of the guest; it can be refused as too large only
/// where the command line or the number of devices is beyond what the
/// platform allows.
pub open spec fn fdt_outcome(
    r: Result<Vec<u8>, FdtError>,
    mem: GuestMemory,
    cmdline: Seq<u8>,
    timer_freq: u32,
    devs: Seq<Device>,
    aia: AIADevice,
    nr_ids: Option<u32>,
) -> bool {
    match cmdline_text(cmdline) {
        None => r == Err::<Vec<u8>, FdtError>(FdtError::CreateFdt(VmFdtError::InvalidString)),
        Some(t) => if aia.spec_msi() && nr_ids is None {
            r is Err && if cmdline.len() < u32::MAX {
                r->Err_0 == FdtError::GetDeviceAttr
            } else {
                r->Err_0 == FdtError::GetDeviceAttr || too_large(r->Err_0)
            }
        } else {
            match r {
                Ok(blob) => blob@ == crate::writer::blob_of(
                    fdt_items(mem, t, timer_freq, devs, aia, nr_ids),
                ),
                Err(e) => too_large(e) && (cmdline.len() > CMDLINE_MAX_SIZE || devs.len()
                    > IRQ_MAX),
            }
        },
    }
}

/// The writer takes the names and the text of the root node.
proof fn lemma_root_literals()
    ensures
        !has_nul(""@),
        ""@.len() == 0,
        prop_name("compatible"),
        prop_name("#address-cells"),
        prop_name("#size-cells"),
        short_text("linux,dummy-virt", 16),
{
    reveal_strlit("");
    reveal_strlit("compatible");
    reveal_strlit("#address-cells");
    reveal_strlit("#size-cells");
    reveal_strlit("linux,dummy-virt");
    assert(is_ascii_chars("linux,dummy-virt"@));
    is_ascii_chars_encode_utf8("linux,dummy-virt"@);
}

/// Makes the device tree blob of a guest.
///
/// `cmdline` is the kernel command line without its closing NUL. `nr_ids` is
/// the number of interrupt identities that the interrupt controller reported,
/// if it was asked and answered: it is needed where the controller has
/// message-signaled receivers. The guest's RAM reaches beyond the memory
/// reserved for the system, and every device has an interrupt line.
pub fn create_fdt(
    guest_mem: &GuestMemory,
    cmdline: Vec<u8>,
    timer_freq: u32,
    device_info: &[Device],
    aia_device: &AIADevice,
    nr_ids: Option<u32>,
) -> (r: Result<Vec<u8>, FdtError>)
    requires
        guest_mem.spec_size() > SYSTEM_MEM_SIZE,
        all_wired(device_info@),
    ensures
        fdt_outcome(r, *guest_mem, cmdline@, timer_freq, device_info@, *aia_device, nr_ids),
{
    broadcast use lemma_depth_push;

    proof {
        lemma_root_literals();
    }
    let ghost bytes = cmdline@;
    let ghost devs = device_info@;
    let mut fdt_writer = lift(FdtWriter::new())?;

    let vcpu_count = aia_device.vcpu_count();
    let root = lift(fdt_writer.begin_node(""))?;

    lift(fdt_writer.property_string("compatible", "linux,dummy-virt"))?;
    lift(fdt_writer.property_u32("#address-cells", ADDRESS_CELLS))?;
    lift(fdt_writer.property_u32("#size-cells", SIZE_CELLS))?;
    assert(written(fdt_writer) =~= root_header());
    proof {
        lemma_cpu_nodes_len(vcpu_count as nat);
    }
    create_cpu_nodes(&mut fdt_writer, vcpu_count as u32, timer_freq)?;
    create_memory_node(&mut fdt_writer, guest_mem)?;
    let ghost upto_memory = written(fdt_writer);
    create_chosen_node(&mut fdt_writer, cmdline)?;
    let ghost t = cmdline_text(bytes).unwrap();
    proof {
        decode_utf8_encode_utf8(bytes);
        crate::fdt_size::lemma_aia_small(*aia_device, nr_ids);
    }
    create_aia_node(&mut fdt_writer, aia_device, nr_ids)?;
    let ghost upto_aia = written(fdt_writer);
    create_devices_node(&mut fdt_writer, device_info)?;

    lift(fdt_writer.end_node(root))?;
    assert(written(fdt_writer) =~= fdt_items(
        *guest_mem,
        t,
        timer_freq,
        devs,
        *aia_device,
        nr_ids,
    ));
    proof {
        if bytes.len() <= CMDLINE_MAX_SIZE && devs.len() <= IRQ_MAX {
            crate::fdt_size::lemma_fdt_small(
                *guest_mem,
                t,
                timer_freq,
                devs,
                *aia_device,
                nr_ids,
            );
        }
    }

    let fdt_final = lift(fdt_writer.finish())?;

    Ok(fdt_final)
}

} // verus!
