//! How large the blob of a guest's device tree can get.

use vstd::prelude::*;
use crate::aia::AIADevice;
use crate::device::{Device, MMIODeviceInfo};
use crate::fdt::{
    lemma_aplic_literals, lemma_chosen_literals, lemma_cpu_literals, lemma_cpu_nodes_len,
    lemma_cpus_literals, lemma_hart_links_len, lemma_imsic_literals, lemma_memory_literals,
    lemma_serial_literals, lemma_serial_nodes_len, lemma_sorted_is_permutation, lemma_split_devices,
    lemma_virtio_literals, lemma_virtio_nodes_len,
};
use crate::fdt_items::{
    aia_items, aplic_header, aplic_items, chosen_items, cpu_items, cpu_nodes_items, cpus_header,
    cpus_items, devices_items, fdt_items, imsic_items, memory_items, root_header, serial_infos,
    serial_items, serial_nodes_items, sorted_by_addr, virtio_infos, virtio_items,
    virtio_nodes_items, IMSIC_NAME_WIDTH,
};
use crate::layout::{APLIC_START, IMSIC_START};
use crate::memory::GuestMemory;
use crate::names::{hex_digits_padded, lemma_padded_valid, lemma_unit_name_valid};
use crate::tree::{blob_bytes_bound, item_bytes_bound, Item, Items};
use vstd::utf8::encode_utf8;

verus! {

/// No item of a tree of a guest is larger than this, in bytes, unless the
/// command line is.
pub const ITEM_BYTES_MAX: u32 = 4096;

/// Whether no item takes more than `ITEM_BYTES_MAX` bytes.
pub open spec fn all_small(items: Items) -> bool {
    forall|i: int| 0 <= i < items.len() ==> item_bytes_bound(#[trigger] items[i]) <= ITEM_BYTES_MAX
}

/// A tree of small items makes a blob of a size in proportion to their
/// number.
pub proof fn lemma_small_items_bound(items: Items)
    requires
        all_small(items),
    ensures
        blob_bytes_bound(items) <= 60 + (ITEM_BYTES_MAX + 32) * items.len(),
    decreases items.len(),
{
    if items.len() > 0 {
        assert forall|i: int| 0 <= i < items.drop_last().len() implies item_bytes_bound(
            #[trigger] items.drop_last()[i],
        ) <= ITEM_BYTES_MAX by {
            assert(items.drop_last()[i] == items[i]);
        }
        lemma_small_items_bound(items.drop_last());
        assert(item_bytes_bound(items.last()) <= ITEM_BYTES_MAX);
    }
}

/// Small items behind small items are small items.
pub proof fn lemma_small_concat(a: Items, b: Items)
    requires
        all_small(a),
        all_small(b),
    ensures
        all_small(a + b),
{
    assert forall|i: int| 0 <= i < (a + b).len() implies item_bytes_bound(#[trigger] (a + b)[i])
        <= ITEM_BYTES_MAX by {
        if i < a.len() {
            assert((a + b)[i] == a[i]);
        } else {
            assert((a + b)[i] == b[i - a.len()]);
        }
    }
}

/// The items at the start of the root node are small.
proof fn lemma_root_small()
    ensures
        all_small(root_header()),
{
    reveal_strlit("");
    reveal_strlit("linux,dummy-virt");
    assert(vstd::utf8::is_ascii_chars("linux,dummy-virt"@));
    vstd::utf8::is_ascii_chars_encode_utf8("linux,dummy-virt"@);
}

/// The items of the node of a hart are small.
proof fn lemma_cpu_small(index: u32)
    ensures
        all_small(cpu_items(index)),
{
    lemma_cpu_literals();
    lemma_padded_valid(index as u64, 0);
    lemma_unit_name_valid("cpu"@, hex_digits_padded(index as nat, 0));
}

/// The items of the nodes of the harts are small.
proof fn lemma_cpu_nodes_small(count: nat)
    ensures
        all_small(cpu_nodes_items(count)),
    decreases count,
{
    if count > 0 {
        lemma_cpu_nodes_small((count - 1) as nat);
        lemma_cpu_small((count - 1) as u32);
        lemma_small_concat(cpu_nodes_items((count - 1) as nat), cpu_items((count - 1) as u32));
    }
}

/// The items of the `cpus` node are small.
proof fn lemma_cpus_small(vcpu_count: u32, timer_freq: u32)
    ensures
        all_small(cpus_items(vcpu_count, timer_freq)),
{
    lemma_cpus_literals();
    lemma_cpu_nodes_small(vcpu_count as nat);
    assert(all_small(cpus_header(timer_freq)));
    lemma_small_concat(cpus_header(timer_freq), cpu_nodes_items(vcpu_count as nat));
    assert(all_small(seq![Item::End]));
    lemma_small_concat(
        cpus_header(timer_freq) + cpu_nodes_items(vcpu_count as nat),
        seq![Item::End],
    );
}

/// The items of the memory node are small.
proof fn lemma_memory_small(mem: GuestMemory)
    ensures
        all_small(memory_items(mem)),
{
    lemma_memory_literals();
    reveal_strlit("memory@ram");
}

/// The items of the `chosen` node are small where the command line is short.
proof fn lemma_chosen_small(cmdline: Seq<char>)
    requires
        encode_utf8(cmdline).len() + 17 <= ITEM_BYTES_MAX,
    ensures
        all_small(chosen_items(cmdline)),
{
    lemma_chosen_literals();
}

/// The items of the nodes of the interrupt controller are small and few.
pub(crate) proof fn lemma_aia_small(aia: AIADevice, nr_ids: Option<u32>)
    ensures
        all_small(aia_items(aia, nr_ids)),
        aia_items(aia, nr_ids).len() <= 19,
{
    lemma_imsic_literals();
    lemma_aplic_literals();
    lemma_hart_links_len(aia.spec_vcpu_count() as nat);
    lemma_padded_valid(IMSIC_START, IMSIC_NAME_WIDTH as nat);
    lemma_unit_name_valid("imsics"@, hex_digits_padded(IMSIC_START as nat, IMSIC_NAME_WIDTH as nat));
    lemma_padded_valid(APLIC_START, 0);
    lemma_unit_name_valid("aplic"@, hex_digits_padded(APLIC_START as nat, 0));
    assert(all_small(imsic_items(aia, nr_ids.unwrap())));
    assert(all_small(aplic_header(aia)));
    assert(all_small(aplic_items(aia))) by {
        if aia.spec_msi() {
            reveal_strlit("msi-parent");
            assert(all_small(seq![crate::fdt_items::cell_prop("msi-parent", 2), Item::End]));
            lemma_small_concat(
                aplic_header(aia),
                seq![crate::fdt_items::cell_prop("msi-parent", 2), Item::End],
            );
        } else {
            assert(all_small(seq![Item::End]));
            lemma_small_concat(aplic_header(aia), seq![Item::End]);
        }
    }
    if aia.spec_msi() {
        lemma_small_concat(imsic_items(aia, nr_ids.unwrap()), aplic_items(aia));
    }
}

/// The items of the nodes of serial consoles are small.
proof fn lemma_serial_nodes_small(devs: Seq<MMIODeviceInfo>)
    ensures
        all_small(serial_nodes_items(devs)),
    decreases devs.len(),
{
    if devs.len() > 0 {
        lemma_serial_nodes_small(devs.drop_last());
        lemma_serial_literals();
        lemma_padded_valid(devs.last().addr, 0);
        lemma_unit_name_valid("serial"@, hex_digits_padded(devs.last().addr as nat, 0));
        assert(all_small(serial_items(devs.last())));
        lemma_small_concat(serial_nodes_items(devs.drop_last()), serial_items(devs.last()));
    }
}

/// The items of the nodes of virtual-I/O devices are small.
proof fn lemma_virtio_nodes_small(devs: Seq<MMIODeviceInfo>)
    ensures
        all_small(virtio_nodes_items(devs)),
    decreases devs.len(),
{
    if devs.len() > 0 {
        lemma_virtio_nodes_small(devs.drop_last());
        lemma_virtio_literals();
        lemma_padded_valid(devs.last().addr, 0);
        lemma_unit_name_valid("virtio_mmio"@, hex_digits_padded(devs.last().addr as nat, 0));
        assert(all_small(virtio_items(devs.last())));
        lemma_small_concat(virtio_nodes_items(devs.drop_last()), virtio_items(devs.last()));
    }
}

/// The nodes of the devices: at most seven small items for each.
pub proof fn lemma_devices_small(devs: Seq<Device>)
    ensures
        all_small(devices_items(devs)),
        devices_items(devs).len() <= 7 * devs.len(),
{
    lemma_split_devices(devs);
    lemma_sorted_is_permutation(serial_infos(devs));
    lemma_sorted_is_permutation(virtio_infos(devs));
    lemma_serial_nodes_len(sorted_by_addr(serial_infos(devs)));
    lemma_virtio_nodes_len(sorted_by_addr(virtio_infos(devs)));
    lemma_serial_nodes_small(sorted_by_addr(serial_infos(devs)));
    lemma_virtio_nodes_small(sorted_by_addr(virtio_infos(devs)));
    lemma_small_concat(
        serial_nodes_items(sorted_by_addr(serial_infos(devs))),
        virtio_nodes_items(sorted_by_addr(virtio_infos(devs))),
    );
}

/// The tree of a guest whose command line is short has small items only, and
/// at most 3870 of them besides those of the devices.
pub proof fn lemma_fdt_small(
    mem: GuestMemory,
    cmdline: Seq<char>,
    timer_freq: u32,
    devs: Seq<Device>,
    aia: AIADevice,
    nr_ids: Option<u32>,
)
    requires
        encode_utf8(cmdline).len() + 17 <= ITEM_BYTES_MAX,
    ensures
        all_small(fdt_items(mem, cmdline, timer_freq, devs, aia, nr_ids)),
        fdt_items(mem, cmdline, timer_freq, devs, aia, nr_ids).len() <= 3870 + 7 * devs.len(),
        blob_bytes_bound(fdt_items(mem, cmdline, timer_freq, devs, aia, nr_ids)) <= 60 + (
        ITEM_BYTES_MAX + 32) * (3870 + 7 * devs.len()),
{
    let n = aia.spec_vcpu_count() as u32;
    lemma_root_small();
    lemma_cpus_small(n, timer_freq);
    lemma_cpu_nodes_len(n as nat);
    lemma_memory_small(mem);
    lemma_chosen_small(cmdline);
    lemma_aia_small(aia, nr_ids);
    lemma_devices_small(devs);
    let a = root_header();
    let b = a + cpus_items(n, timer_freq);
    let c = b + memory_items(mem);
    let d = c + chosen_items(cmdline);
    let e = d + aia_items(aia, nr_ids);
    let f = e + devices_items(devs);
    lemma_small_concat(a, cpus_items(n, timer_freq));
    lemma_small_concat(b, memory_items(mem));
    lemma_small_concat(c, chosen_items(cmdline));
    lemma_small_concat(d, aia_items(aia, nr_ids));
    lemma_small_concat(e, devices_items(devs));
    assert(all_small(seq![Item::End]));
    lemma_small_concat(f, seq![Item::End]);
    lemma_small_items_bound(fdt_items(mem, cmdline, timer_freq, devs, aia, nr_ids));
}

} // verus!
