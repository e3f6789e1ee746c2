//! The order of the device nodes: what the tree holds does not depend on the
//! order in which the devices are given.

use vstd::prelude::*;
use vstd::relations::{sorted_by, total_ordering};
use vstd::seq_lib::{group_to_multiset_ensures, lemma_sorted_unique};
use crate::aia::AIADevice;
use crate::device::{Device, MMIODeviceInfo};
use crate::fdt::{
    fdt_outcome, FdtError, lemma_serial_nodes_len, lemma_sorted_is_permutation,
    lemma_virtio_nodes_len,
};
use crate::fdt_items::{
    devices_items, fdt_items, insert_by_addr, placement_leq, serial_infos, serial_items,
    serial_nodes_items, sorted_by_addr, virtio_infos, virtio_items, virtio_nodes_items,
};
use crate::layout::{CMDLINE_MAX_SIZE, IRQ_MAX};
use crate::memory::GuestMemory;

verus! {

/// Whether each placement comes before those behind it, or is like them.
pub open spec fn ordered(devs: Seq<MMIODeviceInfo>) -> bool {
    forall|i: int, j: int| 0 <= i < j < devs.len() ==> placement_leq(devs[i], devs[j])
}

/// Whether the addresses go up from each placement to the next, or at least
/// not down.
pub open spec fn ascending(devs: Seq<MMIODeviceInfo>) -> bool {
    forall|i: int, j: int| 0 <= i < j < devs.len() ==> devs[i].addr <= devs[j].addr
}

/// Whether no two placements have one address.
pub open spec fn distinct_addrs(devs: Seq<MMIODeviceInfo>) -> bool {
    forall|i: int, j: int| 0 <= i < j < devs.len() ==> devs[i].addr != devs[j].addr
}

/// Whether the addresses go up from each placement to the next.
pub open spec fn strictly_ascending(devs: Seq<MMIODeviceInfo>) -> bool {
    forall|i: int, j: int| 0 <= i < j < devs.len() ==> devs[i].addr < devs[j].addr
}

/// A placement put into ordered ones leaves them ordered, and adds nothing
/// but itself.
pub proof fn lemma_insert_ordered(sorted: Seq<MMIODeviceInfo>, dev: MMIODeviceInfo)
    requires
        ordered(sorted),
    ensures
        ordered(insert_by_addr(sorted, dev)),
        insert_by_addr(sorted, dev).len() == sorted.len() + 1,
        forall|i: int|
            0 <= i < sorted.len() + 1 ==> (#[trigger] insert_by_addr(sorted, dev)[i]) == dev
                || sorted.contains(insert_by_addr(sorted, dev)[i]),
    decreases sorted.len(),
{
    let out = insert_by_addr(sorted, dev);
    if sorted.len() == 0 {
    } else if placement_leq(sorted.last(), dev) {
        assert forall|i: int| 0 <= i < sorted.len() + 1 implies (#[trigger] out[i]) == dev
            || sorted.contains(out[i]) by {
            if i < sorted.len() {
                assert(sorted[i] == out[i]);
            }
        }
        assert forall|i: int, j: int| 0 <= i < j < out.len() implies placement_leq(
            out[i],
            out[j],
        ) by {
            if j == sorted.len() {
                if i < sorted.len() - 1 {
                    assert(placement_leq(sorted[i], sorted[sorted.len() - 1]));
                }
            } else {
                assert(placement_leq(sorted[i], sorted[j]));
            }
        }
    } else {
        let front = sorted.drop_last();
        assert(ordered(front)) by {
            assert forall|i: int, j: int| 0 <= i < j < front.len() implies placement_leq(
                front[i],
                front[j],
            ) by {
                assert(placement_leq(sorted[i], sorted[j]));
            }
        }
        lemma_insert_ordered(front, dev);
        let inner = insert_by_addr(front, dev);
        assert forall|i: int| 0 <= i < inner.len() implies placement_leq(
            #[trigger] inner[i],
            sorted.last(),
        ) by {
            if inner[i] != dev {
                let k = choose|k: int| 0 <= k < front.len() && front[k] == inner[i];
                assert(placement_leq(sorted[k], sorted[sorted.len() - 1]));
            }
        }
        assert forall|i: int| 0 <= i < sorted.len() + 1 implies (#[trigger] out[i]) == dev
            || sorted.contains(out[i]) by {
            if i < inner.len() {
                if inner[i] != dev {
                    let k = choose|k: int| 0 <= k < front.len() && front[k] == inner[i];
                    assert(sorted[k] == out[i]);
                }
            } else {
                assert(sorted[sorted.len() - 1] == out[i]);
            }
        }
        assert forall|i: int, j: int| 0 <= i < j < out.len() implies placement_leq(
            out[i],
            out[j],
        ) by {
            if j < inner.len() {
                assert(placement_leq(inner[i], inner[j]));
            } else {
                assert(placement_leq(inner[i], sorted.last()));
            }
        }
    }
}

/// Sorted placements are ordered.
pub proof fn lemma_sorted_ordered(devs: Seq<MMIODeviceInfo>)
    ensures
        ordered(sorted_by_addr(devs)),
    decreases devs.len(),
{
    if devs.len() > 0 {
        lemma_sorted_ordered(devs.drop_last());
        lemma_insert_ordered(sorted_by_addr(devs.drop_last()), devs.last());
    }
}

/// The same placements in another order sit at different addresses if they
/// did before.
pub proof fn lemma_distinct_permuted(a: Seq<MMIODeviceInfo>, b: Seq<MMIODeviceInfo>)
    requires
        a.to_multiset() == b.to_multiset(),
        distinct_addrs(a),
    ensures
        distinct_addrs(b),
{
    broadcast use group_to_multiset_ensures;

    assert(a.no_duplicates());
    a.lemma_multiset_has_no_duplicates();
    b.lemma_multiset_has_no_duplicates_conv();
    assert forall|i: int, j: int| 0 <= i < j < b.len() implies b[i].addr != b[j].addr by {
        assert(b.to_multiset().count(b[i]) > 0);
        assert(b.to_multiset().count(b[j]) > 0);
        assert(a.contains(b[i]) && a.contains(b[j]));
        let p = choose|p: int| 0 <= p < a.len() && a[p] == b[i];
        let q = choose|q: int| 0 <= q < a.len() && a[q] == b[j];
        assert(b[i] != b[j]);
        assert(p != q);
    }
}

/// Device ordering: the sorted placements are in ascending order of address;
/// where no two have one address, in strictly ascending order.
pub proof fn lemma_sorted_ascending(devs: Seq<MMIODeviceInfo>)
    ensures
        ascending(sorted_by_addr(devs)),
        distinct_addrs(devs) ==> strictly_ascending(sorted_by_addr(devs)),
{
    let sorted = sorted_by_addr(devs);
    lemma_sorted_ordered(devs);
    assert forall|i: int, j: int| 0 <= i < j < sorted.len() implies sorted[i].addr
        <= sorted[j].addr by {
        assert(placement_leq(sorted[i], sorted[j]));
    }
    if distinct_addrs(devs) {
        lemma_sorted_is_permutation(devs);
        lemma_distinct_permuted(devs, sorted);
    }
}

/// The same placements, sorted, are the same whatever order they came in.
pub proof fn lemma_sorted_unique_by_addr(a: Seq<MMIODeviceInfo>, b: Seq<MMIODeviceInfo>)
    requires
        a.to_multiset() == b.to_multiset(),
    ensures
        sorted_by_addr(a) == sorted_by_addr(b),
{
    lemma_sorted_ordered(a);
    lemma_sorted_ordered(b);
    lemma_sorted_is_permutation(a);
    lemma_sorted_is_permutation(b);
    let sa = sorted_by_addr(a);
    let sb = sorted_by_addr(b);
    let leq = |x: MMIODeviceInfo, y: MMIODeviceInfo| placement_leq(x, y);
    assert(total_ordering(leq)) by {
        assert forall|x: MMIODeviceInfo, y: MMIODeviceInfo| #[trigger]
            leq(x, y) && leq(y, x) implies x == y by {
            assert(x.addr == y.addr && x.len == y.len);
            assert(x.irq == y.irq);
        }
    }
    assert(sorted_by(sa, leq)) by {
        assert forall|i: int, j: int| 0 <= i < j < sa.len() implies #[trigger] leq(
            sa[i],
            sa[j],
        ) by {
            assert(placement_leq(sa[i], sa[j]));
        }
    }
    assert(sorted_by(sb, leq)) by {
        assert forall|i: int, j: int| 0 <= i < j < sb.len() implies #[trigger] leq(
            sb[i],
            sb[j],
        ) by {
            assert(placement_leq(sb[i], sb[j]));
        }
    }
    lemma_sorted_unique(sa, sb, leq);
}

/// The serial consoles among devices given one after the other.
pub proof fn lemma_serial_infos_concat(a: Seq<Device>, b: Seq<Device>)
    ensures
        serial_infos(a + b) == serial_infos(a) + serial_infos(b),
        virtio_infos(a + b) == virtio_infos(a) + virtio_infos(b),
    decreases b.len(),
{
    if b.len() == 0 {
        assert(a + b =~= a);
        assert(serial_infos(a) + serial_infos(b) =~= serial_infos(a));
        assert(virtio_infos(a) + virtio_infos(b) =~= virtio_infos(a));
    } else {
        lemma_serial_infos_concat(a, b.drop_last());
        assert((a + b).drop_last() =~= a + b.drop_last());
        assert((a + b).last() == b.last());
        assert(serial_infos(a + b) =~= serial_infos(a) + serial_infos(b));
        assert(virtio_infos(a + b) =~= virtio_infos(a) + virtio_infos(b));
    }
}

/// The same devices in another order have the same serial consoles and the
/// same virtual-I/O devices, each as often, in some order.
pub proof fn lemma_split_permutation(a: Seq<Device>, b: Seq<Device>)
    requires
        a.to_multiset() == b.to_multiset(),
    ensures
        serial_infos(a).to_multiset() == serial_infos(b).to_multiset(),
        virtio_infos(a).to_multiset() == virtio_infos(b).to_multiset(),
    decreases a.len(),
{
    broadcast use group_to_multiset_ensures;

    vstd::seq_lib::to_multiset_len(a);
    vstd::seq_lib::to_multiset_len(b);
    assert(a.len() == b.len());
    if a.len() == 0 {
        assert(a =~= Seq::<Device>::empty());
        assert(b =~= Seq::<Device>::empty());
    } else {
        let x = a.last();
        assert(a =~= a.drop_last().push(x));
        assert(b.to_multiset().count(x) > 0);
        assert(b.contains(x));
        let j = choose|j: int| 0 <= j < b.len() && b[j] == x;
        let rest = b.remove(j);
        assert(a.drop_last().to_multiset() =~= rest.to_multiset()) by {
            assert(a.drop_last() =~= a.remove(a.len() - 1));
        }
        lemma_split_permutation(a.drop_last(), rest);
        let head = b.subrange(0, j);
        let tail = b.subrange(j + 1, b.len() as int);
        assert(b =~= head + seq![x] + tail);
        assert(rest =~= head + tail);
        lemma_serial_infos_concat(head, seq![x]);
        lemma_serial_infos_concat(head + seq![x], tail);
        lemma_serial_infos_concat(head, tail);
        assert(seq![x].drop_last() =~= Seq::<Device>::empty());
        assert(serial_infos(Seq::<Device>::empty()) =~= Seq::<MMIODeviceInfo>::empty());
        assert(virtio_infos(Seq::<Device>::empty()) =~= Seq::<MMIODeviceInfo>::empty());
        vstd::seq_lib::lemma_multiset_commutative(serial_infos(head), serial_infos(tail));
        vstd::seq_lib::lemma_multiset_commutative(virtio_infos(head), virtio_infos(tail));
        vstd::seq_lib::lemma_multiset_commutative(
            serial_infos(head) + serial_infos(seq![x]),
            serial_infos(tail),
        );
        vstd::seq_lib::lemma_multiset_commutative(
            virtio_infos(head) + virtio_infos(seq![x]),
            virtio_infos(tail),
        );
        vstd::seq_lib::lemma_multiset_commutative(serial_infos(head), serial_infos(seq![x]));
        vstd::seq_lib::lemma_multiset_commutative(virtio_infos(head), virtio_infos(seq![x]));
        if x.0 is Serial {
            assert(serial_infos(seq![x]) =~= seq![x.1]);
            assert(virtio_infos(seq![x]) =~= Seq::<MMIODeviceInfo>::empty());
            assert(seq![x.1] =~= Seq::<MMIODeviceInfo>::empty().push(x.1));
        } else {
            assert(virtio_infos(seq![x]) =~= seq![x.1]);
            assert(serial_infos(seq![x]) =~= Seq::<MMIODeviceInfo>::empty());
            assert(seq![x.1] =~= Seq::<MMIODeviceInfo>::empty().push(x.1));
        }
        assert(serial_infos(a).to_multiset() =~= serial_infos(b).to_multiset());
        assert(virtio_infos(a).to_multiset() =~= virtio_infos(b).to_multiset());
    }
}

/// Determinism: the nodes of the devices do not depend on the order in which
/// the devices are given.
pub proof fn lemma_devices_order_independent(a: Seq<Device>, b: Seq<Device>)
    requires
        a.to_multiset() == b.to_multiset(),
    ensures
        devices_items(a) == devices_items(b),
{
    lemma_split_permutation(a, b);
    lemma_sorted_unique_by_addr(serial_infos(a), serial_infos(b));
    lemma_sorted_unique_by_addr(virtio_infos(a), virtio_infos(b));
}

/// Determinism: the tree of a guest does not depend on the order in which
/// its devices are given.
pub proof fn lemma_fdt_order_independent(
    mem: GuestMemory,
    cmdline: Seq<char>,
    timer_freq: u32,
    a: Seq<Device>,
    b: Seq<Device>,
    aia: AIADevice,
    nr_ids: Option<u32>,
)
    requires
        a.to_multiset() == b.to_multiset(),
    ensures
        fdt_items(mem, cmdline, timer_freq, a, aia, nr_ids) == fdt_items(
            mem,
            cmdline,
            timer_freq,
            b,
            aia,
            nr_ids,
        ),
{
    lemma_devices_order_independent(a, b);
}

/// The serial consoles are untouched by the virtual-I/O devices: two sets
/// of devices with the same serial consoles have the same serial nodes, in
/// the same place.
pub proof fn lemma_serial_nodes_apart(a: Seq<Device>, b: Seq<Device>)
    requires
        serial_infos(a).to_multiset() == serial_infos(b).to_multiset(),
    ensures
        serial_infos(a).len() == serial_infos(b).len(),
        devices_items(a).subrange(0, 7 * serial_infos(a).len() as int) == devices_items(
            b,
        ).subrange(0, 7 * serial_infos(a).len() as int),
{
    vstd::seq_lib::to_multiset_len(serial_infos(a));
    vstd::seq_lib::to_multiset_len(serial_infos(b));
    lemma_sorted_unique_by_addr(serial_infos(a), serial_infos(b));
    lemma_sorted_is_permutation(serial_infos(a));
    let serial = sorted_by_addr(serial_infos(a));
    lemma_serial_nodes_len(serial);
    assert(devices_items(a).subrange(0, 7 * serial_infos(a).len() as int) =~= serial_nodes_items(
        serial,
    ));
    assert(devices_items(b).subrange(0, 7 * serial_infos(a).len() as int) =~= serial_nodes_items(
        serial,
    ));
}

/// Device ordering: among the nodes of the devices, those of the serial
/// consoles come first, in ascending order of address; the node of the
/// virtual-I/O device that is `k`-th by address comes `k`-th behind them.
pub proof fn lemma_device_node_positions(devs: Seq<Device>, k: int)
    requires
        0 <= k < virtio_infos(devs).len(),
    ensures
        sorted_by_addr(virtio_infos(devs)).len() == virtio_infos(devs).len(),
        ascending(sorted_by_addr(virtio_infos(devs))),
        ascending(sorted_by_addr(serial_infos(devs))),
        devices_items(devs).len() == 7 * serial_infos(devs).len() + 6 * virtio_infos(devs).len(),
        devices_items(devs).subrange(0, 7 * serial_infos(devs).len() as int) == serial_nodes_items(
            sorted_by_addr(serial_infos(devs)),
        ),
        devices_items(devs).subrange(
            7 * serial_infos(devs).len() + 6 * k,
            7 * serial_infos(devs).len() + 6 * k + 6,
        ) == virtio_items(sorted_by_addr(virtio_infos(devs))[k]),
{
    let serial = serial_nodes_items(sorted_by_addr(serial_infos(devs)));
    let sorted = sorted_by_addr(virtio_infos(devs));
    lemma_sorted_is_permutation(serial_infos(devs));
    lemma_sorted_is_permutation(virtio_infos(devs));
    lemma_sorted_ascending(serial_infos(devs));
    lemma_sorted_ascending(virtio_infos(devs));
    lemma_serial_nodes_len(sorted_by_addr(serial_infos(devs)));
    lemma_virtio_nodes_len(sorted);
    lemma_virtio_node_at(sorted, k);
    assert(devices_items(devs).subrange(0, 7 * serial_infos(devs).len() as int) =~= serial);
    assert(devices_items(devs).subrange(
        7 * serial_infos(devs).len() + 6 * k,
        7 * serial_infos(devs).len() + 6 * k + 6,
    ) =~= virtio_nodes_items(sorted).subrange(6 * k, 6 * k + 6));
}

/// The node of the serial console that is `k`-th by address is the `k`-th
/// of the nodes of the devices.
pub proof fn lemma_serial_node_position(devs: Seq<Device>, k: int)
    requires
        0 <= k < serial_infos(devs).len(),
    ensures
        sorted_by_addr(serial_infos(devs)).len() == serial_infos(devs).len(),
        devices_items(devs).subrange(7 * k, 7 * k + 7) == serial_items(
            sorted_by_addr(serial_infos(devs))[k],
        ),
{
    let sorted = sorted_by_addr(serial_infos(devs));
    lemma_sorted_is_permutation(serial_infos(devs));
    lemma_serial_nodes_len(sorted);
    lemma_serial_node_at(sorted, k);
    assert(devices_items(devs).subrange(7 * k, 7 * k + 7) =~= serial_nodes_items(
        sorted,
    ).subrange(7 * k, 7 * k + 7));
}

/// The node of the `k`-th of some serial consoles is the `k`-th of their
/// nodes.
pub proof fn lemma_serial_node_at(devs: Seq<MMIODeviceInfo>, k: int)
    requires
        0 <= k < devs.len(),
    ensures
        serial_nodes_items(devs).len() == 7 * devs.len(),
        serial_nodes_items(devs).subrange(7 * k, 7 * k + 7) == serial_items(devs[k]),
    decreases devs.len(),
{
    lemma_serial_nodes_len(devs);
    lemma_serial_nodes_len(devs.drop_last());
    if k == devs.len() - 1 {
        assert(serial_nodes_items(devs).subrange(7 * k, 7 * k + 7) =~= serial_items(devs[k]));
    } else {
        lemma_serial_node_at(devs.drop_last(), k);
        assert(serial_nodes_items(devs).subrange(7 * k, 7 * k + 7) =~= serial_nodes_items(
            devs.drop_last(),
        ).subrange(7 * k, 7 * k + 7));
    }
}

/// The node of the `k`-th of some virtual-I/O devices is the `k`-th of their
/// nodes.
pub proof fn lemma_virtio_node_at(devs: Seq<MMIODeviceInfo>, k: int)
    requires
        0 <= k < devs.len(),
    ensures
        virtio_nodes_items(devs).len() == 6 * devs.len(),
        virtio_nodes_items(devs).subrange(6 * k, 6 * k + 6) == virtio_items(devs[k]),
    decreases devs.len(),
{
    lemma_virtio_nodes_len(devs);
    lemma_virtio_nodes_len(devs.drop_last());
    if k == devs.len() - 1 {
        assert(virtio_nodes_items(devs).subrange(6 * k, 6 * k + 6) =~= virtio_items(devs[k]));
    } else {
        lemma_virtio_node_at(devs.drop_last(), k);
        assert(virtio_nodes_items(devs).subrange(6 * k, 6 * k + 6) =~= virtio_nodes_items(
            devs.drop_last(),
        ).subrange(6 * k, 6 * k + 6));
    }
}

/// Determinism: two runs of making the blob on the same guest, the devices
/// given in any order, return the same bytes; and within the platform's
/// limits on the command line and the number of devices both succeed or both
/// fail with the same error.
pub proof fn lemma_blob_deterministic(
    r1: Result<Vec<u8>, FdtError>,
    r2: Result<Vec<u8>, FdtError>,
    mem: GuestMemory,
    cmdline: Seq<u8>,
    timer_freq: u32,
    a: Seq<Device>,
    b: Seq<Device>,
    aia: AIADevice,
    nr_ids: Option<u32>,
)
    requires
        fdt_outcome(r1, mem, cmdline, timer_freq, a, aia, nr_ids),
        fdt_outcome(r2, mem, cmdline, timer_freq, b, aia, nr_ids),
        a.to_multiset() == b.to_multiset(),
    ensures
        r1 is Ok && r2 is Ok ==> r1->Ok_0@ == r2->Ok_0@,
        cmdline.len() <= CMDLINE_MAX_SIZE && a.len() <= IRQ_MAX ==> (r1 is Ok <==> r2 is Ok) && (
        r1 is Err ==> r1->Err_0 == r2->Err_0),
{
    vstd::seq_lib::to_multiset_len(a);
    vstd::seq_lib::to_multiset_len(b);
    match crate::fdt::cmdline_text(cmdline) {
        Some(t) => {
            lemma_fdt_order_independent(mem, t, timer_freq, a, b, aia, nr_ids);
        },
        None => {},
    }
}

} // verus!
