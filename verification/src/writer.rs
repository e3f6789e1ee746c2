//! The contracts under which this library calls the `vm-fdt` writer.
//!
//! Nothing here is proved: each item states what the writer's source shows.
//! A writer is modelled by the items that were written to it since
//! `FdtWriter::new`; a call that the writer refuses leaves them unchanged.

use vstd::prelude::*;
use vstd::utf8::encode_utf8;
use crate::tree::{
    after_end, blob_bytes_bound, has_nul, open_depth, valid_node_name, valid_prop_name, Item,
    PropValue,
};

verus! {

/// `vm_fdt::FdtWriter`, the writer. Nothing is seen of its fields: contracts
/// speak of a writer through `written`.
#[verifier::external_type_specification]
#[verifier::external_body]
pub struct ExFdtWriter(vm_fdt::FdtWriter);

/// `vm_fdt::FdtWriterNode`, the handle of an open node. Contracts speak of a
/// handle through `handle_depth`.
#[verifier::external_type_specification]
#[verifier::external_body]
pub struct ExFdtWriterNode(vm_fdt::FdtWriterNode);

/// `vm_fdt::Error`, the writer's error. Contracts speak of an error through
/// `error_kind`.
#[verifier::external_type_specification]
#[verifier::external_body]
pub struct ExFdtError(vm_fdt::Error);

/// Why the writer refused a call.
#[derive(Debug, Clone, Copy, PartialEq, Eq, Structural)]
pub enum VmFdtError {
    /// A property was given while no node was open.
    PropertyBeforeBeginNode,
    /// A property was given after a child of the open node was closed.
    PropertyAfterEndNode,
    /// The value of a property does not fit in 32 bits.
    PropertyValueTooLarge,
    /// The blob does not fit in 32 bits.
    TotalSizeTooLarge,
    /// A name or a text holds a NUL.
    InvalidString,
    /// The node to close is not the one opened last.
    OutOfOrderEndNode,
    /// The blob was asked for while a node was open.
    UnclosedNode,
    /// A memory reservation is empty or wraps around.
    InvalidMemoryReservation,
    /// Two memory reservations overlap.
    OverlappingMemoryReservations,
    /// The name of a node is not one.
    InvalidNodeName,
    /// The name of a property is not one.
    InvalidPropertyName,
    /// More than 64 nodes would be open.
    NodeDepthTooLarge,
    /// A phandle was given twice.
    DuplicatePhandle,
}

/// The deepest nesting of nodes that the writer accepts.
pub const MAX_NODE_DEPTH: usize = 64;

/// The items written to a writer so far.
pub uninterp spec fn written(w: vm_fdt::FdtWriter) -> Seq<Item>;

/// The nesting depth at which a node handle was opened.
pub uninterp spec fn handle_depth(n: vm_fdt::FdtWriterNode) -> nat;

/// The variant of a writer error.
pub uninterp spec fn error_kind(e: vm_fdt::Error) -> VmFdtError;

/// The blob that the writer makes of a sequence of items.
pub uninterp spec fn blob_of(items: Seq<Item>) -> Seq<u8>;

/// Why the writer refuses to open a node named `name` after `items`, if it
/// does. The checks are made in this order.
pub open spec fn begin_refusal(items: Seq<Item>, name: Seq<char>) -> Option<VmFdtError> {
    if open_depth(items) >= MAX_NODE_DEPTH {
        Some(VmFdtError::NodeDepthTooLarge)
    } else if has_nul(name) {
        Some(VmFdtError::InvalidString)
    } else if !valid_node_name(name) {
        Some(VmFdtError::InvalidNodeName)
    } else {
        None
    }
}

/// Why the writer refuses a property named `name` after `items` whatever its
/// value, if it does. The checks are made in this order.
pub open spec fn prop_refusal(items: Seq<Item>, name: Seq<char>) -> Option<VmFdtError> {
    if after_end(items) {
        Some(VmFdtError::PropertyAfterEndNode)
    } else if open_depth(items) <= 0 {
        Some(VmFdtError::PropertyBeforeBeginNode)
    } else if has_nul(name) {
        Some(VmFdtError::InvalidString)
    } else if !valid_prop_name(name) {
        Some(VmFdtError::InvalidPropertyName)
    } else {
        None
    }
}

/// The table of property names stays within 32 bits: a name takes at most 32
/// bytes there, and each is stored once.
pub open spec fn names_fit(items: Seq<Item>) -> bool {
    32 * (items.len() + 1) <= u32::MAX
}

/// What a property call leaves behind and returns: the property appended on
/// success, the refusal of the name or the place if there is one, else one
/// for size.
pub open spec fn prop_outcome(
    before: Seq<Item>,
    after: Seq<Item>,
    r: Result<(), vm_fdt::Error>,
    name: Seq<char>,
    value: PropValue,
) -> bool {
    match r {
        Ok(_) => prop_refusal(before, name) is None && after == before.push(
            Item::Prop(name, value),
        ),
        Err(e) => after == before && match prop_refusal(before, name) {
            Some(k) => error_kind(e) == k,
            None => error_kind(e) == VmFdtError::PropertyValueTooLarge || error_kind(e)
                == VmFdtError::TotalSizeTooLarge,
        },
    }
}

/// `FdtWriter::new`: a writer without memory reservations, to which nothing
/// was written. With no reservations the constructor has nothing to refuse.
pub assume_specification[ vm_fdt::FdtWriter::new ]() -> (r: Result<
    vm_fdt::FdtWriter,
    vm_fdt::Error,
>)
    ensures
        r is Ok,
        written(r->Ok_0) == Seq::<Item>::empty(),
;

/// `FdtWriter::begin_node`: opens a node unless 64 are open, the name holds a
/// NUL, or the name is no node name. The handle remembers the new depth.
pub assume_specification[ vm_fdt::FdtWriter::begin_node ](
    w: &mut vm_fdt::FdtWriter,
    name: &str,
) -> (r: Result<vm_fdt::FdtWriterNode, vm_fdt::Error>)
    ensures
        match r {
            Ok(node) => begin_refusal(written(*old(w)), name@) is None && written(*final(w))
                == written(*old(w)).push(Item::Begin(name@)) && handle_depth(node) == open_depth(
                written(*old(w)),
            ) + 1,
            Err(e) => written(*final(w)) == written(*old(w)) && begin_refusal(
                written(*old(w)),
                name@,
            ) == Some(error_kind(e)),
        },
;

/// `FdtWriter::end_node`: closes the open node if the handle is of the
/// current depth. A handle of depth 0 does not exist.
pub assume_specification[ vm_fdt::FdtWriter::end_node ](
    w: &mut vm_fdt::FdtWriter,
    node: vm_fdt::FdtWriterNode,
) -> (r: Result<(), vm_fdt::Error>)
    requires
        handle_depth(node) >= 1,
    ensures
        match r {
            Ok(_) => handle_depth(node) == open_depth(written(*old(w))) && written(*final(w))
                == written(*old(w)).push(Item::End),
            Err(e) => handle_depth(node) != open_depth(written(*old(w))) && written(*final(w))
                == written(*old(w)) && error_kind(e) == VmFdtError::OutOfOrderEndNode,
        },
;

/// `FdtWriter::property_null`: a property without a value.
pub assume_specification[ vm_fdt::FdtWriter::property_null ](
    w: &mut vm_fdt::FdtWriter,
    name: &str,
) -> (r: Result<(), vm_fdt::Error>)
    ensures
        prop_outcome(written(*old(w)), written(*final(w)), r, name@, PropValue::Empty),
        prop_refusal(written(*old(w)), name@) is None && names_fit(written(*old(w))) ==> r is Ok,
;

/// `FdtWriter::property_u32`: a property of one cell.
pub assume_specification[ vm_fdt::FdtWriter::property_u32 ](
    w: &mut vm_fdt::FdtWriter,
    name: &str,
    val: u32,
) -> (r: Result<(), vm_fdt::Error>)
    ensures
        prop_outcome(written(*old(w)), written(*final(w)), r, name@, PropValue::Cell(val)),
        prop_refusal(written(*old(w)), name@) is None && names_fit(written(*old(w))) ==> r is Ok,
;

/// `FdtWriter::property_string`: a text property. A text that holds a NUL is
/// refused before anything else is looked at.
pub assume_specification[ vm_fdt::FdtWriter::property_string ](
    w: &mut vm_fdt::FdtWriter,
    name: &str,
    val: &str,
) -> (r: Result<(), vm_fdt::Error>)
    ensures
        has_nul(val@) ==> r is Err && error_kind(r->Err_0) == VmFdtError::InvalidString
            && written(*final(w)) == written(*old(w)),
        !has_nul(val@) ==> prop_outcome(
            written(*old(w)),
            written(*final(w)),
            r,
            name@,
            PropValue::Text(val@),
        ),
        !has_nul(val@) && prop_refusal(written(*old(w)), name@) is None && names_fit(
            written(*old(w)),
        ) && encode_utf8(val@).len() + 1 <= u32::MAX ==> r is Ok,
;

/// `FdtWriter::property_array_u32`: a property of 32-bit cells.
pub assume_specification[ vm_fdt::FdtWriter::property_array_u32 ](
    w: &mut vm_fdt::FdtWriter,
    name: &str,
    cells: &[u32],
) -> (r: Result<(), vm_fdt::Error>)
    ensures
        prop_outcome(written(*old(w)), written(*final(w)), r, name@, PropValue::Cells(cells@)),
        prop_refusal(written(*old(w)), name@) is None && names_fit(written(*old(w))) && 4
            * cells@.len() <= u32::MAX ==> r is Ok,
;

/// `FdtWriter::property_array_u64`: a property of 64-bit cells.
pub assume_specification[ vm_fdt::FdtWriter::property_array_u64 ](
    w: &mut vm_fdt::FdtWriter,
    name: &str,
    cells: &[u64],
) -> (r: Result<(), vm_fdt::Error>)
    ensures
        prop_outcome(written(*old(w)), written(*final(w)), r, name@, PropValue::Wide(cells@)),
        prop_refusal(written(*old(w)), name@) is None && names_fit(written(*old(w))) && 8
            * cells@.len() <= u32::MAX ==> r is Ok,
;

/// `FdtWriter::finish`: the blob of what was written. It is refused while a
/// node is open, and else only where the blob would not fit in 32 bits.
pub assume_specification[ vm_fdt::FdtWriter::finish ](w: vm_fdt::FdtWriter) -> (r: Result<
    Vec<u8>,
    vm_fdt::Error,
>)
    ensures
        match r {
            Ok(blob) => open_depth(written(w)) <= 0 && blob@ == blob_of(written(w)),
            Err(e) => error_kind(e) == if open_depth(written(w)) > 0 {
                VmFdtError::UnclosedNode
            } else {
                VmFdtError::TotalSizeTooLarge
            },
        },
        open_depth(written(w)) <= 0 && blob_bytes_bound(written(w)) <= u32::MAX ==> r is Ok,
;

/// Tells the variants of `vm_fdt::Error` apart.
#[verifier::external_body]
pub(crate) fn kind_of_error(e: vm_fdt::Error) -> (k: VmFdtError)
    ensures
        k == error_kind(e),
{
    match e {
        vm_fdt::Error::PropertyBeforeBeginNode => VmFdtError::PropertyBeforeBeginNode,
        vm_fdt::Error::PropertyAfterEndNode => VmFdtError::PropertyAfterEndNode,
        vm_fdt::Error::PropertyValueTooLarge => VmFdtError::PropertyValueTooLarge,
        vm_fdt::Error::TotalSizeTooLarge => VmFdtError::TotalSizeTooLarge,
        vm_fdt::Error::InvalidString => VmFdtError::InvalidString,
        vm_fdt::Error::OutOfOrderEndNode => VmFdtError::OutOfOrderEndNode,
        vm_fdt::Error::UnclosedNode => VmFdtError::UnclosedNode,
        vm_fdt::Error::InvalidMemoryReservation => VmFdtError::InvalidMemoryReservation,
        vm_fdt::Error::OverlappingMemoryReservations => VmFdtError::OverlappingMemoryReservations,
        vm_fdt::Error::InvalidNodeName => VmFdtError::InvalidNodeName,
        vm_fdt::Error::InvalidPropertyName => VmFdtError::InvalidPropertyName,
        vm_fdt::Error::NodeDepthTooLarge => VmFdtError::NodeDepthTooLarge,
        vm_fdt::Error::DuplicatePhandle => VmFdtError::DuplicatePhandle,
    }
}

} // verus!
