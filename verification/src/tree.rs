//! The device tree as a mathematical value.
//!
//! A tree is written down as the sequence of items that a depth-first walk
//! meets: the opening of a node, its properties, its children, its closing.
//! Contracts speak of this sequence; the bytes of the blob are a function of
//! it.

use vstd::prelude::*;
use vstd::utf8::encode_utf8;

verus! {

/// The value of a property.
pub enum PropValue {
    /// A property without a value.
    Empty,
    /// A text.
    Text(Seq<char>),
    /// One 32-bit cell.
    Cell(u32),
    /// An array of 32-bit cells.
    Cells(Seq<u32>),
    /// An array of 64-bit cells.
    Wide(Seq<u64>),
}

/// One item of a tree's depth-first walk.
pub enum Item {
    /// A node with the given name opens.
    Begin(Seq<char>),
    /// The open node has a property with the given name and value.
    Prop(Seq<char>, PropValue),
    /// The open node closes.
    End,
}

/// The items of a tree, in walk order.
pub type Items = Seq<Item>;

/// The number of nodes that are open after `items`.
pub open spec fn open_depth(items: Items) -> int
    decreases items.len(),
{
    if items.len() == 0 {
        0
    } else {
        open_depth(items.drop_last()) + match items.last() {
            Item::Begin(_) => 1int,
            Item::Prop(_, _) => 0int,
            Item::End => -1int,
        }
    }
}

/// Whether the last item closed a node. The open node then takes children
/// only, no further property.
pub open spec fn after_end(items: Items) -> bool {
    items.len() > 0 && items.last() is End
}

/// A character that may stand in a node name.
pub open spec fn node_name_char(c: char) -> bool {
    ||| 'a' <= c <= 'z'
    ||| 'A' <= c <= 'Z'
    ||| '0' <= c <= '9'
    ||| c == ','
    ||| c == '.'
    ||| c == '_'
    ||| c == '+'
    ||| c == '-'
}

/// A character that may stand in a property name.
pub open spec fn prop_name_char(c: char) -> bool {
    ||| node_name_char(c)
    ||| c == '?'
    ||| c == '#'
}

/// The part of a node name before the unit address: 1 to 31 characters, a
/// letter first.
pub open spec fn valid_base_name(s: Seq<char>) -> bool {
    &&& 1 <= s.len() <= 31
    &&& ('a' <= s[0] <= 'z' || 'A' <= s[0] <= 'Z')
    &&& forall|i: int| 0 <= i < s.len() ==> node_name_char(#[trigger] s[i])
}

/// The unit address of a node name.
pub open spec fn valid_unit_address(s: Seq<char>) -> bool {
    forall|i: int| 0 <= i < s.len() ==> node_name_char(#[trigger] s[i])
}

/// A node name: empty, a base name, or a base name, `@` and a unit address.
pub open spec fn valid_node_name(name: Seq<char>) -> bool {
    ||| name.len() == 0
    ||| valid_base_name(name)
    ||| exists|k: int|
        0 <= k < name.len() && name[k] == '@' && valid_base_name(#[trigger] name.subrange(0, k))
            && valid_unit_address(name.subrange(k + 1, name.len() as int))
}

/// A property name: 1 to 31 characters of the property alphabet.
pub open spec fn valid_prop_name(name: Seq<char>) -> bool {
    &&& 1 <= name.len() <= 31
    &&& forall|i: int| 0 <= i < name.len() ==> prop_name_char(#[trigger] name[i])
}

/// Whether a text holds a NUL character.
pub open spec fn has_nul(s: Seq<char>) -> bool {
    exists|i: int| 0 <= i < s.len() && #[trigger] s[i] == '\0'
}

/// The number of bytes that encode the value of a property: a text in
/// UTF-8 with a closing NUL, a cell in four bytes, a wide cell in eight.
pub open spec fn value_bytes(v: PropValue) -> nat {
    match v {
        PropValue::Empty => 0,
        PropValue::Text(s) => encode_utf8(s).len() + 1,
        PropValue::Cell(_) => 4,
        PropValue::Cells(c) => 4 * c.len(),
        PropValue::Wide(c) => 8 * c.len(),
    }
}

/// No more bytes than this encode an item in the structure block of a blob.
pub open spec fn item_bytes_bound(item: Item) -> nat {
    match item {
        Item::Begin(name) => 8 + 4 * name.len() + 4,
        Item::Prop(_, v) => 12 + value_bytes(v) + 4,
        Item::End => 4,
    }
}

/// No more bytes than this make up the blob of `items`: the header and the
/// empty reservation map, each item, the end mark, and the name of each
/// property.
pub open spec fn blob_bytes_bound(items: Items) -> nat
    decreases items.len(),
{
    if items.len() == 0 {
        60
    } else {
        blob_bytes_bound(items.drop_last()) + item_bytes_bound(items.last()) + 32
    }
}

} // verus!
