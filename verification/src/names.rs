//! Node names with a unit address: a base name, `@`, and the address in
//! lower-case hexadecimal.

use vstd::prelude::*;
use vstd::string::*;
use crate::tree::{
    has_nul, node_name_char, valid_base_name, valid_node_name, valid_unit_address,
};

verus! {

/// The lower-case hexadecimal digit of value `d`.
pub open spec fn hex_digit(d: int) -> char {
    if d == 0 {
        '0'
    } else if d == 1 {
        '1'
    } else if d == 2 {
        '2'
    } else if d == 3 {
        '3'
    } else if d == 4 {
        '4'
    } else if d == 5 {
        '5'
    } else if d == 6 {
        '6'
    } else if d == 7 {
        '7'
    } else if d == 8 {
        '8'
    } else if d == 9 {
        '9'
    } else if d == 10 {
        'a'
    } else if d == 11 {
        'b'
    } else if d == 12 {
        'c'
    } else if d == 13 {
        'd'
    } else if d == 14 {
        'e'
    } else {
        'f'
    }
}

/// The digits of `v` in lower-case hexadecimal, without leading zeros.
pub open spec fn hex_digits(v: nat) -> Seq<char>
    decreases v,
{
    if v < 16 {
        seq![hex_digit(v as int)]
    } else {
        hex_digits(v / 16).push(hex_digit((v % 16) as int))
    }
}

/// `n` zeros.
pub open spec fn zeros(n: nat) -> Seq<char> {
    Seq::new(n, |i: int| '0')
}

/// The digits of `v` in lower-case hexadecimal, with leading zeros up to
/// `width` digits.
pub open spec fn hex_digits_padded(v: nat, width: nat) -> Seq<char> {
    if hex_digits(v).len() < width {
        zeros((width - hex_digits(v).len()) as nat) + hex_digits(v)
    } else {
        hex_digits(v)
    }
}

/// The node name made of `base` and the unit address `unit`.
pub open spec fn unit_name(base: Seq<char>, unit: Seq<char>) -> Seq<char> {
    base + seq!['@'] + unit
}

/// Every hexadecimal digit may stand in a node name.
pub proof fn lemma_hex_digits_valid(v: nat)
    ensures
        valid_unit_address(hex_digits(v)),
        1 <= hex_digits(v).len(),
    decreases v,
{
    if v >= 16 {
        lemma_hex_digits_valid(v / 16);
    }
}

/// 16 to the power `k`.
pub open spec fn pow16(k: nat) -> nat
    decreases k,
{
    if k == 0 {
        1
    } else {
        16 * pow16((k - 1) as nat)
    }
}

/// A number below `16^k` has at most `k` hexadecimal digits.
pub proof fn lemma_hex_digits_len(v: nat, k: nat)
    requires
        k >= 1,
        v < pow16(k),
    ensures
        hex_digits(v).len() <= k,
    decreases k,
{
    if v >= 16 {
        if k == 1 {
            assert(pow16(1) == 16) by {
                reveal_with_fuel(pow16, 2);
            }
        } else {
            lemma_hex_digits_len(v / 16, (k - 1) as nat);
        }
    }
}

/// A 64-bit number has at most 16 hexadecimal digits.
pub proof fn lemma_hex_digits_len_u64(v: u64)
    ensures
        1 <= hex_digits(v as nat).len() <= 16,
{
    lemma_hex_digits_valid(v as nat);
    assert(pow16(16) == 0x1_0000_0000_0000_0000) by {
        reveal_with_fuel(pow16, 17);
    }
    lemma_hex_digits_len(v as nat, 16);
}

/// A base name, `@` and a unit address make a node name that the writer
/// accepts.
pub proof fn lemma_unit_name_valid(base: Seq<char>, unit: Seq<char>)
    requires
        valid_base_name(base),
        valid_unit_address(unit),
    ensures
        valid_node_name(unit_name(base, unit)),
        !has_nul(unit_name(base, unit)),
        unit_name(base, unit).len() == base.len() + 1 + unit.len(),
{
    let name = unit_name(base, unit);
    let k = base.len() as int;
    assert(name[k] == '@');
    assert(name.subrange(0, k) =~= base);
    assert(name.subrange(k + 1, name.len() as int) =~= unit);
    assert forall|i: int| 0 <= i < name.len() implies #[trigger] name[i] != '\0' by {
        if i < k {
            assert(node_name_char(base[i]));
        } else if i > k {
            assert(node_name_char(unit[i - k - 1]));
        }
    }
}

/// The text of one hexadecimal digit.
fn hex_digit_str(d: u64) -> (s: &'static str)
    requires
        d < 16,
    ensures
        s@ == seq![hex_digit(d as int)],
{
    proof {
        reveal_strlit("0");
        reveal_strlit("1");
        reveal_strlit("2");
        reveal_strlit("3");
        reveal_strlit("4");
        reveal_strlit("5");
        reveal_strlit("6");
        reveal_strlit("7");
        reveal_strlit("8");
        reveal_strlit("9");
        reveal_strlit("a");
        reveal_strlit("b");
        reveal_strlit("c");
        reveal_strlit("d");
        reveal_strlit("e");
        reveal_strlit("f");
    }
    let s: &'static str = if d == 0 {
        "0"
    } else if d == 1 {
        "1"
    } else if d == 2 {
        "2"
    } else if d == 3 {
        "3"
    } else if d == 4 {
        "4"
    } else if d == 5 {
        "5"
    } else if d == 6 {
        "6"
    } else if d == 7 {
        "7"
    } else if d == 8 {
        "8"
    } else if d == 9 {
        "9"
    } else if d == 10 {
        "a"
    } else if d == 11 {
        "b"
    } else if d == 12 {
        "c"
    } else if d == 13 {
        "d"
    } else if d == 14 {
        "e"
    } else {
        "f"
    };
    assert(s@ =~= seq![hex_digit(d as int)]);
    s
}

/// Appends the hexadecimal digits of `v` to `s`.
pub fn append_hex(s: &mut String, v: u64)
    ensures
        final(s)@ == old(s)@ + hex_digits(v as nat),
    decreases v,
{
    if v >= 16 {
        append_hex(s, v / 16);
    }
    s.append(hex_digit_str(v % 16));
    assert(s@ =~= old(s)@ + hex_digits(v as nat));
}

/// The number of hexadecimal digits of `v`.
pub fn hex_len(v: u64) -> (n: usize)
    ensures
        n == hex_digits(v as nat).len(),
        1 <= n <= 16,
    decreases v,
{
    proof {
        lemma_hex_digits_len_u64(v);
    }
    if v >= 16 {
        proof {
            lemma_hex_digits_len_u64(v / 16);
        }
        hex_len(v / 16) + 1
    } else {
        1
    }
}

/// Formats `v` in lower-case hexadecimal, with leading zeros up to `width`
/// digits.
pub fn to_hex(v: u64, width: usize) -> (s: String)
    ensures
        s@ == hex_digits_padded(v as nat, width as nat),
{
    let mut s = String::new();
    let n: usize = hex_len(v);
    let mut i: usize = n;
    while i < width
        invariant
            n <= i,
            n < width ==> i <= width,
            n >= width ==> i == n,
            s@ == zeros((i - n) as nat),
        decreases width - i,
    {
        proof {
            reveal_strlit("0");
        }
        s.append("0");
        i = i + 1;
        assert(s@ =~= zeros((i - n) as nat));
    }
    append_hex(&mut s, v);
    assert(s@ =~= hex_digits_padded(v as nat, width as nat));
    s
}

/// The name of the node `base` at unit address `addr`: `base@addr`, the
/// address in hexadecimal with at least `width` digits.
pub fn node_name_at(base: &str, addr: u64, width: usize) -> (name: String)
    ensures
        name@ == unit_name(base@, hex_digits_padded(addr as nat, width as nat)),
{
    let mut name = String::from_str(base);
    proof {
        reveal_strlit("@");
    }
    name.append("@");
    let digits = to_hex(addr, width);
    name.append(digits.as_str());
    assert(name@ =~= unit_name(base@, hex_digits_padded(addr as nat, width as nat)));
    name
}

/// Padded digits are a unit address of at most `max(width, 16)` characters.
pub proof fn lemma_padded_valid(v: u64, width: nat)
    ensures
        valid_unit_address(hex_digits_padded(v as nat, width)),
        1 <= hex_digits_padded(v as nat, width).len(),
        hex_digits_padded(v as nat, width).len() <= if width > 16 {
            width
        } else {
            16
        },
        width == 0 ==> hex_digits_padded(v as nat, width) == hex_digits(v as nat),
{
    lemma_hex_digits_valid(v as nat);
    lemma_hex_digits_len_u64(v);
}

} // verus!
