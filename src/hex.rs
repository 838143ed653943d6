//! What the hexadecimal text of a fixed-size hash or address denotes.

use vstd::prelude::*;

verus! {

/// Whitespace that the hex reader skips between digits.
pub open spec fn is_hex_space(c: char) -> bool {
    c == ' ' || c == '\r' || c == '\n' || c == '\t'
}

/// The value of a hex digit of either case, or -1 for any other character.
pub open spec fn hex_val(c: char) -> int {
    let v = c as u32;
    if 48 <= v <= 57 {
        v - 48
    } else if 97 <= v <= 102 {
        v - 97 + 10
    } else if 65 <= v <= 70 {
        v - 65 + 10
    } else {
        -1
    }
}

/// The text with one leading lowercase `0x` removed, where there is one.
pub open spec fn strip_0x(s: Seq<char>) -> Seq<char> {
    if s.len() >= 2 && s[0] == '0' && s[1] == 'x' {
        s.subrange(2, s.len() as int)
    } else {
        s
    }
}

/// The characters of the text that carry digits.
pub open spec fn hex_digits(s: Seq<char>) -> Seq<char> {
    strip_0x(s).filter(|c: char| !is_hex_space(c))
}

/// The text denotes exactly `n` bytes: after the optional prefix and without
/// whitespace, it is `2 * n` hex digits and nothing else.
pub open spec fn hex_denotes(s: Seq<char>, n: nat) -> bool {
    let d = hex_digits(s);
    &&& d.len() == 2 * n
    &&& forall|i: int| 0 <= i < d.len() ==> hex_val(#[trigger] d[i]) >= 0
}

/// The `i`-th byte that the text denotes: two digits, high one first.
pub open spec fn hex_byte(s: Seq<char>, i: int) -> u8 {
    let d = hex_digits(s);
    (16 * hex_val(d[2 * i]) + hex_val(d[2 * i + 1])) as u8
}

/// The bytes are those that the text denotes, in order.
pub open spec fn hex_bytes_match(s: Seq<char>, b: Seq<u8>) -> bool {
    forall|i: int| 0 <= i < b.len() ==> #[trigger] b[i] == hex_byte(s, i)
}

} // verus!
