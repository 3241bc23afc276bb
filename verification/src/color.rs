//! The grammar of hex colours.

use vstd::prelude::*;

verus! {

/// Whether `c` is one of the digits `0-9`, `a-f` or `A-F`.
pub open spec fn is_hex_digit(c: char) -> bool {
    ('0' <= c && c <= '9') || ('a' <= c && c <= 'f') || ('A' <= c && c <= 'F')
}

/// Whether `s` consists of exactly three or exactly six hexadecimal digits.
pub open spec fn is_hex_digits(s: Seq<char>) -> bool {
    &&& (s.len() == 3 || s.len() == 6)
    &&& forall|i: int| 0 <= i < s.len() ==> is_hex_digit(#[trigger] s[i])
}

/// Whether `s` is a hex colour: three or six hexadecimal digits, with or
/// without one leading `#`.
pub open spec fn is_hex_color(s: Seq<char>) -> bool {
    is_hex_digits(s) || (s.len() > 0 && s[0] == '#' && is_hex_digits(s.subrange(1, s.len() as int)))
}

/// Tells whether one character is a hexadecimal digit.
pub fn hex_digit(c: char) -> (r: bool)
    ensures
        r == is_hex_digit(c),
{
    ('0' <= c && c <= '9') || ('a' <= c && c <= 'f') || ('A' <= c && c <= 'F')
}

/// Tells whether `color` is a hex colour.
pub fn is_valid_hex(color: &str) -> (r: bool)
    ensures
        r == is_hex_color(color@),
{
    let n: usize = color.unicode_len();
    if n == 0 {
        return false;
    }
    let start: usize = if color.get_char(0) == '#' { 1 } else { 0 };
    if n - start != 3 && n - start != 6 {
        return false;
    }
    let mut i: usize = start;
    while i < n
        invariant
            start <= i <= n,
            n == color@.len(),
            start == (if color@[0] == '#' { 1usize } else { 0usize }),
            forall|j: int| start <= j < i ==> is_hex_digit(#[trigger] color@[j]),
        decreases n - i,
    {
        if !hex_digit(color.get_char(i)) {
            proof {
                let rest = color@.subrange(1, n as int);
                assert(start == 1 ==> rest[i - 1] == color@[i as int]);
            }
            return false;
        }
        i += 1;
    }
    proof {
        let rest = color@.subrange(1, n as int);
        assert(start == 1 ==> forall|j: int| 0 <= j < rest.len() ==> rest[j] == color@[j + 1]);
    }
    true
}

} // verus!
