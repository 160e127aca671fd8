//! Character-level specifications shared by the library: ASCII letters and
//! digits, lowercase hexadecimal and the hyphenated text form of a UUID.
use vstd::prelude::*;

verus! {

/// An ASCII letter or digit: the alphabet of generated tokens.
pub open spec fn is_ascii_alphanumeric(c: char) -> bool {
    ('a' <= c && c <= 'z') || ('A' <= c && c <= 'Z') || ('0' <= c && c <= '9')
}

/// Every character of `s` is an ASCII letter or digit.
pub open spec fn all_ascii_alphanumeric(s: Seq<char>) -> bool {
    forall|i: int| 0 <= i < s.len() ==> #[trigger] is_ascii_alphanumeric(s[i])
}

/// The lowercase hexadecimal digit of a value below 16.
pub open spec fn hex_digit(n: int) -> char {
    if n < 10 {
        ((48 + n) as u32) as char
    } else {
        ((97 + n - 10) as u32) as char
    }
}

/// Lowercase hexadecimal text of a byte string, two digits per byte,
/// most significant nibble first.
pub open spec fn hex_lower(bytes: Seq<u8>) -> Seq<char> {
    Seq::new(
        2 * bytes.len(),
        |i: int|
            if i % 2 == 0 {
                hex_digit(bytes[i / 2] as int / 16)
            } else {
                hex_digit(bytes[i / 2] as int % 16)
            },
    )
}

/// Position among the 32 hex digits of the character at index `j` of the
/// hyphenated form (dashes stand at 8, 13, 18 and 23).
pub open spec fn uuid_digit_index(j: int) -> int {
    if j < 8 {
        j
    } else if j < 13 {
        j - 1
    } else if j < 18 {
        j - 2
    } else if j < 23 {
        j - 3
    } else {
        j - 4
    }
}

/// The `k`-th hex digit (from the most significant) of a 128-bit value.
pub open spec fn uuid_nibble(id: u128, k: int) -> int {
    (id as int / vstd::arithmetic::power2::pow2((124 - 4 * k) as nat) as int) % 16
}

/// Hyphenated lowercase text of a UUID given as its big-endian 128-bit
/// value: 8-4-4-4-12 hex digits.
pub open spec fn uuid_text(id: u128) -> Seq<char> {
    Seq::new(
        36,
        |j: int|
            if j == 8 || j == 13 || j == 18 || j == 23 {
                '-'
            } else {
                hex_digit(uuid_nibble(id, uuid_digit_index(j)))
            },
    )
}

} // verus!
