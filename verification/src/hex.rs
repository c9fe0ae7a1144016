//! Hexadecimal digits, parsing and formatting.
//!
//! Identifiers render as 16 upper-case hex digits, and the binary codec
//! carries per-reference flag bytes as short hex strings, so both directions
//! (text to value, value to text) are specified and proved here once.

use vstd::prelude::*;
use vstd::string::StrSliceExecFns;

verus! {

/// A character that is a hexadecimal digit, in either case.
pub open spec fn is_hex_digit(c: char) -> bool {
    let u = c as u32;
    (0x30 <= u && u <= 0x39) || (0x41 <= u && u <= 0x46) || (0x61 <= u && u <= 0x66)
}

/// Numeric value of a hex digit.
pub open spec fn hex_digit_value(c: char) -> u8
    recommends
        is_hex_digit(c),
{
    let u = c as u32;
    if 0x30 <= u && u <= 0x39 {
        (u - 0x30) as u8
    } else if 0x41 <= u && u <= 0x46 {
        (u - 0x37) as u8
    } else {
        (u - 0x57) as u8
    }
}

/// Upper-case hex digit for a value below 16.
pub open spec fn hex_char_upper(v: u8) -> char
    recommends
        v < 16,
{
    if v < 10 {
        ((v + 0x30) as u8) as char
    } else {
        ((v + 0x37) as u8) as char
    }
}

/// The character unchanged but for lower-case hex letters, which turn
/// upper-case; on hex digits this is exactly ASCII upper-casing.
pub open spec fn upper_hex_char(c: char) -> char {
    let u = c as u32;
    if 0x61 <= u && u <= 0x66 {
        ((u - 0x20) as u8) as char
    } else {
        c
    }
}

/// Every character of the sequence is a hex digit.
pub open spec fn all_hex_digits(s: Seq<char>) -> bool {
    forall|i: int| 0 <= i < s.len() ==> is_hex_digit(#[trigger] s[i])
}

/// Value of a big-endian string of hex digits, as an unbounded integer.
pub open spec fn parse_hex(s: Seq<char>) -> int
    decreases s.len(),
{
    if s.len() == 0 {
        0
    } else {
        16 * parse_hex(s.drop_last()) + hex_digit_value(s.last())
    }
}

/// Value of exactly 16 hex digits, most significant first, as a 64-bit word.
pub open spec fn parse_hex_u64_16(s: Seq<char>) -> u64
    recommends
        s.len() == 16,
        all_hex_digits(s),
{
    ((hex_digit_value(s[0]) as u64) << 60) | ((hex_digit_value(s[1]) as u64) << 56) | ((
    hex_digit_value(s[2]) as u64) << 52) | ((hex_digit_value(s[3]) as u64) << 48) | ((
    hex_digit_value(s[4]) as u64) << 44) | ((hex_digit_value(s[5]) as u64) << 40) | ((
    hex_digit_value(s[6]) as u64) << 36) | ((hex_digit_value(s[7]) as u64) << 32) | ((
    hex_digit_value(s[8]) as u64) << 28) | ((hex_digit_value(s[9]) as u64) << 24) | ((
    hex_digit_value(s[10]) as u64) << 20) | ((hex_digit_value(s[11]) as u64) << 16) | ((
    hex_digit_value(s[12]) as u64) << 12) | ((hex_digit_value(s[13]) as u64) << 8) | ((
    hex_digit_value(s[14]) as u64) << 4) | (hex_digit_value(s[15]) as u64)
}

/// The 16 upper-case hex digits of a 64-bit value, most significant first.
pub open spec fn u64_hex_16(v: u64) -> Seq<char> {
    Seq::new(16, |i: int| hex_char_upper(((v >> ((4 * (15 - i)) as u64)) & 0xF) as u8))
}

/// Shortest upper-case hex rendering of a byte (one digit below 16,
/// otherwise two).
pub open spec fn u8_hex_upper(b: u8) -> Seq<char> {
    if b < 16 {
        seq![hex_char_upper(b)]
    } else {
        seq![hex_char_upper((b >> 4) as u8), hex_char_upper((b & 0xF) as u8)]
    }
}

/// Two-digit upper-case hex rendering of a byte.
pub open spec fn u8_hex_upper_2(b: u8) -> Seq<char> {
    seq![hex_char_upper((b >> 4) as u8), hex_char_upper((b & 0xF) as u8)]
}

/// Relies on `core::iter::Iterator::collect`: collecting characters yields the
/// string of exactly those characters in order.
#[verifier::external_body]
pub(crate) fn chars_to_string(chars: &Vec<char>) -> (r: String)
    ensures
        r@ == chars@,
{
    chars.iter().collect()
}

/// Classify one character, returning its hex value if it has one.
pub(crate) fn hex_digit_of(c: char) -> (r: Option<u8>)
    ensures
        r is Some <==> is_hex_digit(c),
        r is Some ==> r->0 == hex_digit_value(c) && r->0 < 16,
{
    let u = c as u32;
    if 0x30 <= u && u <= 0x39 {
        Some((u - 0x30) as u8)
    } else if 0x41 <= u && u <= 0x46 {
        Some((u - 0x37) as u8)
    } else if 0x61 <= u && u <= 0x66 {
        Some((u - 0x57) as u8)
    } else {
        None
    }
}

/// Upper-case hex digit character for a value below 16.
pub(crate) fn hex_char_of(v: u8) -> (c: char)
    requires
        v < 16,
    ensures
        c == hex_char_upper(v),
{
    if v < 10 {
        (v + 0x30) as char
    } else {
        (v + 0x37) as char
    }
}

/// Shortest upper-case hex string of a byte, as the codec renders a decoded
/// flag byte.
pub(crate) fn u8_to_hex(b: u8) -> (r: String)
    ensures
        r@ == u8_hex_upper(b),
{
    proof {
        assert(b >> 4 < 16 && b & 0xF < 16) by (bit_vector);
    }
    let mut chars: Vec<char> = Vec::new();
    if b < 16 {
        chars.push(hex_char_of(b));
    } else {
        chars.push(hex_char_of(b >> 4));
        chars.push(hex_char_of(b & 0xF));
    }
    let r = chars_to_string(&chars);
    proof {
        if b < 16 {
            assert(chars@ =~= u8_hex_upper(b));
        } else {
            assert(chars@ =~= u8_hex_upper(b));
        }
    }
    r
}

/// Two-digit upper-case hex string of a byte.
pub(crate) fn u8_to_hex_2(b: u8) -> (r: String)
    ensures
        r@ == u8_hex_upper_2(b),
{
    proof {
        assert(b >> 4 < 16 && b & 0xF < 16) by (bit_vector);
    }
    let mut chars: Vec<char> = Vec::new();
    chars.push(hex_char_of(b >> 4));
    chars.push(hex_char_of(b & 0xF));
    let r = chars_to_string(&chars);
    proof {
        assert(chars@ =~= u8_hex_upper_2(b));
    }
    r
}

/// A string the codec accepts as a flag byte: hex digits of any length, as
/// long as the value fits in a byte.
pub open spec fn flag_str_ok(s: Seq<char>) -> bool {
    &&& s.len() > 0
    &&& all_hex_digits(s)
    &&& parse_hex(s) <= 255
}

/// The byte a flag string denotes.
pub open spec fn flag_byte(s: Seq<char>) -> u8
    recommends
        flag_str_ok(s),
{
    parse_hex(s) as u8
}

/// Parse a flag byte from its hex string form.
pub(crate) fn parse_hex_flag(s: &str) -> (r: Option<u8>)
    ensures
        r is Some <==> flag_str_ok(s@),
        r is Some ==> r->0 == flag_byte(s@),
{
    let n = s.unicode_len();
    if n == 0 {
        return None;
    }
    let mut acc: u32 = 0;
    let mut i: usize = 0;
    while i < n
        invariant
            n == s@.len(),
            0 < n,
            0 <= i <= n,
            forall|k: int| 0 <= k < i ==> is_hex_digit(#[trigger] s@[k]),
            acc == parse_hex(s@.subrange(0, i as int)),
            acc <= 255,
        decreases n - i,
    {
        let c = s.get_char(i);
        let d = match hex_digit_of(c) {
            Some(d) => d,
            None => {
                return None;
            },
        };
        acc = acc * 16 + d as u32;
        proof {
            let p2 = s@.subrange(0, i as int + 1);
            assert(p2.drop_last() =~= s@.subrange(0, i as int));
            assert(p2.last() == s@[i as int]);
        }
        i += 1;
        if acc > 255 {
            proof {
                lemma_parse_hex_prefix_le(s@, i as int);
            }
            return None;
        }
    }
    proof {
        assert(s@.subrange(0, n as int) =~= s@);
    }
    Some(acc as u8)
}

/// The parsed value of any digit string is non-negative.
pub proof fn lemma_parse_hex_nonneg(s: Seq<char>)
    ensures
        parse_hex(s) >= 0,
    decreases s.len(),
{
    if s.len() > 0 {
        lemma_parse_hex_nonneg(s.drop_last());
    }
}

/// Dropping trailing digits never increases the parsed value.
pub proof fn lemma_parse_hex_prefix_le(s: Seq<char>, j: int)
    requires
        0 <= j <= s.len(),
    ensures
        parse_hex(s.subrange(0, j)) <= parse_hex(s),
    decreases s.len() - j,
{
    if j == s.len() {
        assert(s.subrange(0, j) =~= s);
    } else {
        let t = s.drop_last();
        assert(s.subrange(0, j) =~= t.subrange(0, j));
        lemma_parse_hex_prefix_le(t, j);
        lemma_parse_hex_nonneg(t);
    }
}

/// A hex digit's value is below 16.
pub proof fn lemma_hex_digit_value_lt_16(c: char)
    requires
        is_hex_digit(c),
    ensures
        hex_digit_value(c) < 16,
{
}

/// Formatting a value below 16 gives a hex digit that parses back to it.
pub proof fn lemma_hex_char_roundtrip(v: u8)
    requires
        v < 16,
    ensures
        is_hex_digit(hex_char_upper(v)),
        hex_digit_value(hex_char_upper(v)) == v,
{
}

/// Formatting a hex digit's value upper-case is ASCII upper-casing.
pub proof fn lemma_hex_upper_map(c: char)
    requires
        is_hex_digit(c),
    ensures
        hex_char_upper(hex_digit_value(c)) == upper_hex_char(c),
{
}

/// The shortest hex rendering of a byte parses back to the byte.
pub proof fn lemma_u8_hex_roundtrip(b: u8)
    ensures
        all_hex_digits(u8_hex_upper(b)),
        1 <= u8_hex_upper(b).len() <= 2,
        parse_hex(u8_hex_upper(b)) == b,
{
    assert(b >> 4 < 16 && b & 0xF < 16 && 16 * (b >> 4) + (b & 0xF) == b) by (bit_vector);
    let s = u8_hex_upper(b);
    if b < 16 {
        lemma_hex_char_roundtrip(b);
        let t = s.drop_last();
        assert(t.len() == 0);
        assert(parse_hex(t) == 0);
        assert(parse_hex(s) == 16 * parse_hex(t) + hex_digit_value(s.last()));
    } else {
        let hi = (b >> 4) as u8;
        let lo = (b & 0xF) as u8;
        lemma_hex_char_roundtrip(hi);
        lemma_hex_char_roundtrip(lo);
        let t = s.drop_last();
        assert(t =~= seq![hex_char_upper(hi)]);
        assert(t.drop_last().len() == 0);
        assert(parse_hex(t.drop_last()) == 0);
        assert(parse_hex(t) == 16 * parse_hex(t.drop_last()) + hex_digit_value(t.last()));
        assert(parse_hex(s) == 16 * parse_hex(t) + hex_digit_value(s.last()));
    }
}

/// The two-digit hex rendering of a byte parses back to the byte.
pub proof fn lemma_u8_hex_2_roundtrip(b: u8)
    ensures
        all_hex_digits(u8_hex_upper_2(b)),
        u8_hex_upper_2(b).len() == 2,
        parse_hex(u8_hex_upper_2(b)) == b,
{
    assert(b >> 4 < 16 && b & 0xF < 16 && 16 * (b >> 4) + (b & 0xF) == b) by (bit_vector);
    let s = u8_hex_upper_2(b);
    let hi = (b >> 4) as u8;
    let lo = (b & 0xF) as u8;
    lemma_hex_char_roundtrip(hi);
    lemma_hex_char_roundtrip(lo);
    let t = s.drop_last();
    assert(t =~= seq![hex_char_upper(hi)]);
    assert(t.drop_last().len() == 0);
    assert(parse_hex(t.drop_last()) == 0);
    assert(parse_hex(t) == 16 * parse_hex(t.drop_last()) + hex_digit_value(t.last()));
    assert(parse_hex(s) == 16 * parse_hex(t) + hex_digit_value(s.last()));
}

/// Each nibble of the word assembled from 16 hex digits is the matching
/// digit.
proof fn lemma_u64_nibbles(
    d0: u64,
    d1: u64,
    d2: u64,
    d3: u64,
    d4: u64,
    d5: u64,
    d6: u64,
    d7: u64,
    d8: u64,
    d9: u64,
    d10: u64,
    d11: u64,
    d12: u64,
    d13: u64,
    d14: u64,
    d15: u64,
)
    by (bit_vector)
    requires
        d0 < 16 && d1 < 16 && d2 < 16 && d3 < 16 && d4 < 16 && d5 < 16 && d6 < 16 && d7 < 16 && d8
            < 16 && d9 < 16 && d10 < 16 && d11 < 16 && d12 < 16 && d13 < 16 && d14 < 16 && d15
            < 16,
    ensures
        ({
            let v = (d0 << 60) | (d1 << 56) | (d2 << 52) | (d3 << 48) | (d4 << 44) | (d5 << 40) | (
            d6 << 36) | (d7 << 32) | (d8 << 28) | (d9 << 24) | (d10 << 20) | (d11 << 16) | (d12
                << 12) | (d13 << 8) | (d14 << 4) | d15;
            &&& (v >> 60) & 0xF == d0
            &&& (v >> 56) & 0xF == d1
            &&& (v >> 52) & 0xF == d2
            &&& (v >> 48) & 0xF == d3
            &&& (v >> 44) & 0xF == d4
            &&& (v >> 40) & 0xF == d5
            &&& (v >> 36) & 0xF == d6
            &&& (v >> 32) & 0xF == d7
            &&& (v >> 28) & 0xF == d8
            &&& (v >> 24) & 0xF == d9
            &&& (v >> 20) & 0xF == d10
            &&& (v >> 16) & 0xF == d11
            &&& (v >> 12) & 0xF == d12
            &&& (v >> 8) & 0xF == d13
            &&& (v >> 4) & 0xF == d14
            &&& v & 0xF == d15
        }),
{
}

/// Formatting the word parsed from 16 hex digits upper-cases the digits.
pub proof fn lemma_u64_hex_roundtrip(s: Seq<char>)
    requires
        s.len() == 16,
        all_hex_digits(s),
    ensures
        u64_hex_16(parse_hex_u64_16(s)) =~= s.map(|i: int, c: char| upper_hex_char(c)),
{
    let v = parse_hex_u64_16(s);
    lemma_u64_nibbles(
        hex_digit_value(s[0]) as u64,
        hex_digit_value(s[1]) as u64,
        hex_digit_value(s[2]) as u64,
        hex_digit_value(s[3]) as u64,
        hex_digit_value(s[4]) as u64,
        hex_digit_value(s[5]) as u64,
        hex_digit_value(s[6]) as u64,
        hex_digit_value(s[7]) as u64,
        hex_digit_value(s[8]) as u64,
        hex_digit_value(s[9]) as u64,
        hex_digit_value(s[10]) as u64,
        hex_digit_value(s[11]) as u64,
        hex_digit_value(s[12]) as u64,
        hex_digit_value(s[13]) as u64,
        hex_digit_value(s[14]) as u64,
        hex_digit_value(s[15]) as u64,
    );
    assert forall|k: int| 0 <= k < 16 implies u64_hex_16(v)[k] == upper_hex_char(s[k]) by {
        lemma_hex_digit_value_lt_16(s[k]);
        lemma_hex_upper_map(s[k]);
        if k == 0 {
            assert((v >> 60u64) & 0xF == hex_digit_value(s[0]) as u64);
        } else if k == 1 {
            assert((v >> 56u64) & 0xF == hex_digit_value(s[1]) as u64);
        } else if k == 2 {
            assert((v >> 52u64) & 0xF == hex_digit_value(s[2]) as u64);
        } else if k == 3 {
            assert((v >> 48u64) & 0xF == hex_digit_value(s[3]) as u64);
        } else if k == 4 {
            assert((v >> 44u64) & 0xF == hex_digit_value(s[4]) as u64);
        } else if k == 5 {
            assert((v >> 40u64) & 0xF == hex_digit_value(s[5]) as u64);
        } else if k == 6 {
            assert((v >> 36u64) & 0xF == hex_digit_value(s[6]) as u64);
        } else if k == 7 {
            assert((v >> 32u64) & 0xF == hex_digit_value(s[7]) as u64);
        } else if k == 8 {
            assert((v >> 28u64) & 0xF == hex_digit_value(s[8]) as u64);
        } else if k == 9 {
            assert((v >> 24u64) & 0xF == hex_digit_value(s[9]) as u64);
        } else if k == 10 {
            assert((v >> 20u64) & 0xF == hex_digit_value(s[10]) as u64);
        } else if k == 11 {
            assert((v >> 16u64) & 0xF == hex_digit_value(s[11]) as u64);
        } else if k == 12 {
            assert((v >> 12u64) & 0xF == hex_digit_value(s[12]) as u64);
        } else if k == 13 {
            assert((v >> 8u64) & 0xF == hex_digit_value(s[13]) as u64);
        } else if k == 14 {
            assert((v >> 4u64) & 0xF == hex_digit_value(s[14]) as u64);
        } else {
            assert(v >> 0u64 == v) by (bit_vector);
            assert((v >> 0u64) & 0xF == hex_digit_value(s[15]) as u64);
        }
    }
}

} // verus!
