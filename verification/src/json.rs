//! A verified decoder for the JSON fragment the worker emits: whitespace,
//! unsigned integers, and strings with the standard escapes (including
//! `\uXXXX` with surrogate pairs, re-encoded as UTF-8 bytes). The object and
//! array layers live with the payloads that use them.

use vstd::prelude::*;

use crate::bytes::append_bytes;

verus! {

/// JSON insignificant whitespace: space, tab, line feed, carriage return.
pub open spec fn is_json_ws(b: u8) -> bool {
    b == 32 || b == 9 || b == 10 || b == 13
}

/// An ASCII decimal digit.
pub open spec fn is_digit(b: u8) -> bool {
    48 <= b && b <= 57
}

/// Index of the first byte at or after `i` that is not JSON whitespace.
pub open spec fn spec_skip_ws(s: Seq<u8>, i: int) -> int
    decreases s.len() - i when 0 <= i <= s.len()
{
    if i >= s.len() {
        s.len() as int
    } else if is_json_ws(s[i]) {
        spec_skip_ws(s, i + 1)
    } else {
        i
    }
}

/// `spec_skip_ws` stays between `i` and the length.
pub proof fn lemma_skip_ws_bounds(s: Seq<u8>, i: int)
    requires
        0 <= i <= s.len(),
    ensures
        i <= spec_skip_ws(s, i) <= s.len(),
    decreases s.len() - i,
{
    if i < s.len() && is_json_ws(s[i]) {
        lemma_skip_ws_bounds(s, i + 1);
    }
}

/// Exec mirror of `is_json_ws`.
pub fn is_json_ws_byte(b: u8) -> (r: bool)
    ensures
        r == is_json_ws(b),
{
    b == 32 || b == 9 || b == 10 || b == 13
}

/// Exec mirror of `is_digit`.
pub fn is_digit_byte(b: u8) -> (r: bool)
    ensures
        r == is_digit(b),
{
    48 <= b && b <= 57
}

/// Advances past JSON whitespace.
pub fn skip_ws(s: &[u8], i: usize) -> (r: usize)
    requires
        i <= s@.len(),
    ensures
        r == spec_skip_ws(s@, i as int),
        i <= r <= s@.len(),
    decreases s@.len() - i,
{
    proof {
        lemma_skip_ws_bounds(s@, i as int);
    }
    if i < s.len() && is_json_ws_byte(s[i]) {
        skip_ws(s, i + 1)
    } else {
        i
    }
}

/// Accumulates decimal digits onto `acc`, failing on u64 overflow; stops at
/// the first non-digit and reports the value and the next index.
pub open spec fn spec_parse_digits(s: Seq<u8>, i: int, acc: u64) -> Option<(u64, int)>
    decreases s.len() - i when 0 <= i <= s.len()
{
    if i >= s.len() || !is_digit(s[i]) {
        Some((acc, i))
    } else if acc * 10 + (s[i] - 48) > u64::MAX {
        None
    } else {
        spec_parse_digits(s, i + 1, (acc * 10 + (s[i] - 48)) as u64)
    }
}

/// Exec mirror of `spec_parse_digits`.
pub fn parse_digits(s: &[u8], i: usize, acc: u64) -> (r: Option<(u64, usize)>)
    requires
        i <= s@.len(),
    ensures
        r.is_none() ==> spec_parse_digits(s@, i as int, acc).is_none(),
        r matches Some(p) ==> spec_parse_digits(s@, i as int, acc) == Some((p.0, p.1 as int))
            && i <= p.1 <= s@.len(),
    decreases s@.len() - i,
{
    if i < s.len() && is_digit_byte(s[i]) {
        let d: u64 = (s[i] - 48) as u64;
        match u64::checked_mul(acc, 10) {
            None => None,
            Some(m) => match u64::checked_add(m, d) {
                None => None,
                Some(v) => parse_digits(s, i + 1, v),
            },
        }
    } else {
        Some((acc, i))
    }
}

/// True when a byte at `j` would make the digits before it a non-integer or
/// invalid JSON number (a further digit after a leading zero, a fraction, or
/// an exponent).
pub open spec fn bad_number_follow(s: Seq<u8>, j: int) -> bool {
    0 <= j < s.len() && (is_digit(s[j]) || s[j] == 46 || s[j] == 101 || s[j] == 69)
}

/// Decodes a JSON number restricted to unsigned integers that fit in u64:
/// `0`, or a nonzero digit followed by digits, with no fraction or exponent.
pub open spec fn spec_parse_number(s: Seq<u8>, i: int) -> Option<(u64, int)> {
    if i < 0 || i >= s.len() || !is_digit(s[i]) {
        None
    } else if s[i] == 48 {
        if bad_number_follow(s, i + 1) {
            None
        } else {
            Some((0, i + 1))
        }
    } else {
        match spec_parse_digits(s, i, 0) {
            Some((v, j)) => if bad_number_follow(s, j) {
                None
            } else {
                Some((v, j))
            },
            None => None,
        }
    }
}

/// Exec mirror of `bad_number_follow`.
fn bad_number_follow_at(s: &[u8], j: usize) -> (r: bool)
    requires
        j <= s@.len(),
    ensures
        r == bad_number_follow(s@, j as int),
{
    j < s.len() && (is_digit_byte(s[j]) || s[j] == 46 || s[j] == 101 || s[j] == 69)
}

/// Exec mirror of `spec_parse_number`.
pub fn parse_number(s: &[u8], i: usize) -> (r: Option<(u64, usize)>)
    requires
        i <= s@.len(),
    ensures
        r.is_none() ==> spec_parse_number(s@, i as int).is_none(),
        r matches Some(p) ==> spec_parse_number(s@, i as int) == Some((p.0, p.1 as int))
            && i < p.1 <= s@.len(),
{
    if i >= s.len() || !is_digit_byte(s[i]) {
        return None;
    }
    if s[i] == 48 {
        if bad_number_follow_at(s, i + 1) {
            None
        } else {
            Some((0, i + 1))
        }
    } else {
        match parse_digits(s, i, 0) {
            Some((v, j)) => {
                if bad_number_follow_at(s, j) {
                    None
                } else {
                    Some((v, j))
                }
            },
            None => None,
        }
    }
}

/// An ASCII hexadecimal digit.
pub open spec fn is_hex(b: u8) -> bool {
    is_digit(b) || (97 <= b && b <= 102) || (65 <= b && b <= 70)
}

/// The value of a hexadecimal digit.
pub open spec fn hex_val(b: u8) -> nat {
    if is_digit(b) {
        (b - 48) as nat
    } else if 97 <= b && b <= 102 {
        (b - 87) as nat
    } else if 65 <= b && b <= 70 {
        (b - 55) as nat
    } else {
        0
    }
}

/// Decodes the four hexadecimal digits at `i`.
pub open spec fn spec_hex4(s: Seq<u8>, i: int) -> Option<u32> {
    if 0 <= i && i + 4 <= s.len() && is_hex(s[i]) && is_hex(s[i + 1]) && is_hex(s[i + 2])
        && is_hex(s[i + 3]) {
        Some(
            (hex_val(s[i]) * 4096 + hex_val(s[i + 1]) * 256 + hex_val(s[i + 2]) * 16 + hex_val(
                s[i + 3],
            )) as u32,
        )
    } else {
        None
    }
}

/// Exec mirror of `is_hex` and `hex_val`.
fn hex_digit_val(b: u8) -> (r: Option<u8>)
    ensures
        r.is_some() == is_hex(b),
        r matches Some(v) ==> v as nat == hex_val(b) && v < 16,
{
    if 48 <= b && b <= 57 {
        Some(b - 48)
    } else if 97 <= b && b <= 102 {
        Some(b - 87)
    } else if 65 <= b && b <= 70 {
        Some(b - 55)
    } else {
        None
    }
}

/// Exec mirror of `spec_hex4`.
pub fn hex4(s: &[u8], i: usize) -> (r: Option<u32>)
    requires
        i <= s@.len(),
    ensures
        r == spec_hex4(s@, i as int),
{
    if s.len() - i < 4 {
        return None;
    }
    let a = hex_digit_val(s[i]);
    let b = hex_digit_val(s[i + 1]);
    let c = hex_digit_val(s[i + 2]);
    let d = hex_digit_val(s[i + 3]);
    match (a, b, c, d) {
        (Some(a), Some(b), Some(c), Some(d)) => Some(
            a as u32 * 4096 + b as u32 * 256 + c as u32 * 16 + d as u32,
        ),
        _ => None,
    }
}

/// The UTF-8 encoding of a code point (total; callers stay below 0x110000).
pub open spec fn utf8_enc(cp: u32) -> Seq<u8> {
    if cp < 0x80 {
        seq![cp as u8]
    } else if cp < 0x800 {
        seq![(0xC0 + cp / 0x40) as u8, (0x80 + cp % 0x40) as u8]
    } else if cp < 0x10000 {
        seq![
            (0xE0 + cp / 0x1000) as u8,
            (0x80 + (cp / 0x40) % 0x40) as u8,
            (0x80 + cp % 0x40) as u8,
        ]
    } else {
        seq![
            (0xF0 + cp / 0x40000) as u8,
            (0x80 + (cp / 0x1000) % 0x40) as u8,
            (0x80 + (cp / 0x40) % 0x40) as u8,
            (0x80 + cp % 0x40) as u8,
        ]
    }
}

/// Appends the UTF-8 encoding of `cp` to `out`.
pub fn push_utf8(out: &mut Vec<u8>, cp: u32)
    requires
        cp < 0x110000,
    ensures
        final(out)@ == old(out)@ + utf8_enc(cp),
{
    if cp < 0x80 {
        out.push(cp as u8);
        assert(out@ =~= old(out)@ + utf8_enc(cp));
    } else if cp < 0x800 {
        out.push((0xC0 + cp / 0x40) as u8);
        out.push((0x80 + cp % 0x40) as u8);
        assert(out@ =~= old(out)@ + utf8_enc(cp));
    } else if cp < 0x10000 {
        out.push((0xE0 + cp / 0x1000) as u8);
        out.push((0x80 + (cp / 0x40) % 0x40) as u8);
        out.push((0x80 + cp % 0x40) as u8);
        assert(out@ =~= old(out)@ + utf8_enc(cp));
    } else {
        out.push((0xF0 + cp / 0x40000) as u8);
        out.push((0x80 + (cp / 0x1000) % 0x40) as u8);
        out.push((0x80 + (cp / 0x40) % 0x40) as u8);
        out.push((0x80 + cp % 0x40) as u8);
        assert(out@ =~= old(out)@ + utf8_enc(cp));
    }
}

/// The escapes that decode to a single fixed byte.
pub open spec fn is_simple_escape(e: u8) -> bool {
    e == 34 || e == 92 || e == 47 || e == 98 || e == 102 || e == 110 || e == 114 || e == 116
}

/// The byte a simple escape decodes to.
pub open spec fn escape_byte(e: u8) -> u8 {
    if e == 98 {
        8
    } else if e == 102 {
        12
    } else if e == 110 {
        10
    } else if e == 114 {
        13
    } else if e == 116 {
        9
    } else {
        e
    }
}

/// Exec mirror of `is_simple_escape`.
fn is_simple_escape_byte(e: u8) -> (r: bool)
    ensures
        r == is_simple_escape(e),
{
    e == 34 || e == 92 || e == 47 || e == 98 || e == 102 || e == 110 || e == 114 || e == 116
}

/// Exec mirror of `escape_byte`.
fn escape_byte_of(e: u8) -> (r: u8)
    ensures
        r == escape_byte(e),
{
    if e == 98 {
        8
    } else if e == 102 {
        12
    } else if e == 110 {
        10
    } else if e == 114 {
        13
    } else if e == 116 {
        9
    } else {
        e
    }
}

/// Decodes a JSON string body from `i` (just past the opening quote) up to
/// and past the closing quote: raw bytes pass through, escapes decode, raw
/// control bytes and lone surrogates are refused.
pub open spec fn spec_parse_str_rest(s: Seq<u8>, i: int) -> Option<(Seq<u8>, int)>
    decreases s.len() - i when 0 <= i <= s.len()
{
    if i >= s.len() {
        None
    } else if s[i] == 34 {
        Some((Seq::<u8>::empty(), i + 1))
    } else if s[i] == 92 {
        if i + 1 >= s.len() {
            None
        } else {
            let e = s[i + 1];
            if is_simple_escape(e) {
                match spec_parse_str_rest(s, i + 2) {
                    Some((t, j)) => Some((seq![escape_byte(e)] + t, j)),
                    None => None,
                }
            } else if e == 117 {
                match spec_hex4(s, i + 2) {
                    Some(h) => if 0xD800 <= h && h < 0xDC00 {
                        if i + 8 <= s.len() && s[i + 6] == 92 && s[i + 7] == 117 {
                            match spec_hex4(s, i + 8) {
                                Some(l) => if 0xDC00 <= l && l < 0xE000 {
                                    match spec_parse_str_rest(s, i + 12) {
                                        Some((t, j)) => Some(
                                            (
                                                utf8_enc(
                                                    (0x10000 + (h - 0xD800) * 0x400 + (l
                                                        - 0xDC00)) as u32,
                                                ) + t,
                                                j,
                                            ),
                                        ),
                                        None => None,
                                    }
                                } else {
                                    None
                                },
                                None => None,
                            }
                        } else {
                            None
                        }
                    } else if 0xDC00 <= h && h < 0xE000 {
                        None
                    } else {
                        match spec_parse_str_rest(s, i + 6) {
                            Some((t, j)) => Some((utf8_enc(h) + t, j)),
                            None => None,
                        }
                    },
                    None => None,
                }
            } else {
                None
            }
        }
    } else if s[i] < 32 {
        None
    } else {
        match spec_parse_str_rest(s, i + 1) {
            Some((t, j)) => Some((seq![s[i]] + t, j)),
            None => None,
        }
    }
}

/// Exec mirror of `spec_parse_str_rest`.
pub fn parse_str_rest(s: &[u8], i: usize) -> (r: Option<(Vec<u8>, usize)>)
    requires
        i <= s@.len(),
    ensures
        r.is_none() ==> spec_parse_str_rest(s@, i as int).is_none(),
        r matches Some(p) ==> spec_parse_str_rest(s@, i as int) == Some((p.0@, p.1 as int))
            && i < p.1 <= s@.len(),
    decreases s@.len() - i,
{
    if i >= s.len() {
        return None;
    }
    let b = s[i];
    if b == 34 {
        return Some((Vec::new(), i + 1));
    }
    if b == 92 {
        if i + 1 >= s.len() {
            return None;
        }
        let e = s[i + 1];
        if is_simple_escape_byte(e) {
            match parse_str_rest(s, i + 2) {
                Some((t, j)) => {
                    let mut out: Vec<u8> = Vec::new();
                    out.push(escape_byte_of(e));
                    append_bytes(&mut out, t.as_slice());
                    assert(out@ =~= seq![escape_byte(e)] + t@);
                    Some((out, j))
                },
                None => None,
            }
        } else if e == 117 {
            match hex4(s, i + 2) {
                Some(h) => {
                    if 0xD800 <= h && h < 0xDC00 {
                        if s.len() - i >= 8 && s[i + 6] == 92 && s[i + 7] == 117 {
                            match hex4(s, i + 8) {
                                Some(l) => {
                                    if 0xDC00 <= l && l < 0xE000 {
                                        assert(i + 12 <= s@.len());
                                        match parse_str_rest(s, i + 12) {
                                            Some((t, j)) => {
                                                let cp: u32 = 0x10000 + (h - 0xD800) * 0x400 + (l
                                                    - 0xDC00);
                                                let mut out: Vec<u8> = Vec::new();
                                                push_utf8(&mut out, cp);
                                                append_bytes(&mut out, t.as_slice());
                                                assert(out@ =~= utf8_enc(cp) + t@);
                                                Some((out, j))
                                            },
                                            None => None,
                                        }
                                    } else {
                                        None
                                    }
                                },
                                None => None,
                            }
                        } else {
                            None
                        }
                    } else if 0xDC00 <= h && h < 0xE000 {
                        None
                    } else {
                        assert(i + 6 <= s@.len());
                        match parse_str_rest(s, i + 6) {
                            Some((t, j)) => {
                                let mut out: Vec<u8> = Vec::new();
                                push_utf8(&mut out, h);
                                append_bytes(&mut out, t.as_slice());
                                assert(out@ =~= utf8_enc(h) + t@);
                                Some((out, j))
                            },
                            None => None,
                        }
                    }
                },
                None => None,
            }
        } else {
            None
        }
    } else if b < 32 {
        None
    } else {
        match parse_str_rest(s, i + 1) {
            Some((t, j)) => {
                let mut out: Vec<u8> = Vec::new();
                out.push(b);
                append_bytes(&mut out, t.as_slice());
                assert(out@ =~= seq![b] + t@);
                Some((out, j))
            },
            None => None,
        }
    }
}

/// Decodes a complete JSON string starting at the opening quote.
pub open spec fn spec_parse_string(s: Seq<u8>, i: int) -> Option<(Seq<u8>, int)> {
    if 0 <= i < s.len() && s[i] == 34 {
        spec_parse_str_rest(s, i + 1)
    } else {
        None
    }
}

/// Exec mirror of `spec_parse_string`.
pub fn parse_string(s: &[u8], i: usize) -> (r: Option<(Vec<u8>, usize)>)
    requires
        i <= s@.len(),
    ensures
        r.is_none() ==> spec_parse_string(s@, i as int).is_none(),
        r matches Some(p) ==> spec_parse_string(s@, i as int) == Some((p.0@, p.1 as int))
            && i < p.1 <= s@.len(),
{
    if i < s.len() && s[i] == 34 {
        parse_str_rest(s, i + 1)
    } else {
        None
    }
}

} // verus!
