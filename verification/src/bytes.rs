//! Byte-level text helpers: whitespace trimming and decimal rendering.

use vstd::prelude::*;

verus! {

/// ASCII whitespace: space and the control characters HT, LF, VT, FF, CR.
pub open spec fn is_ws(b: u8) -> bool {
    b == 32 || (9 <= b && b <= 13)
}

/// Index of the first byte at or after `i` that is not whitespace
/// (or the length of `s` if every byte from `i` on is whitespace).
pub open spec fn first_non_ws_from(s: Seq<u8>, i: int) -> int
    decreases s.len() - i when 0 <= i <= s.len()
{
    if i >= s.len() {
        s.len() as int
    } else if !is_ws(s[i]) {
        i
    } else {
        first_non_ws_from(s, i + 1)
    }
}

/// End (exclusive) of the last non-whitespace byte strictly before `j`
/// (or 0 if every byte before `j` is whitespace).
pub open spec fn last_non_ws_to(s: Seq<u8>, j: int) -> int
    decreases j when 0 <= j <= s.len()
{
    if j <= 0 {
        0
    } else if !is_ws(s[j - 1]) {
        j
    } else {
        last_non_ws_to(s, j - 1)
    }
}

/// `s` with leading and trailing ASCII whitespace removed.
pub open spec fn trim_spec(s: Seq<u8>) -> Seq<u8> {
    let a = first_non_ws_from(s, 0);
    let b = last_non_ws_to(s, s.len() as int);
    if a < b {
        s.subrange(a, b)
    } else {
        Seq::<u8>::empty()
    }
}

/// `last_non_ws_to` never moves past `j`.
pub proof fn lemma_last_non_ws_to_bounds(s: Seq<u8>, j: int)
    requires
        0 <= j <= s.len(),
    ensures
        0 <= last_non_ws_to(s, j) <= j,
    decreases j,
{
    if j > 0 && is_ws(s[j - 1]) {
        lemma_last_non_ws_to_bounds(s, j - 1);
    }
}

/// Exec mirror of `is_ws`.
pub fn is_ws_byte(b: u8) -> (r: bool)
    ensures
        r == is_ws(b),
{
    b == 32 || (9 <= b && b <= 13)
}

/// Removes leading and trailing ASCII whitespace from a byte string.
pub fn trim_bytes(s: &[u8]) -> (r: Vec<u8>)
    ensures
        r@ == trim_spec(s@),
{
    let n = s.len();
    let mut a: usize = 0;
    while a < n && is_ws_byte(s[a])
        invariant
            a <= n,
            n == s@.len(),
            first_non_ws_from(s@, 0) == first_non_ws_from(s@, a as int),
        decreases n - a,
    {
        a = a + 1;
    }
    if a == n {
        proof {
            lemma_last_non_ws_to_bounds(s@, n as int);
        }
        return Vec::new();
    }
    let mut b: usize = n;
    while is_ws_byte(s[b - 1])
        invariant
            a < b <= n,
            n == s@.len(),
            a == first_non_ws_from(s@, 0),
            a < n && !is_ws(s@[a as int]),
            last_non_ws_to(s@, n as int) == last_non_ws_to(s@, b as int),
        decreases b,
    {
        b = b - 1;
    }
    let mut out: Vec<u8> = Vec::new();
    let mut k: usize = a;
    while k < b
        invariant
            a <= k <= b <= n,
            n == s@.len(),
            out@ == s@.subrange(a as int, k as int),
        decreases b - k,
    {
        out.push(s[k]);
        assert(out@ == s@.subrange(a as int, k + 1 as int));
        k = k + 1;
    }
    out
}

/// The decimal digits of `n`, most significant first.
pub open spec fn dec_seq(n: nat) -> Seq<u8>
    decreases n
{
    if n < 10 {
        seq![(48 + n) as u8]
    } else {
        dec_seq(n / 10).push((48 + n % 10) as u8)
    }
}

/// The decimal rendering of a possibly negative integer.
pub open spec fn int_dec_seq(n: int) -> Seq<u8> {
    if n < 0 {
        seq![45u8] + dec_seq((-n) as nat)
    } else {
        dec_seq(n as nat)
    }
}

/// Renders `n` in decimal, most significant digit first.
pub fn u64_to_dec(n: u64) -> (r: Vec<u8>)
    ensures
        r@ == dec_seq(n as nat),
    decreases n,
{
    if n < 10 {
        let mut v: Vec<u8> = Vec::new();
        v.push(48 + n as u8);
        v
    } else {
        let mut v = u64_to_dec(n / 10);
        v.push(48 + (n % 10) as u8);
        v
    }
}

/// Renders a signed 32-bit value in decimal, with a leading minus sign
/// when negative.
pub fn i32_to_dec(n: i32) -> (r: Vec<u8>)
    ensures
        r@ == int_dec_seq(n as int),
{
    let wide: i64 = n as i64;
    if wide < 0 {
        let mut v: Vec<u8> = Vec::new();
        v.push(45);
        let digits = u64_to_dec((-wide) as u64);
        let mut k: usize = 0;
        while k < digits.len()
            invariant
                k <= digits@.len(),
                digits@ == dec_seq((-(n as int)) as nat),
                v@ == seq![45u8] + digits@.subrange(0, k as int),
            decreases digits@.len() - k,
        {
            v.push(digits[k]);
            assert(v@ == seq![45u8] + digits@.subrange(0, k + 1 as int));
            k = k + 1;
        }
        assert(digits@.subrange(0, digits@.len() as int) == digits@);
        v
    } else {
        u64_to_dec(wide as u64)
    }
}

/// Appends every byte of `src` to `dst`, in order.
pub fn append_bytes(dst: &mut Vec<u8>, src: &[u8])
    ensures
        final(dst)@ == old(dst)@ + src@,
{
    let mut k: usize = 0;
    while k < src.len()
        invariant
            k <= src@.len(),
            dst@ == old(dst)@ + src@.subrange(0, k as int),
        decreases src@.len() - k,
    {
        dst.push(src[k]);
        assert(dst@ == old(dst)@ + src@.subrange(0, k + 1 as int));
        k = k + 1;
    }
    assert(src@.subrange(0, src@.len() as int) == src@);
}

/// True when the bytes of `a` and `b` are equal.
pub fn bytes_eq(a: &[u8], b: &[u8]) -> (r: bool)
    ensures
        r == (a@ == b@),
{
    if a.len() != b.len() {
        assert(a@.len() != b@.len());
        return false;
    }
    let mut k: usize = 0;
    while k < a.len()
        invariant
            k <= a@.len(),
            a@.len() == b@.len(),
            forall|i: int| 0 <= i < k ==> a@[i] == b@[i],
        decreases a@.len() - k,
    {
        if a[k] != b[k] {
            return false;
        }
        k = k + 1;
    }
    assert(a@ =~= b@);
    true
}

} // verus!
