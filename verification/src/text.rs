//! Byte-level text utilities: decimal rendering of status codes and
//! decoding of the fixed-size NUL-terminated buffers the driver fills.

use vstd::prelude::*;

verus! {

/// The decimal digits of `n`, most significant first, as ASCII bytes.
pub open spec fn spec_decimal_digits(n: nat) -> Seq<u8>
    decreases n,
{
    if n < 10 {
        seq![(48 + n) as u8]
    } else {
        spec_decimal_digits(n / 10).push((48 + n % 10) as u8)
    }
}

/// Render `n` in decimal, most significant digit first.
pub fn decimal_digits(n: u32) -> (r: Vec<u8>)
    ensures
        r@ == spec_decimal_digits(n as nat),
    decreases n,
{
    if n < 10 {
        let mut r: Vec<u8> = Vec::new();
        r.push(48 + n as u8);
        proof {
            assert(r@ =~= spec_decimal_digits(n as nat));
        }
        r
    } else {
        let mut r = decimal_digits(n / 10);
        r.push(48 + (n % 10) as u8);
        r
    }
}

/// The text a fixed-size driver buffer holds: everything before its first
/// NUL byte, or the whole buffer when no NUL is present.
pub open spec fn spec_text_before_nul(s: Seq<u8>) -> Seq<u8>
    decreases s.len(),
{
    if s.len() == 0 {
        Seq::empty()
    } else if s[0] == 0 {
        Seq::empty()
    } else {
        seq![s[0]] + spec_text_before_nul(s.skip(1))
    }
}

/// `spec_text_before_nul` is the prefix that ends at the first NUL: any cut
/// point `n` whose left side is NUL-free and which sits at a NUL (or at the
/// end) yields exactly that prefix.
pub proof fn lemma_text_before_nul_is_prefix(s: Seq<u8>, n: int)
    requires
        0 <= n <= s.len(),
        forall|j: int| 0 <= j < n ==> s[j] != 0,
        n == s.len() || s[n] == 0,
    ensures
        spec_text_before_nul(s) == s.take(n),
    decreases s.len(),
{
    if n == 0 {
        assert(s.take(0) =~= Seq::empty());
    } else {
        lemma_text_before_nul_is_prefix(s.skip(1), n - 1);
        assert(seq![s[0]] + s.skip(1).take(n - 1) =~= s.take(n));
    }
}

/// Extract the text of a fixed-size driver buffer: the bytes before the
/// first NUL, or all of them when no NUL is present.
pub fn text_before_nul(buf: &Vec<u8>) -> (r: Vec<u8>)
    ensures
        r@ == spec_text_before_nul(buf@),
{
    let mut r: Vec<u8> = Vec::new();
    let mut i: usize = 0;
    while i < buf.len() && buf[i] != 0
        invariant
            0 <= i <= buf@.len(),
            r@ == buf@.take(i as int),
            forall|j: int| 0 <= j < i ==> buf@[j] != 0,
        decreases buf@.len() - i,
    {
        r.push(buf[i]);
        i = i + 1;
        proof {
            assert(r@ =~= buf@.take(i as int));
        }
    }
    proof {
        lemma_text_before_nul_is_prefix(buf@, i as int);
    }
    r
}

} // verus!
