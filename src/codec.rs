//! Little-endian byte encodings of `u128` values and of identities.

use vstd::prelude::*;
use vstd::arithmetic::div_mod::lemma_mod_breakdown;

verus! {

/// Number of bytes in the encoding of a `u128`.
pub const U128_BYTES: usize = 16;

/// `256` to the power `n`.
pub open spec fn pow256(n: nat) -> nat
    decreases n,
{
    if n == 0 {
        1
    } else {
        256 * pow256((n - 1) as nat)
    }
}

/// The `n` low-order bytes of `x`, least significant first.
pub open spec fn le_seq(x: nat, n: nat) -> Seq<u8>
    decreases n,
{
    if n == 0 {
        Seq::empty()
    } else {
        seq![(x % 256) as u8] + le_seq(x / 256, (n - 1) as nat)
    }
}

/// The number whose little-endian bytes are `s`.
pub open spec fn le_val(s: Seq<u8>) -> nat
    decreases s.len(),
{
    if s.len() == 0 {
        0
    } else {
        s[0] as nat + 256 * le_val(s.drop_first())
    }
}

/// The 16-byte little-endian encoding of `x`.
pub open spec fn u128_le(x: u128) -> Seq<u8> {
    le_seq(x as nat, 16)
}

pub proof fn lemma_pow256_positive(n: nat)
    ensures
        pow256(n) > 0,
    decreases n,
{
    if n > 0 {
        lemma_pow256_positive((n - 1) as nat);
    }
}

pub proof fn lemma_pow256_monotonic(a: nat, b: nat)
    requires
        a <= b,
    ensures
        pow256(a) <= pow256(b),
    decreases b,
{
    if a < b {
        lemma_pow256_monotonic(a, (b - 1) as nat);
    }
}

pub proof fn lemma_pow256_16()
    ensures
        pow256(16) == 0x1_0000_0000_0000_0000_0000_0000_0000_0000,
{
    reveal_with_fuel(pow256, 17);
}

/// Decoding the `n` low bytes of `x` gives `x` modulo `256^n`.
pub proof fn lemma_le_seq_val(x: nat, n: nat)
    ensures
        le_seq(x, n).len() == n,
        le_val(le_seq(x, n)) == x % pow256(n),
    decreases n,
{
    if n == 0 {
        assert(x % 1 == 0) by (nonlinear_arith);
    } else {
        let m = (n - 1) as nat;
        lemma_le_seq_val(x / 256, m);
        lemma_pow256_positive(m);
        assert(le_seq(x, n).drop_first() =~= le_seq(x / 256, m));
        lemma_mod_breakdown(x as int, 256, pow256(m) as int);
    }
}

/// Decoding the encoding of a `u128` gives it back.
pub proof fn lemma_u128_le_round_trip(x: u128)
    ensures
        u128_le(x).len() == 16,
        le_val(u128_le(x)) == x,
{
    lemma_le_seq_val(x as nat, 16);
    lemma_pow256_16();
}

/// Distinct values have distinct encodings.
pub proof fn lemma_u128_le_injective(x: u128, y: u128)
    requires
        x != y,
    ensures
        u128_le(x) != u128_le(y),
{
    lemma_u128_le_round_trip(x);
    lemma_u128_le_round_trip(y);
}

/// The 16-byte little-endian encoding of `x`.
pub fn u128_to_le(x: u128) -> (r: Vec<u8>)
    ensures
        r@ == u128_le(x),
{
    let mut out: Vec<u8> = Vec::new();
    let mut v: u128 = x;
    let mut i: usize = 0;
    while i < U128_BYTES
        invariant
            i <= 16,
            out@ + le_seq(v as nat, (16 - i) as nat) == u128_le(x),
        decreases 16 - i,
    {
        let ghost before = out@;
        let ghost k = (16 - i - 1) as nat;
        assert(le_seq(v as nat, (16 - i) as nat) == seq![(v % 256) as u8] + le_seq(
            (v / 256) as nat,
            k,
        ));
        out.push((v % 256) as u8);
        v = v / 256;
        i = i + 1;
        assert(out@ + le_seq(v as nat, k) =~= before + (seq![(out@.last())] + le_seq(
            v as nat,
            k,
        )));
    }
    assert(out@ =~= out@ + le_seq(v as nat, 0));
    out
}

/// The number whose little-endian bytes are `b[start .. start + 16]`.
pub fn u128_from_le(b: &Vec<u8>, start: usize) -> (r: u128)
    requires
        start + 16 <= b@.len(),
    ensures
        r == le_val(b@.subrange(start as int, start + 16)),
{
    let mut v: u128 = 0;
    let mut i: usize = U128_BYTES;
    let n: usize = b.len();
    proof {
        lemma_pow256_16();
    }
    while i > 0
        invariant
            i <= 16,
            n == b@.len(),
            start + 16 <= n,
            v == le_val(b@.subrange(start + i, start + 16)),
            v < pow256((16 - i) as nat),
            pow256(16) == 0x1_0000_0000_0000_0000_0000_0000_0000_0000,
        decreases i,
    {
        i = i - 1;
        let byte = b[start + i];
        proof {
            let s = b@.subrange(start + i, start + 16);
            assert(s.drop_first() =~= b@.subrange(start + i + 1, start + 16));
            assert(s[0] == byte);
            lemma_pow256_monotonic((16 - i) as nat, 16);
            assert(v * 256 + byte < 256 * pow256((16 - i - 1) as nat)) by (nonlinear_arith)
                requires
                    v < pow256((16 - i - 1) as nat),
                    byte < 256,
            ;
        }
        v = v * 256 + byte as u128;
    }
    v
}

} // verus!
