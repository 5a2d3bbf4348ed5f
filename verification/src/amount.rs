//! Amounts: non-negative 64-bit integers in the smallest indivisible unit.
//!
//! Keys exist only at powers of two from `1` up to `2^(max_order - 1)`, so a
//! valid proof or blinded-message amount is always a single power of two
//! below the order of its keyset.

use vstd::prelude::*;
use vstd::arithmetic::power2::{pow2, lemma_pow2_unfold, lemma_pow2_strictly_increases, lemma2_to64, lemma2_to64_rest};

verus! {

/// `a` is a power of two strictly below `2^max_order`, i.e. a key amount
/// declared by a keyset of that order.
pub open spec fn is_key_amount(a: u64, max_order: nat) -> bool {
    exists|k: nat| k < max_order && a == pow2(k)
}

/// `2^k` computed executably; the exponent must leave the result in range.
pub fn pow2_u64(k: u32) -> (r: u64)
    requires
        k < 64,
    ensures
        r == pow2(k as nat),
{
    proof {
        lemma2_to64();
        lemma2_to64_rest();
        if (k as nat) < 64 {
            lemma_pow2_strictly_increases(k as nat, 64);
        }
    }
    let mut r: u64 = 1;
    let mut i: u32 = 0;
    while i < k
        invariant
            i <= k < 64,
            r == pow2(i as nat),
            pow2(k as nat) < pow2(64),
            pow2(64) == 0x1_0000_0000_0000_0000,
        decreases k - i,
    {
        proof {
            lemma_pow2_unfold((i + 1) as nat);
            lemma_pow2_strictly_increases((i + 1) as nat, 64);
            if i + 1 < k {
                lemma_pow2_strictly_increases((i + 1) as nat, k as nat);
            }
        }
        r = r * 2;
        i = i + 1;
    }
    r
}

/// The sum of a sequence of amounts, as a mathematical integer.
pub open spec fn sum_amounts(s: Seq<u64>) -> int
    decreases s.len(),
{
    if s.len() == 0 {
        0
    } else {
        sum_amounts(s.drop_last()) + s.last()
    }
}

/// Sums a short vector of amounts into a `u128`, which cannot overflow for
/// the bounded request sizes the node accepts.
pub fn sum_amounts_u128(v: &Vec<u64>) -> (r: u128)
    requires
        v@.len() <= 64,
    ensures
        r == sum_amounts(v@),
{
    let mut acc: u128 = 0;
    let mut i: usize = 0;
    proof {
        assert(v@.subrange(0, 0) =~= Seq::<u64>::empty());
    }
    while i < v.len()
        invariant
            i <= v@.len() <= 64,
            acc == sum_amounts(v@.subrange(0, i as int)),
            acc <= i * 0xffff_ffff_ffff_ffff,
        decreases v@.len() - i,
    {
        proof {
            assert(v@.subrange(0, i + 1).drop_last() =~= v@.subrange(0, i as int));
        }
        acc = acc + v[i] as u128;
        i = i + 1;
    }
    proof {
        assert(v@.subrange(0, v@.len() as int) =~= v@);
    }
    acc
}

} // verus!
