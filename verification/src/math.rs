//! Powers of two and binary logarithms of machine integers.

use vstd::prelude::*;
use vstd::arithmetic::power2::{pow2, lemma_pow2_pos, lemma_pow2_strictly_increases, lemma_pow2_unfold, lemma2_to64};

verus! {

/// Two to the power `k`.
pub fn power_of_two(k: usize) -> (p: u64)
    requires
        k <= 63,
    ensures
        p == pow2(k as nat),
        1 <= p <= 0x8000_0000_0000_0000,
        k <= 32 ==> p <= 0x1_0000_0000,
{
    let mut p: u64 = 1;
    let mut i: usize = 0;
    proof {
        lemma2_to64();
        vstd::arithmetic::power2::lemma2_to64_rest();
    }
    while i < k
        invariant
            0 <= i <= k <= 63,
            p == pow2(i as nat),
            1 <= p <= pow2(63),
            pow2(63) == 0x8000_0000_0000_0000,
        decreases k - i,
    {
        proof {
            lemma_pow2_unfold((i + 1) as nat);
            if i + 1 < 63 {
                lemma_pow2_strictly_increases((i + 1) as nat, 63);
            }
        }
        p = p * 2;
        i = i + 1;
    }
    proof {
        lemma2_to64();
        if k < 32 {
            lemma_pow2_strictly_increases(k as nat, 32);
        }
    }
    p
}

/// The position of the highest set bit of `x`; zero for zero.
pub open spec fn spec_floor_log2(x: nat) -> nat
    decreases x,
{
    if x <= 1 {
        0
    } else {
        1 + spec_floor_log2(x / 2)
    }
}

/// The binary logarithm of `x`, rounded down, with zero for zero.
pub fn floor_log2(x: usize) -> (k: usize)
    ensures
        k == spec_floor_log2(x as nat),
        k < 64,
        x >= 1 ==> pow2(k as nat) <= x < pow2((k + 1) as nat),
{
    let mut k: usize = 0;
    let mut y: usize = x;
    proof {
        lemma2_to64();
    }
    while y > 1
        invariant
            spec_floor_log2(x as nat) == k + spec_floor_log2(y as nat),
            x >= 1 ==> y >= 1,
            x >= 1 ==> pow2(k as nat) * y <= x < pow2(k as nat) * (y + 1),
            y * pow2(k as nat) <= usize::MAX,
            k < 64,
        decreases y,
    {
        proof {
            let p = pow2(k as nat) as int;
            lemma_pow2_pos(k as nat);
            lemma_pow2_unfold((k + 1) as nat);
            let h = (y / 2) as int;
            assert(2 * p * h <= p * y && p * (y + 1) <= 2 * p * (h + 1)) by (nonlinear_arith)
                requires
                    p >= 1,
                    h == y / 2,
                    y >= 0,
            ;
            assert(h * (2 * p) == 2 * p * h) by (nonlinear_arith);
            assert(2 * p * h <= usize::MAX) by (nonlinear_arith)
                requires
                    2 * p * h <= p * y,
                    y * p <= usize::MAX,
            ;
            if k + 1 >= 64 {
                lemma_pow2_strictly_increases(63, (k + 1) as nat);
                assert(pow2((k + 1) as nat) * h >= pow2((k + 1) as nat)) by (nonlinear_arith)
                    requires
                        h >= 1,
                        pow2((k + 1) as nat) >= 0,
                ;
                lemma2_to64_rest_63();
            }
        }
        y = y / 2;
        k = k + 1;
    }
    proof {
        lemma_pow2_unfold((k + 1) as nat);
        if x >= 1 {
            let p = pow2(k as nat) as int;
            assert(y == 1);
            assert(p * 1 == p && p * 2 == 2 * p) by (nonlinear_arith);
        }
    }
    k
}

proof fn lemma2_to64_rest_63()
    ensures
        pow2(63) == 0x8000_0000_0000_0000,
        pow2(64) == 0x1_0000_0000_0000_0000,
{
    vstd::arithmetic::power2::lemma2_to64_rest();
}

/// Whether `n` is two to the power `k`, for a `k` of at most 31.
pub open spec fn is_power_of_two(n: nat) -> bool {
    exists|k: nat| k <= 31 && n == #[trigger] pow2(k)
}

/// The exponent `k` with `n == 2^k`, if `n` is a power of two of at most
/// 2^31.
pub fn log2_exact(n: usize) -> (r: Option<u32>)
    ensures
        r is Some <==> is_power_of_two(n as nat),
        r matches Some(k) ==> k <= 31 && n == pow2(k as nat),
{
    if n == 0 {
        proof {
            assert forall|k: nat| k <= 31 implies n != #[trigger] pow2(k) by {
                lemma_pow2_pos(k);
            }
        }
        return None;
    }
    let k: usize = floor_log2(n);
    if k > 31 {
        proof {
            assert forall|j: nat| j <= 31 implies n != #[trigger] pow2(j) by {
                if j < k {
                    lemma_pow2_strictly_increases(j, k as nat);
                }
            }
        }
        return None;
    }
    let p: u64 = power_of_two(k);
    if p == n as u64 {
        Some(k as u32)
    } else {
        proof {
            assert forall|j: nat| j <= 31 implies n != #[trigger] pow2(j) by {
                if j < k {
                    lemma_pow2_strictly_increases(j, k as nat);
                } else if j > k {
                    if j > k + 1 {
                        lemma_pow2_strictly_increases((k + 1) as nat, j);
                    }
                }
            }
        }
        None
    }
}

} // verus!
