//! The inverse-of-modulus constant of Montgomery reduction.
//!
//! For an odd `a`, the low limb of a field modulus, reduction needs the
//! number `inv` with `a * inv = -1` modulo the limb range `2^bits`. It is
//! found by a fixed-point iteration that starts at 1 and squares, then
//! multiplies by `a`, `bits - 1` times; the result is negated.

use vstd::prelude::*;
use vstd::arithmetic::power2::{pow2, lemma_pow2_pos, lemma_pow2_adds, lemma_pow2_unfold, lemma2_to64, lemma2_to64_rest};
use vstd::arithmetic::div_mod::{lemma_fundamental_div_mod, lemma_mod_mod, lemma_mod_multiples_vanish, lemma_mul_mod_noop_general, lemma_small_mod, lemma_mod_bound};

verus! {

/// The state of the iteration after `k` steps, in the limb range `m`.
pub open spec fn inv_iter(a: nat, m: nat, k: nat) -> nat
    decreases k,
{
    if k == 0 {
        1
    } else {
        let x = inv_iter(a, m, (k - 1) as nat);
        (((x * x) % m) * a) % m
    }
}

/// The constant for the low limb `a` and limbs of `bits` bits.
pub open spec fn spec_calc_inv(a: nat, bits: nat) -> nat {
    let m = pow2(bits);
    ((m - inv_iter(a, m, (bits - 1) as nat)) % (m as int)) as nat
}

/// One step of the iteration doubles the number of low bits in which
/// `a * x` is one.
proof fn lemma_inv_step(a: nat, x: nat, k: nat, bits: nat)
    requires
        1 <= k < bits,
        (a * x) % pow2(k) == 1,
    ensures
        (a * ((((x * x) % pow2(bits)) * a) % pow2(bits))) % pow2(k + 1) == 1,
{
    let m = pow2(bits) as int;
    let p = pow2(k) as int;
    let q = pow2(k + 1) as int;
    let h = pow2((k - 1) as nat) as int;
    let c = pow2((bits - k - 1) as nat) as int;
    lemma_pow2_pos(bits);
    lemma_pow2_pos(k);
    lemma_pow2_pos((k - 1) as nat);
    lemma_pow2_pos((bits - k - 1) as nat);
    lemma_pow2_unfold(k);
    lemma_pow2_unfold(k + 1);
    lemma_pow2_adds(k + 1, (bits - k - 1) as nat);
    assert(p == 2 * h);
    assert(q == 2 * p);
    assert(m == q * c);
    let y = (a * x) as int;
    let sq = ((x * x) % (m as nat)) as int;
    let z = sq * a;
    let x2 = z % m;
    // a * x2 is congruent to y * y modulo q
    lemma_mul_mod_noop_general(a as int, z, m);
    assert((a * x2) % m == (a * z) % m);
    lemma_mod_mod(a * x2, q, c);
    lemma_mod_mod(a * z, q, c);
    assert((a * x2) % q == (a * z) % q);
    let aa = (a * a) as int;
    let xx = (x * x) as int;
    assert(a * z == sq * aa) by (nonlinear_arith)
        requires
            z == sq * a,
            aa == a * a,
    ;
    lemma_mul_mod_noop_general(xx, aa, m);
    assert((sq * aa) % m == (xx * aa) % m);
    lemma_mod_mod(sq * aa, q, c);
    lemma_mod_mod(xx * aa, q, c);
    assert(xx * aa == y * y) by (nonlinear_arith)
        requires
            xx == x * x,
            aa == a * a,
            y == a * x,
    ;
    assert((a * x2) % q == (y * y) % q);
    // y * y is one modulo q
    let t = y / p;
    lemma_fundamental_div_mod(y, p);
    assert(y == p * t + 1);
    assert(y * y == q * (h * t * t + t) + 1) by (nonlinear_arith)
        requires
            y == p * t + 1,
            p == 2 * h,
            q == 2 * p,
    ;
    lemma_mod_multiples_vanish(h * t * t + t, 1, q);
    lemma_small_mod(1, q as nat);
}

/// After `k` steps, `a * x` is one in its `k + 1` low bits.
pub proof fn lemma_inv_iter(a: nat, bits: nat, k: nat)
    requires
        a % 2 == 1,
        k < bits,
    ensures
        (a * inv_iter(a, pow2(bits), k)) % pow2(k + 1) == 1,
        inv_iter(a, pow2(bits), k) < pow2(bits),
    decreases k,
{
    lemma_pow2_pos(bits);
    lemma2_to64();
    if k == 0 {
        assert(a * 1 == a);
        if bits > 1 {
            vstd::arithmetic::power2::lemma_pow2_strictly_increases(1, bits);
        }
    } else {
        lemma_inv_iter(a, bits, (k - 1) as nat);
        let x = inv_iter(a, pow2(bits), (k - 1) as nat);
        lemma_inv_step(a, x, k, bits);
        lemma_mod_bound((((x * x) % pow2(bits)) * a) as int, pow2(bits) as int);
    }
}

/// The constant is the negated inverse of `a`: `a * inv + 1` is a multiple
/// of the limb range.
pub proof fn lemma_calc_inv(a: nat, bits: nat)
    requires
        a % 2 == 1,
        bits >= 1,
    ensures
        (a * spec_calc_inv(a, bits) + 1) % pow2(bits) == 0,
        spec_calc_inv(a, bits) < pow2(bits),
{
    let m = pow2(bits) as int;
    lemma_pow2_pos(bits);
    lemma_inv_iter(a, bits, (bits - 1) as nat);
    let x = inv_iter(a, pow2(bits), (bits - 1) as nat) as int;
    let r = spec_calc_inv(a, bits) as int;
    assert((a * x) % m == 1);
    lemma_mod_bound(m - x, m);
    // x is not zero, so the negation is m - x
    if x == 0 {
        assert(a * x == 0) by (nonlinear_arith)
            requires
                x == 0,
        ;
        lemma_small_mod(0, m as nat);
    }
    lemma_small_mod((m - x) as nat, m as nat);
    assert(r == m - x);
    let t = (a * x) / m;
    lemma_fundamental_div_mod(a * x, m);
    assert(a * x == m * t + 1);
    assert(a * r + 1 == m * (a - t) + 0) by (nonlinear_arith)
        requires
            r == m - x,
            a * x == m * t + 1,
    ;
    lemma_mod_multiples_vanish(a - t, 0, m);
    lemma_small_mod(0, m as nat);
}

/// The constant for 32-bit limbs.
pub fn calc_inv_32(a: u32) -> (inv: u32)
    ensures
        inv == spec_calc_inv(a as nat, 32),
        a % 2 == 1 ==> (a * inv + 1) % 0x1_0000_0000 == 0,
{
    proof {
        lemma2_to64();
    }
    let mut inv: u32 = 1;
    let mut i: u32 = 0;
    while i < 31
        invariant
            0 <= i <= 31,
            inv == inv_iter(a as nat, pow2(32), i as nat),
            pow2(32) == 0x1_0000_0000,
        decreases 31 - i,
    {
        inv = inv.wrapping_mul(inv);
        inv = inv.wrapping_mul(a);
        i = i + 1;
    }
    proof {
        if a % 2 == 1 {
            lemma_calc_inv(a as nat, 32);
        }
        lemma_pow2_pos(32);
        let x = inv as int;
        if x == 0 {
            lemma_small_mod(0, pow2(32));
            assert((pow2(32) - 0) % (pow2(32) as int) == 0) by {
                vstd::arithmetic::div_mod::lemma_mod_self_0(pow2(32) as int);
            }
        } else {
            lemma_small_mod((pow2(32) - x) as nat, pow2(32));
        }
    }
    0u32.wrapping_sub(inv)
}

/// The constant for 64-bit limbs.
pub fn calc_inv_64(a: u64) -> (inv: u64)
    ensures
        inv == spec_calc_inv(a as nat, 64),
        a % 2 == 1 ==> (a * inv + 1) % 0x1_0000_0000_0000_0000 == 0,
{
    proof {
        lemma2_to64();
        lemma2_to64_rest();
    }
    let mut inv: u64 = 1;
    let mut i: u32 = 0;
    while i < 63
        invariant
            0 <= i <= 63,
            inv == inv_iter(a as nat, pow2(64), i as nat),
            pow2(64) == 0x1_0000_0000_0000_0000,
        decreases 63 - i,
    {
        inv = inv.wrapping_mul(inv);
        inv = inv.wrapping_mul(a);
        i = i + 1;
    }
    proof {
        if a % 2 == 1 {
            lemma_calc_inv(a as nat, 64);
        }
        lemma_pow2_pos(64);
        let x = inv as int;
        if x == 0 {
            lemma_small_mod(0, pow2(64));
            assert((pow2(64) - 0) % (pow2(64) as int) == 0) by {
                vstd::arithmetic::div_mod::lemma_mod_self_0(pow2(64) as int);
            }
        } else {
            lemma_small_mod((pow2(64) - x) as nat, pow2(64));
        }
    }
    0u64.wrapping_sub(inv)
}

} // verus!
