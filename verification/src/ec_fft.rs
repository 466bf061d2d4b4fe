//! Launch planning for the radix FFT over sequences of curve points.
//!
//! A transform of `n = 2^log_n` points runs in rounds. Each round consumes
//! `deg` bits of the index at once, reads one device buffer and writes the
//! fully permuted result of the round into the other; the two buffers are
//! swapped between rounds.

use vstd::prelude::*;
use vstd::arithmetic::power2::{pow2, lemma_pow2_pos, lemma_pow2_adds, lemma_pow2_strictly_increases, lemma2_to64};
use crate::error::GpuError;
use crate::kernel::{KernelArg, KernelConfig};
use crate::math::{is_power_of_two, log2_exact, power_of_two};
use crate::params::{Param, Value};
use crate::text::joined;

verus! {

/// The largest number of index bits that one round consumes.
pub const MAX_LOG2_RADIX: u32 = 8;

/// Below this virtual work-group size a group is padded, unless the whole
/// transform is tiny.
pub const MIN_LOCAL_WORK_SIZE: u32 = 32;

/// Up to this many points a transform counts as tiny.
pub const TINY_TRANSFORM: u32 = 64;

/// The sizes of one transform.
#[derive(Debug, Clone, Copy, PartialEq, Eq, Structural)]
pub struct FftInput {
    /// The number of points; a power of two.
    pub n: usize,
    /// The number of entries of the table of powers of the root of unity.
    pub omegas_len: usize,
    /// Bytes of one curve point.
    pub point_size: usize,
    /// Bytes of one scalar.
    pub scalar_size: usize,
}

impl FftInput {
    /// What the machine can hold and launch: the length is a 32-bit kernel
    /// argument, and every buffer has a size in bytes.
    pub open spec fn fits(self) -> bool {
        &&& self.n * self.point_size <= usize::MAX
        &&& self.omegas_len * self.scalar_size <= usize::MAX
        &&& self.point_size * 256 <= usize::MAX
    }
}

/// One round of butterflies.
#[derive(Debug, Clone, Copy, PartialEq, Eq, Structural)]
pub struct FftRound {
    /// The number of points.
    pub n: u32,
    /// The number of index bits that earlier rounds have consumed.
    pub log_p: u32,
    /// The number of index bits that this round consumes.
    pub deg: u32,
    /// The work-group size that the algorithm asks for: `2^(deg-1)`.
    pub virtual_local_work_size: u32,
    /// The largest `deg` of the transform.
    pub max_deg: u32,
    /// What is dispatched: the physical work-group size, the number of
    /// groups, and shared memory for two points per work item.
    pub config: KernelConfig,
}

/// The largest number of bits that a round of a transform of `2^log_n`
/// points consumes.
pub open spec fn spec_max_deg(log_n: nat) -> nat {
    if log_n < MAX_LOG2_RADIX {
        log_n
    } else {
        MAX_LOG2_RADIX as nat
    }
}

/// The number of bits that the round at `log_p` consumes.
pub open spec fn spec_deg(log_n: nat, log_p: nat) -> nat {
    if log_n - log_p < spec_max_deg(log_n) {
        (log_n - log_p) as nat
    } else {
        spec_max_deg(log_n)
    }
}

/// The work-group size that is dispatched for a virtual size `virt` in a
/// transform of `n` points.
pub open spec fn spec_physical(virt: nat, n: nat) -> nat {
    if virt >= MIN_LOCAL_WORK_SIZE || n <= TINY_TRANSFORM {
        virt
    } else {
        MIN_LOCAL_WORK_SIZE as nat
    }
}

/// The round at `log_p` of a transform of `2^log_n` points of `point_size`
/// bytes.
pub open spec fn spec_round(log_n: nat, log_p: nat, point_size: nat) -> FftRound {
    let n = pow2(log_n);
    let deg = spec_deg(log_n, log_p);
    let virt = pow2((deg - 1) as nat);
    let physical = spec_physical(virt, n);
    FftRound {
        n: n as u32,
        log_p: log_p as u32,
        deg: deg as u32,
        virtual_local_work_size: virt as u32,
        max_deg: spec_max_deg(log_n) as u32,
        config: KernelConfig {
            global_work_size: (n / 2 / physical) as usize,
            local_work_size: physical as usize,
            shared_mem: (point_size * 2 * physical) as usize,
        },
    }
}

/// The rounds of a transform of `2^log_n` points from `log_p` on.
pub open spec fn spec_rounds(log_n: nat, log_p: nat, point_size: nat) -> Seq<FftRound>
    decreases log_n - log_p,
{
    if log_p >= log_n {
        seq![]
    } else {
        seq![spec_round(log_n, log_p, point_size)] + spec_rounds(
            log_n,
            log_p + spec_deg(log_n, log_p),
            point_size,
        )
    }
}

/// The sum of the bits that the rounds consume.
pub open spec fn total_deg(rounds: Seq<FftRound>) -> nat
    decreases rounds.len(),
{
    if rounds.len() == 0 {
        0
    } else {
        total_deg(rounds.drop_last()) + rounds.last().deg as nat
    }
}

/// The decomposition of one transform into rounds.
#[derive(Debug, Clone, PartialEq, Eq)]
pub struct FftPlan {
    /// The sizes that the plan was made for.
    pub input: FftInput,
    /// The binary logarithm of the number of points.
    pub log_n: u32,
    /// The largest number of bits that a round consumes.
    pub max_deg: u32,
    /// The power to which the first entry of the table of roots is raised to
    /// give the twiddle factor of the rounds: `n >> max_deg`.
    pub twiddle_exponent: u64,
    /// The rounds, in the order in which they run.
    pub rounds: Vec<FftRound>,
}

impl FftPlan {
    /// The plan is the one that follows from its input.
    pub open spec fn matches_input(self) -> bool {
        &&& self.input.n == pow2(self.log_n as nat)
        &&& self.log_n <= 31
        &&& self.max_deg == spec_max_deg(self.log_n as nat)
        &&& self.twiddle_exponent == pow2((self.log_n - self.max_deg) as nat)
        &&& self.rounds@ == spec_rounds(self.log_n as nat, 0, self.input.point_size as nat)
    }
}

/// The rounds from `log_p` on consume exactly the bits that are left, each
/// between one bit and the largest radix, and each dispatches one work item
/// per butterfly: half as many as there are points.
pub proof fn lemma_rounds_cover(log_n: nat, log_p: nat, point_size: nat)
    requires
        log_p <= log_n <= 31,
    ensures
        total_deg(spec_rounds(log_n, log_p, point_size)) == log_n - log_p,
        forall|i: int|
            0 <= i < spec_rounds(log_n, log_p, point_size).len() ==> {
                let r = #[trigger] spec_rounds(log_n, log_p, point_size)[i];
                &&& 1 <= r.deg <= MAX_LOG2_RADIX
                &&& r.deg <= r.max_deg
                &&& log_p <= r.log_p
                &&& r.log_p + r.deg <= log_n
                &&& r.n == pow2(log_n)
                &&& 2 * r.config.global_work_size * r.config.local_work_size == r.n
            },
    decreases log_n - log_p,
{
    let rounds = spec_rounds(log_n, log_p, point_size);
    if log_p < log_n {
        let deg = spec_deg(log_n, log_p);
        let rest = spec_rounds(log_n, log_p + deg, point_size);
        let first = spec_round(log_n, log_p, point_size);
        lemma_rounds_cover(log_n, log_p + deg, point_size);
        lemma_round_shape(log_n, log_p, point_size);
        lemma_total_deg_prepend(first, rest);
        assert forall|i: int| 0 <= i < rounds.len() implies {
            let r = #[trigger] rounds[i];
            &&& 1 <= r.deg <= MAX_LOG2_RADIX
            &&& r.deg <= r.max_deg
            &&& log_p <= r.log_p
            &&& r.log_p + r.deg <= log_n
            &&& r.n == pow2(log_n)
            &&& 2 * r.config.global_work_size * r.config.local_work_size == r.n
        } by {
            if i > 0 {
                assert(rounds[i] == rest[i - 1]);
            }
        }
    }
}

/// The total of the bits of a sequence of rounds with one round put in
/// front.
proof fn lemma_total_deg_prepend(first: FftRound, rest: Seq<FftRound>)
    ensures
        total_deg(seq![first] + rest) == first.deg + total_deg(rest),
    decreases rest.len(),
{
    let all = seq![first] + rest;
    if rest.len() == 0 {
        assert(all.drop_last() =~= Seq::<FftRound>::empty());
        assert(total_deg(all.drop_last()) == 0);
    } else {
        assert(all.drop_last() =~= seq![first] + rest.drop_last());
        assert(all.last() == rest.last());
        lemma_total_deg_prepend(first, rest.drop_last());
    }
}

/// The numbers of one round, as integers.
pub proof fn lemma_round_shape(log_n: nat, log_p: nat, point_size: nat)
    requires
        log_p < log_n <= 31,
    ensures
        ({
            let r = spec_round(log_n, log_p, point_size);
            let deg = spec_deg(log_n, log_p);
            let virt = pow2((deg - 1) as nat);
            let physical = spec_physical(virt, pow2(log_n));
            &&& 1 <= deg <= MAX_LOG2_RADIX
            &&& deg <= spec_max_deg(log_n)
            &&& log_p + deg <= log_n
            &&& r.n == pow2(log_n)
            &&& 2 <= pow2(log_n) <= 0x8000_0000
            &&& r.log_p == log_p
            &&& r.deg == deg
            &&& r.max_deg == spec_max_deg(log_n)
            &&& r.virtual_local_work_size == virt
            &&& 1 <= virt <= 128
            &&& 1 <= physical <= 128
            &&& r.config.local_work_size == physical
            &&& r.config.global_work_size == pow2(log_n) / 2 / physical
            &&& 2 * r.config.global_work_size * r.config.local_work_size == pow2(log_n)
        }),
{
    let n = pow2(log_n);
    let deg = spec_deg(log_n, log_p);
    let virt = pow2((deg - 1) as nat);
    let physical = spec_physical(virt, n);
    lemma2_to64();
    lemma_pow2_pos((deg - 1) as nat);
    if deg - 1 < 7 {
        lemma_pow2_strictly_increases((deg - 1) as nat, 7);
    }
    if log_n < 31 {
        lemma_pow2_strictly_increases(log_n, 31);
    }
    if 1 < log_n {
        lemma_pow2_strictly_increases(1, log_n);
    }
    // The physical size is a power of two whose exponent is below `log_n`.
    let e: nat = if physical == virt {
        (deg - 1) as nat
    } else {
        5
    };
    assert(physical == pow2(e));
    assert(e < log_n) by {
        if physical != virt {
            // more than 64 points
            if log_n <= 6 {
                if log_n < 6 {
                    lemma_pow2_strictly_increases(log_n, 6);
                }
            }
        }
    }
    let rest = (log_n - 1 - e) as nat;
    lemma_pow2_adds(rest, e);
    lemma_pow2_adds((log_n - 1) as nat, 1);
    lemma_pow2_pos(rest);
    let half = pow2((log_n - 1) as nat) as int;
    let g = pow2(rest) as int;
    let ph = physical as int;
    assert(n == half * 2);
    assert(half == g * ph);
    assert(n / 2 == half);
    assert(half / ph == g) by (nonlinear_arith)
        requires
            half == g * ph,
            ph >= 1,
    ;
    assert(2 * g * ph == n) by (nonlinear_arith)
        requires
            half == g * ph,
            n == half * 2,
    ;
    assert(g <= half) by (nonlinear_arith)
        requires
            half == g * ph,
            ph >= 1,
            g >= 0,
    ;
}

/// The largest number of bits that a round of a transform of `2^log_n`
/// points consumes.
pub fn max_deg(log_n: u32) -> (d: u32)
    ensures
        d == spec_max_deg(log_n as nat),
{
    if log_n < MAX_LOG2_RADIX {
        log_n
    } else {
        MAX_LOG2_RADIX
    }
}

/// The round at `log_p` of a transform of `2^log_n` points.
pub fn round(log_n: u32, log_p: u32, point_size: usize) -> (r: FftRound)
    requires
        log_p < log_n <= 31,
        point_size * 256 <= usize::MAX,
    ensures
        r == spec_round(log_n as nat, log_p as nat, point_size as nat),
{
    proof {
        lemma_round_shape(log_n as nat, log_p as nat, point_size as nat);
    }
    let max: u32 = max_deg(log_n);
    let deg: u32 = if log_n - log_p < max {
        log_n - log_p
    } else {
        max
    };
    let n: u32 = power_of_two(log_n as usize) as u32;
    let virtual_local_work_size: u32 = power_of_two((deg - 1) as usize) as u32;
    let physical: u32 = if virtual_local_work_size >= MIN_LOCAL_WORK_SIZE || n <= TINY_TRANSFORM {
        virtual_local_work_size
    } else {
        MIN_LOCAL_WORK_SIZE
    };
    let global_work_size: u32 = n / 2 / physical;
    proof {
        assert(point_size * 2 * physical <= point_size * 256) by (nonlinear_arith)
            requires
                0 <= physical <= 128,
                point_size >= 0,
        ;
    }
    FftRound {
        n,
        log_p,
        deg,
        virtual_local_work_size,
        max_deg: max,
        config: KernelConfig {
            global_work_size: global_work_size as usize,
            local_work_size: physical as usize,
            shared_mem: point_size * 2 * (physical as usize),
        },
    }
}

/// Plans the transform of `input.n` points.
///
/// The number of points has to be a power of two of at most `2^31`. Fails
/// with [`GpuError::DimensionMismatch`] exactly when the table of roots is
/// empty.
pub fn radix_ec_fft(input: FftInput) -> (r: Result<FftPlan, GpuError>)
    requires
        is_power_of_two(input.n as nat),
        input.fits(),
    ensures
        input.omegas_len == 0 ==> r == Err::<FftPlan, GpuError>(GpuError::DimensionMismatch),
        input.omegas_len > 0 ==> r is Ok && r->Ok_0.input == input && r->Ok_0.matches_input(),
{
    if input.omegas_len == 0 {
        return Err(GpuError::DimensionMismatch);
    }
    let log_n: u32 = match log2_exact(input.n) {
        Some(k) => k,
        None => {
            return Err(GpuError::DimensionMismatch);
        },
    };
    let max: u32 = max_deg(log_n);
    let twiddle_exponent: u64 = power_of_two((log_n - max) as usize);
    let mut rounds: Vec<FftRound> = Vec::new();
    let mut log_p: u32 = 0;
    while log_p < log_n
        invariant
            log_p <= log_n <= 31,
            input.point_size * 256 <= usize::MAX,
            rounds@ + spec_rounds(log_n as nat, log_p as nat, input.point_size as nat)
                == spec_rounds(log_n as nat, 0, input.point_size as nat),
        decreases log_n - log_p,
    {
        let r: FftRound = round(log_n, log_p, input.point_size);
        proof {
            lemma_round_shape(log_n as nat, log_p as nat, input.point_size as nat);
            let rest = spec_rounds(
                log_n as nat,
                (log_p + r.deg) as nat,
                input.point_size as nat,
            );
            assert(rounds@.push(r) + rest =~= rounds@ + (seq![r] + rest));
        }
        rounds.push(r);
        log_p = log_p + r.deg;
    }
    assert(rounds@ =~= rounds@ + Seq::<FftRound>::empty());
    Ok(FftPlan { input, log_n, max_deg: max, twiddle_exponent, rounds })
}

impl FftRound {
    /// The positional arguments of the kernel for this round: the buffer
    /// that is read, the buffer that is written, the twiddle factor, the
    /// table of roots and an absent pointer, then the numbers of the round.
    pub open spec fn spec_args(self, input: FftInput) -> Seq<KernelArg> {
        seq![
            KernelArg::DevArg { bytes: (input.n * input.point_size) as usize },
            KernelArg::DevArg { bytes: (input.n * input.point_size) as usize },
            KernelArg::Host(Param::InRef { item_size: input.scalar_size }),
            KernelArg::Host(
                Param::InRefSlice { len: input.omegas_len, item_size: input.scalar_size },
            ),
            KernelArg::Empty,
            KernelArg::Host(Param::InVal(Value::U32(self.n))),
            KernelArg::Host(Param::InVal(Value::U32(self.log_p))),
            KernelArg::Host(Param::InVal(Value::U32(self.deg))),
            KernelArg::Host(Param::InVal(Value::U32(self.virtual_local_work_size))),
            KernelArg::Host(Param::InVal(Value::U32(self.max_deg))),
        ]
    }

    /// The positional arguments of the kernel for this round.
    pub fn args(&self, input: &FftInput) -> (a: Vec<KernelArg>)
        requires
            input.fits(),
        ensures
            a@ == self.spec_args(*input),
            forall|i: int| 0 <= i < a@.len() ==> (#[trigger] a@[i]).wf(),
    {
        proof {
            assert(input.scalar_size * input.omegas_len == input.omegas_len * input.scalar_size)
                by (nonlinear_arith);
            assert(input.scalar_size * 1 == input.scalar_size);
        }
        let bytes: usize = input.n * input.point_size;
        let mut a: Vec<KernelArg> = Vec::new();
        a.push(KernelArg::DevArg { bytes });
        a.push(KernelArg::DevArg { bytes });
        a.push(KernelArg::Host(Param::InRef { item_size: input.scalar_size }));
        a.push(
            KernelArg::Host(
                Param::InRefSlice { len: input.omegas_len, item_size: input.scalar_size },
            ),
        );
        a.push(KernelArg::Empty);
        a.push(KernelArg::Host(Param::InVal(Value::U32(self.n))));
        a.push(KernelArg::Host(Param::InVal(Value::U32(self.log_p))));
        a.push(KernelArg::Host(Param::InVal(Value::U32(self.deg))));
        a.push(KernelArg::Host(Param::InVal(Value::U32(self.virtual_local_work_size))));
        a.push(KernelArg::Host(Param::InVal(Value::U32(self.max_deg))));
        assert(a@ =~= self.spec_args(*input));
        a
    }
}

/// The name of the transform kernel of the curve whose affine points are
/// called `point_name`.
pub fn kernel_name(point_name: &str) -> (name: String)
    ensures
        name@ == point_name@ + "_radix_fft"@,
{
    joined(point_name, "_radix_fft")
}

} // verus!
