//! Launch planning for multiexponentiation by Pippenger's bucket method.
//!
//! The device does the curve arithmetic. What is decided on the host is the
//! decomposition of the work: how many windows cover a scalar, how many work
//! units there are, how large each unit's private bucket array is, and what
//! is handed to the kernel. Two entry points exist: [`multiple_multiexp`],
//! where the caller chooses chunks, window size and bucket strategy, and
//! [`multiexp_gpu`], which derives the window size from the number of terms
//! for a fixed number of work units.

use vstd::prelude::*;
use vstd::arithmetic::power2::{pow2, lemma_pow2_pos, lemma2_to64};
use crate::error::GpuError;
use crate::kernel::{KernelArg, KernelConfig};
use crate::params::{Param, Value};
use crate::math::{floor_log2, power_of_two, spec_floor_log2};
use crate::text::joined;

verus! {

/// An upper bound on the bit width of a scalar of the supported curves.
pub const SCALAR_BITS: usize = 256;

/// The largest window size for which the number of buckets can be counted.
pub const MAX_WINDOW_BITS: usize = 63;

/// The number of windows of `window_size` bits that cover a scalar.
pub open spec fn spec_num_windows(window_size: nat) -> nat {
    ((SCALAR_BITS + window_size - 1) / (window_size as int)) as nat
}

/// The number of buckets of one work unit. Where negating a point is cheap,
/// digits are signed and half the buckets suffice; otherwise every non-zero
/// digit has a bucket of its own.
pub open spec fn spec_bucket_len(window_size: nat, neg_is_cheap: bool) -> nat {
    if neg_is_cheap {
        pow2((window_size - 1) as nat)
    } else {
        (pow2(window_size) - 1) as nat
    }
}

/// Bases and exponents fit together: there is at least one chunk, the
/// exponents are not empty, and the bases form one or more lines, each as
/// long as the exponent array.
pub open spec fn dimensions_match(bases_len: nat, exponents_len: nat, num_chunks: nat) -> bool {
    &&& num_chunks > 0
    &&& exponents_len > 0
    &&& bases_len >= exponents_len
    &&& bases_len % exponents_len == 0
}

/// The sizes of one multiexponentiation.
#[derive(Debug, Clone, Copy, PartialEq, Eq, Structural)]
pub struct MultiexpInput {
    /// The number of bases.
    pub bases_len: usize,
    /// The number of exponents; several lines of bases may share them.
    pub exponents_len: usize,
    /// The number of independent chunks that share the launch.
    pub num_chunks: usize,
    /// Bits per digit.
    pub window_size: usize,
    /// Whether negating a bucket is cheap.
    pub neg_is_cheap: bool,
    /// Bytes of one base in its device representation.
    pub base_size: usize,
    /// Bytes of one exponent.
    pub scalar_size: usize,
    /// Bytes of one curve point, as buckets and results hold it.
    pub point_size: usize,
}

impl MultiexpInput {
    /// The number of lines of bases that share the exponents.
    pub open spec fn spec_num_lines(self) -> nat {
        (self.bases_len / self.exponents_len) as nat
    }

    /// The number of results: one per chunk and line.
    pub open spec fn spec_output_len(self) -> nat {
        (self.num_chunks as nat) * self.spec_num_lines()
    }

    /// The number of work units: one per window of each result.
    pub open spec fn spec_work_units(self) -> nat {
        spec_num_windows(self.window_size as nat) * self.spec_output_len()
    }

    /// Bytes of the device buffer that holds the bucket arrays of all work
    /// units.
    pub open spec fn spec_bucket_bytes(self) -> nat {
        self.spec_work_units() * spec_bucket_len(self.window_size as nat, self.neg_is_cheap) * (
        self.point_size as nat)
    }

    /// The window size is one for which windows and buckets exist.
    pub open spec fn window_in_range(self) -> bool {
        1 <= self.window_size <= MAX_WINDOW_BITS
    }

    /// What the machine can hold and launch: the counts handed to the kernel
    /// and the grid size are 32-bit values, the buckets can be counted, and
    /// every buffer has a size in bytes.
    pub open spec fn fits(self) -> bool {
        &&& self.exponents_len <= u32::MAX
        &&& spec_bucket_len(self.window_size as nat, self.neg_is_cheap) <= usize::MAX
        &&& self.spec_output_len() <= u32::MAX
        &&& self.spec_work_units() * spec_bucket_len(self.window_size as nat, self.neg_is_cheap)
            <= usize::MAX
        &&& self.spec_bucket_bytes() <= usize::MAX
        &&& self.bases_len * self.base_size <= usize::MAX
        &&& self.exponents_len * self.scalar_size <= usize::MAX
        &&& self.spec_output_len() * self.point_size <= usize::MAX
    }
}

/// The decomposition of one multiexponentiation into device work.
#[derive(Debug, Clone, Copy, PartialEq, Eq, Structural)]
pub struct MultiexpPlan {
    /// The sizes that the plan was made for.
    pub input: MultiexpInput,
    /// The number of windows that cover a scalar.
    pub num_windows: usize,
    /// The number of lines of bases that share the exponents.
    pub num_lines: usize,
    /// The number of work units; each owns a private bucket array.
    pub work_units: usize,
    /// The number of buckets of one work unit.
    pub bucket_len: usize,
    /// The number of results: one per chunk and line.
    pub output_len: usize,
    /// Bytes of the device buffer that holds all bucket arrays.
    pub bucket_bytes: usize,
    /// Launch configuration: one work group per result, one work item per
    /// window.
    pub config: KernelConfig,
}

impl MultiexpPlan {
    /// The plan is the one that follows from its input.
    pub open spec fn matches_input(self) -> bool {
        let input = self.input;
        &&& self.num_windows == spec_num_windows(input.window_size as nat)
        &&& self.num_lines == input.spec_num_lines()
        &&& self.output_len == input.spec_output_len()
        &&& self.work_units == input.spec_work_units()
        &&& self.bucket_len == spec_bucket_len(input.window_size as nat, input.neg_is_cheap)
        &&& self.bucket_bytes == input.spec_bucket_bytes()
        &&& self.config == (KernelConfig {
            global_work_size: self.output_len,
            local_work_size: self.num_windows,
            shared_mem: 0,
        })
    }

    /// The plan follows from an input that is valid and fits the machine.
    pub open spec fn wf(self) -> bool {
        &&& self.input.window_in_range()
        &&& dimensions_match(
            self.input.bases_len as nat,
            self.input.exponents_len as nat,
            self.input.num_chunks as nat,
        )
        &&& self.input.fits()
        &&& self.matches_input()
    }

    /// The positional arguments of the kernel: the bases, the results, the
    /// exponents and the buckets, then the counts.
    pub open spec fn spec_args(self) -> Seq<KernelArg> {
        let input = self.input;
        seq![
            KernelArg::DevData { bytes: (input.bases_len * input.base_size) as usize },
            KernelArg::Host(Param::OutSlice { len: self.output_len, item_size: input.point_size }),
            KernelArg::Host(
                Param::InRefSlice { len: input.exponents_len, item_size: input.scalar_size },
            ),
            KernelArg::DevData { bytes: self.bucket_bytes },
            KernelArg::Host(Param::InVal(Value::U32(input.exponents_len as u32))),
            KernelArg::Host(Param::InVal(Value::U32(self.num_lines as u32))),
            KernelArg::Host(Param::InVal(Value::U32(input.num_chunks as u32))),
            KernelArg::Host(Param::InVal(Value::U32(self.num_windows as u32))),
            KernelArg::Host(Param::InVal(Value::U32(input.window_size as u32))),
            KernelArg::Host(Param::InVal(Value::Bool(input.neg_is_cheap))),
        ]
    }
}

/// The number of windows of `window_size` bits that cover a scalar.
pub fn num_windows(window_size: usize) -> (n: usize)
    requires
        1 <= window_size <= MAX_WINDOW_BITS,
    ensures
        n == spec_num_windows(window_size as nat),
        1 <= n <= SCALAR_BITS,
        n * window_size >= SCALAR_BITS,
        (n - 1) * window_size < SCALAR_BITS,
{
    let n: usize = (SCALAR_BITS + window_size - 1) / window_size;
    proof {
        lemma_windows_cover(window_size as nat);
    }
    n
}

/// The windows cover every bit of a scalar, and none of them is idle: with
/// one window less, some bit would be left out.
pub proof fn lemma_windows_cover(window_size: nat)
    requires
        1 <= window_size,
    ensures
        1 <= spec_num_windows(window_size) <= SCALAR_BITS,
        spec_num_windows(window_size) * window_size >= SCALAR_BITS,
        (spec_num_windows(window_size) - 1) * window_size < SCALAR_BITS,
{
    let w = window_size as int;
    let t = 255 + w;
    let q = t / w;
    assert(t == w * q + t % w && 0 <= t % w < w) by (nonlinear_arith)
        requires
            w >= 1,
            q == t / w,
    ;
    assert(q >= 1 && q <= 256 && q * w >= 256 && (q - 1) * w < 256) by (nonlinear_arith)
        requires
            w >= 1,
            t == 255 + w,
            t == w * q + t % w,
            0 <= t % w < w,
    ;
}

/// The number of buckets of one work unit.
pub fn bucket_len(window_size: usize, neg_is_cheap: bool) -> (n: usize)
    requires
        1 <= window_size <= MAX_WINDOW_BITS,
        spec_bucket_len(window_size as nat, neg_is_cheap) <= usize::MAX,
    ensures
        n == spec_bucket_len(window_size as nat, neg_is_cheap),
        1 <= n,
{
    proof {
        lemma_pow2_pos(window_size as nat);
        lemma_pow2_pos((window_size - 1) as nat);
        vstd::arithmetic::power2::lemma_pow2_unfold(window_size as nat);
    }
    if neg_is_cheap {
        let p: u64 = power_of_two(window_size - 1);
        p as usize
    } else {
        let p: u64 = power_of_two(window_size);
        (p - 1) as usize
    }
}

/// Plans a multiexponentiation of several chunks in one launch.
///
/// Fails with [`GpuError::DimensionMismatch`] exactly when bases, exponents
/// and chunk count do not fit together. The window size is the caller's
/// choice: whatever it is, the windows cover the scalar, so it tunes the
/// speed and never the result.
pub fn multiple_multiexp(input: MultiexpInput) -> (r: Result<MultiexpPlan, GpuError>)
    requires
        input.window_in_range(),
        dimensions_match(
            input.bases_len as nat,
            input.exponents_len as nat,
            input.num_chunks as nat,
        ) ==> input.fits(),
    ensures
        !dimensions_match(
            input.bases_len as nat,
            input.exponents_len as nat,
            input.num_chunks as nat,
        ) ==> r == Err::<MultiexpPlan, GpuError>(GpuError::DimensionMismatch),
        dimensions_match(
            input.bases_len as nat,
            input.exponents_len as nat,
            input.num_chunks as nat,
        ) ==> r is Ok && r->Ok_0.input == input && r->Ok_0.wf(),
{
    if input.num_chunks == 0 || input.exponents_len == 0 || input.bases_len < input.exponents_len
        || input.bases_len % input.exponents_len != 0 {
        return Err(GpuError::DimensionMismatch);
    }
    let windows: usize = num_windows(input.window_size);
    let lines: usize = input.bases_len / input.exponents_len;
    let buckets: usize = bucket_len(input.window_size, input.neg_is_cheap);
    proof {
        let o = input.spec_output_len() as int;
        let w = windows as int;
        let b = buckets as int;
        assert(lines >= 1) by (nonlinear_arith)
            requires
                lines == input.bases_len / input.exponents_len,
                input.bases_len >= input.exponents_len > 0,
        ;
        assert(o == input.num_chunks * lines);
        assert(w * o * b <= usize::MAX);
        assert(w * o <= w * o * b) by (nonlinear_arith)
            requires
                b >= 1,
                w >= 0,
                o >= 0,
        ;
    }
    let output_len: usize = input.num_chunks * lines;
    let work_units: usize = windows * output_len;
    let bucket_bytes: usize = work_units * buckets * input.point_size;
    Ok(
        MultiexpPlan {
            input,
            num_windows: windows,
            num_lines: lines,
            work_units,
            bucket_len: buckets,
            output_len,
            bucket_bytes,
            config: KernelConfig {
                global_work_size: output_len,
                local_work_size: windows,
                shared_mem: 0,
            },
        },
    )
}

impl MultiexpPlan {
    /// The positional arguments of the kernel.
    pub fn args(&self) -> (a: Vec<KernelArg>)
        requires
            self.wf(),
        ensures
            a@ == self.spec_args(),
            forall|i: int| 0 <= i < a@.len() ==> (#[trigger] a@[i]).wf(),
    {
        let input = self.input;
        proof {
            lemma_windows_cover(input.window_size as nat);
            let lines = self.num_lines as int;
            let chunks = input.num_chunks as int;
            assert(lines >= 1) by (nonlinear_arith)
                requires
                    lines == input.bases_len / input.exponents_len,
                    input.bases_len >= input.exponents_len > 0,
            ;
            assert(lines <= chunks * lines && chunks <= chunks * lines) by (nonlinear_arith)
                requires
                    lines >= 1,
                    chunks >= 1,
            ;
            assert(input.point_size * self.output_len == self.output_len * input.point_size)
                by (nonlinear_arith);
            assert(input.scalar_size * input.exponents_len == input.exponents_len
                * input.scalar_size) by (nonlinear_arith);
        }
        let mut a: Vec<KernelArg> = Vec::new();
        a.push(KernelArg::DevData { bytes: input.bases_len * input.base_size });
        a.push(
            KernelArg::Host(Param::OutSlice { len: self.output_len, item_size: input.point_size }),
        );
        a.push(
            KernelArg::Host(
                Param::InRefSlice { len: input.exponents_len, item_size: input.scalar_size },
            ),
        );
        a.push(KernelArg::DevData { bytes: self.bucket_bytes });
        a.push(KernelArg::Host(Param::InVal(Value::U32(input.exponents_len as u32))));
        a.push(KernelArg::Host(Param::InVal(Value::U32(self.num_lines as u32))));
        a.push(KernelArg::Host(Param::InVal(Value::U32(input.num_chunks as u32))));
        a.push(KernelArg::Host(Param::InVal(Value::U32(self.num_windows as u32))));
        a.push(KernelArg::Host(Param::InVal(Value::U32(input.window_size as u32))));
        a.push(KernelArg::Host(Param::InVal(Value::Bool(input.neg_is_cheap))));
        assert(a@ =~= self.spec_args());
        a
    }
}

/// The name of the multiexponentiation kernel of the curve whose affine
/// points are called `point_name`.
pub fn kernel_name(point_name: &str) -> (name: String)
    ensures
        name@ == point_name@ + "_multiexp"@,
{
    joined(point_name, "_multiexp")
}

/// The digit of the scalar `e` in window `i`, for windows of `window_size`
/// bits: the bits of `e` from `window_size * i` on, as many as a window
/// holds.
pub open spec fn spec_digit(e: nat, window_size: nat, i: nat) -> nat {
    (e / pow2(window_size * i)) % pow2(window_size)
}

/// The number that the digits of the first `n` windows denote: each digit
/// weighted by the place of its window.
pub open spec fn spec_recombine(e: nat, window_size: nat, n: nat) -> nat
    decreases n,
{
    if n == 0 {
        0
    } else {
        spec_recombine(e, window_size, (n - 1) as nat) + spec_digit(
            e,
            window_size,
            (n - 1) as nat,
        ) * pow2(window_size * (n - 1) as nat)
    }
}

/// The digits of the first `n` windows denote the low `n * window_size`
/// bits of the scalar.
pub proof fn lemma_digits_recombine(e: nat, window_size: nat, n: nat)
    ensures
        spec_recombine(e, window_size, n) == e % pow2(window_size * n),
    decreases n,
{
    lemma2_to64();
    if n == 0 {
        assert(window_size * 0 == 0) by (nonlinear_arith);
    } else {
        let m = (n - 1) as nat;
        lemma_digits_recombine(e, window_size, m);
        let low = pow2(window_size * m) as int;
        let one = pow2(window_size) as int;
        lemma_pow2_pos(window_size * m);
        lemma_pow2_pos(window_size);
        vstd::arithmetic::power2::lemma_pow2_adds(window_size * m, window_size);
        assert(window_size * m + window_size == window_size * n) by (nonlinear_arith)
            requires
                m + 1 == n,
        ;
        vstd::arithmetic::div_mod::lemma_mod_breakdown(e as int, low, one);
        assert(low * ((e as int / low) % one) == ((e as int / low) % one) * low)
            by (nonlinear_arith);
    }
}

/// Whatever the window size, the digits of the windows that cover a scalar
/// denote the scalar: the choice of the window size changes how the work
/// is cut, and not what is computed.
pub proof fn lemma_windows_hold_scalar(e: nat, window_size: nat)
    requires
        window_size >= 1,
        e < pow2(SCALAR_BITS as nat),
    ensures
        spec_recombine(e, window_size, spec_num_windows(window_size)) == e,
{
    let n = spec_num_windows(window_size);
    lemma_windows_cover(window_size);
    lemma_digits_recombine(e, window_size, n);
    assert(window_size * n == n * window_size) by (nonlinear_arith);
    if window_size * n > SCALAR_BITS {
        vstd::arithmetic::power2::lemma_pow2_strictly_increases(
            SCALAR_BITS as nat,
            window_size * n,
        );
    }
    vstd::arithmetic::div_mod::lemma_small_mod(e, pow2(window_size * n));
}

/// The largest window size that the single-call variant chooses.
pub const MAX_WINDOW_SIZE: usize = 10;

/// The number of work units of the single-call variant.
pub const WORK_UNITS: usize = 32768;

/// The work-group size of the single-call variant.
pub const LOCAL_WORK_SIZE: usize = 32;

/// The window size that the single-call variant chooses for `num_terms`
/// terms: two bits more than the binary logarithm of the number of terms
/// per work unit, and ten bits at most.
pub open spec fn spec_auto_window(num_terms: nat) -> nat {
    let per_unit = ((num_terms + WORK_UNITS - 1) / (WORK_UNITS as int)) as nat;
    let w = spec_floor_log2(per_unit) + 2;
    if w < MAX_WINDOW_SIZE {
        w
    } else {
        MAX_WINDOW_SIZE as nat
    }
}

/// The window size that the single-call variant chooses for `num_terms`
/// terms.
pub fn auto_window(num_terms: usize) -> (w: usize)
    requires
        num_terms <= u32::MAX,
    ensures
        w == spec_auto_window(num_terms as nat),
        2 <= w <= MAX_WINDOW_SIZE,
{
    let per_unit: u64 = (num_terms as u64 + 32767) / 32768;
    let log: usize = floor_log2(per_unit as usize);
    if log + 2 < MAX_WINDOW_SIZE {
        log + 2
    } else {
        MAX_WINDOW_SIZE
    }
}

/// The sizes of a multiexponentiation in one call.
#[derive(Debug, Clone, Copy, PartialEq, Eq, Structural)]
pub struct SingleMultiexpInput {
    /// The number of bases.
    pub bases_len: usize,
    /// The number of exponents.
    pub exponents_len: usize,
    /// Bytes of one base in its device representation.
    pub base_size: usize,
    /// Bytes of one exponent.
    pub scalar_size: usize,
    /// Bytes of one curve point, as buckets and results hold it.
    pub point_size: usize,
}

impl SingleMultiexpInput {
    /// What the machine can hold: the number of terms is a 32-bit kernel
    /// argument, and every buffer has a size in bytes.
    pub open spec fn fits(self) -> bool {
        &&& self.bases_len <= u32::MAX
        &&& self.bases_len * self.base_size <= usize::MAX
        &&& self.exponents_len * self.scalar_size <= usize::MAX
        &&& WORK_UNITS * 1024 * self.point_size <= usize::MAX
    }
}

/// The decomposition of a multiexponentiation in one call. The device
/// leaves one partial result per work unit; the host combines them window
/// by window.
#[derive(Debug, Clone, Copy, PartialEq, Eq, Structural)]
pub struct SingleMultiexpPlan {
    /// The sizes that the plan was made for.
    pub input: SingleMultiexpInput,
    /// Bits per digit.
    pub window_size: usize,
    /// The number of windows that cover a scalar.
    pub num_windows: usize,
    /// The number of groups of work units; each group holds one unit per
    /// window.
    pub num_groups: usize,
    /// The number of buckets of one work unit.
    pub bucket_len: usize,
    /// The launch configuration.
    pub config: KernelConfig,
}

impl SingleMultiexpPlan {
    /// The plan is the one that follows from its input.
    pub open spec fn matches_input(self) -> bool {
        &&& self.window_size == spec_auto_window(self.input.bases_len as nat)
        &&& self.num_windows == spec_num_windows(self.window_size as nat)
        &&& self.num_groups == WORK_UNITS / self.num_windows
        &&& self.bucket_len == pow2(self.window_size as nat)
        &&& self.config == (KernelConfig {
            global_work_size: WORK_UNITS / LOCAL_WORK_SIZE,
            local_work_size: LOCAL_WORK_SIZE,
            shared_mem: 0,
        })
    }

    /// The positional arguments of the kernel: the bases, the buckets, the
    /// partial results and the exponents, then the counts.
    pub open spec fn spec_args(self) -> Seq<KernelArg> {
        let input = self.input;
        seq![
            KernelArg::Host(Param::InRefSlice { len: input.bases_len, item_size: input.base_size }),
            KernelArg::DevArg {
                bytes: (WORK_UNITS * self.bucket_len * input.point_size) as usize,
            },
            KernelArg::DevArg { bytes: (WORK_UNITS * input.point_size) as usize },
            KernelArg::Host(
                Param::InRefSlice { len: input.exponents_len, item_size: input.scalar_size },
            ),
            KernelArg::Host(Param::InVal(Value::U32(input.bases_len as u32))),
            KernelArg::Host(Param::InVal(Value::U32(self.num_groups as u32))),
            KernelArg::Host(Param::InVal(Value::U32(self.num_windows as u32))),
            KernelArg::Host(Param::InVal(Value::U32(self.window_size as u32))),
        ]
    }

    /// The place of the partial result of group `group` for window
    /// `window` among the partial results.
    pub open spec fn spec_partial_index(self, group: nat, window: nat) -> nat {
        group * (self.num_windows as nat) + window
    }

    /// The place of the partial result of group `group` for window
    /// `window` among the partial results.
    pub fn partial_index(&self, group: usize, window: usize) -> (i: usize)
        requires
            self.matches_input(),
            group < self.num_groups,
            window < self.num_windows,
        ensures
            i == self.spec_partial_index(group as nat, window as nat),
            i < WORK_UNITS,
    {
        proof {
            let g = group as int;
            let n = self.num_windows as int;
            let q = self.num_groups as int;
            lemma_windows_cover(self.window_size as nat);
            assert(q * n <= WORK_UNITS) by (nonlinear_arith)
                requires
                    q == 32768int / n,
                    n >= 1,
            ;
            assert(g * n + n <= q * n) by (nonlinear_arith)
                requires
                    g + 1 <= q,
                    n >= 1,
            ;
        }
        group * self.num_windows + window
    }
}

impl SingleMultiexpPlan {
    /// The positional arguments of the kernel.
    pub fn args(&self) -> (a: Vec<KernelArg>)
        requires
            self.matches_input(),
            self.input.fits(),
        ensures
            a@ == self.spec_args(),
            forall|i: int| 0 <= i < a@.len() ==> (#[trigger] a@[i]).wf(),
    {
        let input = self.input;
        proof {
            lemma2_to64();
            lemma_windows_cover(self.window_size as nat);
            vstd::arithmetic::power2::lemma_pow2_strictly_increases(self.window_size as nat, 11);
            let b = self.bucket_len as int;
            let s = input.point_size as int;
            assert(32768 * b * s <= 32768 * 1024 * s) by (nonlinear_arith)
                requires
                    0 <= b <= 1024,
                    s >= 0,
            ;
            assert(32768 * b <= 32768 * 1024) by (nonlinear_arith)
                requires
                    0 <= b <= 1024,
            ;
            assert(32768 * s <= 32768 * 1024 * s) by (nonlinear_arith)
                requires
                    s >= 0,
            ;
            assert(input.base_size * input.bases_len == input.bases_len * input.base_size)
                by (nonlinear_arith);
            assert(input.scalar_size * input.exponents_len == input.exponents_len
                * input.scalar_size) by (nonlinear_arith);
        }
        let mut a: Vec<KernelArg> = Vec::new();
        a.push(
            KernelArg::Host(Param::InRefSlice { len: input.bases_len, item_size: input.base_size }),
        );
        a.push(KernelArg::DevArg { bytes: WORK_UNITS * self.bucket_len * input.point_size });
        a.push(KernelArg::DevArg { bytes: WORK_UNITS * input.point_size });
        a.push(
            KernelArg::Host(
                Param::InRefSlice { len: input.exponents_len, item_size: input.scalar_size },
            ),
        );
        a.push(KernelArg::Host(Param::InVal(Value::U32(input.bases_len as u32))));
        a.push(KernelArg::Host(Param::InVal(Value::U32(self.num_groups as u32))));
        a.push(KernelArg::Host(Param::InVal(Value::U32(self.num_windows as u32))));
        a.push(KernelArg::Host(Param::InVal(Value::U32(self.window_size as u32))));
        assert(a@ =~= self.spec_args());
        a
    }
}

/// Plans a multiexponentiation in one call, with a window size that
/// follows from the number of terms.
///
/// Fails with [`GpuError::DimensionMismatch`] exactly when there are not as
/// many exponents as bases.
pub fn multiexp_gpu(input: SingleMultiexpInput) -> (r: Result<SingleMultiexpPlan, GpuError>)
    requires
        input.bases_len == input.exponents_len ==> input.fits(),
    ensures
        input.bases_len != input.exponents_len ==> r == Err::<SingleMultiexpPlan, GpuError>(
            GpuError::DimensionMismatch,
        ),
        input.bases_len == input.exponents_len ==> r is Ok && r->Ok_0.input == input
            && r->Ok_0.matches_input(),
{
    if input.bases_len != input.exponents_len {
        return Err(GpuError::DimensionMismatch);
    }
    let window_size: usize = auto_window(input.bases_len);
    let windows: usize = num_windows(window_size);
    let num_groups: usize = WORK_UNITS / windows;
    proof {
        lemma2_to64();
        vstd::arithmetic::power2::lemma_pow2_strictly_increases(window_size as nat, 11);
    }
    let buckets: usize = power_of_two(window_size) as usize;
    Ok(
        SingleMultiexpPlan {
            input,
            window_size,
            num_windows: windows,
            num_groups,
            bucket_len: buckets,
            config: KernelConfig {
                global_work_size: WORK_UNITS / LOCAL_WORK_SIZE,
                local_work_size: LOCAL_WORK_SIZE,
                shared_mem: 0,
            },
        },
    )
}

/// The number of bits that the first `n` windows of `window_size` bits
/// cover of an exponent of `exp_bits` bits.
pub open spec fn spec_covered(n: nat, window_size: nat, exp_bits: nat) -> nat {
    if n * window_size < exp_bits {
        n * window_size
    } else {
        exp_bits
    }
}

/// The number of doublings before the partial results of window `i` are
/// added: the width of the window, cut off where the exponent ends.
pub open spec fn spec_width(i: nat, window_size: nat, exp_bits: nat) -> nat {
    (spec_covered(i + 1, window_size, exp_bits) - spec_covered(i, window_size, exp_bits)) as nat
}

/// The widths of the windows `0..n`.
pub open spec fn spec_widths(n: nat, window_size: nat, exp_bits: nat) -> Seq<nat> {
    Seq::new(n, |i: int| spec_width(i as nat, window_size, exp_bits))
}

/// The sum of the numbers `s`.
pub open spec fn sum(s: Seq<nat>) -> nat
    decreases s.len(),
{
    if s.len() == 0 {
        0
    } else {
        sum(s.drop_last()) + s.last()
    }
}

/// The widths of the first `n` windows add up to the bits they cover. With
/// as many windows as cover a scalar, that is every bit of the exponent,
/// once.
pub proof fn lemma_widths_sum(n: nat, window_size: nat, exp_bits: nat)
    ensures
        sum(spec_widths(n, window_size, exp_bits)) == spec_covered(n, window_size, exp_bits),
        window_size >= 1 && n == spec_num_windows(window_size) && exp_bits <= SCALAR_BITS ==> sum(
            spec_widths(n, window_size, exp_bits),
        ) == exp_bits,
    decreases n,
{
    if n > 0 {
        let m = (n - 1) as nat;
        lemma_widths_sum(m, window_size, exp_bits);
        assert(spec_widths(n, window_size, exp_bits).drop_last() =~= spec_widths(
            m,
            window_size,
            exp_bits,
        ));
        assert(m * window_size <= n * window_size) by (nonlinear_arith)
            requires
                m <= n,
        ;
    } else {
        assert(0 * window_size == 0) by (nonlinear_arith);
    }
    if window_size >= 1 && n == spec_num_windows(window_size) {
        lemma_windows_cover(window_size);
    }
}

/// The number of doublings before the partial results of each window are
/// added, for `n` windows of `window_size` bits over an exponent of
/// `exp_bits` bits.
pub fn window_widths(n: usize, window_size: usize, exp_bits: usize) -> (widths: Vec<usize>)
    ensures
        widths@.len() == n,
        forall|i: int|
            0 <= i < n ==> widths@[i] == spec_width(i as nat, window_size as nat, exp_bits as nat),
{
    let mut widths: Vec<usize> = Vec::new();
    let mut bits: usize = 0;
    let mut i: usize = 0;
    assert(0 * window_size == 0) by (nonlinear_arith);
    while i < n
        invariant
            0 <= i <= n,
            widths@.len() == i,
            bits == spec_covered(i as nat, window_size as nat, exp_bits as nat),
            bits <= exp_bits,
            forall|k: int|
                0 <= k < i ==> widths@[k] == spec_width(
                    k as nat,
                    window_size as nat,
                    exp_bits as nat,
                ),
        decreases n - i,
    {
        let w: usize = if window_size < exp_bits - bits {
            window_size
        } else {
            exp_bits - bits
        };
        proof {
            assert((i + 1) * window_size == i * window_size + window_size) by (nonlinear_arith);
        }
        widths.push(w);
        bits = bits + w;
        i = i + 1;
    }
    widths
}

} // verus!
