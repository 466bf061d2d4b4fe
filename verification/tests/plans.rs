use ark_gpu::ec_fft::{kernel_name as fft_kernel_name, max_deg, radix_ec_fft, round, FftInput};
use ark_gpu::error::GpuError;
use ark_gpu::kernel::{KernelArg, KernelConfig};
use ark_gpu::math::{floor_log2, log2_exact, power_of_two};
use ark_gpu::multiexp::{
    auto_window, bucket_len, kernel_name, multiexp_gpu, multiple_multiexp, num_windows,
    window_widths, MultiexpInput, SingleMultiexpInput,
};
use ark_gpu::params::{Param, Value};

fn fft(n: usize) -> FftInput {
    FftInput { n, omegas_len: 32, point_size: 144, scalar_size: 32 }
}

#[test]
fn windows_cover_the_scalar_for_every_window_size() {
    for w in 1..=63usize {
        let n = num_windows(w);
        assert!(n * w >= 256, "window size {}", w);
        assert!((n - 1) * w < 256, "window size {}", w);
    }
    assert_eq!(num_windows(1), 256);
    assert_eq!(num_windows(4), 64);
    assert_eq!(num_windows(9), 29);
    assert_eq!(num_windows(32), 8);
    assert_eq!(num_windows(63), 5);
}

#[test]
fn bucket_count_follows_the_strategy() {
    assert_eq!(bucket_len(1, true), 1);
    assert_eq!(bucket_len(1, false), 1);
    assert_eq!(bucket_len(4, true), 8);
    assert_eq!(bucket_len(4, false), 15);
    assert_eq!(bucket_len(9, true), 256);
    assert_eq!(bucket_len(9, false), 511);
    assert_eq!(bucket_len(32, true), 1 << 31);
    assert_eq!(bucket_len(32, false), u32::MAX as usize);
    assert_eq!(bucket_len(63, true), 1 << 62);
    assert_eq!(bucket_len(63, false), (1 << 63) - 1);
}

#[test]
fn eight_chunks_of_128_pairs() {
    for window_size in 4..=9usize {
        for cheap in [true, false] {
            let plan = multiple_multiexp(MultiexpInput {
                bases_len: 1 << 10,
                exponents_len: 1 << 10,
                num_chunks: 8,
                window_size,
                neg_is_cheap: cheap,
                base_size: 96,
                scalar_size: 32,
                point_size: 144,
            })
            .unwrap();
            assert_eq!(plan.output_len, 8);
            assert_eq!(plan.num_lines, 1);
            assert_eq!(plan.num_windows, (256 + window_size - 1) / window_size);
            assert_eq!(plan.work_units, plan.num_windows * 8);
            assert_eq!(plan.config.global_work_size, 8);
            assert_eq!(plan.config.local_work_size, plan.num_windows);
            let buckets = if cheap { 1 << (window_size - 1) } else { (1 << window_size) - 1 };
            assert_eq!(plan.bucket_len, buckets);
            assert_eq!(plan.bucket_bytes, plan.work_units * buckets * 144);
        }
    }
}

#[test]
fn multiexp_arguments_in_kernel_order() {
    let plan = multiple_multiexp(MultiexpInput {
        bases_len: 4096,
        exponents_len: 2048,
        num_chunks: 32,
        window_size: 8,
        neg_is_cheap: true,
        base_size: 96,
        scalar_size: 32,
        point_size: 144,
    })
    .unwrap();
    assert_eq!(
        plan.args(),
        vec![
            KernelArg::DevData { bytes: 4096 * 96 },
            KernelArg::Host(Param::OutSlice { len: 64, item_size: 144 }),
            KernelArg::Host(Param::InRefSlice { len: 2048, item_size: 32 }),
            KernelArg::DevData { bytes: 2048 * 128 * 144 },
            KernelArg::Host(Param::InVal(Value::U32(2048))),
            KernelArg::Host(Param::InVal(Value::U32(2))),
            KernelArg::Host(Param::InVal(Value::U32(32))),
            KernelArg::Host(Param::InVal(Value::U32(32))),
            KernelArg::Host(Param::InVal(Value::U32(8))),
            KernelArg::Host(Param::InVal(Value::Bool(true))),
        ]
    );
    assert_eq!(kernel_name("G1Affine"), "G1Affine_multiexp");
}

#[test]
fn mismatched_dimensions_are_refused() {
    let input = |bases: usize, exps: usize, chunks: usize| MultiexpInput {
        bases_len: bases,
        exponents_len: exps,
        num_chunks: chunks,
        window_size: 4,
        neg_is_cheap: false,
        base_size: 96,
        scalar_size: 32,
        point_size: 144,
    };
    assert_eq!(multiple_multiexp(input(16, 0, 1)), Err(GpuError::DimensionMismatch));
    assert_eq!(multiple_multiexp(input(0, 16, 1)), Err(GpuError::DimensionMismatch));
    assert_eq!(multiple_multiexp(input(8, 16, 1)), Err(GpuError::DimensionMismatch));
    assert_eq!(multiple_multiexp(input(24, 16, 1)), Err(GpuError::DimensionMismatch));
    assert_eq!(multiple_multiexp(input(0, 0, 0)), Err(GpuError::DimensionMismatch));
    assert!(multiple_multiexp(input(32, 16, 1)).is_ok());
}

#[test]
fn single_call_window_grows_with_the_terms() {
    assert_eq!(auto_window(0), 2);
    assert_eq!(auto_window(1), 2);
    assert_eq!(auto_window(32768), 2);
    assert_eq!(auto_window(32769), 3);
    assert_eq!(auto_window(3 * 32768), 3);
    assert_eq!(auto_window(3 * 32768 + 1), 4);
    assert_eq!(auto_window(128 * 32768), 9);
    assert_eq!(auto_window(255 * 32768), 9);
    assert_eq!(auto_window(255 * 32768 + 1), 10);
    assert_eq!(auto_window(u32::MAX as usize), 10);
}

#[test]
fn single_call_plan() {
    let input = SingleMultiexpInput {
        bases_len: 1 << 20,
        exponents_len: 1 << 20,
        base_size: 96,
        scalar_size: 32,
        point_size: 144,
    };
    let plan = multiexp_gpu(input).unwrap();
    assert_eq!(plan.window_size, 7);
    assert_eq!(plan.num_windows, 37);
    assert_eq!(plan.num_groups, 32768 / 37);
    assert_eq!(plan.bucket_len, 128);
    assert_eq!(
        plan.config,
        KernelConfig { global_work_size: 1024, local_work_size: 32, shared_mem: 0 }
    );
    assert_eq!(plan.partial_index(0, 0), 0);
    assert_eq!(plan.partial_index(3, 5), 3 * 37 + 5);
    assert_eq!(plan.partial_index(plan.num_groups - 1, 36), plan.num_groups * 37 - 1);
    let args = plan.args();
    assert_eq!(args.len(), 8);
    assert_eq!(args[1], KernelArg::DevArg { bytes: 32768 * 128 * 144 });
    assert_eq!(args[2], KernelArg::DevArg { bytes: 32768 * 144 });
    assert_eq!(args[5], KernelArg::Host(Param::InVal(Value::U32(885))));
    let mismatch = SingleMultiexpInput { exponents_len: 5, ..input };
    assert_eq!(multiexp_gpu(mismatch), Err(GpuError::DimensionMismatch));
}

#[test]
fn window_widths_cover_every_bit_once() {
    let widths = window_widths(26, 10, 256);
    assert_eq!(widths.len(), 26);
    assert!(widths[..25].iter().all(|w| *w == 10));
    assert_eq!(widths[25], 6);
    assert_eq!(widths.iter().sum::<usize>(), 256);
    assert_eq!(window_widths(4, 3, 8), vec![3, 3, 2, 0]);
    assert_eq!(window_widths(0, 3, 8), Vec::<usize>::new());
    assert_eq!(window_widths(2, 0, 8), vec![0, 0]);
}

#[test]
fn logarithms_and_powers() {
    assert_eq!(power_of_two(0), 1);
    assert_eq!(power_of_two(31), 1 << 31);
    assert_eq!(power_of_two(32), 1 << 32);
    assert_eq!(floor_log2(0), 0);
    assert_eq!(floor_log2(1), 0);
    assert_eq!(floor_log2(2), 1);
    assert_eq!(floor_log2(3), 1);
    assert_eq!(floor_log2(1023), 9);
    assert_eq!(floor_log2(1024), 10);
    assert_eq!(log2_exact(0), None);
    assert_eq!(log2_exact(1), Some(0));
    assert_eq!(log2_exact(2), Some(1));
    assert_eq!(log2_exact(3), None);
    assert_eq!(log2_exact(1 << 16), Some(16));
    assert_eq!(log2_exact((1 << 16) + 1), None);
    assert_eq!(log2_exact(1 << 31), Some(31));
    assert_eq!(log2_exact(1usize << 32), None);
}

#[test]
fn fft_rounds_consume_all_bits() {
    for k in 0..=16u32 {
        let plan = radix_ec_fft(fft(1 << k)).unwrap();
        assert_eq!(plan.log_n, k);
        assert_eq!(plan.max_deg, k.min(8));
        assert_eq!(plan.twiddle_exponent, (1u64 << k) >> k.min(8));
        let mut log_p = 0;
        for r in &plan.rounds {
            assert_eq!(r.n, 1 << k);
            assert_eq!(r.log_p, log_p);
            assert_eq!(r.deg, plan.max_deg.min(k - log_p));
            assert!(r.deg >= 1 && r.deg <= 8);
            assert_eq!(r.virtual_local_work_size, 1 << (r.deg - 1));
            assert_eq!(r.max_deg, plan.max_deg);
            assert_eq!(2 * r.config.global_work_size * r.config.local_work_size, 1 << k);
            assert_eq!(r.config.shared_mem, 144 * 2 * r.config.local_work_size);
            log_p += r.deg;
        }
        assert_eq!(log_p, k);
    }
}

#[test]
fn fft_work_group_is_padded_for_small_rounds_of_large_transforms() {
    // 2^10 points: a round of 8 bits, then one of 2 bits
    let plan = radix_ec_fft(fft(1 << 10)).unwrap();
    assert_eq!(plan.rounds.len(), 2);
    assert_eq!(plan.rounds[0].deg, 8);
    assert_eq!(plan.rounds[0].virtual_local_work_size, 128);
    assert_eq!(plan.rounds[0].config.local_work_size, 128);
    assert_eq!(plan.rounds[0].config.global_work_size, 4);
    assert_eq!(plan.rounds[1].deg, 2);
    assert_eq!(plan.rounds[1].log_p, 8);
    assert_eq!(plan.rounds[1].virtual_local_work_size, 2);
    assert_eq!(plan.rounds[1].config.local_work_size, 32);
    assert_eq!(plan.rounds[1].config.global_work_size, 16);
    // 64 points are tiny: the virtual size is dispatched
    let tiny = radix_ec_fft(fft(64)).unwrap();
    assert_eq!(tiny.rounds.len(), 1);
    assert_eq!(tiny.rounds[0].config.local_work_size, 32);
    let tiny = radix_ec_fft(fft(16)).unwrap();
    assert_eq!(tiny.rounds[0].virtual_local_work_size, 8);
    assert_eq!(tiny.rounds[0].config.local_work_size, 8);
    assert_eq!(tiny.rounds[0].config.global_work_size, 1);
    // 128 points, one round of 7 bits
    let plan = radix_ec_fft(fft(128)).unwrap();
    assert_eq!(plan.rounds[0].config.local_work_size, 64);
    // one point: nothing to do
    assert!(radix_ec_fft(fft(1)).unwrap().rounds.is_empty());
    assert_eq!(round(9, 8, 144).config.local_work_size, 32);
    assert_eq!(max_deg(3), 3);
    assert_eq!(max_deg(20), 8);
}

#[test]
fn fft_arguments_in_kernel_order() {
    let input = fft(1 << 10);
    let plan = radix_ec_fft(input).unwrap();
    assert_eq!(
        plan.rounds[1].args(&input),
        vec![
            KernelArg::DevArg { bytes: 1024 * 144 },
            KernelArg::DevArg { bytes: 1024 * 144 },
            KernelArg::Host(Param::InRef { item_size: 32 }),
            KernelArg::Host(Param::InRefSlice { len: 32, item_size: 32 }),
            KernelArg::Empty,
            KernelArg::Host(Param::InVal(Value::U32(1024))),
            KernelArg::Host(Param::InVal(Value::U32(8))),
            KernelArg::Host(Param::InVal(Value::U32(2))),
            KernelArg::Host(Param::InVal(Value::U32(2))),
            KernelArg::Host(Param::InVal(Value::U32(8))),
        ]
    );
    assert_eq!(fft_kernel_name("G1Affine"), "G1Affine_radix_fft");
}

#[test]
fn fft_without_roots_is_a_dimension_mismatch() {
    let input = FftInput { n: 16, omegas_len: 0, point_size: 144, scalar_size: 32 };
    assert_eq!(radix_ec_fft(input), Err(GpuError::DimensionMismatch));
}
