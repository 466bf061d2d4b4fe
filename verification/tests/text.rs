use ark_gpu::compile::{
    build_script_line, cuda_kernel_variable, default_nvcc_args, digest_name, generate,
    generate_cuda, generate_opencl, kernel_digest, needs_compile, nvcc_command_line,
    opencl_kernel_variable, output_args, working_dir,
};
use ark_gpu::builder::{Backends, SourceBuilder};
use ark_gpu::template::Templates;
use ark_gpu::text::{joined, decimal_string, digit, from_chars, less, matches_at, replace, to_chars};
use ark_gpu::types::{gpu_name, u64_to_u32, FieldParams};

#[test]
fn decimal_digits() {
    assert_eq!(decimal_string(0), "0");
    assert_eq!(decimal_string(9), "9");
    assert_eq!(decimal_string(10), "10");
    assert_eq!(decimal_string(4294967295), "4294967295");
    assert_eq!(decimal_string(18446744073709551615), "18446744073709551615");
    assert_eq!(decimal_string(u128::MAX), u128::MAX.to_string());
    assert_eq!(digit(7), '7');
}

#[test]
fn replace_scans_from_the_left() {
    assert_eq!(replace("FIELD_add(FIELD a)", "FIELD", "Fq"), "Fq_add(Fq a)");
    assert_eq!(replace("aaa", "aa", "b"), "ba");
    assert_eq!(replace("abc", "", "x"), "abc");
    assert_eq!(replace("abc", "abcd", "x"), "abc");
    assert_eq!(replace("", "a", "x"), "");
    assert_eq!(replace("FIELD2 over FIELD", "FIELD2", "Fq2"), "Fq2 over FIELD");
    assert_eq!(replace("xFIELD", "FIELD", ""), "x");
    assert_eq!(replace("héllo wörld", "ö", "oe"), "héllo woerld");
}

#[test]
fn names_compare_as_strings_do() {
    let names = ["", "a", "ab", "b", "B", "a_", "aä", "Fq", "Fq2", "Fr", "zz", "é"];
    for a in names {
        for b in names {
            assert_eq!(less(a, b), a < b, "{:?} < {:?}", a, b);
        }
    }
}

#[test]
fn characters_round_trip() {
    let v = to_chars("a\u{e9}\u{4e2d}z");
    assert_eq!(v, vec!['a', '\u{e9}', '\u{4e2d}', 'z']);
    assert_eq!(from_chars(&v), "a\u{e9}\u{4e2d}z");
    assert!(matches_at(&v, 1, &vec!['\u{e9}', '\u{4e2d}']));
    assert!(!matches_at(&v, 0, &vec!['\u{e9}']));
    assert_eq!(joined("ab", "cd"), "abcd");
}

#[test]
fn words_are_split_low_half_first() {
    assert_eq!(u64_to_u32(&[]), Vec::<u32>::new());
    assert_eq!(u64_to_u32(&[0x1122334455667788, 1, u64::MAX]), vec![
        0x55667788, 0x11223344, 1, 0, 0xffffffff, 0xffffffff
    ]);
}

#[test]
fn names_are_made_of_letters_digits_and_underscores() {
    assert_eq!(
        gpu_name("ag_types::impls", "ark_ff::fields::Fp<Config, 4>"),
        "ag_types__impls__ark_ff__fields__Fp_Config__4_"
    );
    assert_eq!(gpu_name("my_crate", "my_crate::Fq"), "my_crate__Fq");
    assert_eq!(gpu_name("", "Fq"), "Fq");
    assert_eq!(gpu_name("m", "é"), "m___");
}

#[test]
fn digest_is_sha256_of_source_and_command_in_hex() {
    assert_eq!(
        kernel_digest("a", "bc"),
        "ba7816bf8f01cfea414140de5dae2223b00361a396177a9cb410ff61f20015ad"
    );
    assert_eq!(kernel_digest("ab", "c"), kernel_digest("abc", ""));
    assert_eq!(
        kernel_digest("", ""),
        "e3b0c44298fc1c149afbf4c8996fb92427ae41e4649b934ca495991b7852b855"
    );
    assert_ne!(kernel_digest("source", "nvcc -O1"), kernel_digest("source", "nvcc -O2"));
    assert_eq!(digest_name(&vec![0x00, 0x0f, 0xa0, 0xff]), "000fa0ff");
}

#[test]
fn compiler_invocation() {
    assert_eq!(
        default_nvcc_args(),
        vec![
            "--optimize=6",
            "--threads=0",
            "--fatbin",
            "--gpu-architecture=sm_86",
            "--generate-code=arch=compute_86,code=sm_86",
            "--generate-code=arch=compute_80,code=sm_80",
            "--generate-code=arch=compute_75,code=sm_75",
        ]
    );
    assert_eq!(nvcc_command_line("--fatbin -O3"), "nvcc --fatbin -O3");
    assert_eq!(output_args("/o/k.fatbin", "/o/k.cu"), vec!["--output-file", "/o/k.fatbin", "/o/k.cu"]);
    assert!(needs_compile(false));
    assert!(!needs_compile(true));
    assert_eq!(working_dir(Some("a".into()), Some("b".into()), "c".into()), "a");
    assert_eq!(working_dir(None, Some("b".into()), "c".into()), "b");
    assert_eq!(working_dir(None, None, "c".into()), "c");
    assert_eq!(
        build_script_line(cuda_kernel_variable(), "/o/k.fatbin"),
        "cargo:rustc-env=_EC_GPU_CUDA_KERNEL_FATBIN=/o/k.fatbin"
    );
    assert_eq!(opencl_kernel_variable(), "_EC_GPU_OPENCL_KERNEL_SOURCE");
}

fn builder() -> SourceBuilder {
    let templates = Templates {
        common: "// common\n".to_string(),
        field: "FIELD".to_string(),
        field2: "FIELD2".to_string(),
        ec: "POINT".to_string(),
        fft: "FIELD".to_string(),
        ec_fft: "POINT".to_string(),
        multiexp: "POINT".to_string(),
        test: "POINT".to_string(),
    };
    let field = FieldParams::new("Fq".to_string(), vec![1, 0], vec![1, 0], vec![7, 0], None).unwrap();
    SourceBuilder::new(templates).add_field(field)
}

#[test]
fn cuda_artifact_is_named_by_its_digest() {
    let b = builder();
    let a = generate_cuda(&b, "nvcc");
    assert_eq!(a.source, b.build_32_bit_limbs());
    let digest = kernel_digest(&a.source, "nvcc");
    assert_eq!(digest.len(), 64);
    assert_eq!(a.source_file, format!("{}.cu", digest));
    assert_eq!(a.fatbin_file, format!("{}.fatbin", digest));
    assert_eq!(generate_cuda(&b, "nvcc"), a);
    assert_ne!(generate_cuda(&b, "nvcc -g").fatbin_file, a.fatbin_file);
}

#[test]
fn opencl_artifact_has_a_fixed_name() {
    let b = builder();
    let a = generate_opencl(&b);
    assert_eq!(a.source, b.build_64_bit_limbs());
    assert_eq!(a.source_file, "kernel.cl");
    assert_ne!(a.source, b.build_32_bit_limbs());
}

#[test]
fn generate_follows_the_backends() {
    let b = builder();
    let (cuda, opencl) = generate(&b, Backends { cuda: true, opencl: false }, "nvcc");
    assert!(cuda.is_some() && opencl.is_none());
    let (cuda, opencl) = generate(&b, Backends { cuda: false, opencl: true }, "nvcc");
    assert!(cuda.is_none() && opencl.is_some());
    let (cuda, opencl) = generate(&b, Backends { cuda: false, opencl: false }, "nvcc");
    assert!(cuda.is_none() && opencl.is_none());
}
