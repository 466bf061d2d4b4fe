//! The compilation front-end: what is written where, and under which name a
//! compiled kernel is cached.
//!
//! For CUDA the document with 32-bit limbs is compiled ahead of time. The
//! document and the invocation of the compiler are hashed together; the
//! digest names the source file and the binary, so that the compiler runs
//! only where no binary of that name exists yet. For OpenCL the document
//! with 64-bit limbs is written under a fixed name and compiled when it is
//! loaded.

use sha2::{Digest, Sha256};
use vstd::prelude::*;
use vstd::string::{StrSliceExecFns, StringExecFns, StringSliceAdditionalSpecFns};
use crate::builder::{Backends, SourceBuilder};
use crate::limb::Limb32Or64;
use crate::text::{joined, digit_char};

verus! {

/// The SHA-256 digest of `data`.
pub uninterp spec fn sha256(data: Seq<u8>) -> Seq<u8>;

/// The character of the hexadecimal digit `d`, in lower case.
pub open spec fn hex_digit(d: nat) -> char {
    if d < 10 {
        digit_char(d)
    } else if d == 10 {
        'a'
    } else if d == 11 {
        'b'
    } else if d == 12 {
        'c'
    } else if d == 13 {
        'd'
    } else if d == 14 {
        'e'
    } else {
        'f'
    }
}

/// Two hexadecimal digits in lower case for each byte of `data`, the high
/// digit first.
pub open spec fn hex_lower(data: Seq<u8>) -> Seq<char>
    decreases data.len(),
{
    if data.len() == 0 {
        Seq::<char>::empty()
    } else {
        hex_lower(data.drop_last()).push(hex_digit((data.last() / 16) as nat)).push(
            hex_digit((data.last() % 16) as nat),
        )
    }
}

/// Computes the SHA-256 digest of `data`.
///
/// Wraps `sha2::Sha256::digest`, which hashes the whole input at once. The
/// result is a function of the input alone and has 32 bytes.
#[verifier::external_body]
fn sha256_digest(data: &[u8]) -> (d: Vec<u8>)
    ensures
        d@ == sha256(data@),
        d@.len() == 32,
{
    Sha256::digest(data).to_vec()
}

/// Encodes `data` as a string of hexadecimal digits.
///
/// Wraps `hex::encode`, which writes two lower-case digits for each byte,
/// the high one first.
#[verifier::external_body]
fn hex_encode(data: &[u8]) -> (s: String)
    ensures
        s@ == hex_lower(data@),
{
    hex::encode(data)
}

/// The name under which the compiled form of `source` is cached when it is
/// compiled by `command`: the digest of both, so that a change of either
/// gives another name.
pub open spec fn spec_kernel_digest(source: Seq<char>, command: Seq<char>) -> Seq<char> {
    hex_lower(sha256(vstd::utf8::encode_utf8(source) + vstd::utf8::encode_utf8(command)))
}

/// The name of a cached kernel, formed from the digest `digest` of its
/// content: 64 hexadecimal digits.
pub fn digest_name(digest: &Vec<u8>) -> (name: String)
    ensures
        name@ == hex_lower(digest@),
{
    hex_encode(digest.as_slice())
}

/// The name under which the compiled form of `source` is cached when it is
/// compiled by the command that prints as `command`.
pub fn kernel_digest(source: &str, command: &str) -> (name: String)
    ensures
        name@ == spec_kernel_digest(source@, command@),
{
    let mut data: Vec<u8> = source.as_bytes_vec();
    let mut tail: Vec<u8> = command.as_bytes_vec();
    data.append(&mut tail);
    let digest: Vec<u8> = sha256_digest(data.as_slice());
    digest_name(&digest)
}

/// The options with which the compiler is run where the caller gives
/// none: full optimization, one thread per CPU, a binary for the three
/// supported architectures.
pub open spec fn spec_default_nvcc_args() -> Seq<Seq<char>> {
    seq![
        "--optimize=6"@,
        "--threads=0"@,
        "--fatbin"@,
        "--gpu-architecture=sm_86"@,
        "--generate-code=arch=compute_86,code=sm_86"@,
        "--generate-code=arch=compute_80,code=sm_80"@,
        "--generate-code=arch=compute_75,code=sm_75"@,
    ]
}

/// The views of a list of strings.
pub open spec fn string_views(v: Seq<String>) -> Seq<Seq<char>> {
    Seq::new(v.len(), |i: int| v[i]@)
}

/// The options with which the compiler is run where the caller gives none.
pub fn default_nvcc_args() -> (args: Vec<String>)
    ensures
        string_views(args@) == spec_default_nvcc_args(),
{
    let mut args: Vec<String> = Vec::new();
    args.push("--optimize=6".to_owned());
    args.push("--threads=0".to_owned());
    args.push("--fatbin".to_owned());
    args.push("--gpu-architecture=sm_86".to_owned());
    args.push("--generate-code=arch=compute_86,code=sm_86".to_owned());
    args.push("--generate-code=arch=compute_80,code=sm_80".to_owned());
    args.push("--generate-code=arch=compute_75,code=sm_75".to_owned());
    assert(string_views(args@) =~= spec_default_nvcc_args());
    args
}

/// The command line of the compiler with the options `args` that the
/// caller gives in place of the default ones.
pub fn nvcc_command_line(args: &str) -> (line: String)
    ensures
        line@ == "nvcc "@ + args@,
{
    joined("nvcc ", args)
}

/// The options that tell the compiler where to write the binary and what
/// to compile; they follow the other options.
pub fn output_args(fatbin_path: &str, source_path: &str) -> (args: Vec<String>)
    ensures
        string_views(args@) == seq!["--output-file"@, fatbin_path@, source_path@],
{
    let mut args: Vec<String> = Vec::new();
    args.push("--output-file".to_owned());
    args.push(fatbin_path.to_owned());
    args.push(source_path.to_owned());
    assert(string_views(args@) =~= seq!["--output-file"@, fatbin_path@, source_path@]);
    args
}

/// The directory in which kernels are generated: the one that the caller
/// configured, else the output directory of the build, else a temporary
/// directory.
pub fn working_dir(configured: Option<String>, build_out: Option<String>, temporary: String) -> (dir:
    String)
    ensures
        dir@ == (match configured {
            Some(d) => d@,
            None => match build_out {
                Some(d) => d@,
                None => temporary@,
            },
        }),
{
    match configured {
        Some(d) => d,
        None => match build_out {
            Some(d) => d,
            None => temporary,
        },
    }
}

/// The name of the variable through which the location of the compiled CUDA
/// kernel is handed to the execution engine.
pub fn cuda_kernel_variable() -> (name: &'static str)
    ensures
        name@ == "_EC_GPU_CUDA_KERNEL_FATBIN"@,
{
    "_EC_GPU_CUDA_KERNEL_FATBIN"
}

/// The name of the variable through which the location of the OpenCL
/// source is handed to the execution engine.
pub fn opencl_kernel_variable() -> (name: &'static str)
    ensures
        name@ == "_EC_GPU_OPENCL_KERNEL_SOURCE"@,
{
    "_EC_GPU_OPENCL_KERNEL_SOURCE"
}

/// The line by which a build script hands `value` to the compiler as the
/// variable `variable`.
pub fn build_script_line(variable: &str, value: &str) -> (line: String)
    ensures
        line@ == "cargo:rustc-env="@ + variable@ + "="@ + value@,
{
    let mut line: String = "cargo:rustc-env=".to_owned();
    line.append(variable);
    line.append("=");
    line.append(value);
    line
}

/// What generating a CUDA kernel writes and runs.
#[derive(Debug, PartialEq, Eq)]
pub struct CudaArtifact {
    /// The kernel document, with 32-bit limbs.
    pub source: String,
    /// The name of the file that the document is written to.
    pub source_file: String,
    /// The name of the file that holds the compiled binary.
    pub fatbin_file: String,
}

/// What generating an OpenCL kernel writes.
#[derive(Debug, PartialEq, Eq)]
pub struct OpenclArtifact {
    /// The kernel document, with 64-bit limbs.
    pub source: String,
    /// The name of the file that the document is written to.
    pub source_file: String,
}

/// Whether the compiler has to run: only where the binary does not exist
/// yet.
pub fn needs_compile(fatbin_exists: bool) -> (run: bool)
    ensures
        run == !fatbin_exists,
{
    !fatbin_exists
}

/// Generates the CUDA kernel of `source_builder`: the document with 32-bit
/// limbs, and the names of the source file and of the binary, both formed
/// from the digest of the document and of `command`, the invocation of the
/// compiler as it prints.
pub fn generate_cuda(source_builder: &SourceBuilder, command: &str) -> (a: CudaArtifact)
    ensures
        a.source@ == source_builder@.document(Limb32Or64::Limb32),
        a.source_file@ == spec_kernel_digest(a.source@, command@) + ".cu"@,
        a.fatbin_file@ == spec_kernel_digest(a.source@, command@) + ".fatbin"@,
{
    let source: String = source_builder.build_32_bit_limbs();
    let digest: String = kernel_digest(source.as_str(), command);
    let source_file: String = joined(digest.as_str(), ".cu");
    let fatbin_file: String = joined(digest.as_str(), ".fatbin");
    CudaArtifact { source, source_file, fatbin_file }
}

/// Generates the OpenCL kernel of `source_builder`: the document with
/// 64-bit limbs. Generating it is cheap, so it goes under a fixed name and
/// is written anew on every build.
pub fn generate_opencl(source_builder: &SourceBuilder) -> (a: OpenclArtifact)
    ensures
        a.source@ == source_builder@.document(Limb32Or64::Limb64),
        a.source_file@ == "kernel.cl"@,
{
    OpenclArtifact {
        source: source_builder.build_64_bit_limbs(),
        source_file: "kernel.cl".to_owned(),
    }
}

/// Generates the kernels of `source_builder` for the given backends.
pub fn generate(source_builder: &SourceBuilder, backends: Backends, command: &str) -> (r: (
    Option<CudaArtifact>,
    Option<OpenclArtifact>,
))
    ensures
        r.0 is Some <==> backends.cuda,
        r.1 is Some <==> backends.opencl,
        r.0 matches Some(a) ==> {
            &&& a.source@ == source_builder@.document(Limb32Or64::Limb32)
            &&& a.source_file@ == spec_kernel_digest(a.source@, command@) + ".cu"@
            &&& a.fatbin_file@ == spec_kernel_digest(a.source@, command@) + ".fatbin"@
        },
        r.1 matches Some(a) ==> {
            &&& a.source@ == source_builder@.document(Limb32Or64::Limb64)
            &&& a.source_file@ == "kernel.cl"@
        },
{
    let cuda: Option<CudaArtifact> = if backends.cuda {
        Some(generate_cuda(source_builder, command))
    } else {
        None
    };
    let opencl: Option<OpenclArtifact> = if backends.opencl {
        Some(generate_opencl(source_builder))
    } else {
        None
    };
    (cuda, opencl)
}

} // verus!
