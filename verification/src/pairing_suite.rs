//! The two supported pairing suites, BLS12-381 and BN254, as the field
//! library describes them: the constants of their scalar and base fields,
//! and exponentiation in their scalar fields.

use ark_ff::{BigInt, Field, PrimeField};
use vstd::prelude::*;
use vstd::arithmetic::power::pow;
use vstd::arithmetic::power2::pow2;
use crate::ec_fft::FftPlan;
use crate::limb::Limb;
use crate::montgomery::{lemma_calc_inv, spec_calc_inv};
use crate::types::{
    u64_to_u32, words64_value, words_value, CurveParams, FieldParams, FieldParamsView, WORD,
};

verus! {

/// A pairing suite.
#[derive(Debug, Clone, Copy, PartialEq, Eq, Structural)]
pub enum PairingSuite {
    Bls12381,
    Bn254,
}

/// One of the two prime fields of a suite.
#[derive(Debug, Clone, Copy, PartialEq, Eq, Structural)]
pub enum FieldRole {
    /// The field of the scalars.
    Scalar,
    /// The field of the coordinates of the points of the first group.
    Base,
}

/// The modulus of a field of a suite.
pub open spec fn spec_modulus(suite: PairingSuite, role: FieldRole) -> nat {
    match (suite, role) {
        (PairingSuite::Bls12381, FieldRole::Scalar) =>
            52435875175126190479447740508185965837690552500527637822603658699938581184513nat,
        (PairingSuite::Bls12381, FieldRole::Base) =>
            4002409555221667393417789825735904156556882819939007885332058136124031650490837864442687629129015664037894272559787nat,
        (PairingSuite::Bn254, FieldRole::Scalar) =>
            21888242871839275222246405745257275088548364400416034343698204186575808495617nat,
        (PairingSuite::Bn254, FieldRole::Base) =>
            21888242871839275222246405745257275088696311157297823662689037894645226208583nat,
    }
}

/// The number of 64-bit words of an element of a field of a suite.
pub open spec fn spec_word_count(suite: PairingSuite, role: FieldRole) -> nat {
    match (suite, role) {
        (PairingSuite::Bls12381, FieldRole::Base) => 6,
        _ => 4,
    }
}

/// The Montgomery radix of a field of a suite, reduced: two to the number
/// of bits of an element, modulo the modulus. It is the Montgomery form of
/// one.
pub open spec fn spec_r(suite: PairingSuite, role: FieldRole) -> nat {
    pow2(64 * spec_word_count(suite, role)) % spec_modulus(suite, role)
}

/// The square of the Montgomery radix, reduced.
pub open spec fn spec_r2(suite: PairingSuite, role: FieldRole) -> nat {
    (spec_r(suite, role) * spec_r(suite, role)) % spec_modulus(suite, role)
}

/// The modulus of the scalar field of BLS12-381.
///
/// Reads the constant `MODULUS` of `ark_bls12_381::Fr`: 4 words, least significant
/// first, of the modulus that the field is declared with.
#[verifier::external_body]
fn bls12_381_fr_modulus() -> (w: Vec<u64>)
    ensures
        w@.len() == 4,
        words64_value(w@) == spec_modulus(PairingSuite::Bls12381, FieldRole::Scalar),
{
    <ark_bls12_381::Fr as PrimeField>::MODULUS.0.to_vec()
}

/// The Montgomery form of one in the scalar field of BLS12-381.
///
/// Reads the constant `R` of `ark_bls12_381::Fr`: two to the power 256, reduced
/// by the modulus.
#[verifier::external_body]
fn bls12_381_fr_r() -> (w: Vec<u64>)
    ensures
        w@.len() == 4,
        words64_value(w@) == spec_r(PairingSuite::Bls12381, FieldRole::Scalar),
{
    ark_bls12_381::Fr::R.0.to_vec()
}

/// The square of the Montgomery radix of the scalar field of BLS12-381.
///
/// Reads the constant `R2` of `ark_bls12_381::Fr`: the square of `R`, reduced by the
/// modulus.
#[verifier::external_body]
fn bls12_381_fr_r2() -> (w: Vec<u64>)
    ensures
        w@.len() == 4,
        words64_value(w@) == spec_r2(PairingSuite::Bls12381, FieldRole::Scalar),
{
    ark_bls12_381::Fr::R2.0.to_vec()
}

/// The modulus of the base field of BLS12-381.
///
/// Reads the constant `MODULUS` of `ark_bls12_381::Fq`: 6 words, least significant
/// first, of the modulus that the field is declared with.
#[verifier::external_body]
fn bls12_381_fq_modulus() -> (w: Vec<u64>)
    ensures
        w@.len() == 6,
        words64_value(w@) == spec_modulus(PairingSuite::Bls12381, FieldRole::Base),
{
    <ark_bls12_381::Fq as PrimeField>::MODULUS.0.to_vec()
}

/// The Montgomery form of one in the base field of BLS12-381.
///
/// Reads the constant `R` of `ark_bls12_381::Fq`: two to the power 384, reduced
/// by the modulus.
#[verifier::external_body]
fn bls12_381_fq_r() -> (w: Vec<u64>)
    ensures
        w@.len() == 6,
        words64_value(w@) == spec_r(PairingSuite::Bls12381, FieldRole::Base),
{
    ark_bls12_381::Fq::R.0.to_vec()
}

/// The square of the Montgomery radix of the base field of BLS12-381.
///
/// Reads the constant `R2` of `ark_bls12_381::Fq`: the square of `R`, reduced by the
/// modulus.
#[verifier::external_body]
fn bls12_381_fq_r2() -> (w: Vec<u64>)
    ensures
        w@.len() == 6,
        words64_value(w@) == spec_r2(PairingSuite::Bls12381, FieldRole::Base),
{
    ark_bls12_381::Fq::R2.0.to_vec()
}

/// The modulus of the scalar field of BN254.
///
/// Reads the constant `MODULUS` of `ark_bn254::Fr`: 4 words, least significant
/// first, of the modulus that the field is declared with.
#[verifier::external_body]
fn bn254_fr_modulus() -> (w: Vec<u64>)
    ensures
        w@.len() == 4,
        words64_value(w@) == spec_modulus(PairingSuite::Bn254, FieldRole::Scalar),
{
    <ark_bn254::Fr as PrimeField>::MODULUS.0.to_vec()
}

/// The Montgomery form of one in the scalar field of BN254.
///
/// Reads the constant `R` of `ark_bn254::Fr`: two to the power 256, reduced
/// by the modulus.
#[verifier::external_body]
fn bn254_fr_r() -> (w: Vec<u64>)
    ensures
        w@.len() == 4,
        words64_value(w@) == spec_r(PairingSuite::Bn254, FieldRole::Scalar),
{
    ark_bn254::Fr::R.0.to_vec()
}

/// The square of the Montgomery radix of the scalar field of BN254.
///
/// Reads the constant `R2` of `ark_bn254::Fr`: the square of `R`, reduced by the
/// modulus.
#[verifier::external_body]
fn bn254_fr_r2() -> (w: Vec<u64>)
    ensures
        w@.len() == 4,
        words64_value(w@) == spec_r2(PairingSuite::Bn254, FieldRole::Scalar),
{
    ark_bn254::Fr::R2.0.to_vec()
}

/// The modulus of the base field of BN254.
///
/// Reads the constant `MODULUS` of `ark_bn254::Fq`: 4 words, least significant
/// first, of the modulus that the field is declared with.
#[verifier::external_body]
fn bn254_fq_modulus() -> (w: Vec<u64>)
    ensures
        w@.len() == 4,
        words64_value(w@) == spec_modulus(PairingSuite::Bn254, FieldRole::Base),
{
    <ark_bn254::Fq as PrimeField>::MODULUS.0.to_vec()
}

/// The Montgomery form of one in the base field of BN254.
///
/// Reads the constant `R` of `ark_bn254::Fq`: two to the power 256, reduced
/// by the modulus.
#[verifier::external_body]
fn bn254_fq_r() -> (w: Vec<u64>)
    ensures
        w@.len() == 4,
        words64_value(w@) == spec_r(PairingSuite::Bn254, FieldRole::Base),
{
    ark_bn254::Fq::R.0.to_vec()
}

/// The square of the Montgomery radix of the base field of BN254.
///
/// Reads the constant `R2` of `ark_bn254::Fq`: the square of `R`, reduced by the
/// modulus.
#[verifier::external_body]
fn bn254_fq_r2() -> (w: Vec<u64>)
    ensures
        w@.len() == 4,
        words64_value(w@) == spec_r2(PairingSuite::Bn254, FieldRole::Base),
{
    ark_bn254::Fq::R2.0.to_vec()
}

/// A power in the scalar field of BLS12-381.
///
/// Wraps `pow` of `ark_bls12_381::Fr`, between `from_bigint` and
/// `into_bigint`: the base and the result are integers below the modulus,
/// as four words, least significant first.
#[verifier::external_body]
fn bls12_381_fr_pow(base: &Vec<u64>, exp: u64) -> (r: Vec<u64>)
    requires
        base@.len() == 4,
        words64_value(base@) < spec_modulus(PairingSuite::Bls12381, FieldRole::Scalar),
    ensures
        r@.len() == 4,
        words64_value(r@) == pow(words64_value(base@) as int, exp as nat) % (spec_modulus(
            PairingSuite::Bls12381,
            FieldRole::Scalar,
        ) as int),
{
    let b = ark_bls12_381::Fr::from_bigint(BigInt::new([base[0], base[1], base[2], base[3]]));
    b.unwrap().pow([exp]).into_bigint().0.to_vec()
}

/// A power in the scalar field of BN254.
///
/// Wraps `pow` of `ark_bn254::Fr`, between `from_bigint` and `into_bigint`:
/// the base and the result are integers below the modulus, as four words,
/// least significant first.
#[verifier::external_body]
fn bn254_fr_pow(base: &Vec<u64>, exp: u64) -> (r: Vec<u64>)
    requires
        base@.len() == 4,
        words64_value(base@) < spec_modulus(PairingSuite::Bn254, FieldRole::Scalar),
    ensures
        r@.len() == 4,
        words64_value(r@) == pow(words64_value(base@) as int, exp as nat) % (spec_modulus(
            PairingSuite::Bn254,
            FieldRole::Scalar,
        ) as int),
{
    let b = ark_bn254::Fr::from_bigint(BigInt::new([base[0], base[1], base[2], base[3]]));
    b.unwrap().pow([exp]).into_bigint().0.to_vec()
}

/// The modulus of a field of a suite, as 64-bit words, least significant
/// first.
pub fn modulus(suite: PairingSuite, role: FieldRole) -> (w: Vec<u64>)
    ensures
        w@.len() == spec_word_count(suite, role),
        words64_value(w@) == spec_modulus(suite, role),
{
    match suite {
        PairingSuite::Bls12381 => match role {
            FieldRole::Scalar => bls12_381_fr_modulus(),
            FieldRole::Base => bls12_381_fq_modulus(),
        },
        PairingSuite::Bn254 => match role {
            FieldRole::Scalar => bn254_fr_modulus(),
            FieldRole::Base => bn254_fq_modulus(),
        },
    }
}

/// The Montgomery form of one in a field of a suite.
pub fn montgomery_one(suite: PairingSuite, role: FieldRole) -> (w: Vec<u64>)
    ensures
        w@.len() == spec_word_count(suite, role),
        words64_value(w@) == spec_r(suite, role),
{
    match suite {
        PairingSuite::Bls12381 => match role {
            FieldRole::Scalar => bls12_381_fr_r(),
            FieldRole::Base => bls12_381_fq_r(),
        },
        PairingSuite::Bn254 => match role {
            FieldRole::Scalar => bn254_fr_r(),
            FieldRole::Base => bn254_fq_r(),
        },
    }
}

/// The square of the Montgomery radix of a field of a suite.
pub fn montgomery_r2(suite: PairingSuite, role: FieldRole) -> (w: Vec<u64>)
    ensures
        w@.len() == spec_word_count(suite, role),
        words64_value(w@) == spec_r2(suite, role),
{
    match suite {
        PairingSuite::Bls12381 => match role {
            FieldRole::Scalar => bls12_381_fr_r2(),
            FieldRole::Base => bls12_381_fq_r2(),
        },
        PairingSuite::Bn254 => match role {
            FieldRole::Scalar => bn254_fr_r2(),
            FieldRole::Base => bn254_fq_r2(),
        },
    }
}

/// The name by which generated source calls a field of a suite.
pub open spec fn spec_field_name(suite: PairingSuite, role: FieldRole) -> Seq<char> {
    match (suite, role) {
        (PairingSuite::Bls12381, FieldRole::Scalar) => "ark_bls12_381__Fr"@,
        (PairingSuite::Bls12381, FieldRole::Base) => "ark_bls12_381__Fq"@,
        (PairingSuite::Bn254, FieldRole::Scalar) => "ark_bn254__Fr"@,
        (PairingSuite::Bn254, FieldRole::Base) => "ark_bn254__Fq"@,
    }
}

/// The name by which generated source calls the affine points of the first
/// group of a suite.
pub open spec fn spec_affine_name(suite: PairingSuite) -> Seq<char> {
    match suite {
        PairingSuite::Bls12381 => "ark_bls12_381__G1Affine"@,
        PairingSuite::Bn254 => "ark_bn254__G1Affine"@,
    }
}

/// The name by which generated source calls a field of a suite.
pub fn field_name(suite: PairingSuite, role: FieldRole) -> (name: String)
    ensures
        name@ == spec_field_name(suite, role),
{
    match suite {
        PairingSuite::Bls12381 => match role {
            FieldRole::Scalar => "ark_bls12_381__Fr".to_owned(),
            FieldRole::Base => "ark_bls12_381__Fq".to_owned(),
        },
        PairingSuite::Bn254 => match role {
            FieldRole::Scalar => "ark_bn254__Fr".to_owned(),
            FieldRole::Base => "ark_bn254__Fq".to_owned(),
        },
    }
}

/// The name by which generated source calls the affine points of the first
/// group of a suite.
pub fn affine_name(suite: PairingSuite) -> (name: String)
    ensures
        name@ == spec_affine_name(suite),
{
    match suite {
        PairingSuite::Bls12381 => "ark_bls12_381__G1Affine".to_owned(),
        PairingSuite::Bn254 => "ark_bn254__G1Affine".to_owned(),
    }
}

/// The name by which generated source calls the quadratic extension of the
/// base field of a suite.
pub open spec fn spec_extension_name(suite: PairingSuite) -> Seq<char> {
    match suite {
        PairingSuite::Bls12381 => "ark_bls12_381__Fq2"@,
        PairingSuite::Bn254 => "ark_bn254__Fq2"@,
    }
}

/// The name by which generated source calls the quadratic extension of the
/// base field of a suite.
pub fn extension_name(suite: PairingSuite) -> (name: String)
    ensures
        name@ == spec_extension_name(suite),
{
    match suite {
        PairingSuite::Bls12381 => "ark_bls12_381__Fq2".to_owned(),
        PairingSuite::Bn254 => "ark_bn254__Fq2".to_owned(),
    }
}

/// The constants of `f` are those of a field of a suite: the words denote
/// the numbers that the field library holds, and there are two 32-bit
/// words for each of its 64-bit words.
pub open spec fn has_constants(f: FieldParamsView, suite: PairingSuite, role: FieldRole) -> bool {
    &&& f.wf()
    &&& f.one.len() == 2 * spec_word_count(suite, role)
    &&& words_value(f.modulus) == spec_modulus(suite, role)
    &&& words_value(f.one) == spec_r(suite, role)
    &&& words_value(f.r2) == spec_r2(suite, role)
}

/// `f` describes a prime field of a suite.
pub open spec fn is_suite_field(f: FieldParamsView, suite: PairingSuite, role: FieldRole) -> bool {
    &&& f.name == spec_field_name(suite, role)
    &&& f.sub_field_name is None
    &&& has_constants(f, suite, role)
}

/// The constants of a field of a suite, split into 32-bit words, under the
/// given names.
fn named_field(
    suite: PairingSuite,
    role: FieldRole,
    name: String,
    sub_field_name: Option<String>,
) -> (f: FieldParams)
    ensures
        f@.name == name@,
        f@.sub_field_name == (match sub_field_name {
            Some(s) => Some(s@),
            None => None,
        }),
        has_constants(f@, suite, role),
{
    let p: Vec<u64> = modulus(suite, role);
    let r: Vec<u64> = montgomery_one(suite, role);
    let r2: Vec<u64> = montgomery_r2(suite, role);
    let made: Option<FieldParams> = FieldParams::new(
        name,
        u64_to_u32(r.as_slice()),
        u64_to_u32(r2.as_slice()),
        u64_to_u32(p.as_slice()),
        sub_field_name,
    );
    made.unwrap()
}

/// The descriptor data of a field of a suite: its name and its constants,
/// split into 32-bit words. The words denote the numbers that the field
/// library holds.
pub fn field(suite: PairingSuite, role: FieldRole) -> (f: FieldParams)
    ensures
        is_suite_field(f@, suite, role),
{
    named_field(suite, role, field_name(suite, role), None)
}

/// The descriptor data of the quadratic extension of the base field of a
/// suite: its own name, the name of the base field as its sub-field, and
/// the constants of the base field.
pub fn extension_field(suite: PairingSuite) -> (f: FieldParams)
    ensures
        f@.name == spec_extension_name(suite),
        f@.sub_field_name == Some(spec_field_name(suite, FieldRole::Base)),
        has_constants(f@, suite, FieldRole::Base),
{
    named_field(
        suite,
        FieldRole::Base,
        extension_name(suite),
        Some(field_name(suite, FieldRole::Base)),
    )
}

/// The descriptor data of the first group of a suite.
pub fn curve(suite: PairingSuite) -> (c: CurveParams)
    ensures
        c@.affine == spec_affine_name(suite),
        is_suite_field(c@.base, suite, FieldRole::Base),
        is_suite_field(c@.scalar, suite, FieldRole::Scalar),
{
    CurveParams::new(
        affine_name(suite),
        field(suite, FieldRole::Base),
        field(suite, FieldRole::Scalar),
    )
}

/// The inverse-of-modulus constant that is emitted for a field of a suite
/// is what Montgomery reduction needs: multiplied by the lowest limb of the
/// modulus it gives minus one in the limb range, for either limb width.
pub proof fn lemma_suite_inverse<L: Limb>(suite: PairingSuite, role: FieldRole, modulus: Seq<u32>)
    requires
        modulus.len() > 0,
        words_value(modulus) == spec_modulus(suite, role),
    ensures
        ({
            let low = L::spec_limbs(modulus)[0];
            (low * spec_calc_inv(low, L::spec_bits()) + 1) % pow2(L::spec_bits()) == 0
        }),
{
    L::lemma_limbs(modulus);
    let rest = words_value(modulus.drop_first());
    let w = WORD as nat;
    assert(words_value(modulus) == modulus[0] as nat + w * rest);
    assert((modulus[0] as nat + w * rest) % 2 == (modulus[0] as nat) % 2) by (nonlinear_arith)
        requires
            w == 0x1_0000_0000,
    ;
    assert(spec_modulus(suite, role) % 2 == 1);
    lemma_calc_inv(L::spec_limbs(modulus)[0], L::spec_bits());
}

/// Whether the number that `a` denotes is below the one that `b` denotes,
/// and whether the two are equal, from word `from` on.
fn order_from(a: &Vec<u64>, b: &Vec<u64>, from: usize) -> (r: (bool, bool))
    requires
        a@.len() == b@.len(),
        from <= a@.len(),
    ensures
        r.0 == (words64_value(a@.skip(from as int)) < words64_value(b@.skip(from as int))),
        r.1 == (words64_value(a@.skip(from as int)) == words64_value(b@.skip(from as int))),
    decreases a@.len() - from,
{
    if from >= a.len() {
        return (false, true);
    }
    let (below, equal) = order_from(a, b, from + 1);
    proof {
        let x = a@.skip(from as int);
        let y = b@.skip(from as int);
        assert(x.drop_first() =~= a@.skip(from + 1));
        assert(y.drop_first() =~= b@.skip(from + 1));
        let u = words64_value(x.drop_first()) as int;
        let v = words64_value(y.drop_first()) as int;
        let w = (WORD as int) * (WORD as int);
        assert(w == 0x1_0000_0000_0000_0000);
        assert(words64_value(x) == x[0] + w * u) by (nonlinear_arith)
            requires
                words64_value(x) == x[0] as nat + (WORD as nat) * (WORD as nat) * (u as nat),
                w == (WORD as int) * (WORD as int),
                u >= 0,
        ;
        assert(words64_value(y) == y[0] + w * v) by (nonlinear_arith)
            requires
                words64_value(y) == y[0] as nat + (WORD as nat) * (WORD as nat) * (v as nat),
                w == (WORD as int) * (WORD as int),
                v >= 0,
        ;
        if u < v {
            assert(x[0] + w * u < y[0] + w * v) by (nonlinear_arith)
                requires
                    u + 1 <= v,
                    0 <= x[0] < w,
                    0 <= y[0],
                    w > 0,
            ;
        } else if v < u {
            assert(y[0] + w * v < x[0] + w * u) by (nonlinear_arith)
                requires
                    v + 1 <= u,
                    0 <= y[0] < w,
                    0 <= x[0],
                    w > 0,
            ;
        }
    }
    if below {
        (true, false)
    } else if equal {
        (a[from] < b[from], a[from] == b[from])
    } else {
        (false, false)
    }
}

/// Whether `value` denotes an element of the scalar field of `suite`: it
/// has as many words as the modulus and denotes a smaller number.
pub open spec fn is_scalar(suite: PairingSuite, value: Seq<u64>) -> bool {
    value.len() == spec_word_count(suite, FieldRole::Scalar) && words64_value(value)
        < spec_modulus(suite, FieldRole::Scalar)
}

/// The power `base^exp` in the scalar field of `suite`, if `base` denotes
/// an element of that field.
pub fn scalar_pow(suite: PairingSuite, base: &Vec<u64>, exp: u64) -> (r: Option<Vec<u64>>)
    ensures
        r is Some <==> is_scalar(suite, base@),
        r matches Some(p) ==> is_scalar(suite, p@) && words64_value(p@) == pow(
            words64_value(base@) as int,
            exp as nat,
        ) % (spec_modulus(suite, FieldRole::Scalar) as int),
{
    let p: Vec<u64> = modulus(suite, FieldRole::Scalar);
    if base.len() != p.len() {
        return None;
    }
    let (below, _equal) = order_from(base, &p, 0);
    assert(base@.skip(0) =~= base@);
    assert(p@.skip(0) =~= p@);
    if !below {
        return None;
    }
    proof {
        vstd::arithmetic::div_mod::lemma_mod_bound(
            pow(words64_value(base@) as int, exp as nat),
            spec_modulus(suite, FieldRole::Scalar) as int,
        );
    }
    match suite {
        PairingSuite::Bls12381 => Some(bls12_381_fr_pow(base, exp)),
        PairingSuite::Bn254 => Some(bn254_fr_pow(base, exp)),
    }
}

/// The twiddle factor of the rounds of the transform `plan`: the first
/// entry `omega` of the table of roots, raised to the power that the plan
/// gives. None if `omega` denotes no element of the scalar field.
pub fn twiddle(suite: PairingSuite, omega: &Vec<u64>, plan: &FftPlan) -> (r: Option<Vec<u64>>)
    ensures
        r is Some <==> is_scalar(suite, omega@),
        r matches Some(t) ==> is_scalar(suite, t@) && words64_value(t@) == pow(
            words64_value(omega@) as int,
            plan.twiddle_exponent as nat,
        ) % (spec_modulus(suite, FieldRole::Scalar) as int),
{
    scalar_pow(suite, omega, plan.twiddle_exponent)
}

/// The table of powers of a root of unity that the transform kernel reads:
/// entry `i` is the root raised to the power `2^i`, so each entry is the
/// square of the one before. None if `root` denotes no element of the
/// scalar field.
pub fn omegas(suite: PairingSuite, root: &Vec<u64>, len: usize) -> (r: Option<Vec<Vec<u64>>>)
    ensures
        r is Some <==> is_scalar(suite, root@),
        r matches Some(table) ==> table@.len() == len && forall|i: int|
            0 <= i < len ==> is_scalar(suite, (#[trigger] table@[i])@) && words64_value(
                table@[i]@,
            ) == pow(words64_value(root@) as int, pow2(i as nat)) % (spec_modulus(
                suite,
                FieldRole::Scalar,
            ) as int),
{
    let ghost x = words64_value(root@) as int;
    let ghost p = spec_modulus(suite, FieldRole::Scalar) as int;
    let mut current: Vec<u64> = match scalar_pow(suite, root, 1) {
        Some(first) => first,
        None => {
            return None;
        },
    };
    proof {
        vstd::arithmetic::power2::lemma2_to64();
    }
    let mut table: Vec<Vec<u64>> = Vec::new();
    let mut i: usize = 0;
    while i < len
        invariant
            0 <= i <= len,
            x == words64_value(root@),
            p == spec_modulus(suite, FieldRole::Scalar),
            p > 0,
            table@.len() == i,
            is_scalar(suite, current@),
            words64_value(current@) == pow(x, pow2(i as nat)) % p,
            forall|k: int|
                0 <= k < i ==> is_scalar(suite, (#[trigger] table@[k])@) && words64_value(
                    table@[k]@,
                ) == pow(x, pow2(k as nat)) % p,
        decreases len - i,
    {
        let next: Option<Vec<u64>> = scalar_pow(suite, &current, 2);
        proof {
            let e = pow2(i as nat);
            vstd::arithmetic::power::lemma_pow_mod_noop(pow(x, e), 2, p);
            vstd::arithmetic::power::lemma_pow_multiplies(x, e, 2);
            vstd::arithmetic::power2::lemma_pow2_unfold((i + 1) as nat);
            assert(e * 2 == pow2((i + 1) as nat)) by (nonlinear_arith)
                requires
                    pow2((i + 1) as nat) == 2 * e,
            ;
        }
        table.push(current);
        current = next.unwrap();
        i = i + 1;
    }
    Some(table)
}

} // verus!
