use ark_ff::{BigInt, FftField, Field, PrimeField};
use ark_gpu::ec_fft::{radix_ec_fft, FftInput};
use ark_gpu::limb::{Limb, Limb32, Limb64};
use ark_gpu::montgomery::{calc_inv_32, calc_inv_64};
use ark_gpu::pairing_suite::{
    curve, extension_field, field, modulus, montgomery_one, montgomery_r2, omegas, scalar_pow,
    twiddle, FieldRole, PairingSuite,
};
use ark_gpu::template::params;
use ark_gpu::types::u64_to_u32;

#[test]
fn mr_demo() {
    let fr = field(PairingSuite::Bls12381, FieldRole::Scalar);
    let fq = field(PairingSuite::Bls12381, FieldRole::Base);
    let fq2 = extension_field(PairingSuite::Bls12381);
    println!("scalar one: {:?}", fr.one());
    println!("scalar r2: {:?}", fr.r2());
    println!("scalar modulus: {:?}", fr.modulus());
    println!("G1 one: {:?}", fq.one());
    println!("G1 r2: {:?}", fq.r2());
    println!("G1 modulus: {:?}", fq.modulus());
    println!("G2 one: {:?}", fq2.one());
    println!("G2 r2: {:?}", fq2.r2());
    println!("G2 modulus: {:?}", fq2.modulus());
    println!("G2 sub field name: {:?}", fq2.sub_field_name());
}

#[test]
fn fields_of_a_suite_hold_the_constants_of_the_field_library() {
    let fr = field(PairingSuite::Bls12381, FieldRole::Scalar);
    let fq = field(PairingSuite::Bls12381, FieldRole::Base);
    let fq2 = extension_field(PairingSuite::Bls12381);
    assert_eq!(fr.one(), &u64_to_u32(&ark_bls12_381::Fr::R.0));
    assert_eq!(fr.r2(), &u64_to_u32(&ark_bls12_381::Fr::R2.0));
    assert_eq!(fr.modulus(), &u64_to_u32(&<ark_bls12_381::Fr as PrimeField>::MODULUS.0));
    assert_eq!(fq.one(), &u64_to_u32(&ark_bls12_381::Fq::R.0));
    assert_eq!(fq.r2(), &u64_to_u32(&ark_bls12_381::Fq::R2.0));
    assert_eq!(fq.modulus(), &u64_to_u32(&<ark_bls12_381::Fq as PrimeField>::MODULUS.0));
    assert_eq!(fq.sub_field_name(), &None);
    assert_eq!(fq.name(), "ark_bls12_381__Fq");
    assert_eq!(fq2.name(), "ark_bls12_381__Fq2");
    assert_eq!(fq2.sub_field_name(), &Some("ark_bls12_381__Fq".to_string()));
    assert_eq!((fq2.one(), fq2.r2(), fq2.modulus()), (fq.one(), fq.r2(), fq.modulus()));
    let bn = extension_field(PairingSuite::Bn254);
    assert_eq!(bn.name(), "ark_bn254__Fq2");
    assert_eq!(bn.modulus(), field(PairingSuite::Bn254, FieldRole::Base).modulus());
}

#[test]
fn montgomery_radix_is_a_power_of_two_reduced() {
    // R is 2^(64 * words) mod p, R2 its square mod p
    let two = ark_bls12_381::Fr::from(2u64);
    assert_eq!(
        montgomery_one(PairingSuite::Bls12381, FieldRole::Scalar),
        two.pow([256u64]).into_bigint().0.to_vec()
    );
    assert_eq!(
        montgomery_r2(PairingSuite::Bls12381, FieldRole::Scalar),
        two.pow([512u64]).into_bigint().0.to_vec()
    );
    let two = ark_bls12_381::Fq::from(2u64);
    assert_eq!(
        montgomery_one(PairingSuite::Bls12381, FieldRole::Base),
        two.pow([384u64]).into_bigint().0.to_vec()
    );
    assert_eq!(
        montgomery_r2(PairingSuite::Bls12381, FieldRole::Base),
        two.pow([768u64]).into_bigint().0.to_vec()
    );
    let two = ark_bn254::Fr::from(2u64);
    assert_eq!(
        montgomery_one(PairingSuite::Bn254, FieldRole::Scalar),
        two.pow([256u64]).into_bigint().0.to_vec()
    );
    let two = ark_bn254::Fq::from(2u64);
    assert_eq!(
        montgomery_r2(PairingSuite::Bn254, FieldRole::Base),
        two.pow([512u64]).into_bigint().0.to_vec()
    );
}

#[test]
fn modulus_words_of_the_bls12_381_scalar_field() {
    assert_eq!(
        modulus(PairingSuite::Bls12381, FieldRole::Scalar),
        vec![
            0xffffffff00000001u64,
            0x53bda402fffe5bfe,
            0x3339d80809a1d805,
            0x73eda753299d7d48
        ]
    );
    assert_eq!(modulus(PairingSuite::Bls12381, FieldRole::Base).len(), 6);
    assert_eq!(
        modulus(PairingSuite::Bn254, FieldRole::Scalar),
        vec![
            0x43e1f593f0000001u64,
            0x2833e84879b97091,
            0xb85045b68181585d,
            0x30644e72e131a029
        ]
    );
    assert_eq!(
        modulus(PairingSuite::Bn254, FieldRole::Base),
        <ark_bn254::Fq as PrimeField>::MODULUS.0.to_vec()
    );
}

#[test]
fn montgomery_constants_are_those_of_the_field_library() {
    assert_eq!(montgomery_one(PairingSuite::Bn254, FieldRole::Scalar), ark_bn254::Fr::R.0.to_vec());
    assert_eq!(montgomery_r2(PairingSuite::Bn254, FieldRole::Scalar), ark_bn254::Fr::R2.0.to_vec());
    assert_eq!(montgomery_one(PairingSuite::Bn254, FieldRole::Base), ark_bn254::Fq::R.0.to_vec());
    assert_eq!(montgomery_r2(PairingSuite::Bn254, FieldRole::Base), ark_bn254::Fq::R2.0.to_vec());
    assert_eq!(
        montgomery_one(PairingSuite::Bls12381, FieldRole::Scalar),
        vec![0x00000001fffffffeu64, 0x5884b7fa00034802, 0x998c4fefecbc4ff5, 0x1824b159acc5056f]
    );
    assert_eq!(
        montgomery_r2(PairingSuite::Bls12381, FieldRole::Base),
        ark_bls12_381::Fq::R2.0.to_vec()
    );
}

#[test]
fn inverse_of_modulus_is_that_of_the_field_library() {
    let p = modulus(PairingSuite::Bls12381, FieldRole::Scalar);
    assert_eq!(calc_inv_64(p[0]), ark_bls12_381::Fr::INV);
    assert_eq!(calc_inv_64(p[0]), 0xfffffffeffffffff);
    assert_eq!(calc_inv_32(p[0] as u32), 0xffffffff);
    let q = modulus(PairingSuite::Bn254, FieldRole::Base);
    assert_eq!(Limb64::calc_inv(Limb64::new(q[0])).value(), ark_bn254::Fq::INV);
    assert_eq!(Limb32::calc_inv(Limb32::new(q[0] as u32)).value(), ark_bn254::Fq::INV as u32);
    assert_eq!(q[0].wrapping_mul(calc_inv_64(q[0])), u64::MAX);
}

#[test]
fn emitted_modulus_decodes_to_the_prime() {
    // 32-bit limbs of a field of four 64-bit words
    let fr = field(PairingSuite::Bls12381, FieldRole::Scalar);
    let text = params::<Limb32>(&fr);
    let line = text.lines().find(|l| l.starts_with("CONSTANT FIELD FIELD_P")).unwrap();
    let inner = &line[line.find("{ { ").unwrap() + 4..line.find(" } }").unwrap()];
    let limbs: Vec<u32> = inner.split(", ").map(|d| d.parse().unwrap()).collect();
    assert_eq!(limbs.len(), 8);
    let mut words = [0u64; 4];
    for (i, limb) in limbs.iter().enumerate() {
        words[i / 2] |= (*limb as u64) << (32 * (i % 2));
    }
    assert_eq!(BigInt::new(words), <ark_bls12_381::Fr as PrimeField>::MODULUS);
    // 64-bit limbs give the words of the field library themselves
    let text = params::<Limb64>(&fr);
    let line = text.lines().find(|l| l.starts_with("CONSTANT FIELD FIELD_ONE")).unwrap();
    let inner = &line[line.find("{ { ").unwrap() + 4..line.find(" } }").unwrap()];
    let limbs: Vec<u64> = inner.split(", ").map(|d| d.parse().unwrap()).collect();
    assert_eq!(limbs, ark_bls12_381::Fr::R.0.to_vec());
    assert!(text.contains("#define FIELD_INV 18446744069414584319\n"));
}

#[test]
fn curve_of_a_suite_names_its_fields() {
    let c = curve(PairingSuite::Bn254);
    assert_eq!(c.affine, "ark_bn254__G1Affine");
    assert_eq!(c.base.name(), "ark_bn254__Fq");
    assert_eq!(c.scalar.name(), "ark_bn254__Fr");
    let names = c.names();
    assert_eq!(names.affine, "ark_bn254__G1Affine");
    assert_eq!(names.base, "ark_bn254__Fq");
    assert_eq!(names.scalar, "ark_bn254__Fr");
}

#[test]
fn scalar_pow_is_exponentiation_in_the_field() {
    let five = vec![5u64, 0, 0, 0];
    assert_eq!(scalar_pow(PairingSuite::Bls12381, &five, 3), Some(vec![125u64, 0, 0, 0]));
    assert_eq!(scalar_pow(PairingSuite::Bn254, &five, 0), Some(vec![1u64, 0, 0, 0]));
    let x = ark_bn254::Fr::from(123456789u64);
    let expected = x.pow([1000u64]).into_bigint().0.to_vec();
    let base = x.into_bigint().0.to_vec();
    assert_eq!(scalar_pow(PairingSuite::Bn254, &base, 1000), Some(expected));
}

#[test]
fn scalar_pow_refuses_what_is_no_scalar() {
    let p = modulus(PairingSuite::Bls12381, FieldRole::Scalar);
    assert_eq!(scalar_pow(PairingSuite::Bls12381, &p, 2), None);
    let mut below = p.clone();
    below[0] -= 1;
    assert!(scalar_pow(PairingSuite::Bls12381, &below, 2).is_some());
    let mut above = p.clone();
    above[3] += 1;
    above[0] = 0;
    assert_eq!(scalar_pow(PairingSuite::Bls12381, &above, 2), None);
    assert_eq!(scalar_pow(PairingSuite::Bls12381, &vec![1u64, 0, 0], 2), None);
    // the modulus of BN254 is smaller: this is a scalar of BLS12-381 only
    let q = modulus(PairingSuite::Bn254, FieldRole::Scalar);
    assert!(scalar_pow(PairingSuite::Bls12381, &q, 1).is_some());
    assert_eq!(scalar_pow(PairingSuite::Bn254, &q, 1), None);
}

#[test]
fn twiddle_is_the_root_raised_to_the_plan_exponent() {
    let n = 1usize << 10;
    let omega = ark_bls12_381::Fr::get_root_of_unity(n as u64).unwrap();
    let plan = radix_ec_fft(FftInput { n, omegas_len: 32, point_size: 144, scalar_size: 32 }).unwrap();
    assert_eq!(plan.twiddle_exponent, 4);
    let got = twiddle(PairingSuite::Bls12381, &omega.into_bigint().0.to_vec(), &plan).unwrap();
    assert_eq!(got, omega.pow([4u64]).into_bigint().0.to_vec());
}

#[test]
fn table_of_roots_is_made_by_repeated_squaring() {
    let n = 1u64 << 7;
    let root = ark_bls12_381::Fr::get_root_of_unity(n).unwrap();
    let table = omegas(PairingSuite::Bls12381, &root.into_bigint().0.to_vec(), 32).unwrap();
    assert_eq!(table.len(), 32);
    let mut expected = root;
    for entry in &table {
        assert_eq!(entry, &expected.into_bigint().0.to_vec());
        expected = expected.square();
    }
    // the root has order 2^7
    assert_eq!(table[7], vec![1u64, 0, 0, 0]);
    assert_ne!(table[6], vec![1u64, 0, 0, 0]);
    let none = omegas(PairingSuite::Bls12381, &modulus(PairingSuite::Bls12381, FieldRole::Scalar), 4);
    assert_eq!(none, None);
    assert_eq!(omegas(PairingSuite::Bn254, &vec![3u64, 0, 0, 0], 0), Some(vec![]));
    assert_eq!(
        omegas(PairingSuite::Bn254, &vec![3u64, 0, 0, 0], 3),
        Some(vec![vec![3u64, 0, 0, 0], vec![9, 0, 0, 0], vec![81, 0, 0, 0]])
    );
}
