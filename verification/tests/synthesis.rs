use ark_gpu::builder::{Backends, SourceBuilder};
use ark_gpu::error::GpuError;
use ark_gpu::limb::{Limb, Limb32, Limb32Or64, Limb64};
use ark_gpu::synthesis::{has_placeholder, Ec, EcFft, Fft, Field, Multiexp, NameAndSource, Test};
use ark_gpu::template::{const_field, field_add_sub_nvidia, field_source, params, Templates};
use ark_gpu::text::occurs;
use ark_gpu::types::{CurveNames, CurveParams, FieldParams};

fn templates() -> Templates {
    Templates {
        common: "// common\n".to_string(),
        field: "FIELD FIELD_add(FIELD a, FIELD b);".to_string(),
        field2: "typedef struct { FIELD c0; FIELD c1; } FIELD2;".to_string(),
        ec: "POINT over BASE by SCALAR".to_string(),
        fft: "KERNEL void FIELD_radix_fft();".to_string(),
        ec_fft: "KERNEL void POINT_radix_fft(SCALAR w);".to_string(),
        multiexp: "KERNEL void POINT_multiexp(SCALAR e);".to_string(),
        test: "KERNEL void test_ec(POINT p, SCALAR s, FIELD f);".to_string(),
    }
}

fn small_field(name: &str) -> FieldParams {
    FieldParams::new(
        name.to_string(),
        vec![1, 2, 3, 4],
        vec![5, 6, 7, 8],
        vec![0xffff_ffff, 10, 11, 12],
        None,
    )
    .unwrap()
}

#[test]
fn const_field_lists_the_limbs() {
    let text = const_field("FIELD_P", vec![Limb32::new(7), Limb32::new(0), Limb32::new(4294967295)]);
    assert_eq!(text, "CONSTANT FIELD FIELD_P = { { 7, 0, 4294967295 } };");
    let text = const_field::<Limb64>("FIELD_ZERO", vec![]);
    assert_eq!(text, "CONSTANT FIELD FIELD_ZERO = { {  } };");
}

#[test]
fn params_for_32_bit_limbs() {
    let text = params::<Limb32>(&small_field("Fq"));
    let expected = [
        "#define FIELD_limb uint",
        "#define FIELD_LIMBS 4",
        "#define FIELD_LIMB_BITS 32",
        "#define FIELD_INV 1",
        "typedef struct { FIELD_limb val[FIELD_LIMBS]; } FIELD;",
        "typedef struct { FIELD_limb val[FIELD_LIMBS]; } FIELD_repr;",
        "CONSTANT FIELD FIELD_ONE = { { 1, 2, 3, 4 } };",
        "CONSTANT FIELD FIELD_P = { { 4294967295, 10, 11, 12 } };",
        "CONSTANT FIELD FIELD_R2 = { { 5, 6, 7, 8 } };",
        "CONSTANT FIELD FIELD_ZERO = { { 0, 0, 0, 0 } };",
    ]
    .join("\n");
    assert_eq!(text, expected);
}

#[test]
fn params_for_64_bit_limbs_pack_pairs() {
    let text = params::<Limb64>(&small_field("Fq"));
    assert!(text.contains("#define FIELD_limb ulong\n"));
    assert!(text.contains("#define FIELD_LIMBS 2\n"));
    assert!(text.contains("#define FIELD_LIMB_BITS 64\n"));
    assert!(text.contains("CONSTANT FIELD FIELD_ONE = { { 8589934593, 17179869187 } };"));
    assert!(text.contains("CONSTANT FIELD FIELD_P = { { 47244640255, 51539607563 } };"));
    assert!(text.ends_with("CONSTANT FIELD FIELD_ZERO = { { 0, 0 } };"));
}

#[test]
fn carry_chain_of_four_limbs() {
    let text = field_add_sub_nvidia::<Limb32>(&small_field("Fq"));
    let expected = "#if defined(OPENCL_NVIDIA) || defined(CUDA)\n\n\
DEVICE FIELD FIELD_sub_nvidia(FIELD a, FIELD b) {\n\
asm(\"sub.cc.u32 %0, %0, %4;\\r\\n\"\n\
\"subc.cc.u32 %1, %1, %5;\\r\\n\"\n\
\"subc.cc.u32 %2, %2, %6;\\r\\n\"\n\
\"subc.u32 %3, %3, %7;\\r\\n\"\n\
:\"+r\"(a.val[0]), \"+r\"(a.val[1]), \"+r\"(a.val[2]), \"+r\"(a.val[3])\n\
:\"r\"(b.val[0]), \"r\"(b.val[1]), \"r\"(b.val[2]), \"r\"(b.val[3]));\n\
return a;\n}\n\
DEVICE FIELD FIELD_add_nvidia(FIELD a, FIELD b) {\n\
asm(\"add.cc.u32 %0, %0, %4;\\r\\n\"\n\
\"addc.cc.u32 %1, %1, %5;\\r\\n\"\n\
\"addc.cc.u32 %2, %2, %6;\\r\\n\"\n\
\"addc.u32 %3, %3, %7;\\r\\n\"\n\
:\"+r\"(a.val[0]), \"+r\"(a.val[1]), \"+r\"(a.val[2]), \"+r\"(a.val[3])\n\
:\"r\"(b.val[0]), \"r\"(b.val[1]), \"r\"(b.val[2]), \"r\"(b.val[3]));\n\
return a;\n}\n\
#endif\n";
    assert_eq!(text, expected);
}

#[test]
fn carry_chain_of_two_64_bit_limbs_has_no_interior() {
    let text = field_add_sub_nvidia::<Limb64>(&small_field("Fq"));
    assert!(text.contains("asm(\"sub.cc.u64 %0, %0, %2;\\r\\n\"\n\"subc.u64 %1, %1, %3;\\r\\n\"\n:\"+l\"(a.val[0]), \"+l\"(a.val[1])\n:\"l\"(b.val[0]), \"l\"(b.val[1]));\n"));
}

#[test]
fn a_single_limb_has_no_chain() {
    let field = FieldParams::new("F".to_string(), vec![1], vec![1], vec![3], None).unwrap();
    let text = field_add_sub_nvidia::<Limb32>(&field);
    assert_eq!(
        text,
        "#if defined(OPENCL_NVIDIA) || defined(CUDA)\n\n\
DEVICE FIELD FIELD_sub_nvidia(FIELD a, FIELD b) {\nreturn a;\n}\n\
DEVICE FIELD FIELD_add_nvidia(FIELD a, FIELD b) {\nreturn a;\n}\n#endif\n"
    );
}

#[test]
fn field_source_joins_three_parts() {
    let field = small_field("Fq");
    let text = field_source(&field, Limb32Or64::Limb32, "TEMPLATE");
    let expected = [
        params::<Limb32>(&field),
        field_add_sub_nvidia::<Limb32>(&field),
        "TEMPLATE".to_string(),
    ]
    .join("\n");
    assert_eq!(text, expected);
}

#[test]
fn mismatched_constants_are_refused() {
    assert!(FieldParams::new("F".to_string(), vec![], vec![], vec![], None).is_none());
    assert!(FieldParams::new("F".to_string(), vec![1, 2], vec![1], vec![1, 2], None).is_none());
    assert!(FieldParams::new("F".to_string(), vec![1, 2], vec![1, 2], vec![1], None).is_none());
}

#[test]
fn document_orders_sections_and_names() {
    let builder = SourceBuilder::new(templates())
        .add_fft(small_field("Zeta"))
        .add_field(small_field("Alpha"))
        .add_field(small_field("Zeta"))
        .append_source("// one".to_string())
        .append_source("// two".to_string());
    let doc = builder.build_32_bit_limbs();
    assert!(doc.starts_with("// common\n#define Alpha_limb uint\n"));
    let alpha = doc.find("typedef struct { Alpha_limb val[Alpha_LIMBS]; } Alpha;").unwrap();
    let zeta = doc.find("typedef struct { Zeta_limb val[Zeta_LIMBS]; } Zeta;").unwrap();
    let fft = doc.find("KERNEL void Zeta_radix_fft();").unwrap();
    assert!(alpha < zeta);
    assert!(zeta < fft);
    assert_eq!(doc.matches("} Zeta;").count(), 1);
    assert!(doc.ends_with("KERNEL void Zeta_radix_fft();\n\n\n\n\n\n\n\n\n// one\n// two"));
}

#[test]
fn insertion_order_does_not_show() {
    let a = SourceBuilder::new(templates())
        .add_field(small_field("B"))
        .add_field(small_field("A"))
        .add_field(small_field("C"));
    let b = SourceBuilder::new(templates())
        .add_field(small_field("C"))
        .add_field(small_field("B"))
        .add_field(small_field("A"))
        .add_field(small_field("B"));
    assert_eq!(a.build_32_bit_limbs(), b.build_32_bit_limbs());
    assert_eq!(a.build_64_bit_limbs(), b.build_64_bit_limbs());
    assert_eq!(a.build_32_bit_limbs(), a.build_32_bit_limbs());
}

#[test]
fn extension_field_brings_its_sub_field_once() {
    let ext = FieldParams::new(
        "Fq2".to_string(),
        vec![1, 2],
        vec![3, 4],
        vec![5, 6],
        Some("Fq".to_string()),
    )
    .unwrap();
    let base = FieldParams::new("Fq".to_string(), vec![1, 2], vec![3, 4], vec![5, 6], None).unwrap();
    let doc = SourceBuilder::new(templates()).add_field(base).add_field(ext).build_32_bit_limbs();
    assert_eq!(doc.matches("typedef struct { Fq_limb val[Fq_LIMBS]; } Fq;").count(), 1);
    assert!(doc.contains("typedef struct { Fq c0; Fq c1; } Fq2;"));
    let sub = doc.find("} Fq;").unwrap();
    let ext = doc.find("} Fq2;").unwrap();
    assert!(sub < ext);
}

#[test]
fn curve_sections_follow_their_fields() {
    let curve = CurveParams::new("G1".to_string(), small_field("Fq"), small_field("Fr"));
    let builder = SourceBuilder::new(templates()).add_ec_fft(&curve);
    let builder = builder.add_multiexp(&curve, Backends { cuda: true, opencl: false }).unwrap();
    let doc = builder.build_32_bit_limbs();
    let fq = doc.find("} Fq;").unwrap();
    let fr = doc.find("} Fr;").unwrap();
    let ec = doc.find("G1 over Fq by Fr").unwrap();
    let fft = doc.find("KERNEL void G1_radix_fft(Fr w);").unwrap();
    let multiexp = doc.find("KERNEL void G1_multiexp(Fr e);").unwrap();
    assert!(fq < fr && fr < ec && ec < fft && fft < multiexp);
}

#[test]
fn multiexp_is_refused_for_opencl() {
    let curve = CurveParams::new("G1".to_string(), small_field("Fq"), small_field("Fr"));
    let r = SourceBuilder::new(templates()).add_multiexp(&curve, Backends { cuda: true, opencl: true });
    assert!(matches!(r, Err(GpuError::UnsupportedBackend)));
}

#[test]
fn descriptors_render_under_their_names() {
    let t = templates();
    let names = || CurveNames::new("G1".to_string(), "Fq".to_string(), "Fr".to_string());
    let fft = Fft::new("Fr".to_string());
    assert_eq!(fft.name(), "Fr");
    assert_eq!(fft.source(Limb32Or64::Limb32, &t), "KERNEL void Fr_radix_fft();");
    let ec = Ec::new(names());
    assert_eq!(ec.name(), "G1");
    assert_eq!(ec.source(Limb32Or64::Limb64, &t), "G1 over Fq by Fr");
    assert_eq!(EcFft::new(names()).source(Limb32Or64::Limb32, &t), "KERNEL void G1_radix_fft(Fr w);");
    assert_eq!(Multiexp::new(names()).source(Limb32Or64::Limb32, &t), "KERNEL void G1_multiexp(Fr e);");
    assert_eq!(
        Test::new(names()).source(Limb32Or64::Limb32, &t),
        "KERNEL void test_ec(G1 p, Fr s, Fq f);"
    );
    assert_eq!(Multiexp::new(names()).name(), "G1");
    let field = Field::new(small_field("Fq"));
    assert_eq!(field.name(), "Fq");
    assert!(field.source(Limb32Or64::Limb32, &t).ends_with("\nFq Fq_add(Fq a, Fq b);"));
    let sub = Field::SubField("Fq".to_string(), small_field("Fq2"));
    assert_eq!(sub.name(), "Fq");
    assert_eq!(sub.source(Limb32Or64::Limb32, &t), field.source(Limb32Or64::Limb32, &t));
    assert_ne!(sub.source(Limb32Or64::Limb64, &t), field.source(Limb32Or64::Limb32, &t));
}

#[test]
fn a_placeholder_that_a_name_brings_in_is_a_defect() {
    assert!(occurs("a FIELD b", "FIELD"));
    assert!(occurs("FIELD", "FIELD"));
    assert!(!occurs("FIEL", "FIELD"));
    assert!(!occurs("field", "FIELD"));
    assert!(occurs("abc", ""));
    assert!(has_placeholder("x SCALAR y"));
    assert!(has_placeholder("BASE"));
    assert!(has_placeholder("POINTS"));
    assert!(!has_placeholder("Fq_add(Fq a, Fq b)"));
    let good = SourceBuilder::new(templates()).add_fft(small_field("Fr"));
    assert_eq!(good.build_checked(Limb32Or64::Limb32), Ok(good.build_32_bit_limbs()));
    assert_eq!(good.build_checked(Limb32Or64::Limb64), Ok(good.build_64_bit_limbs()));
    let bad = SourceBuilder::new(templates()).add_field(small_field("MY_FIELD"));
    assert_eq!(bad.build_checked(Limb32Or64::Limb32), Err(GpuError::ResidualPlaceholder));
    let curve = CurveParams::new("POINT_G1".to_string(), small_field("Fq"), small_field("Fr"));
    let bad = SourceBuilder::new(templates()).add_ec(&curve);
    assert_eq!(bad.build_checked(Limb32Or64::Limb32), Err(GpuError::ResidualPlaceholder));
    assert_eq!(SourceBuilder::new(templates()).build_checked(Limb32Or64::Limb32), Ok("// common\n\n\n\n\n\n\n\n\n\n\n\n\n\n\n".to_string()));
}

#[test]
fn an_odd_number_of_words_leaves_the_last_limb_without_a_high_word() {
    let field =
        FieldParams::new("F".to_string(), vec![1, 2, 3], vec![0, 0, 1], vec![5, 6, 7], None).unwrap();
    let text = params::<Limb64>(&field);
    assert!(text.contains("#define FIELD_LIMBS 2\n"));
    assert!(text.contains("CONSTANT FIELD FIELD_ONE = { { 8589934593, 3 } };"));
    assert!(text.contains("CONSTANT FIELD FIELD_R2 = { { 0, 1 } };"));
    assert!(text.ends_with("CONSTANT FIELD FIELD_ZERO = { { 0, 0 } };"));
    let limbs = Limb64::modulus_limbs(&field);
    assert_eq!(limbs, vec![Limb64::new(5 + (6u64 << 32)), Limb64::new(7)]);
    assert_eq!(Limb32::one_limbs(&field), vec![Limb32(1), Limb32(2), Limb32(3)]);
    assert_eq!((Limb32::bits(), Limb64::bits()), (32, 64));
    assert_eq!(Limb32::ptx_info(), ("u32", "r"));
    assert_eq!(Limb64::ptx_info(), ("u64", "l"));
    assert_eq!((Limb32::opencl_type(), Limb64::opencl_type()), ("uint", "ulong"));
    assert_eq!(Limb32::zero().value(), 0);
    assert_eq!(Limb64::zero().number(), 0);
}
