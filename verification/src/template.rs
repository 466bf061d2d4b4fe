//! The text that a prime field contributes to a kernel document: its type
//! definitions and constants, and addition and subtraction with explicit
//! carry chains for devices that have carry-propagating instructions.

use vstd::prelude::*;
use vstd::string::StringExecFns;
use crate::limb::{limb_values, Limb, Limb32, Limb32Or64, Limb64};
use crate::montgomery::spec_calc_inv;
use crate::text::{decimal, push_decimal};
use crate::types::{FieldParams, FieldParamsView};

verus! {

/// The source templates into which names are substituted. Each is the text
/// of one part of a kernel document, with placeholder tokens (`FIELD`,
/// `FIELD2`, `BASE`, `POINT`, `SCALAR`) where a name belongs.
#[derive(Debug, PartialEq, Eq)]
pub struct Templates {
    /// The preamble that every document begins with.
    pub common: String,
    /// Arithmetic of a prime field, over `FIELD`.
    pub field: String,
    /// Arithmetic of a quadratic extension `FIELD2` of `FIELD`.
    pub field2: String,
    /// Arithmetic of a curve group `POINT` over `BASE` with scalars `SCALAR`.
    pub ec: String,
    /// The FFT over a field `FIELD`.
    pub fft: String,
    /// The FFT over sequences of `POINT` with roots in `SCALAR`.
    pub ec_fft: String,
    /// Multiexponentiation of `POINT` by `SCALAR`.
    pub multiexp: String,
    /// Kernels that expose single operations, for testing.
    pub test: String,
}

/// What a [`Templates`] holds, as mathematical values.
pub struct TemplatesView {
    pub common: Seq<char>,
    pub field: Seq<char>,
    pub field2: Seq<char>,
    pub ec: Seq<char>,
    pub fft: Seq<char>,
    pub ec_fft: Seq<char>,
    pub multiexp: Seq<char>,
    pub test: Seq<char>,
}

impl View for Templates {
    type V = TemplatesView;

    open spec fn view(&self) -> TemplatesView {
        TemplatesView {
            common: self.common@,
            field: self.field@,
            field2: self.field2@,
            ec: self.ec@,
            fft: self.fft@,
            ec_fft: self.ec_fft@,
            multiexp: self.multiexp@,
            test: self.test@,
        }
    }
}

/// The decimal numbers `values`, separated by a comma and a space.
pub open spec fn join_decimal(values: Seq<nat>) -> Seq<char>
    decreases values.len(),
{
    if values.len() == 0 {
        Seq::<char>::empty()
    } else if values.len() == 1 {
        decimal(values[0])
    } else {
        join_decimal(values.drop_last()) + ", "@ + decimal(values.last())
    }
}

/// The definition of the field constant `name` with the limbs `values`.
pub open spec fn spec_const_field(name: Seq<char>, values: Seq<nat>) -> Seq<char> {
    "CONSTANT FIELD "@ + name + " = { { "@ + join_decimal(values) + " } };"@
}

/// The definition of the field constant `name` with the given limbs, least
/// significant first.
pub fn const_field<L: Limb>(name: &str, limbs: Vec<L>) -> (s: String)
    ensures
        s@ == spec_const_field(name@, limb_values(limbs@)),
{
    let mut s: String = "CONSTANT FIELD ".to_owned();
    s.append(name);
    s.append(" = { { ");
    let ghost head = s@;
    let ghost values = limb_values(limbs@);
    let n: usize = limbs.len();
    let mut i: usize = 0;
    while i < n
        invariant
            0 <= i <= n,
            n == limbs@.len(),
            values == limb_values(limbs@),
            s@ == head + join_decimal(values.take(i as int)),
        decreases n - i,
    {
        proof {
            assert(values.take(i + 1).drop_last() =~= values.take(i as int));
            assert(values.take(i + 1).last() == limbs@[i as int].spec_value());
            if i == 0 {
                assert(join_decimal(values.take(0)) =~= Seq::<char>::empty());
            }
        }
        if i > 0 {
            s.append(", ");
        }
        push_decimal(&mut s, limbs[i].number() as u128);
        i = i + 1;
        assert(s@ =~= head + join_decimal(values.take(i as int)));
    }
    assert(values.take(n as int) =~= values);
    s.append(" } };");
    s
}

/// `len` zeros.
pub open spec fn zeros(len: nat) -> Seq<nat> {
    Seq::new(len, |i: int| 0nat)
}

/// The constants and type definitions of a prime field for limbs of type
/// `L`: the limb type, the number of limbs, the limb width, the
/// inverse-of-modulus constant, the two struct types, and the constants
/// one, modulus, `R^2` and zero.
pub open spec fn spec_params<L: Limb>(field: FieldParamsView) -> Seq<char> {
    let one = L::spec_limbs(field.one);
    let p = L::spec_limbs(field.modulus);
    let r2 = L::spec_limbs(field.r2);
    "#define FIELD_limb "@ + L::spec_opencl_type() + "\n#define FIELD_LIMBS "@ + decimal(
        one.len(),
    ) + "\n#define FIELD_LIMB_BITS "@ + decimal(L::spec_bits()) + "\n#define FIELD_INV "@
        + decimal(spec_calc_inv(p[0], L::spec_bits()))
        + "\ntypedef struct { FIELD_limb val[FIELD_LIMBS]; } FIELD;\ntypedef struct { FIELD_limb val[FIELD_LIMBS]; } FIELD_repr;\n"@
        + spec_const_field("FIELD_ONE"@, one) + "\n"@ + spec_const_field("FIELD_P"@, p) + "\n"@
        + spec_const_field("FIELD_R2"@, r2) + "\n"@ + spec_const_field(
        "FIELD_ZERO"@,
        zeros(one.len()),
    )
}

/// Generates the constants and type definitions of the prime field `field`
/// for limbs of type `L`.
pub fn params<L: Limb>(field: &FieldParams) -> (s: String)
    ensures
        s@ == spec_params::<L>(field@),
{
    proof {
        use_type_invariant(field);
    }
    let one: Vec<L> = L::one_limbs(field);
    let p: Vec<L> = L::modulus_limbs(field);
    let r2: Vec<L> = L::calculate_r2(field);
    proof {
        L::lemma_limbs(field@.one);
        L::lemma_limbs(field@.modulus);
        L::lemma_limbs(field@.r2);
        assert(limb_values(one@) =~= L::spec_limbs(field@.one));
        assert(limb_values(p@) =~= L::spec_limbs(field@.modulus));
        assert(limb_values(r2@) =~= L::spec_limbs(field@.r2));
    }
    let limbs: usize = one.len();
    let inv: L = L::calc_inv(p[0]);
    let mut zero: Vec<L> = Vec::new();
    let mut i: usize = 0;
    while i < limbs
        invariant
            0 <= i <= limbs,
            zero@.len() == i,
            forall|k: int| 0 <= k < i ==> (#[trigger] zero@[k]).spec_value() == 0,
        decreases limbs - i,
    {
        zero.push(L::zero());
        i = i + 1;
    }
    assert(limb_values(zero@) =~= zeros(limbs as nat));
    let one_def: String = const_field("FIELD_ONE", one);
    let p_def: String = const_field("FIELD_P", p);
    let r2_def: String = const_field("FIELD_R2", r2);
    let zero_def: String = const_field("FIELD_ZERO", zero);
    let mut s: String = "#define FIELD_limb ".to_owned();
    s.append(L::opencl_type());
    s.append("\n#define FIELD_LIMBS ");
    push_decimal(&mut s, limbs as u128);
    s.append("\n#define FIELD_LIMB_BITS ");
    push_decimal(&mut s, L::bits() as u128);
    s.append("\n#define FIELD_INV ");
    push_decimal(&mut s, inv.number() as u128);
    s.append(
        "\ntypedef struct { FIELD_limb val[FIELD_LIMBS]; } FIELD;\ntypedef struct { FIELD_limb val[FIELD_LIMBS]; } FIELD_repr;\n",
    );
    s.append(one_def.as_str());
    s.append("\n");
    s.append(p_def.as_str());
    s.append("\n");
    s.append(r2_def.as_str());
    s.append("\n");
    s.append(zero_def.as_str());
    s
}

/// One instruction of a chain: `op` with the carry suffix `carry`, on
/// register `a` of the first operand and register `b` of the second, with
/// the result in register `a`.
pub open spec fn spec_instruction(
    op: Seq<char>,
    carry: Seq<char>,
    ptx_type: Seq<char>,
    a: nat,
    b: nat,
) -> Seq<char> {
    "\""@ + op + carry + ptx_type + " %"@ + decimal(a) + ", %"@ + decimal(a) + ", %"@ + decimal(b)
        + ";\\r\\n\"\n"@
}

/// The carry-propagating instructions for the limbs `from..to` in the
/// middle of a chain over `len` limbs: limb `i` of the first operand is
/// register `i`, limb `i` of the second is register `len + i`.
pub open spec fn spec_interior(
    op: Seq<char>,
    ptx_type: Seq<char>,
    len: nat,
    from: nat,
    to: nat,
) -> Seq<char>
    decreases to - from,
{
    if to <= from {
        Seq::<char>::empty()
    } else {
        spec_interior(op, ptx_type, len, from, (to - 1) as nat) + spec_instruction(
            op,
            "c.cc."@,
            ptx_type,
            (to - 1) as nat,
            (len + to - 1) as nat,
        )
    }
}

/// The instructions of a chain over `len` limbs, two at least: one that
/// sets the carry at limb 0, carry-propagating ones for the limbs between,
/// and one that takes the carry and ends the chain at the last limb.
pub open spec fn spec_chain(op: Seq<char>, ptx_type: Seq<char>, len: nat) -> Seq<char> {
    spec_instruction(op, ".cc."@, ptx_type, 0, len) + spec_interior(
        op,
        ptx_type,
        len,
        1,
        (len - 1) as nat,
    ) + spec_instruction(op, "c."@, ptx_type, (len - 1) as nat, (2 * len - 1) as nat)
}

/// The operand list of the limbs `0..upto` of the operand `var`, each bound
/// to a register of class `ptx_reg` with the constraint prefix `prefix`,
/// separated by commas up to limb `len - 1`.
pub open spec fn spec_operands(
    prefix: Seq<char>,
    ptx_reg: Seq<char>,
    var: Seq<char>,
    len: nat,
    upto: nat,
) -> Seq<char>
    decreases upto,
{
    if upto == 0 {
        Seq::<char>::empty()
    } else {
        let n = (upto - 1) as nat;
        let item = spec_operands(prefix, ptx_reg, var, len, n) + prefix + ptx_reg + var + decimal(n)
            + "])"@;
        if n + 1 != len {
            item + ", "@
        } else {
            item
        }
    }
}

/// The function that adds or subtracts (`op`) two field elements of `len`
/// limbs. With two or more limbs it is one chain of instructions. With
/// fewer limbs there is nothing to chain and the function returns its first
/// operand.
pub open spec fn spec_add_sub(
    op: Seq<char>,
    ptx_type: Seq<char>,
    ptx_reg: Seq<char>,
    len: nat,
) -> Seq<char> {
    let head = "DEVICE FIELD FIELD_"@ + op + "_nvidia(FIELD a, FIELD b) {\n"@;
    let tail = "return a;\n}\n"@;
    if len > 1 {
        head + "asm("@ + spec_chain(op, ptx_type, len) + ":"@ + spec_operands(
            "\"+"@,
            ptx_reg,
            "\"(a.val["@,
            len,
            len,
        ) + "\n:"@ + spec_operands("\""@, ptx_reg, "\"(b.val["@, len, len) + ");\n"@ + tail
    } else {
        head + tail
    }
}

/// Subtraction and addition with explicit carry chains, for limbs of type
/// `L` and a field of `len` limbs, guarded so that only devices with
/// carry-propagating instructions compile them.
pub open spec fn spec_field_add_sub_nvidia<L: Limb>(len: nat) -> Seq<char> {
    "#if defined(OPENCL_NVIDIA) || defined(CUDA)\n\n"@ + spec_add_sub(
        "sub"@,
        L::spec_ptx_info().0,
        L::spec_ptx_info().1,
        len,
    ) + spec_add_sub("add"@, L::spec_ptx_info().0, L::spec_ptx_info().1, len) + "#endif\n"@
}

/// Appends the operand list of `len` limbs.
fn push_operands(out: &mut String, prefix: &str, ptx_reg: &str, var: &str, len: usize)
    ensures
        final(out)@ == old(out)@ + spec_operands(prefix@, ptx_reg@, var@, len as nat, len as nat),
{
    let ghost head = out@;
    let mut n: usize = 0;
    assert(out@ =~= head + spec_operands(prefix@, ptx_reg@, var@, len as nat, 0));
    while n < len
        invariant
            0 <= n <= len,
            out@ == head + spec_operands(prefix@, ptx_reg@, var@, len as nat, n as nat),
        decreases len - n,
    {
        out.append(prefix);
        out.append(ptx_reg);
        out.append(var);
        push_decimal(out, n as u128);
        out.append("])");
        if n != len - 1 {
            out.append(", ");
        }
        n = n + 1;
        assert(out@ =~= head + spec_operands(prefix@, ptx_reg@, var@, len as nat, n as nat));
    }
}

/// Appends one instruction of a chain.
fn push_instruction(out: &mut String, op: &str, carry: &str, ptx_type: &str, a: u128, b: u128)
    ensures
        final(out)@ == old(out)@ + spec_instruction(op@, carry@, ptx_type@, a as nat, b as nat),
{
    let ghost head = out@;
    out.append("\"");
    out.append(op);
    out.append(carry);
    out.append(ptx_type);
    out.append(" %");
    push_decimal(out, a);
    out.append(", %");
    push_decimal(out, a);
    out.append(", %");
    push_decimal(out, b);
    out.append(";\\r\\n\"\n");
    assert(out@ =~= head + spec_instruction(op@, carry@, ptx_type@, a as nat, b as nat));
}

/// Appends the instructions of a chain over `len` limbs.
fn push_chain(out: &mut String, op: &str, ptx_type: &str, len: usize)
    requires
        len > 1,
    ensures
        final(out)@ == old(out)@ + spec_chain(op@, ptx_type@, len as nat),
{
    let ghost head = out@;
    push_instruction(out, op, ".cc.", ptx_type, 0, len as u128);
    let ghost start = out@;
    let mut i: usize = 1;
    assert(out@ =~= start + spec_interior(op@, ptx_type@, len as nat, 1, 1));
    while i < len - 1
        invariant
            1 <= i <= len - 1,
            out@ == start + spec_interior(op@, ptx_type@, len as nat, 1, i as nat),
        decreases len - 1 - i,
    {
        push_instruction(out, op, "c.cc.", ptx_type, i as u128, len as u128 + i as u128);
        i = i + 1;
        assert(out@ =~= start + spec_interior(op@, ptx_type@, len as nat, 1, i as nat));
    }
    push_instruction(out, op, "c.", ptx_type, (len - 1) as u128, 2 * (len as u128) - 1);
    assert(out@ =~= head + spec_chain(op@, ptx_type@, len as nat));
}

/// Appends the function that adds or subtracts two field elements.
fn push_add_sub(out: &mut String, op: &str, ptx_type: &str, ptx_reg: &str, len: usize)
    ensures
        final(out)@ == old(out)@ + spec_add_sub(op@, ptx_type@, ptx_reg@, len as nat),
{
    let ghost head = out@;
    out.append("DEVICE FIELD FIELD_");
    out.append(op);
    out.append("_nvidia(FIELD a, FIELD b) {\n");
    if len > 1 {
        out.append("asm(");
        push_chain(out, op, ptx_type, len);
        out.append(":");
        push_operands(out, "\"+", ptx_reg, "\"(a.val[", len);
        out.append("\n:");
        push_operands(out, "\"", ptx_reg, "\"(b.val[", len);
        out.append(");\n");
    }
    out.append("return a;\n}\n");
    assert(out@ =~= head + spec_add_sub(op@, ptx_type@, ptx_reg@, len as nat));
}

/// Generates subtraction and addition of the field `field` with explicit
/// carry chains, for limbs of type `L`.
pub fn field_add_sub_nvidia<L: Limb>(field: &FieldParams) -> (s: String)
    ensures
        s@ == spec_field_add_sub_nvidia::<L>(L::spec_limbs(field@.one).len()),
{
    let (ptx_type, ptx_reg) = L::ptx_info();
    let one: Vec<L> = L::one_limbs(field);
    let len: usize = one.len();
    let mut s: String = "#if defined(OPENCL_NVIDIA) || defined(CUDA)\n\n".to_owned();
    push_add_sub(&mut s, "sub", ptx_type, ptx_reg, len);
    push_add_sub(&mut s, "add", ptx_type, ptx_reg, len);
    s.append("#endif\n");
    s
}

/// The text of the prime field `field` for the limb width `limb`: its
/// constants and types, its carry-chain addition and subtraction, and the
/// field arithmetic of `template`, one after the other on lines of their
/// own.
pub open spec fn spec_field_source(
    field: FieldParamsView,
    limb: Limb32Or64,
    template: Seq<char>,
) -> Seq<char> {
    match limb {
        Limb32Or64::Limb32 => spec_params::<Limb32>(field) + "\n"@ + spec_field_add_sub_nvidia::<
            Limb32,
        >(Limb32::spec_limbs(field.one).len()) + "\n"@ + template,
        Limb32Or64::Limb64 => spec_params::<Limb64>(field) + "\n"@ + spec_field_add_sub_nvidia::<
            Limb64,
        >(Limb64::spec_limbs(field.one).len()) + "\n"@ + template,
    }
}

/// Generates the text of the prime field `field` for the limb width `limb`,
/// with the field arithmetic of `template`. The placeholder `FIELD` still
/// stands where the name of the field belongs.
pub fn field_source(field: &FieldParams, limb: Limb32Or64, template: &str) -> (s: String)
    ensures
        s@ == spec_field_source(field@, limb, template@),
{
    let mut s: String;
    match limb {
        Limb32Or64::Limb32 => {
            s = params::<Limb32>(field);
            s.append("\n");
            s.append(field_add_sub_nvidia::<Limb32>(field).as_str());
        },
        Limb32Or64::Limb64 => {
            s = params::<Limb64>(field);
            s.append("\n");
            s.append(field_add_sub_nvidia::<Limb64>(field).as_str());
        },
    }
    s.append("\n");
    s.append(template);
    s
}

} // verus!
