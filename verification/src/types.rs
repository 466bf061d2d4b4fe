//! What a field or curve library supplies to the synthesizer: a stable name
//! and limb-level constants, as plain data.

use vstd::prelude::*;
use vstd::string::StringExecFns;
use crate::text::{from_chars, to_chars};

verus! {

/// Two to the power 32: the number of values of a 32-bit word.
pub const WORD: u64 = 0x1_0000_0000;

/// The number that 32-bit words denote, least significant word first.
pub open spec fn words_value(words: Seq<u32>) -> nat
    decreases words.len(),
{
    if words.len() == 0 {
        0
    } else {
        words[0] as nat + (WORD as nat) * words_value(words.drop_first())
    }
}

/// The number that 64-bit words denote, least significant word first.
pub open spec fn words64_value(words: Seq<u64>) -> nat
    decreases words.len(),
{
    if words.len() == 0 {
        0
    } else {
        words[0] as nat + (WORD as nat) * (WORD as nat) * words64_value(words.drop_first())
    }
}

/// Each 64-bit word split into its low and its high 32-bit word.
pub open spec fn spec_u64_to_u32(limbs: Seq<u64>) -> Seq<u32> {
    Seq::new(
        2 * limbs.len(),
        |i: int|
            if i % 2 == 0 {
                (limbs[i / 2] % 0x1_0000_0000) as u32
            } else {
                (limbs[i / 2] / 0x1_0000_0000) as u32
            },
    )
}

/// Splits each 64-bit word into its low and its high 32-bit word, low word
/// first. The words denote the same number as before.
pub fn u64_to_u32(limbs: &[u64]) -> (words: Vec<u32>)
    ensures
        words@ == spec_u64_to_u32(limbs@),
        words@.len() == 2 * limbs@.len(),
        words_value(words@) == words64_value(limbs@),
{
    let n: usize = limbs.len();
    let mut words: Vec<u32> = Vec::new();
    let mut i: usize = 0;
    while i < n
        invariant
            0 <= i <= n,
            n == limbs@.len(),
            words@.len() == 2 * i,
            forall|k: int| 0 <= k < 2 * i ==> words@[k] == spec_u64_to_u32(limbs@)[k],
        decreases n - i,
    {
        let limb: u64 = limbs[i];
        words.push((limb % 0x1_0000_0000) as u32);
        words.push((limb / 0x1_0000_0000) as u32);
        i = i + 1;
    }
    assert(words@ =~= spec_u64_to_u32(limbs@));
    proof {
        lemma_split_keeps_value(limbs@);
    }
    words
}

/// Splitting 64-bit words into 32-bit words keeps the number they denote.
pub proof fn lemma_split_keeps_value(limbs: Seq<u64>)
    ensures
        words_value(spec_u64_to_u32(limbs)) == words64_value(limbs),
    decreases limbs.len(),
{
    let words = spec_u64_to_u32(limbs);
    if limbs.len() > 0 {
        let rest = limbs.drop_first();
        lemma_split_keeps_value(rest);
        assert(words.drop_first().drop_first() =~= spec_u64_to_u32(rest));
        let lo = (limbs[0] % 0x1_0000_0000) as nat;
        let hi = (limbs[0] / 0x1_0000_0000) as nat;
        assert(words[0] == lo);
        assert(words.drop_first()[0] == hi);
        let v = words64_value(rest);
        let w = WORD as nat;
        assert(words.drop_first().len() > 0);
        assert(words_value(words.drop_first()) == hi + w * v);
        assert(words_value(words) == lo + w * (hi + w * v));
        assert(lo + w * (hi + w * v) == (lo + w * hi) + w * w * v) by (nonlinear_arith);
        assert(limbs[0] == lo + w * hi);
    } else {
        assert(words =~= Seq::<u32>::empty());
    }
}

/// Whether `c` is an ASCII letter or digit.
pub open spec fn is_alphanumeric(c: char) -> bool {
    ('0' <= c && c <= '9') || ('a' <= c && c <= 'z') || ('A' <= c && c <= 'Z')
}

/// `s` with an underscore in place of every character that is not an ASCII
/// letter or digit.
pub open spec fn spec_sanitize(s: Seq<char>) -> Seq<char> {
    Seq::new(
        s.len(),
        |i: int|
            if is_alphanumeric(s[i]) {
                s[i]
            } else {
                '_'
            },
    )
}

/// Whether `s` begins with `prefix`.
pub open spec fn starts_with(s: Seq<char>, prefix: Seq<char>) -> bool {
    prefix.len() <= s.len() && s.subrange(0, prefix.len() as int) == prefix
}

/// The identifier by which generated source refers to a type.
pub open spec fn spec_gpu_name(scope: Seq<char>, item: Seq<char>) -> Seq<char> {
    if starts_with(item, scope) {
        spec_sanitize(item)
    } else {
        spec_sanitize(scope + "__"@ + item)
    }
}

/// The identifier by which generated source refers to the type whose full
/// name is `item`, named from within the module `scope`: the path of the
/// module and the name of the type, with every character that is not an ASCII letter or
/// digit replaced by an underscore, so that any C compiler accepts it.
pub fn gpu_name(scope: &str, item: &str) -> (name: String)
    ensures
        name@ == spec_gpu_name(scope@, item@),
{
    let prefix: Vec<char> = to_chars(scope);
    let tail: Vec<char> = to_chars(item);
    let full: Vec<char> = if prefix.len() <= tail.len() && crate::text::matches_at(
        &tail,
        0,
        &prefix,
    ) {
        tail
    } else {
        let mut joined: String = scope.to_owned();
        joined.append("__");
        joined.append(item);
        to_chars(joined.as_str())
    };
    let n: usize = full.len();
    let mut out: Vec<char> = Vec::new();
    let mut i: usize = 0;
    while i < n
        invariant
            0 <= i <= n,
            n == full@.len(),
            out@.len() == i,
            forall|k: int| 0 <= k < i ==> out@[k] == spec_sanitize(full@)[k],
        decreases n - i,
    {
        let c: char = full[i];
        if ('0' <= c && c <= '9') || ('a' <= c && c <= 'z') || ('A' <= c && c <= 'Z') {
            out.push(c);
        } else {
            out.push('_');
        }
        i = i + 1;
    }
    assert(out@ =~= spec_sanitize(full@));
    from_chars(&out)
}

/// The name and the limb-level constants of a prime field, or of a
/// quadratic extension, which carries the constants of its sub-field.
///
/// The three constants always have the same, non-zero, number of words.
#[derive(Debug, PartialEq, Eq)]
pub struct FieldParams {
    pub(crate) name: String,
    pub(crate) one: Vec<u32>,
    pub(crate) r2: Vec<u32>,
    pub(crate) modulus: Vec<u32>,
    pub(crate) sub_field_name: Option<String>,
}

/// What a [`FieldParams`] holds, as mathematical values.
pub struct FieldParamsView {
    /// The stable name of the field.
    pub name: Seq<char>,
    /// The multiplicative identity in Montgomery form, as 32-bit words,
    /// least significant first.
    pub one: Seq<u32>,
    /// `R^2 mod P`, as 32-bit words, least significant first.
    pub r2: Seq<u32>,
    /// The modulus, not in Montgomery form, as 32-bit words, least
    /// significant first.
    pub modulus: Seq<u32>,
    /// The name of the sub-field, if the field is an extension.
    pub sub_field_name: Option<Seq<char>>,
}

impl FieldParamsView {
    /// The three constants have the same, non-zero, number of words.
    pub open spec fn wf(self) -> bool {
        &&& self.one.len() > 0
        &&& self.r2.len() == self.one.len()
        &&& self.modulus.len() == self.one.len()
    }
}

impl View for FieldParams {
    type V = FieldParamsView;

    closed spec fn view(&self) -> FieldParamsView {
        FieldParamsView {
            name: self.name@,
            one: self.one@,
            r2: self.r2@,
            modulus: self.modulus@,
            sub_field_name: match self.sub_field_name {
                Some(s) => Some(s@),
                None => None,
            },
        }
    }
}

impl FieldParams {
    /// The three constants have the same, non-zero, number of words.
    #[verifier::type_invariant]
    pub open spec fn well_formed(&self) -> bool {
        self@.wf()
    }

    /// The parameters of a field, if its three constants have the same,
    /// non-zero, number of words.
    pub fn new(
        name: String,
        one: Vec<u32>,
        r2: Vec<u32>,
        modulus: Vec<u32>,
        sub_field_name: Option<String>,
    ) -> (r: Option<FieldParams>)
        ensures
            r is Some <==> one@.len() > 0 && r2@.len() == one@.len() && modulus@.len()
                == one@.len(),
            r matches Some(p) ==> p@ == (FieldParamsView {
                name: name@,
                one: one@,
                r2: r2@,
                modulus: modulus@,
                sub_field_name: match sub_field_name {
                    Some(s) => Some(s@),
                    None => None,
                },
            }),
    {
        if one.len() > 0 && r2.len() == one.len() && modulus.len() == one.len() {
            Some(FieldParams { name, one, r2, modulus, sub_field_name })
        } else {
            None
        }
    }

    /// The stable name of the field.
    pub fn name(&self) -> (n: &String)
        ensures
            n@ == self@.name,
    {
        &self.name
    }

    /// The multiplicative identity in Montgomery form.
    pub fn one(&self) -> (w: &Vec<u32>)
        ensures
            w@ == self@.one,
    {
        &self.one
    }

    /// `R^2 mod P`.
    pub fn r2(&self) -> (w: &Vec<u32>)
        ensures
            w@ == self@.r2,
    {
        &self.r2
    }

    /// The modulus.
    pub fn modulus(&self) -> (w: &Vec<u32>)
        ensures
            w@ == self@.modulus,
    {
        &self.modulus
    }

    /// The name of the sub-field, if the field is an extension.
    pub fn sub_field_name(&self) -> (n: &Option<String>)
        ensures
            n is Some <==> self@.sub_field_name is Some,
            n matches Some(s) ==> self@.sub_field_name == Some(s@),
    {
        &self.sub_field_name
    }

    /// A copy of the parameters.
    pub fn duplicate(&self) -> (r: FieldParams)
        ensures
            r@ == self@,
    {
        proof {
            use_type_invariant(self);
        }
        let sub_field_name: Option<String> = match &self.sub_field_name {
            Some(s) => Some(s.clone()),
            None => None,
        };
        FieldParams {
            name: self.name.clone(),
            one: self.one.clone(),
            r2: self.r2.clone(),
            modulus: self.modulus.clone(),
            sub_field_name,
        }
    }
}

/// The names that the source of a curve group refers to.
#[derive(Debug, PartialEq, Eq)]
pub struct CurveNames {
    /// The name of the type of affine points; it identifies the curve.
    pub affine: String,
    /// The name of the base field.
    pub base: String,
    /// The name of the scalar field.
    pub scalar: String,
}

/// What a [`CurveNames`] holds, as mathematical values.
pub struct CurveNamesView {
    pub affine: Seq<char>,
    pub base: Seq<char>,
    pub scalar: Seq<char>,
}

impl View for CurveNames {
    type V = CurveNamesView;

    open spec fn view(&self) -> CurveNamesView {
        CurveNamesView { affine: self.affine@, base: self.base@, scalar: self.scalar@ }
    }
}

impl CurveNames {
    /// The names of a curve.
    pub fn new(affine: String, base: String, scalar: String) -> (r: CurveNames)
        ensures
            r@ == (CurveNamesView { affine: affine@, base: base@, scalar: scalar@ }),
    {
        CurveNames { affine, base, scalar }
    }

    /// A copy of the names.
    pub fn duplicate(&self) -> (r: CurveNames)
        ensures
            r@ == self@,
    {
        CurveNames {
            affine: self.affine.clone(),
            base: self.base.clone(),
            scalar: self.scalar.clone(),
        }
    }
}

/// A curve group: the name of its affine points and the parameters of its
/// two fields.
#[derive(Debug, PartialEq, Eq)]
pub struct CurveParams {
    /// The name of the type of affine points; it identifies the curve.
    pub affine: String,
    /// The field of the coordinates.
    pub base: FieldParams,
    /// The field of the scalars.
    pub scalar: FieldParams,
}

/// What a [`CurveParams`] holds, as mathematical values.
pub struct CurveParamsView {
    pub affine: Seq<char>,
    pub base: FieldParamsView,
    pub scalar: FieldParamsView,
}

impl CurveParamsView {
    /// The names that the source of the curve refers to.
    pub open spec fn names(self) -> CurveNamesView {
        CurveNamesView { affine: self.affine, base: self.base.name, scalar: self.scalar.name }
    }
}

impl View for CurveParams {
    type V = CurveParamsView;

    open spec fn view(&self) -> CurveParamsView {
        CurveParamsView { affine: self.affine@, base: self.base@, scalar: self.scalar@ }
    }
}

impl CurveParams {
    /// The curve with the given name and fields.
    pub fn new(affine: String, base: FieldParams, scalar: FieldParams) -> (c: CurveParams)
        ensures
            c@ == (CurveParamsView { affine: affine@, base: base@, scalar: scalar@ }),
    {
        CurveParams { affine, base, scalar }
    }

    /// The names that the source of the curve refers to.
    pub fn names(&self) -> (n: CurveNames)
        ensures
            n@ == self@.names(),
    {
        CurveNames {
            affine: self.affine.clone(),
            base: self.base.name().clone(),
            scalar: self.scalar.name().clone(),
        }
    }
}

} // verus!
