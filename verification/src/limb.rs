//! The limb model: fixed-width unsigned integers of 32 or 64 bits in which
//! the constants of a field are written into the generated source.

use vstd::prelude::*;
use vstd::arithmetic::power2::{pow2, lemma2_to64, lemma2_to64_rest};
use crate::montgomery::{calc_inv_32, calc_inv_64, spec_calc_inv};
use crate::types::{
    lemma_split_keeps_value, spec_u64_to_u32, words64_value, words_value, FieldParams, WORD,
};

verus! {

/// The limb width of a generated document.
#[derive(Clone, Copy, Debug, PartialEq, Eq, Structural)]
pub enum Limb32Or64 {
    Limb32,
    Limb64,
}

/// The number that limbs of `bits` bits denote, least significant limb
/// first.
pub open spec fn limbs_value(limbs: Seq<nat>, bits: nat) -> nat
    decreases limbs.len(),
{
    if limbs.len() == 0 {
        0
    } else {
        limbs[0] + pow2(bits) * limbs_value(limbs.drop_first(), bits)
    }
}

/// The values of a sequence of limbs.
pub open spec fn limb_values<L: Limb>(limbs: Seq<L>) -> Seq<nat> {
    Seq::new(limbs.len(), |i: int| limbs[i].spec_value())
}

/// The 32-bit words as limbs of 32 bits: each word is a limb.
pub open spec fn single_words(words: Seq<u32>) -> Seq<nat> {
    Seq::new(words.len(), |i: int| words[i] as nat)
}

/// The 32-bit words packed pairwise into limbs of 64 bits: the low word and
/// the high word shifted by 32 bits. Where the number of words is odd, the
/// last limb has no high word.
pub open spec fn paired_words(words: Seq<u32>) -> Seq<nat> {
    Seq::new(
        ((words.len() + 1) / 2) as nat,
        |i: int|
            if 2 * i + 1 < words.len() {
                words[2 * i] as nat + (WORD as nat) * (words[2 * i + 1] as nat)
            } else {
                words[2 * i] as nat
            },
    )
}

/// A limb of a fixed number of bits.
pub trait Limb: Sized + Copy {
    /// The machine integer that holds a limb.
    type LimbType: Copy;

    /// The number that a machine integer denotes.
    spec fn spec_raw(val: Self::LimbType) -> nat;

    /// The number that the limb denotes.
    spec fn spec_value(&self) -> nat;

    /// The number of bits of a limb.
    spec fn spec_bits() -> nat;

    /// The names by which PTX calls the type and its register class.
    spec fn spec_ptx_info() -> (Seq<char>, Seq<char>);

    /// The name by which OpenCL calls the type.
    spec fn spec_opencl_type() -> Seq<char>;

    /// The limbs into which 32-bit words, least significant first, are
    /// packed.
    spec fn spec_limbs(words: Seq<u32>) -> Seq<nat>;

    /// Packing keeps the number, and every limb fits its width.
    proof fn lemma_limbs(words: Seq<u32>)
        ensures
            limbs_value(Self::spec_limbs(words), Self::spec_bits()) == words_value(words),
            forall|i: int|
                0 <= i < Self::spec_limbs(words).len() ==> (#[trigger] Self::spec_limbs(words)[i])
                    < pow2(Self::spec_bits()),
            words.len() > 0 ==> Self::spec_limbs(words).len() > 0,
            words.len() > 0 ==> Self::spec_limbs(words)[0] % 2 == words[0] % 2,
            Self::spec_bits() > 0,
    ;

    /// The limb that denotes zero.
    fn zero() -> (z: Self)
        ensures
            z.spec_value() == 0,
    ;

    /// The limb that holds `val`.
    fn new(val: Self::LimbType) -> (l: Self)
        ensures
            l.spec_value() == Self::spec_raw(val),
    ;

    /// The machine integer that the limb holds.
    fn value(&self) -> (v: Self::LimbType)
        ensures
            Self::spec_raw(v) == self.spec_value(),
    ;

    /// The number that the limb denotes.
    fn number(&self) -> (v: u64)
        ensures
            v == self.spec_value(),
    ;

    /// The number of bits of a limb.
    fn bits() -> (b: usize)
        ensures
            b == Self::spec_bits(),
    ;

    /// The names by which PTX calls the type and its register class.
    fn ptx_info() -> (r: (&'static str, &'static str))
        ensures
            r.0@ == Self::spec_ptx_info().0,
            r.1@ == Self::spec_ptx_info().1,
    ;

    /// The name by which OpenCL calls the type.
    fn opencl_type() -> (t: &'static str)
        ensures
            t@ == Self::spec_opencl_type(),
    ;

    /// The limbs of the multiplicative identity of the field, in
    /// Montgomery form.
    fn one_limbs(field: &FieldParams) -> (l: Vec<Self>)
        ensures
            l@.len() == Self::spec_limbs(field@.one).len(),
            forall|i: int|
                0 <= i < l@.len() ==> (#[trigger] l@[i]).spec_value() == Self::spec_limbs(
                    field@.one,
                )[i],
    ;

    /// The limbs of the modulus of the field, least significant first.
    fn modulus_limbs(field: &FieldParams) -> (l: Vec<Self>)
        ensures
            l@.len() == Self::spec_limbs(field@.modulus).len(),
            forall|i: int|
                0 <= i < l@.len() ==> (#[trigger] l@[i]).spec_value() == Self::spec_limbs(
                    field@.modulus,
                )[i],
    ;

    /// The inverse-of-modulus constant of Montgomery reduction for a
    /// modulus whose lowest limb is `a`.
    fn calc_inv(a: Self) -> (inv: Self)
        ensures
            inv.spec_value() == spec_calc_inv(a.spec_value(), Self::spec_bits()),
    ;

    /// The limbs of `R^2 mod P`.
    fn calculate_r2(field: &FieldParams) -> (l: Vec<Self>)
        ensures
            l@.len() == Self::spec_limbs(field@.r2).len(),
            forall|i: int|
                0 <= i < l@.len() ==> (#[trigger] l@[i]).spec_value() == Self::spec_limbs(
                    field@.r2,
                )[i],
    ;
}

/// A 32-bit limb.
#[derive(Clone, Copy, Debug, PartialEq, Eq, Structural)]
pub struct Limb32(pub u32);

/// A 64-bit limb.
#[derive(Clone, Copy, Debug, PartialEq, Eq, Structural)]
pub struct Limb64(pub u64);

/// Each word as a limb of its own.
fn limbs_32(words: &Vec<u32>) -> (l: Vec<Limb32>)
    ensures
        l@.len() == single_words(words@).len(),
        forall|k: int| 0 <= k < l@.len() ==> (#[trigger] l@[k]).0 == single_words(words@)[k],
{
    let n: usize = words.len();
    let mut l: Vec<Limb32> = Vec::new();
    let mut i: usize = 0;
    while i < n
        invariant
            0 <= i <= n,
            n == words@.len(),
            l@.len() == i,
            forall|k: int| 0 <= k < i ==> (#[trigger] l@[k]).0 == words@[k],
        decreases n - i,
    {
        l.push(Limb32(words[i]));
        i = i + 1;
    }
    l
}

/// The words packed pairwise, low word first.
fn limbs_64(words: &Vec<u32>) -> (l: Vec<Limb64>)
    ensures
        l@.len() == paired_words(words@).len(),
        forall|k: int| 0 <= k < l@.len() ==> (#[trigger] l@[k]).0 == paired_words(words@)[k],
{
    let n: usize = words.len();
    let count: usize = n / 2 + n % 2;
    let mut l: Vec<Limb64> = Vec::new();
    let mut j: usize = 0;
    while j < count
        invariant
            0 <= j <= count,
            count == (n + 1) / 2,
            n == words@.len(),
            l@.len() == j,
            forall|k: int| 0 <= k < l@.len() ==> (#[trigger] l@[k]).0 == paired_words(words@)[k],
        decreases count - j,
    {
        let low: u64 = words[2 * j] as u64;
        if 2 * j + 1 < n {
            let high: u64 = words[2 * j + 1] as u64;
            l.push(Limb64(low + WORD * high));
        } else {
            l.push(Limb64(low));
        }
        j = j + 1;
    }
    l
}

/// Taking words one by one keeps the number.
proof fn lemma_single_words(words: Seq<u32>)
    ensures
        limbs_value(single_words(words), 32) == words_value(words),
    decreases words.len(),
{
    lemma2_to64();
    if words.len() > 0 {
        lemma_single_words(words.drop_first());
        assert(single_words(words).drop_first() =~= single_words(words.drop_first()));
    }
}

/// Packing words pairwise keeps the number.
proof fn lemma_paired_words(words: Seq<u32>)
    ensures
        limbs_value(paired_words(words), 64) == words_value(words),
    decreases words.len(),
{
    lemma2_to64();
    lemma2_to64_rest();
    let w = WORD as nat;
    if words.len() == 0 {
    } else if words.len() == 1 {
        assert(paired_words(words).drop_first() =~= Seq::<nat>::empty());
        assert(words.drop_first() =~= Seq::<u32>::empty());
        assert(limbs_value(paired_words(words).drop_first(), 64) == 0);
        assert(words_value(words.drop_first()) == 0);
    } else {
        let rest = words.drop_first().drop_first();
        lemma_paired_words(rest);
        assert(paired_words(words).drop_first() =~= paired_words(rest));
        let v = words_value(rest);
        assert(words_value(words.drop_first()) == words[1] + w * v);
        assert(words_value(words) == words[0] + w * (words[1] + w * v));
        assert(limbs_value(paired_words(words), 64) == (words[0] + w * words[1]) + pow2(64) * v);
        assert(words[0] + w * (words[1] + w * v) == (words[0] + w * words[1]) + (w * w) * v)
            by (nonlinear_arith);
    }
}

/// The constants that are emitted for a field are those of the field
/// library: the library holds a constant as 64-bit words; the words are
/// split into 32-bit words and packed into limbs of type `L`, and the limbs
/// denote the number that the words of the library denote. With 64-bit
/// limbs, the limbs are the words of the library themselves.
pub proof fn lemma_constants_round_trip<L: Limb>(source: Seq<u64>)
    ensures
        limbs_value(L::spec_limbs(spec_u64_to_u32(source)), L::spec_bits()) == words64_value(
            source,
        ),
        paired_words(spec_u64_to_u32(source)) == Seq::new(source.len(), |i: int| source[i] as nat),
{
    let words = spec_u64_to_u32(source);
    lemma_split_keeps_value(source);
    L::lemma_limbs(words);
    assert(paired_words(words) =~= Seq::new(source.len(), |i: int| source[i] as nat)) by {
        assert forall|i: int| 0 <= i < source.len() implies paired_words(words)[i]
            == source[i] as nat by {
            assert(words[2 * i] == (source[i] % 0x1_0000_0000) as u32);
            assert(words[2 * i + 1] == (source[i] / 0x1_0000_0000) as u32);
        }
    }
}

impl Limb for Limb32 {
    type LimbType = u32;

    open spec fn spec_raw(val: u32) -> nat {
        val as nat
    }

    open spec fn spec_value(&self) -> nat {
        self.0 as nat
    }

    open spec fn spec_bits() -> nat {
        32
    }

    open spec fn spec_ptx_info() -> (Seq<char>, Seq<char>) {
        ("u32"@, "r"@)
    }

    open spec fn spec_opencl_type() -> Seq<char> {
        "uint"@
    }

    open spec fn spec_limbs(words: Seq<u32>) -> Seq<nat> {
        single_words(words)
    }

    proof fn lemma_limbs(words: Seq<u32>) {
        lemma_single_words(words);
        lemma2_to64();
    }

    fn zero() -> Self {
        Limb32(0)
    }

    fn new(val: u32) -> Self {
        Limb32(val)
    }

    fn value(&self) -> u32 {
        self.0
    }

    fn number(&self) -> u64 {
        self.0 as u64
    }

    fn bits() -> usize {
        32
    }

    fn ptx_info() -> (&'static str, &'static str) {
        ("u32", "r")
    }

    fn opencl_type() -> &'static str {
        "uint"
    }

    fn one_limbs(field: &FieldParams) -> Vec<Self> {
        limbs_32(field.one())
    }

    fn modulus_limbs(field: &FieldParams) -> Vec<Self> {
        limbs_32(field.modulus())
    }

    fn calc_inv(a: Self) -> Self {
        Limb32(calc_inv_32(a.0))
    }

    fn calculate_r2(field: &FieldParams) -> Vec<Self> {
        limbs_32(field.r2())
    }
}

impl Limb for Limb64 {
    type LimbType = u64;

    open spec fn spec_raw(val: u64) -> nat {
        val as nat
    }

    open spec fn spec_value(&self) -> nat {
        self.0 as nat
    }

    open spec fn spec_bits() -> nat {
        64
    }

    open spec fn spec_ptx_info() -> (Seq<char>, Seq<char>) {
        ("u64"@, "l"@)
    }

    open spec fn spec_opencl_type() -> Seq<char> {
        "ulong"@
    }

    open spec fn spec_limbs(words: Seq<u32>) -> Seq<nat> {
        paired_words(words)
    }

    proof fn lemma_limbs(words: Seq<u32>) {
        lemma_paired_words(words);
        lemma2_to64();
        lemma2_to64_rest();
        let w = WORD as nat;
        assert forall|i: int| 0 <= i < paired_words(words).len() implies (
        #[trigger] paired_words(words)[i]) < pow2(64) by {
            if 2 * i + 1 < words.len() {
                let lo = words[2 * i] as nat;
                let hi = words[2 * i + 1] as nat;
                assert(lo + w * hi < 0x1_0000_0000_0000_0000) by (nonlinear_arith)
                    requires
                        lo < 0x1_0000_0000,
                        hi < 0x1_0000_0000,
                        w == 0x1_0000_0000,
                ;
            }
        }
        if words.len() > 1 {
            let lo = words[0] as nat;
            let hi = words[1] as nat;
            assert((lo + w * hi) % 2 == lo % 2) by (nonlinear_arith)
                requires
                    w == 0x1_0000_0000,
            ;
        }
    }

    fn zero() -> Self {
        Limb64(0)
    }

    fn new(val: u64) -> Self {
        Limb64(val)
    }

    fn value(&self) -> u64 {
        self.0
    }

    fn number(&self) -> u64 {
        self.0
    }

    fn bits() -> usize {
        64
    }

    fn ptx_info() -> (&'static str, &'static str) {
        ("u64", "l")
    }

    fn opencl_type() -> &'static str {
        "ulong"
    }

    fn one_limbs(field: &FieldParams) -> Vec<Self> {
        limbs_64(field.one())
    }

    fn modulus_limbs(field: &FieldParams) -> Vec<Self> {
        limbs_64(field.modulus())
    }

    fn calc_inv(a: Self) -> Self {
        Limb64(calc_inv_64(a.0))
    }

    fn calculate_r2(field: &FieldParams) -> Vec<Self> {
        limbs_64(field.r2())
    }
}

} // verus!
