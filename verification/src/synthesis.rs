//! The descriptors from which a kernel document is assembled. Each has a
//! name, by which it is identified and ordered, and renders itself into
//! source text for a limb width.

use vstd::prelude::*;
use crate::limb::Limb32Or64;
use crate::template::{field_source, spec_field_source, Templates, TemplatesView};
use crate::text::{occurs, replace, spec_occurs, spec_replace};
use crate::types::{CurveNames, CurveNamesView, FieldParams, FieldParamsView};

verus! {

/// An item that is identified by a name and produces source text.
pub trait NameAndSource: View {
    /// The name that identifies the item.
    spec fn spec_name(v: Self::V) -> Seq<char>;

    /// The source text of the item.
    spec fn spec_source(v: Self::V, limb: Limb32Or64, templates: TemplatesView) -> Seq<char>;

    /// The name that identifies the item.
    fn name(&self) -> (n: String)
        ensures
            n@ == Self::spec_name(self@),
    ;

    /// The source text that the item contributes to a document of the given
    /// limb width.
    fn source(&self, limb: Limb32Or64, templates: &Templates) -> (s: String)
        ensures
            s@ == Self::spec_source(self@, limb, templates@),
    ;
}

/// Whether one of the placeholder tokens stands in `source`. In the source
/// of a descriptor every placeholder is meant to be replaced by a name; one
/// that is left is a defect.
pub open spec fn spec_has_placeholder(source: Seq<char>) -> bool {
    spec_occurs(source, "FIELD"@) || spec_occurs(source, "BASE"@) || spec_occurs(source, "POINT"@)
        || spec_occurs(source, "SCALAR"@)
}

/// Whether one of the placeholder tokens stands in `source`.
pub fn has_placeholder(source: &str) -> (b: bool)
    ensures
        b == spec_has_placeholder(source@),
{
    occurs(source, "FIELD") || occurs(source, "BASE") || occurs(source, "POINT") || occurs(
        source,
        "SCALAR",
    )
}

/// A field that might also be an extension field.
///
/// When an extension field is used, its sub-field has to be defined too, and
/// once only. The `SubField` variant stands for a sub-field that has a
/// corresponding extension field: it goes by the name of the sub-field and
/// takes its constants from the parameters of the extension.
#[derive(Debug, PartialEq, Eq)]
pub enum Field {
    /// A field, might be an extension field.
    Field(FieldParams),
    /// A sub-field with the given name that has a corresponding extension
    /// field with the given parameters.
    SubField(String, FieldParams),
}

/// What a [`Field`] holds, as mathematical values.
pub enum FieldView {
    Field(FieldParamsView),
    SubField(Seq<char>, FieldParamsView),
}

impl View for Field {
    type V = FieldView;

    open spec fn view(&self) -> FieldView {
        match self {
            Field::Field(p) => FieldView::Field(p@),
            Field::SubField(name, p) => FieldView::SubField(name@, p@),
        }
    }
}

impl Field {
    /// The descriptor of the field with the given parameters.
    pub fn new(params: FieldParams) -> (f: Field)
        ensures
            f@ == FieldView::Field(params@),
    {
        Field::Field(params)
    }
}

impl NameAndSource for Field {
    open spec fn spec_name(v: FieldView) -> Seq<char> {
        match v {
            FieldView::Field(p) => p.name,
            FieldView::SubField(name, _) => name,
        }
    }

    /// An extension field is the extension template over its own name and
    /// the name of its sub-field. Any other field is its constants, its
    /// carry chains and the field template, under its name.
    open spec fn spec_source(v: FieldView, limb: Limb32Or64, templates: TemplatesView) -> Seq<char> {
        match v {
            FieldView::Field(p) => match p.sub_field_name {
                Some(sub) => spec_replace(
                    spec_replace(templates.field2, "FIELD2"@, p.name),
                    "FIELD"@,
                    sub,
                ),
                None => spec_replace(
                    spec_field_source(p, limb, templates.field),
                    "FIELD"@,
                    p.name,
                ),
            },
            FieldView::SubField(name, p) => spec_replace(
                spec_field_source(p, limb, templates.field),
                "FIELD"@,
                name,
            ),
        }
    }

    fn name(&self) -> String {
        match self {
            Field::Field(p) => p.name().clone(),
            Field::SubField(name, _) => name.clone(),
        }
    }

    fn source(&self, limb: Limb32Or64, templates: &Templates) -> String {
        match self {
            Field::Field(p) => {
                match p.sub_field_name() {
                    Some(sub) => {
                        let named: String = replace(
                            templates.field2.as_str(),
                            "FIELD2",
                            p.name().as_str(),
                        );
                        replace(named.as_str(), "FIELD", sub.as_str())
                    },
                    None => {
                        let text: String = field_source(p, limb, templates.field.as_str());
                        replace(text.as_str(), "FIELD", p.name().as_str())
                    },
                }
            },
            Field::SubField(name, p) => {
                let text: String = field_source(p, limb, templates.field.as_str());
                replace(text.as_str(), "FIELD", name.as_str())
            },
        }
    }
}

/// The FFT over a field.
#[derive(Debug, PartialEq, Eq)]
pub struct Fft(pub String);

impl View for Fft {
    type V = Seq<char>;

    open spec fn view(&self) -> Seq<char> {
        self.0@
    }
}

impl Fft {
    /// The FFT over the field called `field`.
    pub fn new(field: String) -> (f: Fft)
        ensures
            f@ == field@,
    {
        Fft(field)
    }
}

impl NameAndSource for Fft {
    open spec fn spec_name(v: Seq<char>) -> Seq<char> {
        v
    }

    open spec fn spec_source(v: Seq<char>, limb: Limb32Or64, templates: TemplatesView) -> Seq<char> {
        spec_replace(templates.fft, "FIELD"@, v)
    }

    fn name(&self) -> String {
        self.0.clone()
    }

    fn source(&self, limb: Limb32Or64, templates: &Templates) -> String {
        replace(templates.fft.as_str(), "FIELD", self.0.as_str())
    }
}

/// The arithmetic of a curve group.
#[derive(Debug, PartialEq, Eq)]
pub struct Ec(pub CurveNames);

impl View for Ec {
    type V = CurveNamesView;

    open spec fn view(&self) -> CurveNamesView {
        self.0@
    }
}

impl Ec {
    /// The arithmetic of the curve with the given names.
    pub fn new(names: CurveNames) -> (e: Ec)
        ensures
            e@ == names@,
    {
        Ec(names)
    }
}

impl NameAndSource for Ec {
    open spec fn spec_name(v: CurveNamesView) -> Seq<char> {
        v.affine
    }

    open spec fn spec_source(v: CurveNamesView, limb: Limb32Or64, templates: TemplatesView) -> Seq<
        char,
    > {
        spec_replace(
            spec_replace(spec_replace(templates.ec, "BASE"@, v.base), "POINT"@, v.affine),
            "SCALAR"@,
            v.scalar,
        )
    }

    fn name(&self) -> String {
        self.0.affine.clone()
    }

    fn source(&self, limb: Limb32Or64, templates: &Templates) -> String {
        let based: String = replace(templates.ec.as_str(), "BASE", self.0.base.as_str());
        let pointed: String = replace(based.as_str(), "POINT", self.0.affine.as_str());
        replace(pointed.as_str(), "SCALAR", self.0.scalar.as_str())
    }
}

/// The FFT over sequences of points of a curve.
#[derive(Debug, PartialEq, Eq)]
pub struct EcFft(pub CurveNames);

impl View for EcFft {
    type V = CurveNamesView;

    open spec fn view(&self) -> CurveNamesView {
        self.0@
    }
}

impl EcFft {
    /// The FFT over points of the curve with the given names.
    pub fn new(names: CurveNames) -> (e: EcFft)
        ensures
            e@ == names@,
    {
        EcFft(names)
    }
}

impl NameAndSource for EcFft {
    open spec fn spec_name(v: CurveNamesView) -> Seq<char> {
        v.affine
    }

    open spec fn spec_source(v: CurveNamesView, limb: Limb32Or64, templates: TemplatesView) -> Seq<
        char,
    > {
        spec_replace(spec_replace(templates.ec_fft, "POINT"@, v.affine), "SCALAR"@, v.scalar)
    }

    fn name(&self) -> String {
        self.0.affine.clone()
    }

    fn source(&self, limb: Limb32Or64, templates: &Templates) -> String {
        let pointed: String = replace(templates.ec_fft.as_str(), "POINT", self.0.affine.as_str());
        replace(pointed.as_str(), "SCALAR", self.0.scalar.as_str())
    }
}

/// Multiexponentiation over a curve.
#[derive(Debug, PartialEq, Eq)]
pub struct Multiexp(pub CurveNames);

impl View for Multiexp {
    type V = CurveNamesView;

    open spec fn view(&self) -> CurveNamesView {
        self.0@
    }
}

impl Multiexp {
    /// Multiexponentiation over the curve with the given names.
    pub fn new(names: CurveNames) -> (m: Multiexp)
        ensures
            m@ == names@,
    {
        Multiexp(names)
    }
}

impl NameAndSource for Multiexp {
    open spec fn spec_name(v: CurveNamesView) -> Seq<char> {
        v.affine
    }

    open spec fn spec_source(v: CurveNamesView, limb: Limb32Or64, templates: TemplatesView) -> Seq<
        char,
    > {
        spec_replace(spec_replace(templates.multiexp, "POINT"@, v.affine), "SCALAR"@, v.scalar)
    }

    fn name(&self) -> String {
        self.0.affine.clone()
    }

    fn source(&self, limb: Limb32Or64, templates: &Templates) -> String {
        let pointed: String = replace(
            templates.multiexp.as_str(),
            "POINT",
            self.0.affine.as_str(),
        );
        replace(pointed.as_str(), "SCALAR", self.0.scalar.as_str())
    }
}

/// Kernels that expose single operations of a curve and its fields, for
/// testing.
#[derive(Debug, PartialEq, Eq)]
pub struct Test(pub CurveNames);

impl View for Test {
    type V = CurveNamesView;

    open spec fn view(&self) -> CurveNamesView {
        self.0@
    }
}

impl Test {
    /// The test kernels of the curve with the given names.
    pub fn new(names: CurveNames) -> (t: Test)
        ensures
            t@ == names@,
    {
        Test(names)
    }
}

impl NameAndSource for Test {
    open spec fn spec_name(v: CurveNamesView) -> Seq<char> {
        v.affine
    }

    open spec fn spec_source(v: CurveNamesView, limb: Limb32Or64, templates: TemplatesView) -> Seq<
        char,
    > {
        spec_replace(
            spec_replace(spec_replace(templates.test, "FIELD"@, v.base), "POINT"@, v.affine),
            "SCALAR"@,
            v.scalar,
        )
    }

    fn name(&self) -> String {
        self.0.affine.clone()
    }

    fn source(&self, limb: Limb32Or64, templates: &Templates) -> String {
        let based: String = replace(templates.test.as_str(), "FIELD", self.0.base.as_str());
        let pointed: String = replace(based.as_str(), "POINT", self.0.affine.as_str());
        replace(pointed.as_str(), "SCALAR", self.0.scalar.as_str())
    }
}

} // verus!
