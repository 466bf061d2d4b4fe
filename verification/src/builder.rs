//! Builder to create the source code of a GPU kernel.
//!
//! A builder accumulates descriptors in six collections, each ordered by
//! name and free of duplicates, and raw fragments of extra source. The
//! document is the preamble, the collections in the order in which their
//! text depends on one another, and the fragments: fields come before the
//! extension fields that name them, both before the curves over them, and
//! the curves before the routines that work on their points.

use vstd::prelude::*;
use vstd::string::StringExecFns;
use crate::error::GpuError;
use crate::limb::Limb32Or64;
use crate::name_set::{
    all_replaced, lemma_insert_commutes, lemma_insert_sorted, lemma_replacing_item_stays,
    names_sorted, spec_insert, spec_write_field, NameSet,
};
use crate::synthesis::{Ec, EcFft, Fft, Field, FieldView, Multiexp, Test};
use crate::template::{Templates, TemplatesView};
use crate::types::{CurveNamesView, CurveParams, CurveParamsView, FieldParams, FieldParamsView};

verus! {

/// The backends that a document is generated for.
#[derive(Debug, Clone, Copy, PartialEq, Eq, Structural)]
pub struct Backends {
    /// Ahead-of-time compilation for CUDA.
    pub cuda: bool,
    /// Compilation at load time by OpenCL.
    pub opencl: bool,
}

/// The configuration of a kernel document.
pub struct SourceBuilder {
    templates: Templates,
    /// The fields that are used in this kernel.
    fields: NameSet<Field>,
    /// The extension fields that are used in this kernel.
    extension_fields: NameSet<Field>,
    /// The field FFTs that are used in this kernel.
    ffts: NameSet<Fft>,
    /// The curve groups that are used in this kernel.
    ec: NameSet<Ec>,
    /// The FFTs over curve points that are used in this kernel.
    ec_ffts: NameSet<EcFft>,
    /// The multiexponentiations that are used in this kernel.
    multiexps: NameSet<Multiexp>,
    /// Test kernels.
    others: NameSet<Test>,
    /// Additional source that is appended at the end of the document.
    extra_sources: Vec<String>,
}

/// What a [`SourceBuilder`] holds, as mathematical values.
pub struct SourceBuilderView {
    pub templates: TemplatesView,
    pub fields: Seq<FieldView>,
    pub extension_fields: Seq<FieldView>,
    pub ffts: Seq<Seq<char>>,
    pub ec: Seq<CurveNamesView>,
    pub ec_ffts: Seq<CurveNamesView>,
    pub multiexps: Seq<CurveNamesView>,
    pub others: Seq<CurveNamesView>,
    pub extra_sources: Seq<Seq<char>>,
}

/// The texts `parts`, separated by line breaks.
pub open spec fn join_lines(parts: Seq<Seq<char>>) -> Seq<char>
    decreases parts.len(),
{
    if parts.len() == 0 {
        Seq::<char>::empty()
    } else if parts.len() == 1 {
        parts[0]
    } else {
        join_lines(parts.drop_last()) + "\n"@ + parts.last()
    }
}

impl SourceBuilderView {
    /// In every collection the names are in strictly ascending order: no
    /// name occurs twice.
    pub open spec fn wf(self) -> bool {
        &&& names_sorted::<Field>(self.fields)
        &&& names_sorted::<Field>(self.extension_fields)
        &&& names_sorted::<Fft>(self.ffts)
        &&& names_sorted::<Ec>(self.ec)
        &&& names_sorted::<EcFft>(self.ec_ffts)
        &&& names_sorted::<Multiexp>(self.multiexps)
        &&& names_sorted::<Test>(self.others)
    }

    /// The configuration with the field `field` added. An extension field
    /// brings its sub-field with it; the sub-field takes the place of a
    /// field of the same name that was added on its own, so that the field
    /// is defined once.
    pub open spec fn add_field(self, field: FieldParamsView) -> SourceBuilderView {
        match field.sub_field_name {
            Some(sub) => SourceBuilderView {
                extension_fields: spec_insert::<Field>(
                    self.extension_fields,
                    FieldView::Field(field),
                    false,
                ),
                fields: spec_insert::<Field>(self.fields, FieldView::SubField(sub, field), true),
                ..self
            },
            None => SourceBuilderView {
                fields: spec_insert::<Field>(self.fields, FieldView::Field(field), false),
                ..self
            },
        }
    }

    /// The configuration with the FFT over the field `field` added.
    pub open spec fn add_fft(self, field: FieldParamsView) -> SourceBuilderView {
        let with_field = self.add_field(field);
        SourceBuilderView {
            ffts: spec_insert::<Fft>(with_field.ffts, field.name, false),
            ..with_field
        }
    }

    /// The configuration with the curve `curve` and its two fields added.
    pub open spec fn add_ec(self, curve: CurveParamsView) -> SourceBuilderView {
        let with_fields = self.add_field(curve.base).add_field(curve.scalar);
        SourceBuilderView {
            ec: spec_insert::<Ec>(with_fields.ec, curve.names(), false),
            ..with_fields
        }
    }

    /// The configuration with the FFT over the points of `curve` added.
    pub open spec fn add_ec_fft(self, curve: CurveParamsView) -> SourceBuilderView {
        let with_ec = self.add_ec(curve);
        SourceBuilderView {
            ec_ffts: spec_insert::<EcFft>(with_ec.ec_ffts, curve.names(), false),
            ..with_ec
        }
    }

    /// The configuration with multiexponentiation over `curve` added.
    pub open spec fn add_multiexp(self, curve: CurveParamsView) -> SourceBuilderView {
        let with_ec = self.add_ec(curve);
        SourceBuilderView {
            multiexps: spec_insert::<Multiexp>(with_ec.multiexps, curve.names(), false),
            ..with_ec
        }
    }

    /// The configuration with the test kernels of `curve` added.
    pub open spec fn add_test(self, curve: CurveParamsView) -> SourceBuilderView {
        let with_ec = self.add_ec(curve);
        SourceBuilderView {
            others: spec_insert::<Test>(with_ec.others, curve.names(), false),
            ..with_ec
        }
    }

    /// The configuration with `source` appended behind the fragments given
    /// so far.
    pub open spec fn append_source(self, source: Seq<char>) -> SourceBuilderView {
        SourceBuilderView { extra_sources: self.extra_sources.push(source), ..self }
    }

    /// No placeholder is left in the source of any descriptor, for the limb
    /// width `limb`.
    pub open spec fn fully_replaced(self, limb: Limb32Or64) -> bool {
        &&& all_replaced::<Field>(self.fields, limb, self.templates)
        &&& all_replaced::<Field>(self.extension_fields, limb, self.templates)
        &&& all_replaced::<Ec>(self.ec, limb, self.templates)
        &&& all_replaced::<Fft>(self.ffts, limb, self.templates)
        &&& all_replaced::<EcFft>(self.ec_ffts, limb, self.templates)
        &&& all_replaced::<Multiexp>(self.multiexps, limb, self.templates)
        &&& all_replaced::<Test>(self.others, limb, self.templates)
    }

    /// The kernel document for the limb width `limb`: the preamble, the
    /// fields, the extension fields, the curves, the field FFTs, the FFTs
    /// over points, the multiexponentiations, the test kernels, and the
    /// extra fragments.
    pub open spec fn document(self, limb: Limb32Or64) -> Seq<char> {
        self.templates.common + spec_write_field::<Field>(self.fields, limb, self.templates)
            + spec_write_field::<Field>(self.extension_fields, limb, self.templates)
            + spec_write_field::<Ec>(self.ec, limb, self.templates) + spec_write_field::<Fft>(
            self.ffts,
            limb,
            self.templates,
        ) + spec_write_field::<EcFft>(self.ec_ffts, limb, self.templates) + spec_write_field::<
            Multiexp,
        >(self.multiexps, limb, self.templates) + spec_write_field::<Test>(
            self.others,
            limb,
            self.templates,
        ) + join_lines(self.extra_sources)
    }
}

/// The name under which a field is defined in the collection of fields:
/// that of its sub-field, if it is an extension, else its own.
pub open spec fn field_key(field: FieldParamsView) -> Seq<char> {
    match field.sub_field_name {
        Some(sub) => sub,
        None => field.name,
    }
}

/// Generating a document twice from one set of descriptors and one limb
/// width gives the same text: the text is a function of what the builder
/// holds, and of nothing else.
pub proof fn lemma_document_deterministic(
    first: SourceBuilderView,
    second: SourceBuilderView,
    limb: Limb32Or64,
)
    requires
        first == second,
    ensures
        first.document(limb) == second.document(limb),
{
}

/// Adding a field keeps the names in every collection in ascending order.
pub proof fn lemma_add_field_sorted(b: SourceBuilderView, field: FieldParamsView)
    requires
        b.wf(),
    ensures
        b.add_field(field).wf(),
{
    match field.sub_field_name {
        Some(sub) => {
            lemma_insert_sorted::<Field>(b.extension_fields, FieldView::Field(field), false);
            lemma_insert_sorted::<Field>(b.fields, FieldView::SubField(sub, field), true);
        },
        None => {
            lemma_insert_sorted::<Field>(b.fields, FieldView::Field(field), false);
        },
    }
}

/// The order in which two fields are added does not show in the builder,
/// and so not in the document, where the two are defined under different
/// names.
pub proof fn lemma_add_field_commutes(
    b: SourceBuilderView,
    f: FieldParamsView,
    g: FieldParamsView,
    limb: Limb32Or64,
)
    requires
        b.wf(),
        field_key(f) != field_key(g),
        f.sub_field_name is Some && g.sub_field_name is Some ==> f.name != g.name,
    ensures
        b.add_field(f).add_field(g) == b.add_field(g).add_field(f),
        b.add_field(f).add_field(g).document(limb) == b.add_field(g).add_field(f).document(limb),
{
    let item_f = match f.sub_field_name {
        Some(sub) => FieldView::SubField(sub, f),
        None => FieldView::Field(f),
    };
    let item_g = match g.sub_field_name {
        Some(sub) => FieldView::SubField(sub, g),
        None => FieldView::Field(g),
    };
    lemma_insert_commutes::<Field>(
        b.fields,
        item_f,
        item_g,
        f.sub_field_name is Some,
        g.sub_field_name is Some,
    );
    if f.sub_field_name is Some && g.sub_field_name is Some {
        lemma_insert_commutes::<Field>(
            b.extension_fields,
            FieldView::Field(f),
            FieldView::Field(g),
            false,
            false,
        );
    }
}

/// Where a field is used on its own and as the base of an extension, the
/// field is defined once, as the sub-field of the extension, whichever of
/// the two was added first.
pub proof fn lemma_sub_field_defined_once(
    b: SourceBuilderView,
    field: FieldParamsView,
    extension: FieldParamsView,
)
    requires
        b.wf(),
        field.sub_field_name is None,
        extension.sub_field_name == Some(field.name),
    ensures
        b.add_field(field).add_field(extension) == b.add_field(extension).add_field(field),
        b.add_field(field).add_field(extension).fields == spec_insert::<Field>(
            b.fields,
            FieldView::SubField(field.name, extension),
            true,
        ),
{
    lemma_replacing_item_stays::<Field>(
        b.fields,
        FieldView::SubField(field.name, extension),
        FieldView::Field(field),
    );
}

impl View for SourceBuilder {
    type V = SourceBuilderView;

    closed spec fn view(&self) -> SourceBuilderView {
        SourceBuilderView {
            templates: self.templates@,
            fields: self.fields@,
            extension_fields: self.extension_fields@,
            ffts: self.ffts@,
            ec: self.ec@,
            ec_ffts: self.ec_ffts@,
            multiexps: self.multiexps@,
            others: self.others@,
            extra_sources: Seq::new(
                self.extra_sources@.len(),
                |i: int| self.extra_sources@[i]@,
            ),
        }
    }
}

impl SourceBuilder {
    /// Create a new configuration to generate a GPU kernel from the given
    /// templates.
    pub fn new(templates: Templates) -> (b: SourceBuilder)
        ensures
            b@ == (SourceBuilderView {
                templates: templates@,
                fields: Seq::empty(),
                extension_fields: Seq::empty(),
                ffts: Seq::empty(),
                ec: Seq::empty(),
                ec_ffts: Seq::empty(),
                multiexps: Seq::empty(),
                others: Seq::empty(),
                extra_sources: Seq::empty(),
            }),
            b@.wf(),
    {
        let b = SourceBuilder {
            templates,
            fields: NameSet::new(),
            extension_fields: NameSet::new(),
            ffts: NameSet::new(),
            ec: NameSet::new(),
            ec_ffts: NameSet::new(),
            multiexps: NameSet::new(),
            others: NameSet::new(),
            extra_sources: Vec::new(),
        };
        assert(b@.extra_sources =~= Seq::<Seq<char>>::empty());
        b
    }

    /// Add a field to the configuration.
    ///
    /// If it is an extension field, then the extension field *and* the
    /// sub-field is added.
    pub fn add_field(self, field: FieldParams) -> (b: SourceBuilder)
        ensures
            b@ == self@.add_field(field@),
            self@.wf(),
            b@.wf(),
    {
        self.names_are_sorted();
        let SourceBuilder {
            templates,
            fields,
            extension_fields,
            ffts,
            ec,
            ec_ffts,
            multiexps,
            others,
            extra_sources,
        } = self;
        let sub: Option<String> = match field.sub_field_name() {
            Some(name) => Some(name.clone()),
            None => None,
        };
        match sub {
            Some(sub_field_name) => {
                let sub_field = Field::SubField(sub_field_name, field.duplicate());
                let extension_fields = extension_fields.insert(Field::new(field), false);
                let fields = fields.insert(sub_field, true);
                SourceBuilder {
                    templates,
                    fields,
                    extension_fields,
                    ffts,
                    ec,
                    ec_ffts,
                    multiexps,
                    others,
                    extra_sources,
                }
            },
            None => {
                let fields = fields.insert(Field::new(field), false);
                SourceBuilder {
                    templates,
                    fields,
                    extension_fields,
                    ffts,
                    ec,
                    ec_ffts,
                    multiexps,
                    others,
                    extra_sources,
                }
            },
        }
    }

    /// Add an FFT kernel function to the configuration.
    pub fn add_fft(self, field: FieldParams) -> (b: SourceBuilder)
        ensures
            b@ == self@.add_fft(field@),
            self@.wf(),
            b@.wf(),
    {
        let name: String = field.name().clone();
        let config = self.add_field(field);
        let SourceBuilder {
            templates,
            fields,
            extension_fields,
            ffts,
            ec,
            ec_ffts,
            multiexps,
            others,
            extra_sources,
        } = config;
        let ffts = ffts.insert(Fft::new(name), false);
        SourceBuilder {
            templates,
            fields,
            extension_fields,
            ffts,
            ec,
            ec_ffts,
            multiexps,
            others,
            extra_sources,
        }
    }

    /// Add the arithmetic of a curve group, and its two fields, to the
    /// configuration.
    pub fn add_ec(self, curve: &CurveParams) -> (b: SourceBuilder)
        ensures
            b@ == self@.add_ec(curve@),
            self@.wf(),
            b@.wf(),
    {
        let config = self.add_field(curve.base.duplicate()).add_field(curve.scalar.duplicate());
        let SourceBuilder {
            templates,
            fields,
            extension_fields,
            ffts,
            ec,
            ec_ffts,
            multiexps,
            others,
            extra_sources,
        } = config;
        let ec = ec.insert(Ec::new(curve.names()), false);
        SourceBuilder {
            templates,
            fields,
            extension_fields,
            ffts,
            ec,
            ec_ffts,
            multiexps,
            others,
            extra_sources,
        }
    }

    /// Add an FFT over curve points to the configuration.
    pub fn add_ec_fft(self, curve: &CurveParams) -> (b: SourceBuilder)
        ensures
            b@ == self@.add_ec_fft(curve@),
            self@.wf(),
            b@.wf(),
    {
        let config = self.add_ec(curve);
        let SourceBuilder {
            templates,
            fields,
            extension_fields,
            ffts,
            ec,
            ec_ffts,
            multiexps,
            others,
            extra_sources,
        } = config;
        let ec_ffts = ec_ffts.insert(EcFft::new(curve.names()), false);
        SourceBuilder {
            templates,
            fields,
            extension_fields,
            ffts,
            ec,
            ec_ffts,
            multiexps,
            others,
            extra_sources,
        }
    }

    /// Add a multiexponentiation kernel function to the configuration.
    ///
    /// The multiexponentiation source is not supported on OpenCL: where the
    /// document is generated for OpenCL too, this fails with
    /// [`GpuError::UnsupportedBackend`] and nothing is added.
    pub fn add_multiexp(self, curve: &CurveParams, backends: Backends) -> (r: Result<
        SourceBuilder,
        GpuError,
    >)
        ensures
            self@.wf(),
            backends.opencl ==> r == Err::<SourceBuilder, GpuError>(GpuError::UnsupportedBackend),
            !backends.opencl ==> r is Ok && r->Ok_0@ == self@.add_multiexp(curve@)
                && r->Ok_0@.wf(),
    {
        self.names_are_sorted();
        if backends.opencl {
            return Err(GpuError::UnsupportedBackend);
        }
        let config = self.add_ec(curve);
        let SourceBuilder {
            templates,
            fields,
            extension_fields,
            ffts,
            ec,
            ec_ffts,
            multiexps,
            others,
            extra_sources,
        } = config;
        let multiexps = multiexps.insert(Multiexp::new(curve.names()), false);
        Ok(
            SourceBuilder {
                templates,
                fields,
                extension_fields,
                ffts,
                ec,
                ec_ffts,
                multiexps,
                others,
                extra_sources,
            },
        )
    }

    /// Add the test kernels of a curve to the configuration.
    pub fn add_test(self, curve: &CurveParams) -> (b: SourceBuilder)
        ensures
            b@ == self@.add_test(curve@),
            self@.wf(),
            b@.wf(),
    {
        let config = self.add_ec(curve);
        let SourceBuilder {
            templates,
            fields,
            extension_fields,
            ffts,
            ec,
            ec_ffts,
            multiexps,
            others,
            extra_sources,
        } = config;
        let others = others.insert(Test::new(curve.names()), false);
        SourceBuilder {
            templates,
            fields,
            extension_fields,
            ffts,
            ec,
            ec_ffts,
            multiexps,
            others,
            extra_sources,
        }
    }

    /// Appends some given source at the end of the generated source.
    ///
    /// This is useful for cases where you use this library as building
    /// block, but have your own kernel implementation. If this function is
    /// called several times, then those sources are appended in that call
    /// order.
    pub fn append_source(self, source: String) -> (b: SourceBuilder)
        ensures
            b@ == self@.append_source(source@),
            self@.wf(),
            b@.wf(),
    {
        self.names_are_sorted();
        let ghost before = self@;
        let SourceBuilder {
            templates,
            fields,
            extension_fields,
            ffts,
            ec,
            ec_ffts,
            multiexps,
            others,
            extra_sources,
        } = self;
        let mut extra_sources = extra_sources;
        extra_sources.push(source);
        let b = SourceBuilder {
            templates,
            fields,
            extension_fields,
            ffts,
            ec,
            ec_ffts,
            multiexps,
            others,
            extra_sources,
        };
        assert(b@.extra_sources =~= before.extra_sources.push(source@));
        b
    }

    /// Generate the GPU kernel source code based on the current
    /// configuration with 32-bit limbs.
    ///
    /// On CUDA 32-bit limbs are recommended.
    pub fn build_32_bit_limbs(&self) -> (doc: String)
        ensures
            doc@ == self@.document(Limb32Or64::Limb32),
    {
        self.build(Limb32Or64::Limb32)
    }

    /// Generate the GPU kernel source code based on the current
    /// configuration with 64-bit limbs.
    pub fn build_64_bit_limbs(&self) -> (doc: String)
        ensures
            doc@ == self@.document(Limb32Or64::Limb64),
    {
        self.build(Limb32Or64::Limb64)
    }

    /// Generate the GPU kernel source code based on the current
    /// configuration.
    pub fn build(&self, limb_size: Limb32Or64) -> (doc: String)
        ensures
            doc@ == self@.document(limb_size),
    {
        let mut answer: String = self.templates.common.clone();
        self.fields.write_field(&mut answer, limb_size, &self.templates);
        self.extension_fields.write_field(&mut answer, limb_size, &self.templates);
        self.ec.write_field(&mut answer, limb_size, &self.templates);
        self.ffts.write_field(&mut answer, limb_size, &self.templates);
        self.ec_ffts.write_field(&mut answer, limb_size, &self.templates);
        self.multiexps.write_field(&mut answer, limb_size, &self.templates);
        self.others.write_field(&mut answer, limb_size, &self.templates);
        let ghost head = answer@;
        let ghost parts = self@.extra_sources;
        let n: usize = self.extra_sources.len();
        let mut i: usize = 0;
        assert(parts.take(0) =~= Seq::<Seq<char>>::empty());
        assert(answer@ =~= head + join_lines(parts.take(0)));
        while i < n
            invariant
                0 <= i <= n,
                n == self.extra_sources@.len(),
                parts == self@.extra_sources,
                answer@ == head + join_lines(parts.take(i as int)),
            decreases n - i,
        {
            proof {
                assert(parts.take(i + 1).drop_last() =~= parts.take(i as int));
                assert(parts.take(i + 1).last() == self.extra_sources@[i as int]@);
                if i == 0 {
                    assert(join_lines(parts.take(0)) =~= Seq::<char>::empty());
                }
            }
            if i > 0 {
                answer.append("\n");
            }
            answer.append(self.extra_sources[i].as_str());
            i = i + 1;
            assert(answer@ =~= head + join_lines(parts.take(i as int)));
        }
        assert(parts.take(n as int) =~= parts);
        answer
    }

    /// Generate the GPU kernel source code, unless a placeholder is left in
    /// the source of a descriptor. That happens where a name that was
    /// substituted holds a placeholder token itself; the document would not
    /// mean what was asked for, so none is returned.
    pub fn build_checked(&self, limb_size: Limb32Or64) -> (r: Result<String, GpuError>)
        ensures
            self@.fully_replaced(limb_size) ==> r is Ok && r->Ok_0@ == self@.document(limb_size),
            !self@.fully_replaced(limb_size) ==> r == Err::<String, GpuError>(
                GpuError::ResidualPlaceholder,
            ),
    {
        if self.fields.is_replaced(limb_size, &self.templates)
            && self.extension_fields.is_replaced(limb_size, &self.templates)
            && self.ec.is_replaced(limb_size, &self.templates) && self.ffts.is_replaced(
            limb_size,
            &self.templates,
        ) && self.ec_ffts.is_replaced(limb_size, &self.templates) && self.multiexps.is_replaced(
            limb_size,
            &self.templates,
        ) && self.others.is_replaced(limb_size, &self.templates) {
            Ok(self.build(limb_size))
        } else {
            Err(GpuError::ResidualPlaceholder)
        }
    }

    /// In every collection of a builder the names are in strictly ascending
    /// order. This holds of every builder; the call costs nothing.
    pub fn names_are_sorted(&self)
        ensures
            self@.wf(),
    {
        self.fields.names_are_sorted();
        self.extension_fields.names_are_sorted();
        self.ffts.names_are_sorted();
        self.ec.names_are_sorted();
        self.ec_ffts.names_are_sorted();
        self.multiexps.names_are_sorted();
        self.others.names_are_sorted();
    }
}

} // verus!
