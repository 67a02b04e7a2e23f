//! The shape analyser.
//!
//! Given a type definition, the analyser classifies it into one of the four
//! shape categories and reads, for every field, the strategy requested by
//! the field's marker attributes.  A raw union, a marker that is not a
//! parenthesised list of bare words, an unrecognised word, and a field
//! requesting both duplicating strategies are each rejected with an error
//! naming the offending construct's source location.  The analyser is purely
//! analytical: it has no side effects.

use vstd::prelude::*;

use crate::input::{
    AttrDef, AttrItem, AttrItemModel, AttrMeta, AttrMetaModel, AttrModel, DataDef, DataModel,
    FieldDef, FieldDefModel, FieldsDef, FieldsModel, Span, TypeDef, TypeDefModel, VariantDef,
    VariantDefModel,
};
use crate::shape::{
    FieldStrategy, NamedField, NamedFieldModel, PositionalField, PositionalFieldModel, ShapeModel,
    TypeShape, VariantFields, VariantFieldsModel, VariantShape, VariantShapeModel,
};

verus! {

/// What the analyser rejects.
#[derive(Debug)]
pub enum DeriveErrorKind {
    /// The marker was not a parenthesised list of bare words: the derivation
    /// expects `#[tensor_like(...)]`.
    MalformedAttribute,
    /// A word other than `clone` or `copy`, carried for the report.
    UnexpectedName(String),
    /// One field requested both `clone` and `copy`; the duplicating
    /// strategies are mutually exclusive.
    ConflictingStrategies,
    /// A raw union of overlapping storage has no sound generic traversal.
    UnsupportedUnion,
}

/// The model of an error kind.
pub enum DeriveErrorKindModel {
    MalformedAttribute,
    UnexpectedName(Seq<char>),
    ConflictingStrategies,
    UnsupportedUnion,
}

impl DeepView for DeriveErrorKind {
    type V = DeriveErrorKindModel;

    open spec fn deep_view(&self) -> DeriveErrorKindModel {
        match self {
            DeriveErrorKind::MalformedAttribute => DeriveErrorKindModel::MalformedAttribute,
            DeriveErrorKind::UnexpectedName(w) => DeriveErrorKindModel::UnexpectedName(w@),
            DeriveErrorKind::ConflictingStrategies => DeriveErrorKindModel::ConflictingStrategies,
            DeriveErrorKind::UnsupportedUnion => DeriveErrorKindModel::UnsupportedUnion,
        }
    }
}

/// A generation-time error, attached to the source span of the offending
/// construct.  It halts code production for the one type being derived.
#[derive(Debug)]
pub struct DeriveError {
    pub span: Span,
    pub kind: DeriveErrorKind,
}

/// The model of a generation-time error.
pub struct DeriveErrorModel {
    pub span: Span,
    pub kind: DeriveErrorKindModel,
}

impl DeepView for DeriveError {
    type V = DeriveErrorModel;

    open spec fn deep_view(&self) -> DeriveErrorModel {
        DeriveErrorModel { span: self.span, kind: self.kind.deep_view() }
    }
}

/// The marker attribute's name.
pub open spec fn marker_path() -> Seq<char> {
    "tensor_like"@
}

/// The word requesting duplication via the generic clone.
pub open spec fn clone_word() -> Seq<char> {
    "clone"@
}

/// The word requesting bitwise duplication.
pub open spec fn copy_word() -> Seq<char> {
    "copy"@
}

/// Fold one marker list into the pair of requested-strategy flags, in item
/// order.  An item that is not a bare word is malformed; an unknown word is
/// rejected by name; a word that would set both flags is a conflict.
pub open spec fn scan_marker_items(
    items: Seq<AttrItemModel>,
    span: Span,
    is_clone: bool,
    is_copy: bool,
) -> Result<(bool, bool), DeriveErrorModel>
    decreases items,
{
    if items.len() == 0 {
        Ok((is_clone, is_copy))
    } else {
        match items[0] {
            AttrItemModel::NotWord => Err(
                DeriveErrorModel { span, kind: DeriveErrorKindModel::MalformedAttribute },
            ),
            AttrItemModel::Word(w) => {
                if w == clone_word() {
                    if is_copy {
                        Err(
                            DeriveErrorModel {
                                span,
                                kind: DeriveErrorKindModel::ConflictingStrategies,
                            },
                        )
                    } else {
                        scan_marker_items(items.drop_first(), span, true, is_copy)
                    }
                } else if w == copy_word() {
                    if is_clone {
                        Err(
                            DeriveErrorModel {
                                span,
                                kind: DeriveErrorKindModel::ConflictingStrategies,
                            },
                        )
                    } else {
                        scan_marker_items(items.drop_first(), span, is_clone, true)
                    }
                } else {
                    Err(DeriveErrorModel { span, kind: DeriveErrorKindModel::UnexpectedName(w) })
                }
            },
        }
    }
}

/// Fold a field's attributes into its strategy, in attribute order.
/// Attributes not addressed to the derivation are ignored, and a marker
/// that is not a list is malformed.  A conflict is rejected the moment the
/// second duplicating strategy is requested, so at the end at most one of
/// the two flags is set and it settles the strategy; neither set means the
/// default, recursion.
pub open spec fn scan_attrs(attrs: Seq<AttrModel>, is_clone: bool, is_copy: bool) -> Result<
    FieldStrategy,
    DeriveErrorModel,
>
    decreases attrs,
{
    if attrs.len() == 0 {
        Ok(
            if is_copy {
                FieldStrategy::CopyDuplicate
            } else if is_clone {
                FieldStrategy::CloneDuplicate
            } else {
                FieldStrategy::Recurse
            },
        )
    } else {
        let a = attrs[0];
        if a.path != marker_path() {
            scan_attrs(attrs.drop_first(), is_clone, is_copy)
        } else {
            match a.meta {
                AttrMetaModel::List(items) => match scan_marker_items(
                    items,
                    a.span,
                    is_clone,
                    is_copy,
                ) {
                    Ok((c, p)) => scan_attrs(attrs.drop_first(), c, p),
                    Err(e) => Err(e),
                },
                AttrMetaModel::NotList => Err(
                    DeriveErrorModel { span: a.span, kind: DeriveErrorKindModel::MalformedAttribute },
                ),
                AttrMetaModel::Unparsable => Err(
                    DeriveErrorModel { span: a.span, kind: DeriveErrorKindModel::MalformedAttribute },
                ),
            }
        }
    }
}

/// What parsing a field's attributes yields: its strategy, or the first
/// rejection.  A field with no marker defaults to recursion.
pub open spec fn spec_parse_field_attrs(attrs: Seq<AttrModel>) -> Result<
    FieldStrategy,
    DeriveErrorModel,
> {
    scan_attrs(attrs, false, false)
}

/// Fold one marker list at run time.
fn scan_marker_list(items: &Vec<AttrItem>, span: Span, is_clone: bool, is_copy: bool) -> (r:
    Result<(bool, bool), DeriveError>)
    ensures
        (r matches Ok(fl) ==> scan_marker_items(items.deep_view(), span, is_clone, is_copy)
            == Ok::<(bool, bool), DeriveErrorModel>(fl)),
        (r matches Err(e) ==> scan_marker_items(items.deep_view(), span, is_clone, is_copy)
            == Err::<(bool, bool), DeriveErrorModel>(e.deep_view())),
{
    let word_clone: String = "clone".to_owned();
    let word_copy: String = "copy".to_owned();
    let mut c = is_clone;
    let mut p = is_copy;
    let mut j: usize = 0;
    proof {
        assert(items.deep_view().skip(0) =~= items.deep_view());
    }
    while j < items.len()
        invariant
            j <= items@.len(),
            scan_marker_items(items.deep_view().skip(j as int), span, c, p) == scan_marker_items(
                items.deep_view(),
                span,
                is_clone,
                is_copy,
            ),
            word_clone@ == clone_word(),
            word_copy@ == copy_word(),
        decreases items@.len() - j,
    {
        proof {
            assert(items.deep_view().skip(j as int)[0] == items@[j as int].deep_view());
            assert(items.deep_view().skip(j as int).drop_first() =~= items.deep_view().skip(
                j as int + 1,
            ));
        }
        match &items[j] {
            AttrItem::NotWord => {
                proof {
                    assert(scan_marker_items(items.deep_view().skip(j as int), span, c, p)
                        == Err::<(bool, bool), DeriveErrorModel>(
                        DeriveErrorModel { span, kind: DeriveErrorKindModel::MalformedAttribute },
                    ));
                }
                return Err(
                    DeriveError { span, kind: DeriveErrorKind::MalformedAttribute },
                );
            },
            AttrItem::Word(w) => {
                if w.eq(&word_clone) {
                    if p {
                        proof {
                            assert(scan_marker_items(items.deep_view().skip(j as int), span, c, p)
                                == Err::<(bool, bool), DeriveErrorModel>(
                                DeriveErrorModel {
                                    span,
                                    kind: DeriveErrorKindModel::ConflictingStrategies,
                                },
                            ));
                        }
                        return Err(
                            DeriveError { span, kind: DeriveErrorKind::ConflictingStrategies },
                        );
                    }
                    c = true;
                } else if w.eq(&word_copy) {
                    if c {
                        proof {
                            assert(scan_marker_items(items.deep_view().skip(j as int), span, c, p)
                                == Err::<(bool, bool), DeriveErrorModel>(
                                DeriveErrorModel {
                                    span,
                                    kind: DeriveErrorKindModel::ConflictingStrategies,
                                },
                            ));
                        }
                        return Err(
                            DeriveError { span, kind: DeriveErrorKind::ConflictingStrategies },
                        );
                    }
                    p = true;
                } else {
                    proof {
                        assert(scan_marker_items(items.deep_view().skip(j as int), span, c, p)
                            == Err::<(bool, bool), DeriveErrorModel>(
                            DeriveErrorModel { span, kind: DeriveErrorKindModel::UnexpectedName(w@) },
                        ));
                    }
                    return Err(
                        DeriveError { span, kind: DeriveErrorKind::UnexpectedName(w.clone()) },
                    );
                }
            },
        }
        j = j + 1;
    }
    proof {
        assert(items.deep_view().skip(j as int) =~= Seq::<AttrItemModel>::empty());
    }
    Ok((c, p))
}

/// Read the strategy requested by one field's attributes: the strategy, or
/// the first rejection in attribute order.
pub fn parse_field_attrs(attrs: &Vec<AttrDef>) -> (r: Result<FieldStrategy, DeriveError>)
    ensures
        (r matches Ok(s) ==> spec_parse_field_attrs(attrs.deep_view()) == Ok::<
            FieldStrategy,
            DeriveErrorModel,
        >(s)),
        (r matches Err(e) ==> spec_parse_field_attrs(attrs.deep_view()) == Err::<
            FieldStrategy,
            DeriveErrorModel,
        >(e.deep_view())),
{
    let marker: String = "tensor_like".to_owned();
    let mut is_clone: bool = false;
    let mut is_copy: bool = false;
    let mut i: usize = 0;
    proof {
        assert(attrs.deep_view().skip(0) =~= attrs.deep_view());
    }
    while i < attrs.len()
        invariant
            i <= attrs@.len(),
            scan_attrs(attrs.deep_view().skip(i as int), is_clone, is_copy)
                == spec_parse_field_attrs(attrs.deep_view()),
            marker@ == marker_path(),
        decreases attrs@.len() - i,
    {
        proof {
            assert(attrs.deep_view().skip(i as int)[0] == attrs@[i as int].deep_view());
            assert(attrs.deep_view().skip(i as int).drop_first() =~= attrs.deep_view().skip(
                i as int + 1,
            ));
        }
        let attr = &attrs[i];
        if attr.path.eq(&marker) {
            match &attr.meta {
                AttrMeta::List(items) => {
                    match scan_marker_list(items, attr.span, is_clone, is_copy) {
                        Ok(fl) => {
                            is_clone = fl.0;
                            is_copy = fl.1;
                        },
                        Err(e) => {
                            return Err(e);
                        },
                    }
                },
                AttrMeta::NotList => {
                    return Err(
                        DeriveError { span: attr.span, kind: DeriveErrorKind::MalformedAttribute },
                    );
                },
                AttrMeta::Unparsable => {
                    return Err(
                        DeriveError { span: attr.span, kind: DeriveErrorKind::MalformedAttribute },
                    );
                },
            }
        }
        i = i + 1;
    }
    proof {
        assert(attrs.deep_view().skip(i as int) =~= Seq::<AttrModel>::empty());
    }
    if is_copy {
        Ok(FieldStrategy::CopyDuplicate)
    } else if is_clone {
        Ok(FieldStrategy::CloneDuplicate)
    } else {
        Ok(FieldStrategy::Recurse)
    }
}

/// What analysing a named field list yields: one shape field per input
/// field, named as declared and indexed by position from `base`, or the
/// first rejection in field order.
pub open spec fn spec_named_fields(fds: Seq<FieldDefModel>, base: int) -> Result<
    Seq<NamedFieldModel>,
    DeriveErrorModel,
>
    decreases fds,
{
    if fds.len() == 0 {
        Ok(Seq::empty())
    } else {
        match spec_parse_field_attrs(fds[0].attrs) {
            Err(e) => Err(e),
            Ok(strategy) => match spec_named_fields(fds.drop_first(), base + 1) {
                Err(e) => Err(e),
                Ok(rest) => Ok(
                    seq![NamedFieldModel { name: fds[0].name->0, index: base, strategy }] + rest,
                ),
            },
        }
    }
}

/// What analysing a positional field list yields.
pub open spec fn spec_positional_fields(fds: Seq<FieldDefModel>, base: int) -> Result<
    Seq<PositionalFieldModel>,
    DeriveErrorModel,
>
    decreases fds,
{
    if fds.len() == 0 {
        Ok(Seq::empty())
    } else {
        match spec_parse_field_attrs(fds[0].attrs) {
            Err(e) => Err(e),
            Ok(strategy) => match spec_positional_fields(fds.drop_first(), base + 1) {
                Err(e) => Err(e),
                Ok(rest) => Ok(seq![PositionalFieldModel { index: base, strategy }] + rest),
            },
        }
    }
}

/// What analysing one variant's body yields.
pub open spec fn spec_variant_fields(fs: FieldsModel) -> Result<
    VariantFieldsModel,
    DeriveErrorModel,
> {
    match fs {
        FieldsModel::Named(fds) => match spec_named_fields(fds, 0) {
            Ok(t) => Ok(VariantFieldsModel::Record(t)),
            Err(e) => Err(e),
        },
        FieldsModel::Unnamed(fds) => match spec_positional_fields(fds, 0) {
            Ok(t) => Ok(VariantFieldsModel::Tuple(t)),
            Err(e) => Err(e),
        },
        FieldsModel::Unit => Ok(VariantFieldsModel::Unit),
    }
}

/// What analysing a variant list yields: one variant shape per variant, in
/// declaration order, or the first rejection.
pub open spec fn spec_variants(vars: Seq<VariantDefModel>) -> Result<
    Seq<VariantShapeModel>,
    DeriveErrorModel,
>
    decreases vars,
{
    if vars.len() == 0 {
        Ok(Seq::empty())
    } else {
        match spec_variant_fields(vars[0].fields) {
            Err(e) => Err(e),
            Ok(body) => match spec_variants(vars.drop_first()) {
                Err(e) => Err(e),
                Ok(rest) => Ok(seq![VariantShapeModel { name: vars[0].name, fields: body }] + rest),
            },
        }
    }
}

/// What the shape analyser yields on a definition: its shape, or the first
/// rejection — an unsupported raw union, or a field error in declaration
/// order.
pub open spec fn spec_analyze(def: TypeDefModel) -> Result<ShapeModel, DeriveErrorModel> {
    match def.data {
        DataModel::Struct(fs) => match fs {
            FieldsModel::Named(fds) => match spec_named_fields(fds, 0) {
                Ok(t) => Ok(ShapeModel::Record(t)),
                Err(e) => Err(e),
            },
            FieldsModel::Unnamed(fds) => match spec_positional_fields(fds, 0) {
                Ok(t) => Ok(ShapeModel::Tuple(t)),
                Err(e) => Err(e),
            },
            FieldsModel::Unit => Ok(ShapeModel::Unit),
        },
        DataModel::Enum(vars) => match spec_variants(vars) {
            Ok(t) => Ok(ShapeModel::Union(t)),
            Err(e) => Err(e),
        },
        DataModel::Union => Err(
            DeriveErrorModel { span: def.span, kind: DeriveErrorKindModel::UnsupportedUnion },
        ),
    }
}

/// The element-wise reading of named field analysis: on success, field `j`
/// of the shape carries the declared name, the position `base + j`, and the
/// strategy its own markers request; and when every field parses, analysis
/// succeeds.
pub proof fn lemma_named_fields_elementwise(fds: Seq<FieldDefModel>, base: int)
    ensures
        spec_named_fields(fds, base) matches Ok(t) ==> {
            &&& t.len() == fds.len()
            &&& forall|j: int|
                0 <= j < fds.len() ==> (#[trigger] t[j]).name == fds[j].name->0 && t[j].index
                    == base + j && spec_parse_field_attrs(fds[j].attrs) == Ok::<
                    FieldStrategy,
                    DeriveErrorModel,
                >(t[j].strategy)
        },
        (forall|j: int| 0 <= j < fds.len() ==> spec_parse_field_attrs(#[trigger] fds[j].attrs) is Ok)
            ==> spec_named_fields(fds, base) is Ok,
    decreases fds,
{
    if fds.len() > 0 {
        lemma_named_fields_elementwise(fds.drop_first(), base + 1);
        assert forall|j: int| 0 <= j < fds.len() && j > 0 implies fds.drop_first()[j - 1] == fds[j]
        by {}
    }
}

/// The first failing field of a named field list is the analysis' failure.
pub proof fn lemma_named_fields_fail_fast(fds: Seq<FieldDefModel>, base: int, j: int)
    requires
        0 <= j < fds.len(),
        spec_parse_field_attrs(fds[j].attrs) is Err,
        forall|k: int| 0 <= k < j ==> spec_parse_field_attrs(#[trigger] fds[k].attrs) is Ok,
    ensures
        spec_parse_field_attrs(fds[j].attrs) matches Err(e) ==> spec_named_fields(fds, base)
            == Err::<Seq<NamedFieldModel>, DeriveErrorModel>(e),
    decreases fds,
{
    if j > 0 {
        lemma_named_fields_fail_fast(fds.drop_first(), base + 1, j - 1);
        assert forall|k: int| 0 <= k < j - 1 implies spec_parse_field_attrs(
            #[trigger] fds.drop_first()[k].attrs,
        ) is Ok by {
            assert(fds.drop_first()[k] == fds[k + 1]);
        }
        assert(fds.drop_first()[j - 1] == fds[j]);
    }
}

/// The element-wise reading of positional field analysis.
pub proof fn lemma_positional_fields_elementwise(fds: Seq<FieldDefModel>, base: int)
    ensures
        spec_positional_fields(fds, base) matches Ok(t) ==> {
            &&& t.len() == fds.len()
            &&& forall|j: int|
                0 <= j < fds.len() ==> (#[trigger] t[j]).index == base + j
                    && spec_parse_field_attrs(fds[j].attrs) == Ok::<
                    FieldStrategy,
                    DeriveErrorModel,
                >(t[j].strategy)
        },
        (forall|j: int| 0 <= j < fds.len() ==> spec_parse_field_attrs(#[trigger] fds[j].attrs) is Ok)
            ==> spec_positional_fields(fds, base) is Ok,
    decreases fds,
{
    if fds.len() > 0 {
        lemma_positional_fields_elementwise(fds.drop_first(), base + 1);
        assert forall|j: int| 0 <= j < fds.len() && j > 0 implies fds.drop_first()[j - 1] == fds[j]
        by {}
    }
}

/// The first failing field of a positional field list is the analysis'
/// failure.
pub proof fn lemma_positional_fields_fail_fast(fds: Seq<FieldDefModel>, base: int, j: int)
    requires
        0 <= j < fds.len(),
        spec_parse_field_attrs(fds[j].attrs) is Err,
        forall|k: int| 0 <= k < j ==> spec_parse_field_attrs(#[trigger] fds[k].attrs) is Ok,
    ensures
        spec_parse_field_attrs(fds[j].attrs) matches Err(e) ==> spec_positional_fields(fds, base)
            == Err::<Seq<PositionalFieldModel>, DeriveErrorModel>(e),
    decreases fds,
{
    if j > 0 {
        lemma_positional_fields_fail_fast(fds.drop_first(), base + 1, j - 1);
        assert forall|k: int| 0 <= k < j - 1 implies spec_parse_field_attrs(
            #[trigger] fds.drop_first()[k].attrs,
        ) is Ok by {
            assert(fds.drop_first()[k] == fds[k + 1]);
        }
        assert(fds.drop_first()[j - 1] == fds[j]);
    }
}

/// The element-wise reading of variant analysis: on success there is exactly
/// one variant shape per declared variant, at the same position and under
/// the same name; and when every variant's body analyses, so does the union.
pub proof fn lemma_variants_elementwise(vars: Seq<VariantDefModel>)
    ensures
        spec_variants(vars) matches Ok(t) ==> {
            &&& t.len() == vars.len()
            &&& forall|j: int|
                0 <= j < vars.len() ==> (#[trigger] t[j]).name == vars[j].name
                    && spec_variant_fields(vars[j].fields) == Ok::<
                    VariantFieldsModel,
                    DeriveErrorModel,
                >(t[j].fields)
        },
        (forall|j: int| 0 <= j < vars.len() ==> spec_variant_fields(#[trigger] vars[j].fields) is Ok)
            ==> spec_variants(vars) is Ok,
    decreases vars,
{
    if vars.len() > 0 {
        lemma_variants_elementwise(vars.drop_first());
        assert forall|j: int| 0 <= j < vars.len() && j > 0 implies vars.drop_first()[j - 1]
            == vars[j] by {}
    }
}

/// The first failing variant of a union is the analysis' failure.
pub proof fn lemma_variants_fail_fast(vars: Seq<VariantDefModel>, j: int)
    requires
        0 <= j < vars.len(),
        spec_variant_fields(vars[j].fields) is Err,
        forall|k: int| 0 <= k < j ==> spec_variant_fields(#[trigger] vars[k].fields) is Ok,
    ensures
        spec_variant_fields(vars[j].fields) matches Err(e) ==> spec_variants(vars) == Err::<
            Seq<VariantShapeModel>,
            DeriveErrorModel,
        >(e),
    decreases vars,
{
    if j > 0 {
        lemma_variants_fail_fast(vars.drop_first(), j - 1);
        assert forall|k: int| 0 <= k < j - 1 implies spec_variant_fields(
            #[trigger] vars.drop_first()[k].fields,
        ) is Ok by {
            assert(vars.drop_first()[k] == vars[k + 1]);
        }
        assert(vars.drop_first()[j - 1] == vars[j]);
    }
}

/// Analyse a named field list at run time.
fn analyze_named(fds: &Vec<FieldDef>) -> (r: Result<Vec<NamedField>, DeriveError>)
    requires
        forall|i: int| 0 <= i < fds.deep_view().len() ==> (#[trigger] fds.deep_view()[i].name) is Some,
    ensures
        (r matches Ok(out) ==> spec_named_fields(fds.deep_view(), 0) == Ok::<
            Seq<NamedFieldModel>,
            DeriveErrorModel,
        >(out.deep_view())),
        (r matches Err(e) ==> spec_named_fields(fds.deep_view(), 0) == Err::<
            Seq<NamedFieldModel>,
            DeriveErrorModel,
        >(e.deep_view())),
{
    let mut out: Vec<NamedField> = Vec::new();
    let mut i: usize = 0;
    while i < fds.len()
        invariant
            i <= fds@.len(),
            out@.len() == i as int,
            forall|k: int|
                0 <= k < fds.deep_view().len() ==> (#[trigger] fds.deep_view()[k].name) is Some,
            forall|j: int|
                0 <= j < i ==> (#[trigger] out@[j].deep_view()).name == fds@[j].deep_view().name->0
                    && out@[j].deep_view().index == j && spec_parse_field_attrs(
                    fds@[j].deep_view().attrs,
                ) == Ok::<FieldStrategy, DeriveErrorModel>(out@[j].deep_view().strategy),
        decreases fds@.len() - i,
    {
        proof {
            assert(fds.deep_view()[i as int] == fds@[i as int].deep_view());
        }
        match parse_field_attrs(&fds[i].attrs) {
            Err(e) => {
                proof {
                    assert forall|k: int| 0 <= k < fds@.len() implies #[trigger] fds.deep_view()[k]
                        == fds@[k].deep_view() by {}
                    assert forall|k: int| 0 <= k < i implies spec_parse_field_attrs(
                        (#[trigger] fds.deep_view()[k]).attrs,
                    ) is Ok by {
                        assert(out@[k].deep_view().index == k);
                    }
                    lemma_named_fields_fail_fast(fds.deep_view(), 0, i as int);
                }
                return Err(e);
            },
            Ok(strategy) => {
                let name = match &fds[i].name {
                    Option::Some(s) => s.clone(),
                    Option::None => {
                        proof {
                            assert(fds.deep_view()[i as int].name is Some);
                        }
                        unreached()
                    },
                };
                out.push(NamedField { name, index: i, strategy });
            },
        }
        i = i + 1;
    }
    proof {
        assert forall|k: int| 0 <= k < fds@.len() implies #[trigger] fds.deep_view()[k] == fds@[
            k
        ].deep_view() by {}
        assert forall|k: int| 0 <= k < out@.len() implies #[trigger] out.deep_view()[k] == out@[
            k
        ].deep_view() by {}
        assert forall|j: int| 0 <= j < fds.deep_view().len() implies spec_parse_field_attrs(
            (#[trigger] fds.deep_view()[j]).attrs,
        ) is Ok by {
            assert(out@[j].deep_view().index == j);
        }
        lemma_named_fields_elementwise(fds.deep_view(), 0);
        assert(spec_named_fields(fds.deep_view(), 0) matches Ok(t) && t =~= out.deep_view());
    }
    Ok(out)
}

/// Analyse a positional field list at run time.
fn analyze_positional(fds: &Vec<FieldDef>) -> (r: Result<Vec<PositionalField>, DeriveError>)
    ensures
        (r matches Ok(out) ==> spec_positional_fields(fds.deep_view(), 0) == Ok::<
            Seq<PositionalFieldModel>,
            DeriveErrorModel,
        >(out.deep_view())),
        (r matches Err(e) ==> spec_positional_fields(fds.deep_view(), 0) == Err::<
            Seq<PositionalFieldModel>,
            DeriveErrorModel,
        >(e.deep_view())),
{
    let mut out: Vec<PositionalField> = Vec::new();
    let mut i: usize = 0;
    while i < fds.len()
        invariant
            i <= fds@.len(),
            out@.len() == i as int,
            forall|j: int|
                0 <= j < i ==> (#[trigger] out@[j].deep_view()).index == j
                    && spec_parse_field_attrs(fds@[j].deep_view().attrs) == Ok::<
                    FieldStrategy,
                    DeriveErrorModel,
                >(out@[j].deep_view().strategy),
        decreases fds@.len() - i,
    {
        proof {
            assert(fds.deep_view()[i as int] == fds@[i as int].deep_view());
        }
        match parse_field_attrs(&fds[i].attrs) {
            Err(e) => {
                proof {
                    assert forall|k: int| 0 <= k < fds@.len() implies #[trigger] fds.deep_view()[k]
                        == fds@[k].deep_view() by {}
                    assert forall|k: int| 0 <= k < i implies spec_parse_field_attrs(
                        (#[trigger] fds.deep_view()[k]).attrs,
                    ) is Ok by {
                        assert(out@[k].deep_view().index == k);
                    }
                    lemma_positional_fields_fail_fast(fds.deep_view(), 0, i as int);
                }
                return Err(e);
            },
            Ok(strategy) => {
                out.push(PositionalField { index: i, strategy });
            },
        }
        i = i + 1;
    }
    proof {
        assert forall|k: int| 0 <= k < fds@.len() implies #[trigger] fds.deep_view()[k] == fds@[
            k
        ].deep_view() by {}
        assert forall|k: int| 0 <= k < out@.len() implies #[trigger] out.deep_view()[k] == out@[
            k
        ].deep_view() by {}
        assert forall|j: int| 0 <= j < fds.deep_view().len() implies spec_parse_field_attrs(
            (#[trigger] fds.deep_view()[j]).attrs,
        ) is Ok by {
            assert(out@[j].deep_view().index == j);
        }
        lemma_positional_fields_elementwise(fds.deep_view(), 0);
        assert(spec_positional_fields(fds.deep_view(), 0) matches Ok(t) && t =~= out.deep_view());
    }
    Ok(out)
}

/// Analyse one variant's body at run time.
fn analyze_variant_fields(fs: &FieldsDef) -> (r: Result<VariantFields, DeriveError>)
    requires
        crate::input::fields_model_wf(fs.deep_view()),
    ensures
        (r matches Ok(out) ==> spec_variant_fields(fs.deep_view()) == Ok::<
            VariantFieldsModel,
            DeriveErrorModel,
        >(out.deep_view())),
        (r matches Err(e) ==> spec_variant_fields(fs.deep_view()) == Err::<
            VariantFieldsModel,
            DeriveErrorModel,
        >(e.deep_view())),
{
    match fs {
        FieldsDef::Named(fds) => match analyze_named(fds) {
            Ok(t) => Ok(VariantFields::Record(t)),
            Err(e) => Err(e),
        },
        FieldsDef::Unnamed(fds) => match analyze_positional(fds) {
            Ok(t) => Ok(VariantFields::Tuple(t)),
            Err(e) => Err(e),
        },
        FieldsDef::Unit => Ok(VariantFields::Unit),
    }
}

/// Analyse a variant list at run time.
fn analyze_variants(vars: &Vec<VariantDef>) -> (r: Result<Vec<VariantShape>, DeriveError>)
    requires
        forall|i: int|
            0 <= i < vars.deep_view().len() ==> crate::input::fields_model_wf(
                (#[trigger] vars.deep_view()[i]).fields,
            ),
    ensures
        (r matches Ok(out) ==> spec_variants(vars.deep_view()) == Ok::<
            Seq<VariantShapeModel>,
            DeriveErrorModel,
        >(out.deep_view())),
        (r matches Err(e) ==> spec_variants(vars.deep_view()) == Err::<
            Seq<VariantShapeModel>,
            DeriveErrorModel,
        >(e.deep_view())),
{
    let mut out: Vec<VariantShape> = Vec::new();
    let mut i: usize = 0;
    while i < vars.len()
        invariant
            i <= vars@.len(),
            out@.len() == i as int,
            forall|k: int|
                0 <= k < vars.deep_view().len() ==> crate::input::fields_model_wf(
                    (#[trigger] vars.deep_view()[k]).fields,
                ),
            forall|j: int|
                0 <= j < i ==> (#[trigger] out@[j].deep_view()).name == vars@[j].deep_view().name
                    && spec_variant_fields(vars@[j].deep_view().fields) == Ok::<
                    VariantFieldsModel,
                    DeriveErrorModel,
                >(out@[j].deep_view().fields),
        decreases vars@.len() - i,
    {
        proof {
            assert(vars.deep_view()[i as int] == vars@[i as int].deep_view());
        }
        let v = &vars[i];
        match analyze_variant_fields(&v.fields) {
            Err(e) => {
                proof {
                    assert forall|k: int| 0 <= k < vars@.len() implies #[trigger] vars.deep_view()[
                        k
                    ] == vars@[k].deep_view() by {}
                    assert forall|k: int| 0 <= k < i implies spec_variant_fields(
                        (#[trigger] vars.deep_view()[k]).fields,
                    ) is Ok by {
                        assert(out@[k].deep_view().name == vars@[k].deep_view().name);
                    }
                    lemma_variants_fail_fast(vars.deep_view(), i as int);
                }
                return Err(e);
            },
            Ok(fields) => {
                out.push(VariantShape { name: v.name.clone(), fields });
            },
        }
        i = i + 1;
    }
    proof {
        assert forall|k: int| 0 <= k < vars@.len() implies #[trigger] vars.deep_view()[k] == vars@[
            k
        ].deep_view() by {}
        assert forall|k: int| 0 <= k < out@.len() implies #[trigger] out.deep_view()[k] == out@[
            k
        ].deep_view() by {}
        assert forall|j: int| 0 <= j < vars.deep_view().len() implies spec_variant_fields(
            (#[trigger] vars.deep_view()[j]).fields,
        ) is Ok by {
            assert(out@[j].deep_view().name == vars@[j].deep_view().name);
        }
        lemma_variants_elementwise(vars.deep_view());
        assert(spec_variants(vars.deep_view()) matches Ok(t) && t =~= out.deep_view());
    }
    Ok(out)
}

/// The shape analyser: classify a type definition into one of the four
/// shape categories, reading every field's strategy markers, or reject it
/// with the first error in declaration order.
pub fn analyze(def: &TypeDef) -> (r: Result<TypeShape, DeriveError>)
    requires
        def.deep_view().wf(),
    ensures
        (r matches Ok(shape) ==> spec_analyze(def.deep_view()) == Ok::<
            ShapeModel,
            DeriveErrorModel,
        >(shape.deep_view())),
        (r matches Err(e) ==> spec_analyze(def.deep_view()) == Err::<ShapeModel, DeriveErrorModel>(
            e.deep_view(),
        )),
{
    match &def.data {
        DataDef::Struct(fs) => match fs {
            FieldsDef::Named(fds) => match analyze_named(fds) {
                Ok(t) => Ok(TypeShape::Record(t)),
                Err(e) => Err(e),
            },
            FieldsDef::Unnamed(fds) => match analyze_positional(fds) {
                Ok(t) => Ok(TypeShape::Tuple(t)),
                Err(e) => Err(e),
            },
            FieldsDef::Unit => Ok(TypeShape::Unit),
        },
        DataDef::Enum(vars) => match analyze_variants(vars) {
            Ok(t) => Ok(TypeShape::Union(t)),
            Err(e) => Err(e),
        },
        DataDef::Union => Err(
            DeriveError { span: def.span, kind: DeriveErrorKind::UnsupportedUnion },
        ),
    }
}

/// The analyser yields well-formed shapes: every field's index is its
/// declaration position, in records, tuples and every variant alike.
pub proof fn lemma_analyze_wf(def: TypeDefModel)
    ensures
        spec_analyze(def) matches Ok(s) ==> s.wf(),
{
    match def.data {
        DataModel::Struct(fs) => match fs {
            FieldsModel::Named(fds) => {
                lemma_named_fields_elementwise(fds, 0);
            },
            FieldsModel::Unnamed(fds) => {
                lemma_positional_fields_elementwise(fds, 0);
            },
            FieldsModel::Unit => {},
        },
        DataModel::Enum(vars) => {
            if spec_variants(vars) is Ok {
                lemma_variants_elementwise(vars);
                let t = spec_variants(vars)->Ok_0;
                assert forall|i: int| 0 <= i < t.len() implies crate::shape::variant_fields_wf(
                    (#[trigger] t[i]).fields,
                ) by {
                    match vars[i].fields {
                        FieldsModel::Named(fds) => {
                            lemma_named_fields_elementwise(fds, 0);
                        },
                        FieldsModel::Unnamed(fds) => {
                            lemma_positional_fields_elementwise(fds, 0);
                        },
                        FieldsModel::Unit => {},
                    }
                }
            }
        },
        DataModel::Union => {},
    }
}

} // verus!
