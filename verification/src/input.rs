//! The analyser's picture of a type definition.
//!
//! The derivation reads a type definition out of the host compiler's syntax
//! tree.  This module holds that picture as plain values: the definition's
//! name, its generic parameters, its body — struct, enum or raw union — and,
//! on every field, the attributes whose strategy markers the analyser parses.
//! Each type carries a mathematical model over `Seq` via `DeepView`.

use vstd::prelude::*;

verus! {

/// An opaque source location, carried from the syntax tree into error
/// reports so that tooling can point at the offending construct.
#[derive(Clone, Copy, Debug, PartialEq, Eq, Structural)]
pub struct Span {
    pub id: u64,
}

/// One nested item inside a marker attribute's list.
pub enum AttrItem {
    /// A bare word, such as `clone`.
    Word(String),
    /// Anything else: a literal, a name-value pair, a multi-segment path.
    NotWord,
}

/// The model of one nested attribute item.
pub enum AttrItemModel {
    Word(Seq<char>),
    NotWord,
}

impl DeepView for AttrItem {
    type V = AttrItemModel;

    open spec fn deep_view(&self) -> AttrItemModel {
        match self {
            AttrItem::Word(w) => AttrItemModel::Word(w@),
            AttrItem::NotWord => AttrItemModel::NotWord,
        }
    }
}

/// The parsed content of one attribute.
pub enum AttrMeta {
    /// A parenthesised list: `#[name(item, item, ...)]`.
    List(Vec<AttrItem>),
    /// The attribute parsed as structured meta, but not as a list.
    NotList,
    /// The attribute's content did not parse as structured meta at all.
    Unparsable,
}

/// The model of an attribute's content.
pub enum AttrMetaModel {
    List(Seq<AttrItemModel>),
    NotList,
    Unparsable,
}

impl DeepView for AttrMeta {
    type V = AttrMetaModel;

    open spec fn deep_view(&self) -> AttrMetaModel {
        match self {
            AttrMeta::List(items) => AttrMetaModel::List(items.deep_view()),
            AttrMeta::NotList => AttrMetaModel::NotList,
            AttrMeta::Unparsable => AttrMetaModel::Unparsable,
        }
    }
}

/// One attribute on a field, as the analyser reads it.
pub struct AttrDef {
    /// The attribute's path.  Only a path that is the single ident
    /// `tensor_like` addresses the derivation; every other attribute is
    /// ignored.
    pub path: String,
    pub span: Span,
    pub meta: AttrMeta,
}

/// The model of one attribute.
pub struct AttrModel {
    pub path: Seq<char>,
    pub span: Span,
    pub meta: AttrMetaModel,
}

impl DeepView for AttrDef {
    type V = AttrModel;

    open spec fn deep_view(&self) -> AttrModel {
        AttrModel { path: self.path@, span: self.span, meta: self.meta.deep_view() }
    }
}

/// One field of a struct body or of a variant.
pub struct FieldDef {
    /// The field's name; present exactly on the fields of a named body.
    pub name: Option<String>,
    pub attrs: Vec<AttrDef>,
}

/// The model of one field definition.
pub struct FieldDefModel {
    pub name: Option<Seq<char>>,
    pub attrs: Seq<AttrModel>,
}

impl DeepView for FieldDef {
    type V = FieldDefModel;

    open spec fn deep_view(&self) -> FieldDefModel {
        FieldDefModel { name: self.name.deep_view(), attrs: self.attrs.deep_view() }
    }
}

/// The fields of a struct body or of one variant.
pub enum FieldsDef {
    /// `{ a: A, b: B }`
    Named(Vec<FieldDef>),
    /// `(A, B)`
    Unnamed(Vec<FieldDef>),
    /// No fields at all.
    Unit,
}

/// The model of a field list.
pub enum FieldsModel {
    Named(Seq<FieldDefModel>),
    Unnamed(Seq<FieldDefModel>),
    Unit,
}

impl DeepView for FieldsDef {
    type V = FieldsModel;

    open spec fn deep_view(&self) -> FieldsModel {
        match self {
            FieldsDef::Named(fds) => FieldsModel::Named(fds.deep_view()),
            FieldsDef::Unnamed(fds) => FieldsModel::Unnamed(fds.deep_view()),
            FieldsDef::Unit => FieldsModel::Unit,
        }
    }
}

/// One variant of an enum definition.
pub struct VariantDef {
    pub name: String,
    pub fields: FieldsDef,
}

/// The model of one variant definition.
pub struct VariantDefModel {
    pub name: Seq<char>,
    pub fields: FieldsModel,
}

impl DeepView for VariantDef {
    type V = VariantDefModel;

    open spec fn deep_view(&self) -> VariantDefModel {
        VariantDefModel { name: self.name@, fields: self.fields.deep_view() }
    }
}

/// The body of a type definition.
pub enum DataDef {
    Struct(FieldsDef),
    Enum(Vec<VariantDef>),
    /// A raw union of overlapping storage; no sound generic traversal exists
    /// for it, so the analyser rejects it.
    Union,
}

/// The model of a definition body.
pub enum DataModel {
    Struct(FieldsModel),
    Enum(Seq<VariantDefModel>),
    Union,
}

impl DeepView for DataDef {
    type V = DataModel;

    open spec fn deep_view(&self) -> DataModel {
        match self {
            DataDef::Struct(fs) => DataModel::Struct(fs.deep_view()),
            DataDef::Enum(vars) => DataModel::Enum(vars.deep_view()),
            DataDef::Union => DataModel::Union,
        }
    }
}

/// The kind of one generic parameter.
#[derive(Clone, Copy, Debug, PartialEq, Eq, Structural)]
pub enum GenericParamKind {
    TypeParam,
    LifetimeParam,
    ConstParam,
}

/// One generic parameter of the definition, together with whether the
/// capability bound has been attached to it.
pub struct GenericParamDef {
    pub name: String,
    pub kind: GenericParamKind,
    pub has_capability_bound: bool,
}

/// The model of one generic parameter.
pub struct GenericParamModel {
    pub name: Seq<char>,
    pub kind: GenericParamKind,
    pub has_capability_bound: bool,
}

impl DeepView for GenericParamDef {
    type V = GenericParamModel;

    open spec fn deep_view(&self) -> GenericParamModel {
        GenericParamModel {
            name: self.name@,
            kind: self.kind,
            has_capability_bound: self.has_capability_bound,
        }
    }
}

/// A type definition, as the derivation receives it.
pub struct TypeDef {
    pub name: String,
    /// The definition's own location, blamed when the whole shape is
    /// unsupported.
    pub span: Span,
    pub generics: Vec<GenericParamDef>,
    pub data: DataDef,
}

/// The model of a type definition.
pub struct TypeDefModel {
    pub name: Seq<char>,
    pub span: Span,
    pub generics: Seq<GenericParamModel>,
    pub data: DataModel,
}

impl DeepView for TypeDef {
    type V = TypeDefModel;

    open spec fn deep_view(&self) -> TypeDefModel {
        TypeDefModel {
            name: self.name@,
            span: self.span,
            generics: self.generics.deep_view(),
            data: self.data.deep_view(),
        }
    }
}

/// Well-formedness of a field list: the fields of a named body carry names,
/// the fields of a positional body do not.
pub open spec fn fields_model_wf(fs: FieldsModel) -> bool {
    match fs {
        FieldsModel::Named(fds) => forall|i: int| 0 <= i < fds.len() ==> fds[i].name is Some,
        FieldsModel::Unnamed(fds) => forall|i: int| 0 <= i < fds.len() ==> fds[i].name is None,
        FieldsModel::Unit => true,
    }
}

impl TypeDefModel {
    /// Well-formedness of a definition: every named field carries its name,
    /// as the host's syntax tree guarantees.
    pub open spec fn wf(self) -> bool {
        match self.data {
            DataModel::Struct(fs) => fields_model_wf(fs),
            DataModel::Enum(vars) => forall|i: int|
                0 <= i < vars.len() ==> fields_model_wf(#[trigger] vars[i].fields),
            DataModel::Union => true,
        }
    }
}

} // verus!
