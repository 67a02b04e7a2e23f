//! The analysed shape of a derivable type.
//!
//! A shape classifies a type definition into one of four categories — a
//! record of named fields, a record of positional fields, a fieldless unit,
//! or a tagged union of variants — and records, for every field, the strategy
//! the traversal applies to it.

use vstd::prelude::*;

verus! {

/// The per-field policy governing what a traversal operation does with the
/// field: recurse into it, duplicate it with its generic clone, or duplicate
/// it bitwise.  Exactly one strategy applies to each field; the duplicating
/// strategies opt the field out of the operation's semantic effect.
#[derive(Clone, Copy, Debug, PartialEq, Eq, Structural)]
pub enum FieldStrategy {
    Recurse,
    CloneDuplicate,
    CopyDuplicate,
}

/// One named field of a record shape.  The index is the field's declaration
/// position; it fixes both the destructuring and the reconstruction order.
pub struct NamedField {
    pub name: String,
    pub index: usize,
    pub strategy: FieldStrategy,
}

/// The model of one named field.
pub struct NamedFieldModel {
    pub name: Seq<char>,
    pub index: int,
    pub strategy: FieldStrategy,
}

impl DeepView for NamedField {
    type V = NamedFieldModel;

    open spec fn deep_view(&self) -> NamedFieldModel {
        NamedFieldModel { name: self.name@, index: self.index as int, strategy: self.strategy }
    }
}

/// One positional field of a tuple shape, identified by declaration
/// position alone.
#[derive(Clone, Copy, Debug, PartialEq, Eq, Structural)]
pub struct PositionalField {
    pub index: usize,
    pub strategy: FieldStrategy,
}

/// The model of one positional field.
pub struct PositionalFieldModel {
    pub index: int,
    pub strategy: FieldStrategy,
}

impl DeepView for PositionalField {
    type V = PositionalFieldModel;

    open spec fn deep_view(&self) -> PositionalFieldModel {
        PositionalFieldModel { index: self.index as int, strategy: self.strategy }
    }
}

/// The shape of one variant's body: a union's variants are themselves
/// records, tuples or units — never unions, matching the host's enum model.
pub enum VariantFields {
    Record(Vec<NamedField>),
    Tuple(Vec<PositionalField>),
    Unit,
}

/// The model of one variant's body.
pub enum VariantFieldsModel {
    Record(Seq<NamedFieldModel>),
    Tuple(Seq<PositionalFieldModel>),
    Unit,
}

impl DeepView for VariantFields {
    type V = VariantFieldsModel;

    open spec fn deep_view(&self) -> VariantFieldsModel {
        match self {
            VariantFields::Record(fs) => VariantFieldsModel::Record(fs.deep_view()),
            VariantFields::Tuple(fs) => VariantFieldsModel::Tuple(fs.deep_view()),
            VariantFields::Unit => VariantFieldsModel::Unit,
        }
    }
}

/// One variant of a union shape.
pub struct VariantShape {
    pub name: String,
    pub fields: VariantFields,
}

/// The model of one variant shape.
pub struct VariantShapeModel {
    pub name: Seq<char>,
    pub fields: VariantFieldsModel,
}

impl DeepView for VariantShape {
    type V = VariantShapeModel;

    open spec fn deep_view(&self) -> VariantShapeModel {
        VariantShapeModel { name: self.name@, fields: self.fields.deep_view() }
    }
}

/// The analysed shape of a derivable type: one of the four categories the
/// generator covers.
pub enum TypeShape {
    /// A record of named fields.
    Record(Vec<NamedField>),
    /// A record of positional fields.
    Tuple(Vec<PositionalField>),
    /// A fieldless unit.
    Unit,
    /// A tagged union, one entry per variant, in declaration order.
    Union(Vec<VariantShape>),
}

/// The model of a type shape.
pub enum ShapeModel {
    Record(Seq<NamedFieldModel>),
    Tuple(Seq<PositionalFieldModel>),
    Unit,
    Union(Seq<VariantShapeModel>),
}

impl DeepView for TypeShape {
    type V = ShapeModel;

    open spec fn deep_view(&self) -> ShapeModel {
        match self {
            TypeShape::Record(fs) => ShapeModel::Record(fs.deep_view()),
            TypeShape::Tuple(fs) => ShapeModel::Tuple(fs.deep_view()),
            TypeShape::Unit => ShapeModel::Unit,
            TypeShape::Union(vars) => ShapeModel::Union(vars.deep_view()),
        }
    }
}

/// Indexes of a named field list are the declaration positions.
pub open spec fn named_fields_indexed(fs: Seq<NamedFieldModel>) -> bool {
    forall|i: int| 0 <= i < fs.len() ==> (#[trigger] fs[i].index) == i
}

/// Indexes of a positional field list are the declaration positions.
pub open spec fn positional_fields_indexed(fs: Seq<PositionalFieldModel>) -> bool {
    forall|i: int| 0 <= i < fs.len() ==> (#[trigger] fs[i].index) == i
}

/// Well-formedness of a variant body: indexes are declaration positions.
pub open spec fn variant_fields_wf(fs: VariantFieldsModel) -> bool {
    match fs {
        VariantFieldsModel::Record(fds) => named_fields_indexed(fds),
        VariantFieldsModel::Tuple(fds) => positional_fields_indexed(fds),
        VariantFieldsModel::Unit => true,
    }
}

impl ShapeModel {
    /// Well-formedness of a shape: every field's index is its declaration
    /// position — reordering would break round-tripping.
    pub open spec fn wf(self) -> bool {
        match self {
            ShapeModel::Record(fds) => named_fields_indexed(fds),
            ShapeModel::Tuple(fds) => positional_fields_indexed(fds),
            ShapeModel::Unit => true,
            ShapeModel::Union(vars) => forall|i: int|
                0 <= i < vars.len() ==> variant_fields_wf(#[trigger] vars[i].fields),
        }
    }
}

} // verus!
