//! The traversal code generator.
//!
//! Given an analysed shape and one of the three target operations, the
//! generator emits a method body as a structured code artifact: destructure
//! the value into one binding per field in declaration order, transform each
//! binding by its field's strategy, and rebuild the value in the same order.
//! A unit shape rebuilds itself; a tagged union gets exactly one arm per
//! variant with no default arm, so that a variant added later cannot fall
//! through silently.  The artifacts are rendered into host-language tokens
//! outside the library.

use vstd::prelude::*;

use crate::analyze::{analyze, spec_analyze, DeriveError, DeriveErrorModel};
use crate::input::{GenericParamDef, GenericParamKind, GenericParamModel, TypeDef, TypeDefModel};
use crate::shape::{
    FieldStrategy, NamedField, NamedFieldModel, PositionalField, PositionalFieldModel, ShapeModel,
    TypeShape, VariantFields, VariantFieldsModel, VariantShape, VariantShapeModel,
};

verus! {

/// The operation a generated method implements.  At generation time only the
/// tag matters; the device or kind argument is supplied at run time.
#[derive(Clone, Copy, Debug, PartialEq, Eq, Structural)]
pub enum Operation {
    ToDevice,
    ToKind,
    ShallowClone,
}

/// The generated expression for one destructured field binding `_i`.
#[derive(Clone, Copy, Debug, PartialEq, Eq, Structural)]
pub enum FieldExpr {
    /// The recursive capability call `TensorLike::f_to_device(_i, device)?`,
    /// short-circuiting the whole reconstruction on failure.
    RecurseToDevice,
    /// The recursive capability call `TensorLike::f_to_kind(_i, kind)?`.
    RecurseToKind,
    /// The recursive capability call `TensorLike::shallow_clone(_i)`.
    RecurseShallowClone,
    /// `Clone::clone(_i)`: duplicate verbatim via the generic clone.
    CloneCall,
    /// `*_i`: duplicate verbatim, bitwise.
    Deref,
}

/// One field initialiser of a generated reconstruction: position `index` is
/// rebuilt from the binding `_index` by `expr`, labelled `name` where the
/// shape is named.
pub struct FieldInit {
    pub index: usize,
    pub name: Option<String>,
    pub expr: FieldExpr,
}

/// The model of one field initialiser.
pub struct FieldInitModel {
    pub index: int,
    pub name: Option<Seq<char>>,
    pub expr: FieldExpr,
}

impl DeepView for FieldInit {
    type V = FieldInitModel;

    open spec fn deep_view(&self) -> FieldInitModel {
        FieldInitModel {
            index: self.index as int,
            name: self.name.deep_view(),
            expr: self.expr,
        }
    }
}

/// The body of one generated variant arm.
pub enum ArmBody {
    Record(Vec<FieldInit>),
    Tuple(Vec<FieldInit>),
    Unit,
}

/// The model of one arm body.
pub enum ArmBodyModel {
    Record(Seq<FieldInitModel>),
    Tuple(Seq<FieldInitModel>),
    Unit,
}

impl DeepView for ArmBody {
    type V = ArmBodyModel;

    open spec fn deep_view(&self) -> ArmBodyModel {
        match self {
            ArmBody::Record(inits) => ArmBodyModel::Record(inits.deep_view()),
            ArmBody::Tuple(inits) => ArmBodyModel::Tuple(inits.deep_view()),
            ArmBody::Unit => ArmBodyModel::Unit,
        }
    }
}

/// One generated match arm: destructure the named variant, transform its
/// fields, rebuild the same variant.
pub struct ArmPlan {
    pub variant: String,
    pub body: ArmBody,
}

/// The model of one arm.
pub struct ArmPlanModel {
    pub variant: Seq<char>,
    pub body: ArmBodyModel,
}

impl DeepView for ArmPlan {
    type V = ArmPlanModel;

    open spec fn deep_view(&self) -> ArmPlanModel {
        ArmPlanModel { variant: self.variant@, body: self.body.deep_view() }
    }
}

/// The generated body of one method.
pub enum BodyPlan {
    /// `{ let Self { f0: _0, .. } = self; Self { f0: e0, .. } }`
    Record(Vec<FieldInit>),
    /// `{ let Self(_0, ..) = self; Self(e0, ..) }`
    Tuple(Vec<FieldInit>),
    /// `Self`
    Unit,
    /// `match self { .. }` over the declared variants, with no default arm.
    Match(Vec<ArmPlan>),
}

/// The model of a method body.
pub enum BodyPlanModel {
    Record(Seq<FieldInitModel>),
    Tuple(Seq<FieldInitModel>),
    Unit,
    Match(Seq<ArmPlanModel>),
}

impl DeepView for BodyPlan {
    type V = BodyPlanModel;

    open spec fn deep_view(&self) -> BodyPlanModel {
        match self {
            BodyPlan::Record(inits) => BodyPlanModel::Record(inits.deep_view()),
            BodyPlan::Tuple(inits) => BodyPlanModel::Tuple(inits.deep_view()),
            BodyPlan::Unit => BodyPlanModel::Unit,
            BodyPlan::Match(arms) => BodyPlanModel::Match(arms.deep_view()),
        }
    }
}

/// One generated method: for the two fallible operations the rebuilt value
/// is wrapped in `Ok`.
pub struct MethodPlan {
    pub op: Operation,
    pub fallible: bool,
    pub body: BodyPlan,
}

/// The model of one method plan.
pub struct MethodPlanModel {
    pub op: Operation,
    pub fallible: bool,
    pub body: BodyPlanModel,
}

impl DeepView for MethodPlan {
    type V = MethodPlanModel;

    open spec fn deep_view(&self) -> MethodPlanModel {
        MethodPlanModel { op: self.op, fallible: self.fallible, body: self.body.deep_view() }
    }
}

/// The whole generated impl for one type: the three method bodies, wired to
/// the type's name and its generics with the capability bound attached.
pub struct ImplPlan {
    pub name: String,
    pub generics: Vec<GenericParamDef>,
    pub to_device: MethodPlan,
    pub to_kind: MethodPlan,
    pub shallow_clone: MethodPlan,
}

/// The model of a generated impl.
pub struct ImplPlanModel {
    pub name: Seq<char>,
    pub generics: Seq<GenericParamModel>,
    pub to_device: MethodPlanModel,
    pub to_kind: MethodPlanModel,
    pub shallow_clone: MethodPlanModel,
}

impl DeepView for ImplPlan {
    type V = ImplPlanModel;

    open spec fn deep_view(&self) -> ImplPlanModel {
        ImplPlanModel {
            name: self.name@,
            generics: self.generics.deep_view(),
            to_device: self.to_device.deep_view(),
            to_kind: self.to_kind.deep_view(),
            shallow_clone: self.shallow_clone.deep_view(),
        }
    }
}

/// The expression generated for one field: a duplicating strategy is
/// duplicated verbatim whatever the operation; the default strategy recurses
/// through the capability trait with the operation itself.
pub open spec fn spec_field_expr(strategy: FieldStrategy, op: Operation) -> FieldExpr {
    match strategy {
        FieldStrategy::CloneDuplicate => FieldExpr::CloneCall,
        FieldStrategy::CopyDuplicate => FieldExpr::Deref,
        FieldStrategy::Recurse => match op {
            Operation::ToDevice => FieldExpr::RecurseToDevice,
            Operation::ToKind => FieldExpr::RecurseToKind,
            Operation::ShallowClone => FieldExpr::RecurseShallowClone,
        },
    }
}

/// The initialisers of a named reconstruction: one per field, at the field's
/// position, under the field's name.
pub open spec fn spec_named_inits(fs: Seq<NamedFieldModel>, op: Operation) -> Seq<FieldInitModel> {
    Seq::new(
        fs.len(),
        |i: int|
            FieldInitModel {
                index: fs[i].index,
                name: Some(fs[i].name),
                expr: spec_field_expr(fs[i].strategy, op),
            },
    )
}

/// The initialisers of a positional reconstruction.
pub open spec fn spec_positional_inits(fs: Seq<PositionalFieldModel>, op: Operation) -> Seq<
    FieldInitModel,
> {
    Seq::new(
        fs.len(),
        |i: int|
            FieldInitModel {
                index: fs[i].index,
                name: None,
                expr: spec_field_expr(fs[i].strategy, op),
            },
    )
}

/// The generated arm body for one variant.
pub open spec fn spec_arm_body(fs: VariantFieldsModel, op: Operation) -> ArmBodyModel {
    match fs {
        VariantFieldsModel::Record(fds) => ArmBodyModel::Record(spec_named_inits(fds, op)),
        VariantFieldsModel::Tuple(fds) => ArmBodyModel::Tuple(spec_positional_inits(fds, op)),
        VariantFieldsModel::Unit => ArmBodyModel::Unit,
    }
}

/// The generated arms of a union: one per variant, in declaration order,
/// each rebuilding its own variant.
pub open spec fn spec_arm_plans(vars: Seq<VariantShapeModel>, op: Operation) -> Seq<ArmPlanModel> {
    Seq::new(
        vars.len(),
        |i: int| ArmPlanModel { variant: vars[i].name, body: spec_arm_body(vars[i].fields, op) },
    )
}

/// What the generator emits for one shape and one operation.
pub open spec fn spec_derive_impl(shape: ShapeModel, op: Operation) -> BodyPlanModel {
    match shape {
        ShapeModel::Record(fds) => BodyPlanModel::Record(spec_named_inits(fds, op)),
        ShapeModel::Tuple(fds) => BodyPlanModel::Tuple(spec_positional_inits(fds, op)),
        ShapeModel::Unit => BodyPlanModel::Unit,
        ShapeModel::Union(vars) => BodyPlanModel::Match(spec_arm_plans(vars, op)),
    }
}

/// What one generated method is: fallible exactly for the two conversions,
/// with the body the generator emits for the operation.
pub open spec fn spec_method_plan(shape: ShapeModel, op: Operation) -> MethodPlanModel {
    MethodPlanModel { op, fallible: !(op is ShallowClone), body: spec_derive_impl(shape, op) }
}

/// The capability bound is attached to every type parameter — a parameter
/// the fields never use still gets it, a deliberate over-approximation — and
/// to nothing else; names, kinds and order are kept.
pub open spec fn spec_add_trait_bounds(gs: Seq<GenericParamModel>) -> Seq<GenericParamModel> {
    Seq::new(
        gs.len(),
        |i: int|
            GenericParamModel {
                name: gs[i].name,
                kind: gs[i].kind,
                has_capability_bound: if gs[i].kind is TypeParam {
                    true
                } else {
                    gs[i].has_capability_bound
                },
            },
    )
}

/// What deriving the capability impl for a definition yields: the three
/// method bodies for the analysed shape, under the bounded generics — or the
/// analyser's first rejection.
pub open spec fn spec_parse_tensor_like(def: TypeDefModel) -> Result<
    ImplPlanModel,
    DeriveErrorModel,
> {
    match spec_analyze(def) {
        Err(e) => Err(e),
        Ok(shape) => Ok(
            ImplPlanModel {
                name: def.name,
                generics: spec_add_trait_bounds(def.generics),
                to_device: spec_method_plan(shape, Operation::ToDevice),
                to_kind: spec_method_plan(shape, Operation::ToKind),
                shallow_clone: spec_method_plan(shape, Operation::ShallowClone),
            },
        ),
    }
}

/// Generate the initialisers of a named reconstruction.
fn named_inits(fs: &Vec<NamedField>, op: Operation) -> (r: Vec<FieldInit>)
    ensures
        r.deep_view() == spec_named_inits(fs.deep_view(), op),
{
    let mut out: Vec<FieldInit> = Vec::new();
    let mut i: usize = 0;
    while i < fs.len()
        invariant
            i <= fs@.len(),
            out@.len() == i as int,
            forall|j: int|
                0 <= j < i ==> (#[trigger] out@[j].deep_view()) == (FieldInitModel {
                    index: fs@[j].deep_view().index,
                    name: Some(fs@[j].deep_view().name),
                    expr: spec_field_expr(fs@[j].deep_view().strategy, op),
                }),
        decreases fs@.len() - i,
    {
        let f = &fs[i];
        let expr = match f.strategy {
            FieldStrategy::CloneDuplicate => FieldExpr::CloneCall,
            FieldStrategy::CopyDuplicate => FieldExpr::Deref,
            FieldStrategy::Recurse => match op {
                Operation::ToDevice => FieldExpr::RecurseToDevice,
                Operation::ToKind => FieldExpr::RecurseToKind,
                Operation::ShallowClone => FieldExpr::RecurseShallowClone,
            },
        };
        out.push(FieldInit { index: f.index, name: Some(f.name.clone()), expr });
        i = i + 1;
    }
    proof {
        assert forall|k: int| 0 <= k < fs@.len() implies #[trigger] fs.deep_view()[k] == fs@[
            k
        ].deep_view() by {}
        assert forall|k: int| 0 <= k < out@.len() implies #[trigger] out.deep_view()[k] == out@[
            k
        ].deep_view() by {}
        assert(out.deep_view() =~= spec_named_inits(fs.deep_view(), op));
    }
    out
}

/// Generate the initialisers of a positional reconstruction.
fn positional_inits(fs: &Vec<PositionalField>, op: Operation) -> (r: Vec<FieldInit>)
    ensures
        r.deep_view() == spec_positional_inits(fs.deep_view(), op),
{
    let mut out: Vec<FieldInit> = Vec::new();
    let mut i: usize = 0;
    while i < fs.len()
        invariant
            i <= fs@.len(),
            out@.len() == i as int,
            forall|j: int|
                0 <= j < i ==> (#[trigger] out@[j].deep_view()) == (FieldInitModel {
                    index: fs@[j].deep_view().index,
                    name: None,
                    expr: spec_field_expr(fs@[j].deep_view().strategy, op),
                }),
        decreases fs@.len() - i,
    {
        let f = &fs[i];
        let expr = match f.strategy {
            FieldStrategy::CloneDuplicate => FieldExpr::CloneCall,
            FieldStrategy::CopyDuplicate => FieldExpr::Deref,
            FieldStrategy::Recurse => match op {
                Operation::ToDevice => FieldExpr::RecurseToDevice,
                Operation::ToKind => FieldExpr::RecurseToKind,
                Operation::ShallowClone => FieldExpr::RecurseShallowClone,
            },
        };
        out.push(FieldInit { index: f.index, name: None, expr });
        i = i + 1;
    }
    proof {
        assert forall|k: int| 0 <= k < fs@.len() implies #[trigger] fs.deep_view()[k] == fs@[
            k
        ].deep_view() by {}
        assert forall|k: int| 0 <= k < out@.len() implies #[trigger] out.deep_view()[k] == out@[
            k
        ].deep_view() by {}
        assert(out.deep_view() =~= spec_positional_inits(fs.deep_view(), op));
    }
    out
}

/// Generate the body of one variant arm.
fn arm_body(fs: &VariantFields, op: Operation) -> (r: ArmBody)
    ensures
        r.deep_view() == spec_arm_body(fs.deep_view(), op),
{
    match fs {
        VariantFields::Record(fds) => ArmBody::Record(named_inits(fds, op)),
        VariantFields::Tuple(fds) => ArmBody::Tuple(positional_inits(fds, op)),
        VariantFields::Unit => ArmBody::Unit,
    }
}

/// Generate the arms of a union: one per variant, in declaration order.
fn arm_plans(vars: &Vec<VariantShape>, op: Operation) -> (r: Vec<ArmPlan>)
    ensures
        r.deep_view() == spec_arm_plans(vars.deep_view(), op),
{
    let mut out: Vec<ArmPlan> = Vec::new();
    let mut i: usize = 0;
    while i < vars.len()
        invariant
            i <= vars@.len(),
            out@.len() == i as int,
            forall|j: int|
                0 <= j < i ==> (#[trigger] out@[j].deep_view()) == (ArmPlanModel {
                    variant: vars@[j].deep_view().name,
                    body: spec_arm_body(vars@[j].deep_view().fields, op),
                }),
        decreases vars@.len() - i,
    {
        proof {
            assert(vars.deep_view()[i as int] == vars@[i as int].deep_view());
        }
        let v = &vars[i];
        let body = arm_body(&v.fields, op);
        out.push(ArmPlan { variant: v.name.clone(), body });
        i = i + 1;
    }
    proof {
        assert forall|k: int| 0 <= k < vars@.len() implies #[trigger] vars.deep_view()[k] == vars@[
            k
        ].deep_view() by {}
        assert forall|k: int| 0 <= k < out@.len() implies #[trigger] out.deep_view()[k] == out@[
            k
        ].deep_view() by {}
        assert(out.deep_view() =~= spec_arm_plans(vars.deep_view(), op));
    }
    out
}

/// Generate the body of one method for one shape: destructure, transform
/// each field by its strategy, rebuild in declaration order; one arm per
/// variant for a union.
pub fn derive_impl(shape: &TypeShape, op: Operation) -> (r: BodyPlan)
    ensures
        r.deep_view() == spec_derive_impl(shape.deep_view(), op),
{
    match shape {
        TypeShape::Record(fds) => BodyPlan::Record(named_inits(fds, op)),
        TypeShape::Tuple(fds) => BodyPlan::Tuple(positional_inits(fds, op)),
        TypeShape::Unit => BodyPlan::Unit,
        TypeShape::Union(vars) => BodyPlan::Match(arm_plans(vars, op)),
    }
}

/// Generate the device-conversion method: the generated reconstruction,
/// wrapped in `Ok`, with each recursive step propagating failure.
pub fn derive_f_to_device_impl(shape: &TypeShape) -> (r: MethodPlan)
    ensures
        r.deep_view() == spec_method_plan(shape.deep_view(), Operation::ToDevice),
{
    MethodPlan { op: Operation::ToDevice, fallible: true, body: derive_impl(shape, Operation::ToDevice) }
}

/// Generate the kind-conversion method, wrapped in `Ok` like the device
/// conversion.
pub fn derive_f_to_kind_impl(shape: &TypeShape) -> (r: MethodPlan)
    ensures
        r.deep_view() == spec_method_plan(shape.deep_view(), Operation::ToKind),
{
    MethodPlan { op: Operation::ToKind, fallible: true, body: derive_impl(shape, Operation::ToKind) }
}

/// Generate the shallow-clone method: infallible, so the reconstruction is
/// returned bare.
pub fn derive_shallow_clone_impl(shape: &TypeShape) -> (r: MethodPlan)
    ensures
        r.deep_view() == spec_method_plan(shape.deep_view(), Operation::ShallowClone),
{
    MethodPlan {
        op: Operation::ShallowClone,
        fallible: false,
        body: derive_impl(shape, Operation::ShallowClone),
    }
}

/// Attach the capability bound to every type parameter: fields of a
/// parameter's type must themselves support the three operations, so every
/// type parameter is bounded, used or not.
pub fn add_trait_bounds(generics: Vec<GenericParamDef>) -> (r: Vec<GenericParamDef>)
    ensures
        r.deep_view() == spec_add_trait_bounds(generics.deep_view()),
{
    let mut out: Vec<GenericParamDef> = Vec::new();
    let mut i: usize = 0;
    while i < generics.len()
        invariant
            i <= generics@.len(),
            out@.len() == i as int,
            forall|j: int|
                0 <= j < i ==> (#[trigger] out@[j].deep_view()) == (GenericParamModel {
                    name: generics@[j].deep_view().name,
                    kind: generics@[j].deep_view().kind,
                    has_capability_bound: if generics@[j].deep_view().kind is TypeParam {
                        true
                    } else {
                        generics@[j].deep_view().has_capability_bound
                    },
                }),
        decreases generics@.len() - i,
    {
        let g = &generics[i];
        let bounded = match g.kind {
            GenericParamKind::TypeParam => true,
            GenericParamKind::LifetimeParam => g.has_capability_bound,
            GenericParamKind::ConstParam => g.has_capability_bound,
        };
        out.push(
            GenericParamDef { name: g.name.clone(), kind: g.kind, has_capability_bound: bounded },
        );
        i = i + 1;
    }
    proof {
        assert forall|k: int| 0 <= k < generics@.len() implies #[trigger] generics.deep_view()[k]
            == generics@[k].deep_view() by {}
        assert forall|k: int| 0 <= k < out@.len() implies #[trigger] out.deep_view()[k] == out@[
            k
        ].deep_view() by {}
        assert(out.deep_view() =~= spec_add_trait_bounds(generics.deep_view()));
    }
    out
}

/// Derive the whole capability impl for one type definition: analyse the
/// shape, bound the generics, and generate the three method bodies — or
/// report the analyser's first rejection, leaving other types unaffected.
pub fn parse_tensor_like(def: TypeDef) -> (r: Result<ImplPlan, DeriveError>)
    requires
        def.deep_view().wf(),
    ensures
        (r matches Ok(p) ==> spec_parse_tensor_like(def.deep_view()) == Ok::<
            ImplPlanModel,
            DeriveErrorModel,
        >(p.deep_view())),
        (r matches Err(e) ==> spec_parse_tensor_like(def.deep_view()) == Err::<
            ImplPlanModel,
            DeriveErrorModel,
        >(e.deep_view())),
{
    let shape = match analyze(&def) {
        Ok(s) => s,
        Err(e) => {
            return Err(e);
        },
    };
    let to_device = derive_f_to_device_impl(&shape);
    let to_kind = derive_f_to_kind_impl(&shape);
    let shallow_clone = derive_shallow_clone_impl(&shape);
    let TypeDef { name, generics, .. } = def;
    Ok(
        ImplPlan {
            name,
            generics: add_trait_bounds(generics),
            to_device,
            to_kind,
            shallow_clone,
        },
    )
}

} // verus!
