//! The laws of the derivation and of the traversal.
//!
//! These proof functions state, over the mathematical models, what the
//! crate guarantees.  Of the engine: shallow duplication is the identity,
//! transformation is element-wise, keys of maps are kept, fields under a
//! duplicating strategy are bypassed, and the first failing step is the
//! whole traversal's failure.  Of the analyser: the two duplicating
//! strategies are mutually exclusive and absence of both defaults to
//! recursion.  Of the generator: reconstructions preserve declaration
//! order, unions are covered with exactly one arm per variant, and the
//! generated expressions mean, step for step, exactly what the engine does.

use vstd::prelude::*;

use crate::analyze::{
    clone_word, copy_word, marker_path, scan_attrs, scan_marker_items, spec_parse_field_attrs,
    DeriveErrorModel,
};
use crate::engine::{
    spec_apply, spec_apply_entries, spec_apply_field, spec_apply_fields, spec_apply_seq,
    EntryModel, FieldModel, TraversalOp, ValModel,
};
use crate::generate::{
    spec_arm_body, spec_arm_plans, spec_derive_impl, spec_field_expr, spec_named_inits,
    spec_positional_inits, BodyPlanModel, FieldExpr, FieldInitModel, Operation,
};
use crate::input::{AttrItemModel, AttrMetaModel, AttrModel, Span};
use crate::runtime::{Device, Kind, Runtime, RuntimeError};
use crate::shape::{
    positional_fields_indexed, FieldStrategy, NamedFieldModel, PositionalFieldModel, ShapeModel,
    VariantShapeModel,
};

verus! {

/// Shallow duplication is the identity on the model of every value, and it
/// never fails.  In particular, duplicating a value all of whose leaves are
/// primitives and comparing structurally gives back the original.
pub proof fn lemma_shallow_clone_identity(rt: Runtime, m: ValModel)
    ensures
        spec_apply(rt, m, TraversalOp::ShallowClone) == Ok::<ValModel, RuntimeError>(m),
    decreases m,
{
    match m {
        ValModel::List(items) => {
            lemma_shallow_clone_identity_seq(rt, items);
        },
        ValModel::Dict(entries) => {
            lemma_shallow_clone_identity_entries(rt, entries);
        },
        ValModel::Opt(o) => {
            if o is Some {
                lemma_shallow_clone_identity(rt, *o->0);
            }
        },
        ValModel::Record(fields) => {
            lemma_shallow_clone_identity_fields(rt, fields);
        },
        ValModel::Variant(_, fields) => {
            lemma_shallow_clone_identity_fields(rt, fields);
        },
        _ => {},
    }
}

/// Shallow duplication is the identity on a sequence of values.
pub proof fn lemma_shallow_clone_identity_seq(rt: Runtime, s: Seq<ValModel>)
    ensures
        spec_apply_seq(rt, s, TraversalOp::ShallowClone) == Ok::<Seq<ValModel>, RuntimeError>(s),
    decreases s,
{
    if s.len() > 0 {
        lemma_shallow_clone_identity(rt, s[0]);
        lemma_shallow_clone_identity_seq(rt, s.drop_first());
        assert(seq![s[0]] + s.drop_first() =~= s);
    } else {
        assert(s =~= Seq::<ValModel>::empty());
    }
}

/// Shallow duplication is the identity on map entries.
pub proof fn lemma_shallow_clone_identity_entries(rt: Runtime, s: Seq<EntryModel>)
    ensures
        spec_apply_entries(rt, s, TraversalOp::ShallowClone) == Ok::<
            Seq<EntryModel>,
            RuntimeError,
        >(s),
    decreases s,
{
    if s.len() > 0 {
        lemma_shallow_clone_identity(rt, s[0].value);
        lemma_shallow_clone_identity_entries(rt, s.drop_first());
        assert(seq![EntryModel { key: s[0].key, value: s[0].value }] + s.drop_first() =~= s);
    } else {
        assert(s =~= Seq::<EntryModel>::empty());
    }
}

/// Shallow duplication is the identity on a field table, whatever the
/// strategies.
pub proof fn lemma_shallow_clone_identity_fields(rt: Runtime, s: Seq<FieldModel>)
    ensures
        spec_apply_fields(rt, s, TraversalOp::ShallowClone) == Ok::<
            Seq<FieldModel>,
            RuntimeError,
        >(s),
    decreases s,
{
    if s.len() > 0 {
        lemma_shallow_clone_identity(rt, s[0].value);
        assert(spec_apply_field(rt, s[0], TraversalOp::ShallowClone) == Ok::<
            ValModel,
            RuntimeError,
        >(s[0].value));
        lemma_shallow_clone_identity_fields(rt, s.drop_first());
        assert(seq![FieldModel { strategy: s[0].strategy, value: s[0].value }] + s.drop_first()
            =~= s);
    } else {
        assert(s =~= Seq::<FieldModel>::empty());
    }
}

/// The element-wise reading of a sequence traversal: a successful result has
/// one element per input element, each the transform of the input at the same
/// position; and when every element succeeds, so does the sequence.
pub proof fn lemma_apply_seq_elementwise(rt: Runtime, s: Seq<ValModel>, op: TraversalOp)
    ensures
        spec_apply_seq(rt, s, op) matches Ok(t) ==> {
            &&& t.len() == s.len()
            &&& forall|i: int|
                0 <= i < s.len() ==> spec_apply(rt, s[i], op) == Ok::<ValModel, RuntimeError>(
                    t[i],
                )
        },
        (forall|i: int| 0 <= i < s.len() ==> spec_apply(rt, s[i], op) is Ok) ==> spec_apply_seq(
            rt,
            s,
            op,
        ) is Ok,
    decreases s,
{
    if s.len() > 0 {
        lemma_apply_seq_elementwise(rt, s.drop_first(), op);
        assert forall|i: int| 0 <= i < s.len() && i > 0 implies s.drop_first()[i - 1] == s[i] by {}
    }
}

/// The first failing element of a sequence is the sequence's failure.
pub proof fn lemma_apply_seq_fail_fast(rt: Runtime, s: Seq<ValModel>, op: TraversalOp, j: int)
    requires
        0 <= j < s.len(),
        spec_apply(rt, s[j], op) is Err,
        forall|k: int| 0 <= k < j ==> spec_apply(rt, s[k], op) is Ok,
    ensures
        spec_apply(rt, s[j], op) matches Err(e) ==> spec_apply_seq(rt, s, op) == Err::<
            Seq<ValModel>,
            RuntimeError,
        >(e),
    decreases s,
{
    if j > 0 {
        lemma_apply_seq_fail_fast(rt, s.drop_first(), op, j - 1);
        assert forall|k: int| 0 <= k < j - 1 implies spec_apply(rt, s.drop_first()[k], op) is Ok by {
            assert(s.drop_first()[k] == s[k + 1]);
        }
        assert(s.drop_first()[j - 1] == s[j]);
    }
}

/// The element-wise reading of a map traversal: a successful result keeps
/// every key at its position and transforms every value; and when every value
/// succeeds, so does the map.
pub proof fn lemma_apply_entries_elementwise(rt: Runtime, s: Seq<EntryModel>, op: TraversalOp)
    ensures
        spec_apply_entries(rt, s, op) matches Ok(t) ==> {
            &&& t.len() == s.len()
            &&& forall|i: int|
                0 <= i < s.len() ==> t[i].key == s[i].key && spec_apply(rt, s[i].value, op)
                    == Ok::<ValModel, RuntimeError>(t[i].value)
        },
        (forall|i: int| 0 <= i < s.len() ==> spec_apply(rt, s[i].value, op) is Ok)
            ==> spec_apply_entries(rt, s, op) is Ok,
    decreases s,
{
    if s.len() > 0 {
        lemma_apply_entries_elementwise(rt, s.drop_first(), op);
        assert forall|i: int| 0 <= i < s.len() && i > 0 implies s.drop_first()[i - 1] == s[i] by {}
    }
}

/// The first failing value of a map is the map's failure.
pub proof fn lemma_apply_entries_fail_fast(rt: Runtime, s: Seq<EntryModel>, op: TraversalOp, j: int)
    requires
        0 <= j < s.len(),
        spec_apply(rt, s[j].value, op) is Err,
        forall|k: int| 0 <= k < j ==> spec_apply(rt, s[k].value, op) is Ok,
    ensures
        spec_apply(rt, s[j].value, op) matches Err(e) ==> spec_apply_entries(rt, s, op) == Err::<
            Seq<EntryModel>,
            RuntimeError,
        >(e),
    decreases s,
{
    if j > 0 {
        lemma_apply_entries_fail_fast(rt, s.drop_first(), op, j - 1);
        assert forall|k: int| 0 <= k < j - 1 implies spec_apply(
            rt,
            s.drop_first()[k].value,
            op,
        ) is Ok by {
            assert(s.drop_first()[k] == s[k + 1]);
        }
        assert(s.drop_first()[j - 1] == s[j]);
    }
}

/// Order preservation over a field table: a successful traversal has one
/// field per input field, never reordered and never cross-assigned — the
/// field at position `i` keeps its strategy and holds exactly the transform
/// of the input's field at position `i`; a field under a duplicating strategy
/// holds the input's value verbatim.  And when every field step succeeds, so
/// does the table.
pub proof fn lemma_apply_fields_elementwise(rt: Runtime, s: Seq<FieldModel>, op: TraversalOp)
    ensures
        spec_apply_fields(rt, s, op) matches Ok(t) ==> {
            &&& t.len() == s.len()
            &&& forall|i: int|
                0 <= i < s.len() ==> t[i].strategy == s[i].strategy && spec_apply_field(
                    rt,
                    s[i],
                    op,
                ) == Ok::<ValModel, RuntimeError>(t[i].value)
        },
        (forall|i: int| 0 <= i < s.len() ==> spec_apply_field(rt, s[i], op) is Ok)
            ==> spec_apply_fields(rt, s, op) is Ok,
    decreases s,
{
    if s.len() > 0 {
        lemma_apply_fields_elementwise(rt, s.drop_first(), op);
        assert forall|i: int| 0 <= i < s.len() && i > 0 implies s.drop_first()[i - 1] == s[i] by {}
    }
}

/// The first failing field step of a composite is the composite's failure:
/// no partial reconstruction is observable.
pub proof fn lemma_apply_fields_fail_fast(rt: Runtime, s: Seq<FieldModel>, op: TraversalOp, j: int)
    requires
        0 <= j < s.len(),
        spec_apply_field(rt, s[j], op) is Err,
        forall|k: int| 0 <= k < j ==> spec_apply_field(rt, s[k], op) is Ok,
    ensures
        spec_apply_field(rt, s[j], op) matches Err(e) ==> spec_apply_fields(rt, s, op) == Err::<
            Seq<FieldModel>,
            RuntimeError,
        >(e),
    decreases s,
{
    if j > 0 {
        lemma_apply_fields_fail_fast(rt, s.drop_first(), op, j - 1);
        assert forall|k: int| 0 <= k < j - 1 implies spec_apply_field(
            rt,
            s.drop_first()[k],
            op,
        ) is Ok by {
            assert(s.drop_first()[k] == s[k + 1]);
        }
        assert(s.drop_first()[j - 1] == s[j]);
    }
}

/// A field under a duplicating strategy is excluded from the operation's
/// semantic effect: whatever the operation, a successful traversal hands the
/// field's value through verbatim.
pub proof fn lemma_duplicating_strategy_bypasses(
    rt: Runtime,
    s: Seq<FieldModel>,
    op: TraversalOp,
    i: int,
)
    requires
        0 <= i < s.len(),
        !(s[i].strategy is Recurse),
    ensures
        spec_apply_fields(rt, s, op) matches Ok(t) ==> t[i] == s[i],
    decreases s,
{
    lemma_apply_fields_elementwise(rt, s, op);
}

/// An empty sequential container and an empty map transform to themselves
/// under every operation.
pub proof fn lemma_empty_container(rt: Runtime, op: TraversalOp)
    ensures
        spec_apply(rt, ValModel::List(Seq::empty()), op) == Ok::<ValModel, RuntimeError>(
            ValModel::List(Seq::empty()),
        ),
        spec_apply(rt, ValModel::Dict(Seq::empty()), op) == Ok::<ValModel, RuntimeError>(
            ValModel::Dict(Seq::empty()),
        ),
{
    assert(spec_apply_seq(rt, Seq::<ValModel>::empty(), op) == Ok::<Seq<ValModel>, RuntimeError>(
        Seq::empty(),
    ));
    assert(spec_apply_entries(rt, Seq::<EntryModel>::empty(), op) == Ok::<
        Seq<EntryModel>,
        RuntimeError,
    >(Seq::empty()));
}

/// Whether some item of one marker list is the bare word `w`.
pub open spec fn items_request(items: Seq<AttrItemModel>, w: Seq<char>) -> bool
    decreases items,
{
    if items.len() == 0 {
        false
    } else {
        items[0] == AttrItemModel::Word(w) || items_request(items.drop_first(), w)
    }
}

/// Whether some marker attribute among a field's attributes carries the
/// bare word `w` in its list.
pub open spec fn marker_requests(attrs: Seq<AttrModel>, w: Seq<char>) -> bool
    decreases attrs,
{
    if attrs.len() == 0 {
        false
    } else {
        (attrs[0].path == marker_path() && match attrs[0].meta {
            AttrMetaModel::List(items) => items_request(items, w),
            AttrMetaModel::NotList => false,
            AttrMetaModel::Unparsable => false,
        }) || marker_requests(attrs.drop_first(), w)
    }
}

/// How one marker list moves the request flags: a successful fold sets the
/// clone flag exactly when it was set or the list asks for `clone`, likewise
/// for `copy`, and never leaves both set.
proof fn lemma_items_flags(items: Seq<AttrItemModel>, span: Span, c: bool, p: bool)
    requires
        !(c && p),
    ensures
        scan_marker_items(items, span, c, p) matches Ok(fl) ==> {
            &&& fl.0 == (c || items_request(items, clone_word()))
            &&& fl.1 == (p || items_request(items, copy_word()))
            &&& !(fl.0 && fl.1)
        },
    decreases items,
{
    reveal_strlit("clone");
    reveal_strlit("copy");
    assert("clone"@.len() == 5);
    assert("copy"@.len() == 4);
    assert(clone_word() != copy_word());
    if items.len() > 0 {
        match items[0] {
            AttrItemModel::Word(w) => {
                if w == clone_word() {
                    if !p {
                        lemma_items_flags(items.drop_first(), span, true, p);
                    }
                } else if w == copy_word() {
                    if !c {
                        lemma_items_flags(items.drop_first(), span, c, true);
                    }
                }
            },
            AttrItemModel::NotWord => {},
        }
    }
}

/// How a field's attributes move the request flags: a successful fold never
/// sees both duplicating strategies requested, and the resulting strategy is
/// settled by which of the two was asked for.
proof fn lemma_attrs_flags(attrs: Seq<AttrModel>, c: bool, p: bool)
    requires
        !(c && p),
    ensures
        scan_attrs(attrs, c, p) matches Ok(s) ==> {
            let c2 = c || marker_requests(attrs, clone_word());
            let p2 = p || marker_requests(attrs, copy_word());
            &&& !(c2 && p2)
            &&& s == (if p2 {
                FieldStrategy::CopyDuplicate
            } else if c2 {
                FieldStrategy::CloneDuplicate
            } else {
                FieldStrategy::Recurse
            })
        },
    decreases attrs,
{
    if attrs.len() > 0 {
        let a = attrs[0];
        if a.path != marker_path() {
            lemma_attrs_flags(attrs.drop_first(), c, p);
        } else {
            match a.meta {
                AttrMetaModel::List(items) => {
                    lemma_items_flags(items, a.span, c, p);
                    match scan_marker_items(items, a.span, c, p) {
                        Ok(fl) => {
                            lemma_attrs_flags(attrs.drop_first(), fl.0, fl.1);
                        },
                        Err(_) => {},
                    }
                },
                AttrMetaModel::NotList => {},
                AttrMetaModel::Unparsable => {},
            }
        }
    }
}

/// Strategy exclusivity: a field whose markers request both `clone` and
/// `copy` is rejected at generation time; a field whose markers request
/// neither defaults to the recursive strategy, whose compile-time obligation
/// is that the field's type satisfies the capability trait.
pub proof fn lemma_strategy_exclusivity(attrs: Seq<AttrModel>)
    ensures
        marker_requests(attrs, clone_word()) && marker_requests(attrs, copy_word())
            ==> spec_parse_field_attrs(attrs) is Err,
        !marker_requests(attrs, clone_word()) && !marker_requests(attrs, copy_word()) ==> (
        spec_parse_field_attrs(attrs) matches Ok(s) ==> s == FieldStrategy::Recurse),
{
    lemma_attrs_flags(attrs, false, false);
}

/// Order preservation at generation time: for a positional shape with
/// fields `(f0, ..., fn)`, the generated reconstruction has exactly one
/// initialiser per field, and the initialiser at position `i` rebuilds
/// position `i` from the binding `_i` with the transform of field `i`'s own
/// strategy — never reordered, never cross-assigned.
pub proof fn lemma_order_preservation(fs: Seq<PositionalFieldModel>, op: Operation)
    requires
        positional_fields_indexed(fs),
    ensures
        spec_derive_impl(ShapeModel::Tuple(fs), op) == BodyPlanModel::Tuple(
            spec_positional_inits(fs, op),
        ),
        spec_positional_inits(fs, op).len() == fs.len(),
        forall|i: int|
            0 <= i < fs.len() ==> (#[trigger] spec_positional_inits(fs, op)[i]).index == i
                && spec_positional_inits(fs, op)[i].expr == spec_field_expr(fs[i].strategy, op),
{
}

/// Union coverage: for a tagged union the generator emits a match over the
/// declared variants with exactly one reconstruction arm per variant — the
/// arm at position `i` carries variant `i`'s name and rebuilds exactly
/// variant `i`'s fields — and no default arm, so a variant added without
/// regeneration fails to compile rather than falling through.
pub proof fn lemma_union_coverage(vars: Seq<VariantShapeModel>, op: Operation)
    ensures
        spec_derive_impl(ShapeModel::Union(vars), op) == BodyPlanModel::Match(
            spec_arm_plans(vars, op),
        ),
        spec_arm_plans(vars, op).len() == vars.len(),
        forall|i: int|
            0 <= i < vars.len() ==> (#[trigger] spec_arm_plans(vars, op)[i]).variant == vars[
                i
            ].name && spec_arm_plans(vars, op)[i].body == spec_arm_body(vars[i].fields, op),
{
}

/// The traversal operation a generated method performs once its run-time
/// argument is supplied.
pub open spec fn op_as_traversal(op: Operation, device: Device, kind: Kind) -> TraversalOp {
    match op {
        Operation::ToDevice => TraversalOp::ToDevice(device),
        Operation::ToKind => TraversalOp::ToKind(kind),
        Operation::ShallowClone => TraversalOp::ShallowClone,
    }
}

/// What one generated field expression yields at run time on one field
/// value: the recursive capability calls traverse the value under the
/// method's operation, and both duplicating expressions hand the value
/// through unchanged.
pub open spec fn spec_field_expr_means(
    rt: Runtime,
    e: FieldExpr,
    m: ValModel,
    device: Device,
    kind: Kind,
) -> Result<ValModel, RuntimeError> {
    match e {
        FieldExpr::RecurseToDevice => spec_apply(rt, m, TraversalOp::ToDevice(device)),
        FieldExpr::RecurseToKind => spec_apply(rt, m, TraversalOp::ToKind(kind)),
        FieldExpr::RecurseShallowClone => spec_apply(rt, m, TraversalOp::ShallowClone),
        FieldExpr::CloneCall => Ok(m),
        FieldExpr::Deref => Ok(m),
    }
}

/// The generated code means what the engine does: for every strategy, every
/// operation and every field value, the expression the generator emits for
/// the field yields exactly what the engine's field step yields under the
/// operation with its run-time argument supplied.
pub proof fn lemma_generated_expr_meaning(
    rt: Runtime,
    strategy: FieldStrategy,
    m: ValModel,
    op: Operation,
    device: Device,
    kind: Kind,
)
    ensures
        spec_field_expr_means(rt, spec_field_expr(strategy, op), m, device, kind)
            == spec_apply_field(
            rt,
            FieldModel { strategy, value: m },
            op_as_traversal(op, device, kind),
        ),
{
}

/// What a generated initialiser list yields on the destructured bindings of
/// a value: the initialisers run in declaration order, each reading the
/// binding its `index` names, and the first failing step aborts the whole
/// reconstruction.
pub open spec fn spec_inits_means(
    rt: Runtime,
    inits: Seq<FieldInitModel>,
    bindings: Seq<ValModel>,
    device: Device,
    kind: Kind,
) -> Result<Seq<ValModel>, RuntimeError>
    decreases inits,
{
    if inits.len() == 0 {
        Ok(Seq::empty())
    } else {
        match spec_field_expr_means(rt, inits[0].expr, bindings[inits[0].index], device, kind) {
            Err(e) => Err(e),
            Ok(v0) => match spec_inits_means(rt, inits.drop_first(), bindings, device, kind) {
                Err(e) => Err(e),
                Ok(rest) => Ok(seq![v0] + rest),
            },
        }
    }
}

/// The field table a conforming value registers for a positional shape: the
/// shape's strategy on the binding each field's position names.
pub open spec fn field_table(fs: Seq<PositionalFieldModel>, bindings: Seq<ValModel>) -> Seq<
    FieldModel,
> {
    Seq::new(fs.len(), |i: int| FieldModel { strategy: fs[i].strategy, value: bindings[fs[i].index] })
}

/// The same table with each field's value replaced by a result value.
pub open spec fn table_with_results(fs: Seq<PositionalFieldModel>, results: Seq<ValModel>) -> Seq<
    FieldModel,
> {
    Seq::new(fs.len(), |i: int| FieldModel { strategy: fs[i].strategy, value: results[i] })
}

/// The generated reconstruction means exactly what the engine does.  For a
/// positional shape over bindings that its field indexes name, running the
/// generated initialisers step for step yields the same outcome as the
/// engine's traversal of the value's field table: on success the same
/// transformed fields in the same order under the same strategies, and
/// otherwise the same first failure.  For a well-formed shape the indexes
/// are the declaration positions, so the bindings are the value's fields.
pub proof fn lemma_generated_reconstruction_meaning(
    rt: Runtime,
    fs: Seq<PositionalFieldModel>,
    bindings: Seq<ValModel>,
    op: Operation,
    device: Device,
    kind: Kind,
)
    requires
        forall|i: int| 0 <= i < fs.len() ==> 0 <= (#[trigger] fs[i].index) < bindings.len(),
    ensures
        ({
            let lhs = spec_inits_means(rt, spec_positional_inits(fs, op), bindings, device, kind);
            let rhs = spec_apply_fields(
                rt,
                field_table(fs, bindings),
                op_as_traversal(op, device, kind),
            );
            &&& (lhs matches Err(e) ==> rhs == Err::<Seq<FieldModel>, RuntimeError>(e))
            &&& (lhs matches Ok(t) ==> t.len() == fs.len() && rhs == Ok::<
                Seq<FieldModel>,
                RuntimeError,
            >(table_with_results(fs, t)))
        }),
    decreases fs,
{
    let tv = op_as_traversal(op, device, kind);
    let inits = spec_positional_inits(fs, op);
    let table = field_table(fs, bindings);
    if fs.len() == 0 {
        assert(inits =~= Seq::<FieldInitModel>::empty());
        assert(table =~= Seq::<FieldModel>::empty());
        assert(spec_inits_means(rt, inits, bindings, device, kind) == Ok::<
            Seq<ValModel>,
            RuntimeError,
        >(Seq::empty()));
        assert(spec_apply_fields(rt, table, tv) == Ok::<Seq<FieldModel>, RuntimeError>(
            Seq::empty(),
        ));
        assert(table_with_results(fs, Seq::empty()) =~= Seq::<FieldModel>::empty());
    } else {
        lemma_generated_expr_meaning(rt, fs[0].strategy, bindings[fs[0].index], op, device, kind);
        assert(inits[0] == (FieldInitModel {
            index: fs[0].index,
            name: None::<Seq<char>>,
            expr: spec_field_expr(fs[0].strategy, op),
        }));
        assert(table[0] == (FieldModel { strategy: fs[0].strategy, value: bindings[fs[0].index] }));
        let head = spec_field_expr_means(rt, inits[0].expr, bindings[inits[0].index], device, kind);
        assert(head == spec_apply_field(rt, table[0], tv));

        lemma_generated_reconstruction_meaning(rt, fs.drop_first(), bindings, op, device, kind);
        assert(inits.drop_first() =~= spec_positional_inits(fs.drop_first(), op));
        assert(table.drop_first() =~= field_table(fs.drop_first(), bindings));

        match head {
            Err(_) => {},
            Ok(v0) => {
                let tail_lhs = spec_inits_means(
                    rt,
                    spec_positional_inits(fs.drop_first(), op),
                    bindings,
                    device,
                    kind,
                );
                match tail_lhs {
                    Err(_) => {},
                    Ok(rest) => {
                        assert(table_with_results(fs, seq![v0] + rest) =~= seq![
                            FieldModel { strategy: fs[0].strategy, value: v0 },
                        ] + table_with_results(fs.drop_first(), rest));
                    },
                }
            },
        }
    }
}

/// The field table a conforming value registers for a named record shape.
pub open spec fn named_field_table(fs: Seq<NamedFieldModel>, bindings: Seq<ValModel>) -> Seq<
    FieldModel,
> {
    Seq::new(fs.len(), |i: int| FieldModel { strategy: fs[i].strategy, value: bindings[fs[i].index] })
}

/// The same table with each field's value replaced by a result value.
pub open spec fn named_table_with_results(fs: Seq<NamedFieldModel>, results: Seq<ValModel>) -> Seq<
    FieldModel,
> {
    Seq::new(fs.len(), |i: int| FieldModel { strategy: fs[i].strategy, value: results[i] })
}

/// The named-record counterpart of the reconstruction theorem: the labels a
/// named reconstruction carries play no part in what the initialisers do,
/// so the generated body again yields exactly what the engine's traversal
/// of the field table yields.
pub proof fn lemma_generated_named_reconstruction_meaning(
    rt: Runtime,
    fs: Seq<NamedFieldModel>,
    bindings: Seq<ValModel>,
    op: Operation,
    device: Device,
    kind: Kind,
)
    requires
        forall|i: int| 0 <= i < fs.len() ==> 0 <= (#[trigger] fs[i].index) < bindings.len(),
    ensures
        ({
            let lhs = spec_inits_means(rt, spec_named_inits(fs, op), bindings, device, kind);
            let rhs = spec_apply_fields(
                rt,
                named_field_table(fs, bindings),
                op_as_traversal(op, device, kind),
            );
            &&& (lhs matches Err(e) ==> rhs == Err::<Seq<FieldModel>, RuntimeError>(e))
            &&& (lhs matches Ok(t) ==> t.len() == fs.len() && rhs == Ok::<
                Seq<FieldModel>,
                RuntimeError,
            >(named_table_with_results(fs, t)))
        }),
    decreases fs,
{
    let tv = op_as_traversal(op, device, kind);
    let inits = spec_named_inits(fs, op);
    let table = named_field_table(fs, bindings);
    if fs.len() == 0 {
        assert(inits =~= Seq::<FieldInitModel>::empty());
        assert(table =~= Seq::<FieldModel>::empty());
        assert(spec_inits_means(rt, inits, bindings, device, kind) == Ok::<
            Seq<ValModel>,
            RuntimeError,
        >(Seq::empty()));
        assert(spec_apply_fields(rt, table, tv) == Ok::<Seq<FieldModel>, RuntimeError>(
            Seq::empty(),
        ));
        assert(named_table_with_results(fs, Seq::empty()) =~= Seq::<FieldModel>::empty());
    } else {
        lemma_generated_expr_meaning(rt, fs[0].strategy, bindings[fs[0].index], op, device, kind);
        assert(inits[0] == (FieldInitModel {
            index: fs[0].index,
            name: Some(fs[0].name),
            expr: spec_field_expr(fs[0].strategy, op),
        }));
        assert(table[0] == (FieldModel { strategy: fs[0].strategy, value: bindings[fs[0].index] }));
        let head = spec_field_expr_means(rt, inits[0].expr, bindings[inits[0].index], device, kind);
        assert(head == spec_apply_field(rt, table[0], tv));

        lemma_generated_named_reconstruction_meaning(rt, fs.drop_first(), bindings, op, device, kind);
        assert(inits.drop_first() =~= spec_named_inits(fs.drop_first(), op));
        assert(table.drop_first() =~= named_field_table(fs.drop_first(), bindings));

        match head {
            Err(_) => {},
            Ok(v0) => {
                let tail_lhs = spec_inits_means(
                    rt,
                    spec_named_inits(fs.drop_first(), op),
                    bindings,
                    device,
                    kind,
                );
                match tail_lhs {
                    Err(_) => {},
                    Ok(rest) => {
                        assert(named_table_with_results(fs, seq![v0] + rest) =~= seq![
                            FieldModel { strategy: fs[0].strategy, value: v0 },
                        ] + named_table_with_results(fs.drop_first(), rest));
                    },
                }
            },
        }
    }
}

} // verus!
