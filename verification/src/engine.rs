//! The recursive traversal engine.
//!
//! Generated code destructures a composite value, transforms every field
//! according to its strategy, and rebuilds the value.  The engine gives that
//! scheme its meaning over self-describing values: a value tree whose
//! composite nodes carry the per-field strategy table registered for their
//! type, whose leaves are scalars, text, and tensor handles, and whose
//! containers recurse element-wise.  Every operation builds a fresh value;
//! the first failing step is the whole operation's failure.

use vstd::prelude::*;

use crate::laws::{
    lemma_apply_entries_elementwise, lemma_apply_entries_fail_fast, lemma_apply_fields_elementwise,
    lemma_apply_fields_fail_fast, lemma_apply_seq_elementwise, lemma_apply_seq_fail_fast,
};
use crate::runtime::{Device, Kind, Runtime, RuntimeError, TensorHandle};
use crate::shape::FieldStrategy;

verus! {

/// A traversal operation together with its run-time argument: move every
/// reachable tensor to a device, cast every reachable tensor to an element
/// kind, or duplicate the value shallowly.
#[derive(Clone, Copy, Debug, PartialEq, Eq, Structural)]
pub enum TraversalOp {
    ToDevice(Device),
    ToKind(Kind),
    ShallowClone,
}

/// A self-describing value.  A unit value is a `Record` or `Variant` with no
/// fields; sequential containers (list, double-ended queue, linked list) are
/// all `List`; maps keyed by plain keys are `Dict`.
pub enum Value {
    /// A scalar leaf: any primitive the traversal leaves untouched.
    Prim(i64),
    /// An owned text leaf; untouched by the tensor operations.
    Text(String),
    /// A tensor handle; the leaf the operations exist for.
    Tensor(TensorHandle),
    /// A sequential container; elements recurse in order.
    List(Vec<Value>),
    /// A map; keys are duplicated unchanged while values recurse.
    Dict(Vec<MapEntry>),
    /// An optional value; the content, if any, recurses.
    Opt(Option<Box<Value>>),
    /// A record or tuple record with its registered field table.
    Record(Vec<FieldVal>),
    /// One variant of a tagged union: the variant's position and its fields.
    Variant(u64, Vec<FieldVal>),
}

/// One key-value entry of a map value.
pub struct MapEntry {
    pub key: u64,
    pub value: Value,
}

/// One field of a composite value, carrying the strategy the derivation
/// registered for it.
pub struct FieldVal {
    pub strategy: FieldStrategy,
    pub value: Value,
}

/// The mathematical model of a value: the same tree over `Seq` and
/// `Seq<char>` instead of `Vec` and `String`.
pub enum ValModel {
    Prim(i64),
    Text(Seq<char>),
    Tensor(TensorHandle),
    List(Seq<ValModel>),
    Dict(Seq<EntryModel>),
    Opt(Option<Box<ValModel>>),
    Record(Seq<FieldModel>),
    Variant(u64, Seq<FieldModel>),
}

/// The model of one map entry.
pub struct EntryModel {
    pub key: u64,
    pub value: ValModel,
}

/// The model of one composite field.
pub struct FieldModel {
    pub strategy: FieldStrategy,
    pub value: ValModel,
}

/// The model of a value.
pub open spec fn model_of(v: Value) -> ValModel
    decreases v,
{
    match v {
        Value::Prim(p) => ValModel::Prim(p),
        Value::Text(s) => ValModel::Text(s@),
        Value::Tensor(h) => ValModel::Tensor(h),
        Value::List(items) => ValModel::List(models_of_seq(items@)),
        Value::Dict(entries) => ValModel::Dict(models_of_entries(entries@)),
        Value::Opt(o) => match o {
            Option::None => ValModel::Opt(Option::None),
            Option::Some(b) => ValModel::Opt(Option::Some(Box::new(model_of(*b)))),
        },
        Value::Record(fields) => ValModel::Record(models_of_fields(fields@)),
        Value::Variant(tag, fields) => ValModel::Variant(tag, models_of_fields(fields@)),
    }
}

/// The models of a sequence of values, element-wise.
pub open spec fn models_of_seq(s: Seq<Value>) -> Seq<ValModel>
    decreases s,
{
    if s.len() == 0 {
        Seq::empty()
    } else {
        seq![model_of(s[0])] + models_of_seq(s.drop_first())
    }
}

/// The models of a sequence of map entries, element-wise.
pub open spec fn models_of_entries(s: Seq<MapEntry>) -> Seq<EntryModel>
    decreases s,
{
    if s.len() == 0 {
        Seq::empty()
    } else {
        seq![EntryModel { key: s[0].key, value: model_of(s[0].value) }] + models_of_entries(
            s.drop_first(),
        )
    }
}

/// The models of a sequence of composite fields, element-wise.
pub open spec fn models_of_fields(s: Seq<FieldVal>) -> Seq<FieldModel>
    decreases s,
{
    if s.len() == 0 {
        Seq::empty()
    } else {
        seq![FieldModel { strategy: s[0].strategy, value: model_of(s[0].value) }]
            + models_of_fields(s.drop_first())
    }
}

/// The element-wise reading of the three model functions on sequences.
pub proof fn lemma_models_of_seq(s: Seq<Value>)
    ensures
        models_of_seq(s).len() == s.len(),
        forall|i: int| 0 <= i < s.len() ==> models_of_seq(s)[i] == model_of(s[i]),
    decreases s,
{
    if s.len() > 0 {
        lemma_models_of_seq(s.drop_first());
    }
}

/// The element-wise reading of the model of a sequence of map entries.
pub proof fn lemma_models_of_entries(s: Seq<MapEntry>)
    ensures
        models_of_entries(s).len() == s.len(),
        forall|i: int|
            0 <= i < s.len() ==> models_of_entries(s)[i] == (EntryModel {
                key: s[i].key,
                value: model_of(s[i].value),
            }),
    decreases s,
{
    if s.len() > 0 {
        lemma_models_of_entries(s.drop_first());
    }
}

/// The element-wise reading of the model of a field table.
pub proof fn lemma_models_of_fields(s: Seq<FieldVal>)
    ensures
        models_of_fields(s).len() == s.len(),
        forall|i: int|
            0 <= i < s.len() ==> models_of_fields(s)[i] == (FieldModel {
                strategy: s[i].strategy,
                value: model_of(s[i].value),
            }),
    decreases s,
{
    if s.len() > 0 {
        lemma_models_of_fields(s.drop_first());
    }
}

impl View for Value {
    type V = ValModel;

    open spec fn view(&self) -> ValModel {
        model_of(*self)
    }
}

impl View for MapEntry {
    type V = EntryModel;

    open spec fn view(&self) -> EntryModel {
        EntryModel { key: self.key, value: model_of(self.value) }
    }
}

impl View for FieldVal {
    type V = FieldModel;

    open spec fn view(&self) -> FieldModel {
        FieldModel { strategy: self.strategy, value: model_of(self.value) }
    }
}

/// What one operation yields on one value: the transformed value, or the
/// first failure met during the traversal, in declaration order.
pub open spec fn spec_apply(rt: Runtime, m: ValModel, op: TraversalOp) -> Result<
    ValModel,
    RuntimeError,
>
    decreases m,
{
    match m {
        ValModel::Prim(_) => Ok(m),
        ValModel::Text(_) => Ok(m),
        ValModel::Tensor(h) => match op {
            TraversalOp::ToDevice(device) => match rt.spec_convert_device(h, device) {
                Ok(h2) => Ok(ValModel::Tensor(h2)),
                Err(e) => Err(e),
            },
            TraversalOp::ToKind(kind) => Ok(ValModel::Tensor(rt.spec_convert_kind(h, kind))),
            TraversalOp::ShallowClone => Ok(ValModel::Tensor(h)),
        },
        ValModel::List(items) => match spec_apply_seq(rt, items, op) {
            Ok(s) => Ok(ValModel::List(s)),
            Err(e) => Err(e),
        },
        ValModel::Dict(entries) => match spec_apply_entries(rt, entries, op) {
            Ok(s) => Ok(ValModel::Dict(s)),
            Err(e) => Err(e),
        },
        ValModel::Opt(o) => match o {
            Option::None => Ok(ValModel::Opt(Option::None)),
            Option::Some(b) => match spec_apply(rt, *b, op) {
                Ok(m2) => Ok(ValModel::Opt(Option::Some(Box::new(m2)))),
                Err(e) => Err(e),
            },
        },
        ValModel::Record(fields) => match spec_apply_fields(rt, fields, op) {
            Ok(fs) => Ok(ValModel::Record(fs)),
            Err(e) => Err(e),
        },
        ValModel::Variant(tag, fields) => match spec_apply_fields(rt, fields, op) {
            Ok(fs) => Ok(ValModel::Variant(tag, fs)),
            Err(e) => Err(e),
        },
    }
}

/// One operation over a sequence of values, element-wise and fail-fast.
pub open spec fn spec_apply_seq(rt: Runtime, s: Seq<ValModel>, op: TraversalOp) -> Result<
    Seq<ValModel>,
    RuntimeError,
>
    decreases s,
{
    if s.len() == 0 {
        Ok(Seq::empty())
    } else {
        match spec_apply(rt, s[0], op) {
            Err(e) => Err(e),
            Ok(m0) => match spec_apply_seq(rt, s.drop_first(), op) {
                Err(e) => Err(e),
                Ok(rest) => Ok(seq![m0] + rest),
            },
        }
    }
}

/// One operation over map entries: every key is kept, every value recurses,
/// the first failing value aborts the whole map.
pub open spec fn spec_apply_entries(rt: Runtime, s: Seq<EntryModel>, op: TraversalOp) -> Result<
    Seq<EntryModel>,
    RuntimeError,
>
    decreases s,
{
    if s.len() == 0 {
        Ok(Seq::empty())
    } else {
        match spec_apply(rt, s[0].value, op) {
            Err(e) => Err(e),
            Ok(m0) => match spec_apply_entries(rt, s.drop_first(), op) {
                Err(e) => Err(e),
                Ok(rest) => Ok(seq![EntryModel { key: s[0].key, value: m0 }] + rest),
            },
        }
    }
}

/// What one operation does with one composite field: a field under the
/// recursive strategy transforms, a field under a duplicating strategy is
/// kept verbatim.
pub open spec fn spec_apply_field(rt: Runtime, f: FieldModel, op: TraversalOp) -> Result<
    ValModel,
    RuntimeError,
>
    decreases f,
{
    if f.strategy is Recurse {
        spec_apply(rt, f.value, op)
    } else {
        Ok(f.value)
    }
}

/// What one fallible traversal yields on a value, as the caller sees it:
/// exactly the model-level traversal, with a fresh value on success.
pub open spec fn result_models(
    r: Result<Value, RuntimeError>,
    rt: Runtime,
    m: ValModel,
    op: TraversalOp,
) -> bool {
    &&& (r matches Ok(v) ==> spec_apply(rt, m, op) == Ok::<ValModel, RuntimeError>(v@))
    &&& (r matches Err(e) ==> spec_apply(rt, m, op) == Err::<ValModel, RuntimeError>(e))
}

/// One operation over the field table of a composite, in declaration order,
/// fail-fast, strategies preserved.
pub open spec fn spec_apply_fields(rt: Runtime, s: Seq<FieldModel>, op: TraversalOp) -> Result<
    Seq<FieldModel>,
    RuntimeError,
>
    decreases s,
{
    if s.len() == 0 {
        Ok(Seq::empty())
    } else {
        match spec_apply_field(rt, s[0], op) {
            Err(e) => Err(e),
            Ok(v0) => match spec_apply_fields(rt, s.drop_first(), op) {
                Err(e) => Err(e),
                Ok(rest) => Ok(seq![FieldModel { strategy: s[0].strategy, value: v0 }] + rest),
            },
        }
    }
}

impl Value {
    /// Duplicate a value: a fresh value with the same model.  This is the
    /// meaning of the shallow-clone traversal: tensor handles are duplicated
    /// over their shared storage, every other leaf by value, and composites
    /// field by field whatever their strategies, so the operation never
    /// fails.
    pub fn duplicate(&self) -> (r: Value)
        ensures
            r@ == self@,
        decreases *self,
    {
        match self {
            Value::Prim(p) => Value::Prim(*p),
            Value::Text(s) => Value::Text(s.clone()),
            Value::Tensor(h) => Value::Tensor(*h),
            Value::List(items) => Value::List(Self::clone_items(items)),
            Value::Dict(entries) => Value::Dict(Self::clone_entries(entries)),
            Value::Opt(o) => match o {
                Option::None => Value::Opt(Option::None),
                Option::Some(b) => Value::Opt(Option::Some(Box::new((**b).duplicate()))),
            },
            Value::Record(fields) => Value::Record(Self::clone_fields(fields)),
            Value::Variant(tag, fields) => Value::Variant(*tag, Self::clone_fields(fields)),
        }
    }

    /// Duplicate the elements of a sequential container, in order.
    fn clone_items(items: &Vec<Value>) -> (r: Vec<Value>)
        ensures
            models_of_seq(r@) == models_of_seq(items@),
        decreases items@,
    {
        let mut out: Vec<Value> = Vec::new();
        let mut i: usize = 0;
        while i < items.len()
            invariant
                i <= items@.len(),
                out@.len() == i as int,
                forall|j: int| 0 <= j < i ==> out@[j]@ == items@[j]@,
            decreases items@.len() - i,
        {
            let d = items[i].duplicate();
            out.push(d);
            i = i + 1;
        }
        proof {
            lemma_models_of_seq(out@);
            lemma_models_of_seq(items@);
            assert(models_of_seq(out@) =~= models_of_seq(items@));
        }
        out
    }

    /// Duplicate the entries of a map, keys verbatim, in order.
    fn clone_entries(entries: &Vec<MapEntry>) -> (r: Vec<MapEntry>)
        ensures
            models_of_entries(r@) == models_of_entries(entries@),
        decreases entries@,
    {
        let mut out: Vec<MapEntry> = Vec::new();
        let mut i: usize = 0;
        while i < entries.len()
            invariant
                i <= entries@.len(),
                out@.len() == i as int,
                forall|j: int| 0 <= j < i ==> out@[j]@ == entries@[j]@,
            decreases entries@.len() - i,
        {
            let e = &entries[i];
            let d = e.value.duplicate();
            out.push(MapEntry { key: e.key, value: d });
            i = i + 1;
        }
        proof {
            lemma_models_of_entries(out@);
            lemma_models_of_entries(entries@);
            assert(models_of_entries(out@) =~= models_of_entries(entries@));
        }
        out
    }

    /// Duplicate the field table of a composite, strategies kept, in order.
    fn clone_fields(fields: &Vec<FieldVal>) -> (r: Vec<FieldVal>)
        ensures
            models_of_fields(r@) == models_of_fields(fields@),
        decreases fields@,
    {
        let mut out: Vec<FieldVal> = Vec::new();
        let mut i: usize = 0;
        while i < fields.len()
            invariant
                i <= fields@.len(),
                out@.len() == i as int,
                forall|j: int| 0 <= j < i ==> out@[j]@ == fields@[j]@,
            decreases fields@.len() - i,
        {
            let f = &fields[i];
            let d = f.value.duplicate();
            out.push(FieldVal { strategy: f.strategy, value: d });
            i = i + 1;
        }
        proof {
            lemma_models_of_fields(out@);
            lemma_models_of_fields(fields@);
            assert(models_of_fields(out@) =~= models_of_fields(fields@));
        }
        out
    }

    /// Apply one traversal operation to a value, building a fresh value.
    /// The result is exactly what the model-level traversal prescribes; in
    /// particular the first failure met in declaration order is the whole
    /// operation's failure.
    pub fn apply(&self, rt: &Runtime, op: TraversalOp) -> (r: Result<Value, RuntimeError>)
        ensures
            result_models(r, *rt, self@, op),
        decreases *self,
    {
        match self {
            Value::Prim(p) => Ok(Value::Prim(*p)),
            Value::Text(s) => Ok(Value::Text(s.clone())),
            Value::Tensor(h) => match op {
                TraversalOp::ToDevice(device) => match rt.convert_device(h, device) {
                    Ok(h2) => Ok(Value::Tensor(h2)),
                    Err(e) => Err(e),
                },
                TraversalOp::ToKind(kind) => match rt.convert_kind(h, kind) {
                    Ok(h2) => Ok(Value::Tensor(h2)),
                    Err(e) => Err(e),
                },
                TraversalOp::ShallowClone => Ok(Value::Tensor(rt.duplicate_shallow(h))),
            },
            Value::List(items) => match Self::apply_items(rt, items, op) {
                Ok(out) => Ok(Value::List(out)),
                Err(e) => Err(e),
            },
            Value::Dict(entries) => match Self::apply_entries(rt, entries, op) {
                Ok(out) => Ok(Value::Dict(out)),
                Err(e) => Err(e),
            },
            Value::Opt(o) => match o {
                Option::None => Ok(Value::Opt(Option::None)),
                Option::Some(b) => match (**b).apply(rt, op) {
                    Ok(v) => Ok(Value::Opt(Option::Some(Box::new(v)))),
                    Err(e) => Err(e),
                },
            },
            Value::Record(fields) => match Self::apply_fields(rt, fields, op) {
                Ok(out) => Ok(Value::Record(out)),
                Err(e) => Err(e),
            },
            Value::Variant(tag, fields) => match Self::apply_fields(rt, fields, op) {
                Ok(out) => Ok(Value::Variant(*tag, out)),
                Err(e) => Err(e),
            },
        }
    }

    /// Transform the elements of a sequential container, in order and
    /// fail-fast.
    fn apply_items(rt: &Runtime, items: &Vec<Value>, op: TraversalOp) -> (r: Result<
        Vec<Value>,
        RuntimeError,
    >)
        ensures
            r matches Ok(out) ==> spec_apply_seq(*rt, models_of_seq(items@), op) == Ok::<
                Seq<ValModel>,
                RuntimeError,
            >(models_of_seq(out@)),
            r matches Err(e) ==> spec_apply_seq(*rt, models_of_seq(items@), op) == Err::<
                Seq<ValModel>,
                RuntimeError,
            >(e),
        decreases items@,
    {
        let mut out: Vec<Value> = Vec::new();
        let mut i: usize = 0;
        while i < items.len()
            invariant
                i <= items@.len(),
                out@.len() == i as int,
                forall|j: int|
                    0 <= j < i ==> spec_apply(*rt, items@[j]@, op) == Ok::<
                        ValModel,
                        RuntimeError,
                    >(out@[j]@),
            decreases items@.len() - i,
        {
            match items[i].apply(rt, op) {
                Ok(v) => {
                    out.push(v);
                },
                Err(e) => {
                    proof {
                        lemma_models_of_seq(items@);
                        lemma_apply_seq_fail_fast(*rt, models_of_seq(items@), op, i as int);
                    }
                    return Err(e);
                },
            }
            i = i + 1;
        }
        proof {
            lemma_models_of_seq(items@);
            lemma_models_of_seq(out@);
            lemma_apply_seq_elementwise(*rt, models_of_seq(items@), op);
            assert(spec_apply_seq(*rt, models_of_seq(items@), op) matches Ok(t) && t
                =~= models_of_seq(out@));
        }
        Ok(out)
    }

    /// Transform the entries of a map: keys verbatim, values in order and
    /// fail-fast.
    fn apply_entries(rt: &Runtime, entries: &Vec<MapEntry>, op: TraversalOp) -> (r: Result<
        Vec<MapEntry>,
        RuntimeError,
    >)
        ensures
            r matches Ok(out) ==> spec_apply_entries(*rt, models_of_entries(entries@), op) == Ok::<
                Seq<EntryModel>,
                RuntimeError,
            >(models_of_entries(out@)),
            r matches Err(e) ==> spec_apply_entries(*rt, models_of_entries(entries@), op) == Err::<
                Seq<EntryModel>,
                RuntimeError,
            >(e),
        decreases entries@,
    {
        let mut out: Vec<MapEntry> = Vec::new();
        let mut i: usize = 0;
        while i < entries.len()
            invariant
                i <= entries@.len(),
                out@.len() == i as int,
                forall|j: int|
                    0 <= j < i ==> out@[j].key == entries@[j].key && spec_apply(
                        *rt,
                        entries@[j]@.value,
                        op,
                    ) == Ok::<ValModel, RuntimeError>(out@[j]@.value),
            decreases entries@.len() - i,
        {
            let e = &entries[i];
            match e.value.apply(rt, op) {
                Ok(v) => {
                    out.push(MapEntry { key: e.key, value: v });
                },
                Err(err) => {
                    proof {
                        lemma_models_of_entries(entries@);
                        lemma_apply_entries_fail_fast(*rt, models_of_entries(entries@), op, i as int);
                    }
                    return Err(err);
                },
            }
            i = i + 1;
        }
        proof {
            lemma_models_of_entries(entries@);
            lemma_models_of_entries(out@);
            lemma_apply_entries_elementwise(*rt, models_of_entries(entries@), op);
            assert(spec_apply_entries(*rt, models_of_entries(entries@), op) matches Ok(t) && t
                =~= models_of_entries(out@));
        }
        Ok(out)
    }

    /// Transform the field table of a composite: each field by its strategy,
    /// in declaration order and fail-fast.
    fn apply_fields(rt: &Runtime, fields: &Vec<FieldVal>, op: TraversalOp) -> (r: Result<
        Vec<FieldVal>,
        RuntimeError,
    >)
        ensures
            r matches Ok(out) ==> spec_apply_fields(*rt, models_of_fields(fields@), op) == Ok::<
                Seq<FieldModel>,
                RuntimeError,
            >(models_of_fields(out@)),
            r matches Err(e) ==> spec_apply_fields(*rt, models_of_fields(fields@), op) == Err::<
                Seq<FieldModel>,
                RuntimeError,
            >(e),
        decreases fields@,
    {
        let mut out: Vec<FieldVal> = Vec::new();
        let mut i: usize = 0;
        while i < fields.len()
            invariant
                i <= fields@.len(),
                out@.len() == i as int,
                forall|j: int|
                    0 <= j < i ==> out@[j].strategy == fields@[j].strategy && spec_apply_field(
                        *rt,
                        fields@[j]@,
                        op,
                    ) == Ok::<ValModel, RuntimeError>(out@[j]@.value),
            decreases fields@.len() - i,
        {
            let f = &fields[i];
            match f.strategy {
                FieldStrategy::Recurse => match f.value.apply(rt, op) {
                    Ok(v) => {
                        out.push(FieldVal { strategy: f.strategy, value: v });
                    },
                    Err(e) => {
                        proof {
                            lemma_models_of_fields(fields@);
                            lemma_apply_fields_fail_fast(
                                *rt,
                                models_of_fields(fields@),
                                op,
                                i as int,
                            );
                        }
                        return Err(e);
                    },
                },
                _ => {
                    let d = f.value.duplicate();
                    out.push(FieldVal { strategy: f.strategy, value: d });
                },
            }
            i = i + 1;
        }
        proof {
            lemma_models_of_fields(fields@);
            lemma_models_of_fields(out@);
            lemma_apply_fields_elementwise(*rt, models_of_fields(fields@), op);
            assert(spec_apply_fields(*rt, models_of_fields(fields@), op) matches Ok(t) && t
                =~= models_of_fields(out@));
        }
        Ok(out)
    }

    /// Structural comparison: whether two values have the same model.
    pub fn value_eq(a: &Value, b: &Value) -> (r: bool)
        ensures
            r == (a@ == b@),
        decreases *a,
    {
        match (a, b) {
            (Value::Prim(x), Value::Prim(y)) => *x == *y,
            (Value::Text(x), Value::Text(y)) => x.eq(y),
            (Value::Tensor(x), Value::Tensor(y)) => *x == *y,
            (Value::List(x), Value::List(y)) => Self::items_eq(x, y),
            (Value::Dict(x), Value::Dict(y)) => Self::entries_eq(x, y),
            (Value::Opt(x), Value::Opt(y)) => match (x, y) {
                (Option::None, Option::None) => true,
                (Option::Some(bx), Option::Some(by)) => Self::value_eq(&**bx, &**by),
                _ => false,
            },
            (Value::Record(x), Value::Record(y)) => Self::fields_eq(x, y),
            (Value::Variant(tx, x), Value::Variant(ty, y)) => *tx == *ty && Self::fields_eq(x, y),
            _ => false,
        }
    }

    /// Structural comparison of two sequential containers.
    fn items_eq(x: &Vec<Value>, y: &Vec<Value>) -> (r: bool)
        ensures
            r == (models_of_seq(x@) == models_of_seq(y@)),
        decreases x@,
    {
        proof {
            lemma_models_of_seq(x@);
            lemma_models_of_seq(y@);
        }
        if x.len() != y.len() {
            return false;
        }
        let mut i: usize = 0;
        while i < x.len()
            invariant
                x@.len() == y@.len(),
                i <= x@.len(),
                forall|j: int| 0 <= j < i ==> x@[j]@ == y@[j]@,
            decreases x@.len() - i,
        {
            if !Self::value_eq(&x[i], &y[i]) {
                proof {
                    lemma_models_of_seq(x@);
                    lemma_models_of_seq(y@);
                    assert(models_of_seq(x@)[i as int] != models_of_seq(y@)[i as int]);
                }
                return false;
            }
            i = i + 1;
        }
        proof {
            lemma_models_of_seq(x@);
            lemma_models_of_seq(y@);
            assert(models_of_seq(x@) =~= models_of_seq(y@));
        }
        true
    }

    /// Structural comparison of two maps, keys included.
    fn entries_eq(x: &Vec<MapEntry>, y: &Vec<MapEntry>) -> (r: bool)
        ensures
            r == (models_of_entries(x@) == models_of_entries(y@)),
        decreases x@,
    {
        proof {
            lemma_models_of_entries(x@);
            lemma_models_of_entries(y@);
        }
        if x.len() != y.len() {
            return false;
        }
        let mut i: usize = 0;
        while i < x.len()
            invariant
                x@.len() == y@.len(),
                i <= x@.len(),
                forall|j: int| 0 <= j < i ==> x@[j]@ == y@[j]@,
            decreases x@.len() - i,
        {
            if x[i].key != y[i].key || !Self::value_eq(&x[i].value, &y[i].value) {
                proof {
                    lemma_models_of_entries(x@);
                    lemma_models_of_entries(y@);
                    assert(models_of_entries(x@)[i as int] != models_of_entries(y@)[i as int]);
                }
                return false;
            }
            i = i + 1;
        }
        proof {
            lemma_models_of_entries(x@);
            lemma_models_of_entries(y@);
            assert(models_of_entries(x@) =~= models_of_entries(y@));
        }
        true
    }

    /// Structural comparison of two field tables, strategies included.
    fn fields_eq(x: &Vec<FieldVal>, y: &Vec<FieldVal>) -> (r: bool)
        ensures
            r == (models_of_fields(x@) == models_of_fields(y@)),
        decreases x@,
    {
        proof {
            lemma_models_of_fields(x@);
            lemma_models_of_fields(y@);
        }
        if x.len() != y.len() {
            return false;
        }
        let mut i: usize = 0;
        while i < x.len()
            invariant
                x@.len() == y@.len(),
                i <= x@.len(),
                forall|j: int| 0 <= j < i ==> x@[j]@ == y@[j]@,
            decreases x@.len() - i,
        {
            if x[i].strategy != y[i].strategy || !Self::value_eq(&x[i].value, &y[i].value) {
                proof {
                    lemma_models_of_fields(x@);
                    lemma_models_of_fields(y@);
                    assert(models_of_fields(x@)[i as int] != models_of_fields(y@)[i as int]);
                }
                return false;
            }
            i = i + 1;
        }
        proof {
            lemma_models_of_fields(x@);
            lemma_models_of_fields(y@);
            assert(models_of_fields(x@) =~= models_of_fields(y@));
        }
        true
    }
}

} // verus!
