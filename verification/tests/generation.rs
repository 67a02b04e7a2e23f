// The shape analyser and the traversal code generator: strategy markers,
// rejections with their source spans, and the structure of the generated
// method bodies.

use tensor_like::analyze::{analyze, parse_field_attrs, DeriveError, DeriveErrorKind};
use tensor_like::generate::{
    add_trait_bounds, derive_f_to_device_impl, derive_f_to_kind_impl, derive_impl,
    derive_shallow_clone_impl, parse_tensor_like, ArmBody, BodyPlan, FieldExpr, Operation,
};
use tensor_like::input::{
    AttrDef, AttrItem, AttrMeta, DataDef, FieldDef, FieldsDef, GenericParamDef, GenericParamKind,
    Span, TypeDef, VariantDef,
};
use tensor_like::shape::{
    FieldStrategy, NamedField, PositionalField, TypeShape, VariantFields, VariantShape,
};

fn marker(span: u64, words: Vec<&str>) -> AttrDef {
    AttrDef {
        path: String::from("tensor_like"),
        span: Span { id: span },
        meta: AttrMeta::List(words.into_iter().map(|w| AttrItem::Word(String::from(w))).collect()),
    }
}

fn named_field(name: &str, attrs: Vec<AttrDef>) -> FieldDef {
    FieldDef { name: Some(String::from(name)), attrs }
}

fn unnamed_field(attrs: Vec<AttrDef>) -> FieldDef {
    FieldDef { name: None, attrs }
}

#[test]
fn default_strategy_is_recurse() {
    assert_eq!(parse_field_attrs(&vec![]).unwrap(), FieldStrategy::Recurse);
}

#[test]
fn clone_marker_selects_clone() {
    let attrs = vec![marker(1, vec!["clone"])];
    assert_eq!(parse_field_attrs(&attrs).unwrap(), FieldStrategy::CloneDuplicate);
}

#[test]
fn copy_marker_selects_copy() {
    let attrs = vec![marker(2, vec!["copy"])];
    assert_eq!(parse_field_attrs(&attrs).unwrap(), FieldStrategy::CopyDuplicate);
}

#[test]
fn repeated_marker_is_allowed() {
    let attrs = vec![marker(3, vec!["clone"]), marker(4, vec!["clone"])];
    assert_eq!(parse_field_attrs(&attrs).unwrap(), FieldStrategy::CloneDuplicate);
}

#[test]
fn unrelated_attributes_are_ignored() {
    let other = AttrDef {
        path: String::from("serde"),
        span: Span { id: 5 },
        meta: AttrMeta::Unparsable,
    };
    let attrs = vec![other, marker(6, vec!["copy"])];
    assert_eq!(parse_field_attrs(&attrs).unwrap(), FieldStrategy::CopyDuplicate);
}

#[test]
fn conflicting_markers_in_one_list_are_rejected() {
    let attrs = vec![marker(7, vec!["clone", "copy"])];
    match parse_field_attrs(&attrs) {
        Err(DeriveError { span, kind: DeriveErrorKind::ConflictingStrategies }) => {
            assert_eq!(span.id, 7);
        },
        _ => unreachable!(),
    }
}

#[test]
fn conflicting_markers_across_attributes_are_rejected() {
    let attrs = vec![marker(8, vec!["copy"]), marker(9, vec!["clone"])];
    match parse_field_attrs(&attrs) {
        Err(DeriveError { span, kind: DeriveErrorKind::ConflictingStrategies }) => {
            assert_eq!(span.id, 9);
        },
        _ => unreachable!(),
    }
}

#[test]
fn unknown_word_is_rejected_by_name() {
    let attrs = vec![marker(10, vec!["borrow"])];
    match parse_field_attrs(&attrs) {
        Err(DeriveError { span, kind: DeriveErrorKind::UnexpectedName(w) }) => {
            assert_eq!(span.id, 10);
            assert_eq!(w, String::from("borrow"));
        },
        _ => unreachable!(),
    }
}

#[test]
fn marker_that_is_not_a_list_is_rejected() {
    let attrs = vec![AttrDef {
        path: String::from("tensor_like"),
        span: Span { id: 11 },
        meta: AttrMeta::NotList,
    }];
    match parse_field_attrs(&attrs) {
        Err(DeriveError { span, kind: DeriveErrorKind::MalformedAttribute }) => {
            assert_eq!(span.id, 11);
        },
        _ => unreachable!(),
    }
}

#[test]
fn unparsable_marker_is_rejected() {
    let attrs = vec![AttrDef {
        path: String::from("tensor_like"),
        span: Span { id: 12 },
        meta: AttrMeta::Unparsable,
    }];
    assert!(matches!(
        parse_field_attrs(&attrs),
        Err(DeriveError { kind: DeriveErrorKind::MalformedAttribute, .. })
    ));
}

#[test]
fn non_word_item_is_rejected() {
    let attrs = vec![AttrDef {
        path: String::from("tensor_like"),
        span: Span { id: 13 },
        meta: AttrMeta::List(vec![AttrItem::NotWord]),
    }];
    assert!(matches!(
        parse_field_attrs(&attrs),
        Err(DeriveError { kind: DeriveErrorKind::MalformedAttribute, .. })
    ));
}

#[test]
fn raw_union_is_rejected() {
    let def = TypeDef {
        name: String::from("Overlap"),
        span: Span { id: 42 },
        generics: vec![],
        data: DataDef::Union,
    };
    match analyze(&def) {
        Err(DeriveError { span, kind: DeriveErrorKind::UnsupportedUnion }) => {
            assert_eq!(span.id, 42);
        },
        _ => unreachable!(),
    }
}

#[test]
fn analysis_classifies_named_struct() {
    let def = TypeDef {
        name: String::from("Named"),
        span: Span { id: 0 },
        generics: vec![],
        data: DataDef::Struct(FieldsDef::Named(vec![
            named_field("a", vec![]),
            named_field("b", vec![marker(1, vec!["clone"])]),
            named_field("c", vec![marker(2, vec!["copy"])]),
        ])),
    };
    match analyze(&def).unwrap() {
        TypeShape::Record(fields) => {
            assert_eq!(fields.len(), 3);
            assert_eq!(fields[0].name, String::from("a"));
            assert_eq!(fields[0].index, 0);
            assert_eq!(fields[0].strategy, FieldStrategy::Recurse);
            assert_eq!(fields[1].name, String::from("b"));
            assert_eq!(fields[1].index, 1);
            assert_eq!(fields[1].strategy, FieldStrategy::CloneDuplicate);
            assert_eq!(fields[2].name, String::from("c"));
            assert_eq!(fields[2].index, 2);
            assert_eq!(fields[2].strategy, FieldStrategy::CopyDuplicate);
        },
        _ => unreachable!(),
    }
}

#[test]
fn analysis_reports_first_field_error() {
    let def = TypeDef {
        name: String::from("Bad"),
        span: Span { id: 0 },
        generics: vec![],
        data: DataDef::Struct(FieldsDef::Unnamed(vec![
            unnamed_field(vec![]),
            unnamed_field(vec![marker(21, vec!["borrow"])]),
            unnamed_field(vec![marker(22, vec!["clone", "copy"])]),
        ])),
    };
    match analyze(&def) {
        Err(DeriveError { span, kind: DeriveErrorKind::UnexpectedName(w) }) => {
            assert_eq!(span.id, 21);
            assert_eq!(w, String::from("borrow"));
        },
        _ => unreachable!(),
    }
}

#[test]
fn generated_tuple_body_preserves_order() {
    let shape = TypeShape::Tuple(vec![
        PositionalField { index: 0, strategy: FieldStrategy::Recurse },
        PositionalField { index: 1, strategy: FieldStrategy::CopyDuplicate },
        PositionalField { index: 2, strategy: FieldStrategy::CloneDuplicate },
    ]);
    match derive_impl(&shape, Operation::ToDevice) {
        BodyPlan::Tuple(inits) => {
            assert_eq!(inits.len(), 3);
            for (i, init) in inits.iter().enumerate() {
                assert_eq!(init.index, i);
                assert!(init.name.is_none());
            }
            assert_eq!(inits[0].expr, FieldExpr::RecurseToDevice);
            assert_eq!(inits[1].expr, FieldExpr::Deref);
            assert_eq!(inits[2].expr, FieldExpr::CloneCall);
        },
        _ => unreachable!(),
    }
}

#[test]
fn generated_record_body_names_every_field() {
    let shape = TypeShape::Record(vec![
        NamedField { name: String::from("count"), index: 0, strategy: FieldStrategy::Recurse },
        NamedField {
            name: String::from("label"),
            index: 1,
            strategy: FieldStrategy::CloneDuplicate,
        },
    ]);
    match derive_impl(&shape, Operation::ToKind) {
        BodyPlan::Record(inits) => {
            assert_eq!(inits.len(), 2);
            assert_eq!(inits[0].name, Some(String::from("count")));
            assert_eq!(inits[0].expr, FieldExpr::RecurseToKind);
            assert_eq!(inits[1].name, Some(String::from("label")));
            assert_eq!(inits[1].expr, FieldExpr::CloneCall);
        },
        _ => unreachable!(),
    }
}

#[test]
fn generated_unit_body_is_identity() {
    assert!(matches!(derive_impl(&TypeShape::Unit, Operation::ToDevice), BodyPlan::Unit));
    assert!(matches!(derive_impl(&TypeShape::Unit, Operation::ShallowClone), BodyPlan::Unit));
}

#[test]
fn generated_union_body_covers_every_variant_once() {
    let shape = TypeShape::Union(vec![
        VariantShape { name: String::from("Unit"), fields: VariantFields::Unit },
        VariantShape {
            name: String::from("Pair"),
            fields: VariantFields::Tuple(vec![
                PositionalField { index: 0, strategy: FieldStrategy::Recurse },
                PositionalField { index: 1, strategy: FieldStrategy::Recurse },
            ]),
        },
        VariantShape {
            name: String::from("Named"),
            fields: VariantFields::Record(vec![NamedField {
                name: String::from("x"),
                index: 0,
                strategy: FieldStrategy::Recurse,
            }]),
        },
    ]);
    match derive_impl(&shape, Operation::ShallowClone) {
        BodyPlan::Match(arms) => {
            assert_eq!(arms.len(), 3);
            assert_eq!(arms[0].variant, String::from("Unit"));
            assert!(matches!(arms[0].body, ArmBody::Unit));
            assert_eq!(arms[1].variant, String::from("Pair"));
            match &arms[1].body {
                ArmBody::Tuple(inits) => {
                    assert_eq!(inits.len(), 2);
                    assert_eq!(inits[0].expr, FieldExpr::RecurseShallowClone);
                    assert_eq!(inits[1].expr, FieldExpr::RecurseShallowClone);
                },
                _ => unreachable!(),
            }
            assert_eq!(arms[2].variant, String::from("Named"));
            match &arms[2].body {
                ArmBody::Record(inits) => {
                    assert_eq!(inits.len(), 1);
                    assert_eq!(inits[0].name, Some(String::from("x")));
                },
                _ => unreachable!(),
            }
        },
        _ => unreachable!(),
    }
}

#[test]
fn fallibility_follows_the_operation() {
    let shape = TypeShape::Unit;
    assert!(derive_f_to_device_impl(&shape).fallible);
    assert!(derive_f_to_kind_impl(&shape).fallible);
    assert!(!derive_shallow_clone_impl(&shape).fallible);
}

#[test]
fn every_type_parameter_gets_the_bound() {
    let generics = vec![
        GenericParamDef {
            name: String::from("T"),
            kind: GenericParamKind::TypeParam,
            has_capability_bound: false,
        },
        GenericParamDef {
            name: String::from("a"),
            kind: GenericParamKind::LifetimeParam,
            has_capability_bound: false,
        },
        GenericParamDef {
            name: String::from("N"),
            kind: GenericParamKind::ConstParam,
            has_capability_bound: false,
        },
        GenericParamDef {
            name: String::from("U"),
            kind: GenericParamKind::TypeParam,
            has_capability_bound: false,
        },
    ];
    let bounded = add_trait_bounds(generics);
    assert_eq!(bounded.len(), 4);
    assert_eq!(bounded[0].name, String::from("T"));
    assert!(bounded[0].has_capability_bound);
    assert_eq!(bounded[1].name, String::from("a"));
    assert!(!bounded[1].has_capability_bound);
    assert_eq!(bounded[2].name, String::from("N"));
    assert!(!bounded[2].has_capability_bound);
    assert_eq!(bounded[3].name, String::from("U"));
    assert!(bounded[3].has_capability_bound);
}

#[test]
fn whole_derivation_for_a_named_struct() {
    let def = TypeDef {
        name: String::from("Batch"),
        span: Span { id: 0 },
        generics: vec![GenericParamDef {
            name: String::from("T"),
            kind: GenericParamKind::TypeParam,
            has_capability_bound: false,
        }],
        data: DataDef::Struct(FieldsDef::Named(vec![
            named_field("count", vec![]),
            named_field("label", vec![marker(1, vec!["clone"])]),
            named_field("payload", vec![]),
        ])),
    };
    let plan = parse_tensor_like(def).unwrap();
    assert_eq!(plan.name, String::from("Batch"));
    assert_eq!(plan.generics.len(), 1);
    assert!(plan.generics[0].has_capability_bound);
    assert_eq!(plan.to_device.op, Operation::ToDevice);
    assert!(plan.to_device.fallible);
    assert_eq!(plan.to_kind.op, Operation::ToKind);
    assert!(plan.to_kind.fallible);
    assert_eq!(plan.shallow_clone.op, Operation::ShallowClone);
    assert!(!plan.shallow_clone.fallible);
    match &plan.to_device.body {
        BodyPlan::Record(inits) => {
            assert_eq!(inits.len(), 3);
            assert_eq!(inits[0].expr, FieldExpr::RecurseToDevice);
            assert_eq!(inits[1].expr, FieldExpr::CloneCall);
            assert_eq!(inits[2].expr, FieldExpr::RecurseToDevice);
        },
        _ => unreachable!(),
    }
    match &plan.shallow_clone.body {
        BodyPlan::Record(inits) => {
            assert_eq!(inits[0].expr, FieldExpr::RecurseShallowClone);
            assert_eq!(inits[1].expr, FieldExpr::CloneCall);
            assert_eq!(inits[2].expr, FieldExpr::RecurseShallowClone);
        },
        _ => unreachable!(),
    }
}

#[test]
fn whole_derivation_reports_the_offending_span() {
    let def = TypeDef {
        name: String::from("Broken"),
        span: Span { id: 0 },
        generics: vec![],
        data: DataDef::Enum(vec![
            VariantDef { name: String::from("Fine"), fields: FieldsDef::Unit },
            VariantDef {
                name: String::from("Odd"),
                fields: FieldsDef::Named(vec![named_field(
                    "x",
                    vec![marker(77, vec!["snapshot"])],
                )]),
            },
        ]),
    };
    match parse_tensor_like(def) {
        Err(DeriveError { span, kind: DeriveErrorKind::UnexpectedName(w) }) => {
            assert_eq!(span.id, 77);
            assert_eq!(w, String::from("snapshot"));
        },
        _ => unreachable!(),
    }
}
