// The traversal operations over composite values, against the model
// runtime: sequential containers, maps, optionals, and the four shape
// categories with per-field strategies.

use tensor_like::engine::{FieldVal, MapEntry, Value};
use tensor_like::runtime::{Device, Kind, Runtime, TensorHandle};
use tensor_like::shape::FieldStrategy;
use tensor_like::tensor_like::TensorLike;

fn cpu_float(data: i64) -> Value {
    Value::Tensor(TensorHandle { device: Device::Cpu, kind: Kind::Float, data })
}

fn recurse(value: Value) -> FieldVal {
    FieldVal { strategy: FieldStrategy::Recurse, value }
}

#[test]
fn shallow_clone_test() {
    let rt = Runtime { cuda_devices: 1 };
    let maybe_cuda = rt.cuda_if_available();

    let mut items: Vec<Value> = Vec::new();
    for i in 0..1000 {
        items.push(cpu_float(i));
    }
    let from = Value::List(items);

    let to = from
        .to_device(&rt, maybe_cuda)
        .to_kind(&rt, Kind::Double)
        .shallow_clone();

    match (&from, &to) {
        (Value::List(lhs), Value::List(rhs)) => {
            assert_eq!(lhs.len(), 1000);
            assert_eq!(rhs.len(), 1000);
            for i in 0..1000 {
                match (&lhs[i], &rhs[i]) {
                    (Value::Tensor(l), Value::Tensor(r)) => {
                        assert_eq!(l.device, Device::Cpu);
                        assert_eq!(l.kind, Kind::Float);
                        assert_eq!(r.device, maybe_cuda);
                        assert_eq!(r.kind, Kind::Double);
                        assert_eq!(l.data, r.data);
                    },
                    _ => unreachable!(),
                }
            }
        },
        _ => unreachable!(),
    }
}

#[test]
fn tensor_test() {
    let rt = Runtime { cuda_devices: 1 };
    let maybe_cuda = rt.cuda_if_available();

    let tensor = TensorHandle { device: Device::Cpu, kind: Kind::Float, data: 7 }
        .to_device(&rt, maybe_cuda)
        .to_kind(&rt, Kind::Double)
        .shallow_clone();

    assert_eq!(tensor.device, maybe_cuda);
    assert_eq!(tensor.kind, Kind::Double);
}

#[test]
fn option_test() {
    let rt = Runtime { cuda_devices: 1 };
    let maybe_cuda = rt.cuda_if_available();

    {
        let some = Value::Opt(Some(Box::new(cpu_float(5))))
            .to_device(&rt, maybe_cuda)
            .to_kind(&rt, Kind::Double)
            .shallow_clone();

        match some {
            Value::Opt(Some(inner)) => match *inner {
                Value::Tensor(t) => {
                    assert_eq!(t.device, maybe_cuda);
                    assert_eq!(t.kind, Kind::Double);
                },
                _ => unreachable!(),
            },
            _ => unreachable!(),
        }
    }

    {
        let none = Value::Opt(None)
            .to_device(&rt, maybe_cuda)
            .to_kind(&rt, Kind::Double)
            .shallow_clone();

        match none {
            Value::Opt(Some(_)) => unreachable!(),
            Value::Opt(None) => (),
            _ => unreachable!(),
        }
    }
}

#[test]
fn collections_test() {
    let rt = Runtime { cuda_devices: 1 };
    let maybe_cuda = rt.cuda_if_available();

    // sequential container
    let mut items: Vec<Value> = Vec::new();
    for i in 0..16 {
        items.push(cpu_float(i));
    }
    let list = Value::List(items)
        .to_device(&rt, maybe_cuda)
        .to_kind(&rt, Kind::Double)
        .shallow_clone();
    match list {
        Value::List(items) => {
            assert_eq!(items.len(), 16);
            for item in &items {
                match item {
                    Value::Tensor(t) => {
                        assert_eq!(t.device, maybe_cuda);
                        assert_eq!(t.kind, Kind::Double);
                    },
                    _ => unreachable!(),
                }
            }
        },
        _ => unreachable!(),
    }

    // map keyed by plain keys
    let mut entries: Vec<MapEntry> = Vec::new();
    for i in 0..16 {
        entries.push(MapEntry { key: i, value: cpu_float(i as i64) });
    }
    let dict = Value::Dict(entries)
        .to_device(&rt, maybe_cuda)
        .to_kind(&rt, Kind::Double)
        .shallow_clone();
    match dict {
        Value::Dict(entries) => {
            assert_eq!(entries.len(), 16);
            for (i, entry) in entries.iter().enumerate() {
                assert_eq!(entry.key, i as u64);
                match &entry.value {
                    Value::Tensor(t) => {
                        assert_eq!(t.device, maybe_cuda);
                        assert_eq!(t.kind, Kind::Double);
                    },
                    _ => unreachable!(),
                }
            }
        },
        _ => unreachable!(),
    }
}

#[test]
fn derive_types_test() {
    let rt = Runtime { cuda_devices: 1 };
    let maybe_cuda = rt.cuda_if_available();

    // unit struct
    {
        let unit = Value::Record(vec![]);
        let to = unit
            .to_device(&rt, maybe_cuda)
            .to_kind(&rt, Kind::Double)
            .shallow_clone();
        assert!(Value::value_eq(&to, &Value::Record(vec![])));
    }

    // positional record
    {
        let from = Value::Record(vec![
            recurse(Value::Prim(0)),
            recurse(Value::Prim(-1)),
            recurse(Value::Prim(3)),
            recurse(cpu_float(4)),
            recurse(Value::List(vec![cpu_float(5), cpu_float(6)])),
        ]);
        let to = from
            .to_device(&rt, maybe_cuda)
            .to_kind(&rt, Kind::Double)
            .shallow_clone();

        match to {
            Value::Record(fields) => {
                assert_eq!(fields.len(), 5);
                assert!(Value::value_eq(&fields[0].value, &Value::Prim(0)));
                assert!(Value::value_eq(&fields[1].value, &Value::Prim(-1)));
                assert!(Value::value_eq(&fields[2].value, &Value::Prim(3)));
                match &fields[3].value {
                    Value::Tensor(t) => {
                        assert_eq!(t.device, maybe_cuda);
                        assert_eq!(t.kind, Kind::Double);
                    },
                    _ => unreachable!(),
                }
                match &fields[4].value {
                    Value::List(items) => {
                        assert_eq!(items.len(), 2);
                        for item in items {
                            match item {
                                Value::Tensor(t) => {
                                    assert_eq!(t.device, maybe_cuda);
                                    assert_eq!(t.kind, Kind::Double);
                                },
                                _ => unreachable!(),
                            }
                        }
                    },
                    _ => unreachable!(),
                }
            },
            _ => unreachable!(),
        }
    }

    // tagged union: unit variant
    {
        let unit = Value::Variant(0, vec![]);
        let to = unit
            .to_device(&rt, maybe_cuda)
            .to_kind(&rt, Kind::Double)
            .shallow_clone();
        match to {
            Value::Variant(0, fields) => assert!(fields.is_empty()),
            _ => unreachable!(),
        }
    }

    // tagged union: variant with fields
    {
        let from = Value::Variant(1, vec![
            recurse(Value::Prim(0)),
            recurse(cpu_float(9)),
        ]);
        let to = from
            .to_device(&rt, maybe_cuda)
            .to_kind(&rt, Kind::Double)
            .shallow_clone();
        match to {
            Value::Variant(tag, fields) => {
                assert_eq!(tag, 1);
                assert_eq!(fields.len(), 2);
                assert!(Value::value_eq(&fields[0].value, &Value::Prim(0)));
                match &fields[1].value {
                    Value::Tensor(t) => {
                        assert_eq!(t.device, maybe_cuda);
                        assert_eq!(t.kind, Kind::Double);
                    },
                    _ => unreachable!(),
                }
            },
            _ => unreachable!(),
        }
    }
}

#[test]
fn derive_clone_test() {
    let rt = Runtime { cuda_devices: 1 };
    let maybe_cuda = rt.cuda_if_available();

    let from = Value::Record(vec![
        FieldVal { strategy: FieldStrategy::Recurse, value: cpu_float(1) },
        FieldVal {
            strategy: FieldStrategy::CopyDuplicate,
            value: Value::Text(String::from("mighty")),
        },
        FieldVal {
            strategy: FieldStrategy::CloneDuplicate,
            value: Value::Text(String::from("tch")),
        },
        FieldVal { strategy: FieldStrategy::CopyDuplicate, value: Value::Prim(0) },
    ]);

    let to = from
        .to_device(&rt, maybe_cuda)
        .to_kind(&rt, Kind::Double)
        .shallow_clone();

    match to {
        Value::Record(fields) => {
            assert_eq!(fields.len(), 4);
            match &fields[0].value {
                Value::Tensor(t) => {
                    assert_eq!(t.device, maybe_cuda);
                    assert_eq!(t.kind, Kind::Double);
                },
                _ => unreachable!(),
            }
            assert!(Value::value_eq(&fields[1].value, &Value::Text(String::from("mighty"))));
            assert!(Value::value_eq(&fields[2].value, &Value::Text(String::from("tch"))));
            assert!(Value::value_eq(&fields[3].value, &Value::Prim(0)));
        },
        _ => unreachable!(),
    }
}
