// Scenario tests for the traversal's guarantees: identity of shallow
// duplication, fail-fast propagation, container semantics, bypass of
// duplicating strategies, and the end-to-end record scenario.

use tensor_like::engine::{FieldVal, MapEntry, Value};
use tensor_like::runtime::{Device, Kind, Runtime, RuntimeError, TensorHandle};
use tensor_like::shape::FieldStrategy;
use tensor_like::tensor_like::TensorLike;

fn cpu_float(data: i64) -> Value {
    Value::Tensor(TensorHandle { device: Device::Cpu, kind: Kind::Float, data })
}

fn recurse(value: Value) -> FieldVal {
    FieldVal { strategy: FieldStrategy::Recurse, value }
}

#[test]
fn identity_duplicate() {
    // A shape whose leaves are all primitives: the shallow clone compares
    // structurally equal to the original.
    let original = Value::Record(vec![
        recurse(Value::Prim(1)),
        recurse(Value::List(vec![Value::Prim(2), Value::Prim(3)])),
        recurse(Value::Opt(Some(Box::new(Value::Prim(4))))),
        recurse(Value::Dict(vec![MapEntry { key: 9, value: Value::Prim(5) }])),
        FieldVal { strategy: FieldStrategy::CloneDuplicate, value: Value::Text(String::from("k")) },
    ]);
    let copy = original.shallow_clone();
    assert!(Value::value_eq(&copy, &original));
}

#[test]
fn fail_fast_propagation() {
    // No accelerator exists, so the tensor's device conversion fails; the
    // first failing field is the whole operation's outcome and no value is
    // observable.
    let rt = Runtime { cuda_devices: 0 };
    let composite = Value::Record(vec![
        recurse(Value::Prim(1)),
        recurse(cpu_float(2)),
        recurse(Value::Prim(3)),
    ]);
    match composite.f_to_device(&rt, Device::Cuda(0)) {
        Err(RuntimeError::DeviceNotAvailable(Device::Cuda(0))) => (),
        _ => unreachable!(),
    }
}

#[test]
fn nested_failure_aborts_the_container() {
    // A failure deep inside a list aborts the whole list: no partial
    // container is returned.
    let rt = Runtime { cuda_devices: 0 };
    let list = Value::List(vec![cpu_float(0), cpu_float(1)]);
    assert!(list.f_to_device(&rt, Device::Cuda(3)).is_err());
    // The same list converts fine once the device exists.
    let rt2 = Runtime { cuda_devices: 4 };
    assert!(list.f_to_device(&rt2, Device::Cuda(3)).is_ok());
}

#[test]
fn empty_containers_stay_empty() {
    let rt = Runtime { cuda_devices: 1 };
    let device = rt.cuda_if_available();

    let empty_list = Value::List(vec![]);
    for value in [
        empty_list.to_device(&rt, device),
        empty_list.to_kind(&rt, Kind::Double),
        empty_list.shallow_clone(),
    ] {
        match value {
            Value::List(items) => assert!(items.is_empty()),
            _ => unreachable!(),
        }
    }

    let empty_dict = Value::Dict(vec![]);
    for value in [
        empty_dict.to_device(&rt, device),
        empty_dict.to_kind(&rt, Kind::Double),
        empty_dict.shallow_clone(),
    ] {
        match value {
            Value::Dict(entries) => assert!(entries.is_empty()),
            _ => unreachable!(),
        }
    }
}

#[test]
fn map_keys_are_preserved() {
    let rt = Runtime { cuda_devices: 1 };
    let device = rt.cuda_if_available();
    let dict = Value::Dict(vec![
        MapEntry { key: 1, value: cpu_float(10) },
        MapEntry { key: 2, value: cpu_float(20) },
        MapEntry { key: 3, value: cpu_float(30) },
    ]);
    for value in [
        dict.to_device(&rt, device),
        dict.to_kind(&rt, Kind::Double),
        dict.shallow_clone(),
    ] {
        match value {
            Value::Dict(entries) => {
                assert_eq!(entries.len(), 3);
                assert_eq!(entries[0].key, 1);
                assert_eq!(entries[1].key, 2);
                assert_eq!(entries[2].key, 3);
                for entry in &entries {
                    assert!(matches!(entry.value, Value::Tensor(_)));
                }
            },
            _ => unreachable!(),
        }
    }
}

#[test]
fn copy_strategy_bypasses_conversion() {
    // A tensor-bearing field marked for bitwise duplication keeps its
    // device verbatim while its recursive sibling is moved.
    let rt = Runtime { cuda_devices: 1 };
    let composite = Value::Record(vec![
        FieldVal { strategy: FieldStrategy::CopyDuplicate, value: cpu_float(1) },
        recurse(cpu_float(2)),
    ]);
    let moved = composite.to_device(&rt, Device::Cuda(0));
    match moved {
        Value::Record(fields) => {
            match &fields[0].value {
                Value::Tensor(t) => assert_eq!(t.device, Device::Cpu),
                _ => unreachable!(),
            }
            match &fields[1].value {
                Value::Tensor(t) => assert_eq!(t.device, Device::Cuda(0)),
                _ => unreachable!(),
            }
        },
        _ => unreachable!(),
    }
}

#[test]
fn clone_strategy_bypasses_conversion() {
    // The generic-clone strategy equally opts its field out of the
    // operation's semantic effect.
    let rt = Runtime { cuda_devices: 1 };
    let composite = Value::Record(vec![FieldVal {
        strategy: FieldStrategy::CloneDuplicate,
        value: cpu_float(5),
    }]);
    let cast = composite.to_kind(&rt, Kind::Double);
    match cast {
        Value::Record(fields) => match &fields[0].value {
            Value::Tensor(t) => {
                assert_eq!(t.kind, Kind::Float);
                assert_eq!(t.data, 5);
            },
            _ => unreachable!(),
        },
        _ => unreachable!(),
    }
}

#[test]
fn end_to_end_record_scenario() {
    // A record { count, label (clone), payload } under a kind cast followed
    // by a shallow clone: the count is unchanged, the label equals the
    // original by value, and the payload reports the new kind on its
    // original device.
    let rt = Runtime { cuda_devices: 0 };
    let record = Value::Record(vec![
        recurse(Value::Prim(3)),
        FieldVal {
            strategy: FieldStrategy::CloneDuplicate,
            value: Value::Text(String::from("batch")),
        },
        recurse(cpu_float(11)),
    ]);

    let result = record.to_kind(&rt, Kind::Double).shallow_clone();

    match result {
        Value::Record(fields) => {
            assert_eq!(fields.len(), 3);
            assert!(Value::value_eq(&fields[0].value, &Value::Prim(3)));
            assert!(Value::value_eq(&fields[1].value, &Value::Text(String::from("batch"))));
            match &fields[2].value {
                Value::Tensor(t) => {
                    assert_eq!(t.kind, Kind::Double);
                    assert_eq!(t.device, Device::Cpu);
                    assert_eq!(t.data, 11);
                },
                _ => unreachable!(),
            }
        },
        _ => unreachable!(),
    }
}

#[test]
fn structural_comparison_sees_differences() {
    let a = Value::List(vec![Value::Prim(1), Value::Prim(2)]);
    let b = Value::List(vec![Value::Prim(1), Value::Prim(3)]);
    let c = Value::List(vec![Value::Prim(1)]);
    assert!(Value::value_eq(&a, &a));
    assert!(!Value::value_eq(&a, &b));
    assert!(!Value::value_eq(&a, &c));
    assert!(!Value::value_eq(&a, &Value::Prim(1)));
    assert!(!Value::value_eq(
        &Value::Text(String::from("x")),
        &Value::Text(String::from("y"))
    ));
}

#[test]
fn kind_cast_keeps_device_and_payload() {
    let rt = Runtime { cuda_devices: 2 };
    let t = TensorHandle { device: Device::Cuda(1), kind: Kind::Float, data: -4 };
    let cast = t.f_to_kind(&rt, Kind::Int64).unwrap();
    assert_eq!(cast.device, Device::Cuda(1));
    assert_eq!(cast.kind, Kind::Int64);
    assert_eq!(cast.data, -4);
}

#[test]
fn device_move_fails_exactly_on_absent_devices() {
    let rt = Runtime { cuda_devices: 2 };
    let t = TensorHandle { device: Device::Cpu, kind: Kind::Float, data: 0 };
    assert!(t.f_to_device(&rt, Device::Cuda(0)).is_ok());
    assert!(t.f_to_device(&rt, Device::Cuda(1)).is_ok());
    match t.f_to_device(&rt, Device::Cuda(2)) {
        Err(RuntimeError::DeviceNotAvailable(d)) => assert_eq!(d, Device::Cuda(2)),
        _ => unreachable!(),
    }
    assert!(t.f_to_device(&rt, Device::Cpu).is_ok());
}
