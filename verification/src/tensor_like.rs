//! The capability trait: the run-time contract between generated code, the
//! base implementations and the tensor runtime.
//!
//! A capable type offers the three traversal operations.  The two conversion
//! operations are fallible and fail-fast; shallow duplication never fails.
//! Each implementor states what the operations yield over the mathematical
//! model of its values.

use vstd::prelude::*;

use crate::engine::{result_models, spec_apply, TraversalOp, ValModel, Value};
use crate::runtime::{Device, Kind, Runtime, RuntimeError, TensorHandle};

verus! {

/// The three-operation contract.  `f_to_device` and `f_to_kind` return the
/// transformed value or the first failure the traversal met; `to_device` and
/// `to_kind` ask the caller to rule that failure out and hand the value back
/// directly; `shallow_clone` always succeeds.
pub trait TensorLike: View + Sized {
    /// What moving every reachable tensor to a device yields, on the model.
    spec fn to_device_spec(self, rt: Runtime, device: Device) -> Result<Self::V, RuntimeError>;

    /// What casting every reachable tensor to an element kind yields, on the
    /// model.
    spec fn to_kind_spec(self, rt: Runtime, kind: Kind) -> Result<Self::V, RuntimeError>;

    /// Move every reachable tensor to the device.
    fn f_to_device(&self, rt: &Runtime, device: Device) -> (r: Result<Self, RuntimeError>)
        ensures
            (r matches Ok(v) ==> self.to_device_spec(*rt, device) == Ok::<Self::V, RuntimeError>(
                v@,
            )),
            (r matches Err(e) ==> self.to_device_spec(*rt, device) == Err::<Self::V, RuntimeError>(
                e,
            )),
    ;

    /// Cast every reachable tensor to the element kind.
    fn f_to_kind(&self, rt: &Runtime, kind: Kind) -> (r: Result<Self, RuntimeError>)
        ensures
            (r matches Ok(v) ==> self.to_kind_spec(*rt, kind) == Ok::<Self::V, RuntimeError>(v@)),
            (r matches Err(e) ==> self.to_kind_spec(*rt, kind) == Err::<Self::V, RuntimeError>(e)),
    ;

    /// Duplicate the value shallowly: an independently owned value with the
    /// same model, sharing tensor storage.  Never fails.
    fn shallow_clone(&self) -> (r: Self)
        ensures
            r@ == self@,
    ;

    /// Move every reachable tensor to the device, on inputs where the
    /// conversion is known to succeed.
    fn to_device(&self, rt: &Runtime, device: Device) -> (r: Self)
        requires
            self.to_device_spec(*rt, device) is Ok,
        ensures
            self.to_device_spec(*rt, device) == Ok::<Self::V, RuntimeError>(r@),
    ;

    /// Cast every reachable tensor to the element kind, on inputs where the
    /// conversion is known to succeed.
    fn to_kind(&self, rt: &Runtime, kind: Kind) -> (r: Self)
        requires
            self.to_kind_spec(*rt, kind) is Ok,
        ensures
            self.to_kind_spec(*rt, kind) == Ok::<Self::V, RuntimeError>(r@),
    ;
}

impl TensorLike for Value {
    open spec fn to_device_spec(self, rt: Runtime, device: Device) -> Result<
        ValModel,
        RuntimeError,
    > {
        spec_apply(rt, self@, TraversalOp::ToDevice(device))
    }

    open spec fn to_kind_spec(self, rt: Runtime, kind: Kind) -> Result<ValModel, RuntimeError> {
        spec_apply(rt, self@, TraversalOp::ToKind(kind))
    }

    fn f_to_device(&self, rt: &Runtime, device: Device) -> (r: Result<Self, RuntimeError>) {
        self.apply(rt, TraversalOp::ToDevice(device))
    }

    fn f_to_kind(&self, rt: &Runtime, kind: Kind) -> (r: Result<Self, RuntimeError>) {
        self.apply(rt, TraversalOp::ToKind(kind))
    }

    fn shallow_clone(&self) -> (r: Self) {
        self.duplicate()
    }

    fn to_device(&self, rt: &Runtime, device: Device) -> (r: Self) {
        match self.apply(rt, TraversalOp::ToDevice(device)) {
            Ok(v) => v,
            Err(_) => unreached(),
        }
    }

    fn to_kind(&self, rt: &Runtime, kind: Kind) -> (r: Self) {
        match self.apply(rt, TraversalOp::ToKind(kind)) {
            Ok(v) => v,
            Err(_) => unreached(),
        }
    }
}

impl View for TensorHandle {
    type V = TensorHandle;

    open spec fn view(&self) -> TensorHandle {
        *self
    }
}

impl TensorLike for TensorHandle {
    open spec fn to_device_spec(self, rt: Runtime, device: Device) -> Result<
        TensorHandle,
        RuntimeError,
    > {
        rt.spec_convert_device(self, device)
    }

    open spec fn to_kind_spec(self, rt: Runtime, kind: Kind) -> Result<
        TensorHandle,
        RuntimeError,
    > {
        Ok(rt.spec_convert_kind(self, kind))
    }

    fn f_to_device(&self, rt: &Runtime, device: Device) -> (r: Result<Self, RuntimeError>) {
        rt.convert_device(self, device)
    }

    fn f_to_kind(&self, rt: &Runtime, kind: Kind) -> (r: Result<Self, RuntimeError>) {
        rt.convert_kind(self, kind)
    }

    fn shallow_clone(&self) -> (r: Self) {
        duplicate_handle(self)
    }

    fn to_device(&self, rt: &Runtime, device: Device) -> (r: Self) {
        match rt.convert_device(self, device) {
            Ok(h) => h,
            Err(_) => unreached(),
        }
    }

    fn to_kind(&self, rt: &Runtime, kind: Kind) -> (r: Self) {
        match rt.convert_kind(self, kind) {
            Ok(h) => h,
            Err(_) => unreached(),
        }
    }
}

/// A shallow duplicate of a bare handle: the same attributes over the same
/// storage.
fn duplicate_handle(t: &TensorHandle) -> (r: TensorHandle)
    ensures
        r == *t,
{
    TensorHandle { device: t.device, kind: t.kind, data: t.data }
}

} // verus!
