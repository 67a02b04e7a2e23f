//! Model of the external tensor runtime.
//!
//! The traversal treats the runtime as an opaque collaborator offering three
//! primitives on tensor handles: conversion to a device, conversion to an
//! element kind, and shallow duplication.  The model keeps exactly what the
//! traversal can observe of a handle — its placement, its element kind and a
//! scalar payload standing for the shared storage — and lets a conversion to
//! an absent accelerator fail, which is the one failure the traversal must
//! propagate.

use vstd::prelude::*;

verus! {

/// An execution target a tensor can be placed on: the host processor, or one
/// of the runtime's accelerator devices, identified by ordinal.
#[derive(Clone, Copy, Debug, PartialEq, Eq, Structural)]
pub enum Device {
    Cpu,
    Cuda(u64),
}

/// An element data type a tensor can be cast to.
#[derive(Clone, Copy, Debug, PartialEq, Eq, Structural)]
pub enum Kind {
    Uint8,
    Int8,
    Int16,
    Int,
    Int64,
    Half,
    Float,
    Double,
    Bool,
}

/// The error the runtime reports when a conversion cannot be carried out.
/// The traversal never inspects it; it only propagates it unchanged.
#[derive(Clone, Copy, Debug, PartialEq, Eq, Structural)]
pub enum RuntimeError {
    DeviceNotAvailable(Device),
}

/// A tensor handle as the traversal sees it: the attributes the three
/// primitives read and rewrite, plus a scalar payload standing for the
/// storage that shallow duplicates share.
#[derive(Clone, Copy, Debug, PartialEq, Eq, Structural)]
pub struct TensorHandle {
    pub device: Device,
    pub kind: Kind,
    pub data: i64,
}

/// The tensor runtime itself, reduced to the one fact the primitives depend
/// on: how many accelerator devices are present.
#[derive(Clone, Copy, Debug, PartialEq, Eq, Structural)]
pub struct Runtime {
    pub cuda_devices: u64,
}

impl Runtime {
    /// Whether a device exists under this runtime.
    pub open spec fn device_available(self, device: Device) -> bool {
        match device {
            Device::Cpu => true,
            Device::Cuda(ordinal) => ordinal < self.cuda_devices,
        }
    }

    /// What converting a handle to a device yields: the handle moved if the
    /// device exists, the runtime's error otherwise.
    pub open spec fn spec_convert_device(self, t: TensorHandle, device: Device) -> Result<
        TensorHandle,
        RuntimeError,
    > {
        if self.device_available(device) {
            Ok(TensorHandle { device, kind: t.kind, data: t.data })
        } else {
            Err(RuntimeError::DeviceNotAvailable(device))
        }
    }

    /// What casting a handle to an element kind yields.
    pub open spec fn spec_convert_kind(self, t: TensorHandle, kind: Kind) -> TensorHandle {
        TensorHandle { device: t.device, kind, data: t.data }
    }

    /// Convert a handle to a device; fails exactly when the device is absent.
    pub fn convert_device(&self, t: &TensorHandle, device: Device) -> (r: Result<
        TensorHandle,
        RuntimeError,
    >)
        ensures
            r == self.spec_convert_device(*t, device),
    {
        match device {
            Device::Cpu => Ok(TensorHandle { device, kind: t.kind, data: t.data }),
            Device::Cuda(ordinal) => {
                if ordinal < self.cuda_devices {
                    Ok(TensorHandle { device, kind: t.kind, data: t.data })
                } else {
                    Err(RuntimeError::DeviceNotAvailable(device))
                }
            },
        }
    }

    /// Cast a handle to an element kind; the placement and payload are kept.
    pub fn convert_kind(&self, t: &TensorHandle, kind: Kind) -> (r: Result<
        TensorHandle,
        RuntimeError,
    >)
        ensures
            r == Ok::<TensorHandle, RuntimeError>(self.spec_convert_kind(*t, kind)),
    {
        Ok(TensorHandle { device: t.device, kind, data: t.data })
    }

    /// Duplicate a handle shallowly: a new handle over the same storage, with
    /// the same placement and kind.  Never fails.
    pub fn duplicate_shallow(&self, t: &TensorHandle) -> (r: TensorHandle)
        ensures
            r == *t,
    {
        TensorHandle { device: t.device, kind: t.kind, data: t.data }
    }

    /// The first accelerator device if one is present, the host otherwise.
    pub fn cuda_if_available(&self) -> (d: Device)
        ensures
            d == (if self.cuda_devices > 0 {
                Device::Cuda(0)
            } else {
                Device::Cpu
            }),
            self.device_available(d),
    {
        if self.cuda_devices > 0 {
            Device::Cuda(0)
        } else {
            Device::Cpu
        }
    }
}

} // verus!
