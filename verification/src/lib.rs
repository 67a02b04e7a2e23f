//! Derivation of a uniform tensor-aware traversal for composite data shapes.
//!
//! The crate analyses the declared shape of a record, tuple record, unit or
//! tagged-union type together with per-field strategy markers, and generates
//! a plan for three traversal operations — move every contained tensor to a
//! device, cast every contained tensor to an element kind, and duplicate the
//! value shallowly.  A small recursive engine gives the generated plans their
//! run-time meaning over self-describing values, against a model of the
//! external tensor runtime.

pub mod analyze;
pub mod engine;
pub mod generate;
pub mod input;
pub mod laws;
pub mod runtime;
pub mod shape;
pub mod tensor_like;
