//! Opaque handle types of the TensorFlow Lite C API.
//!
//! An embedding that hosts the learned estimator stages in TensorFlow Lite
//! refers to the inference runtime's objects only through pointers to these
//! opaque types; nothing of their layout is visible here, and no verified
//! code reads them. They exist so that handle-carrying glue can speak the C
//! API's vocabulary while the verified core stays agnostic to how the
//! estimators are hosted.

use vstd::prelude::*;

verus! {

/// An opaque TensorFlow Lite delegate.
pub struct TfLiteDelegate {
    _private: [u8; 0],
}

/// An opaque TensorFlow Lite interpreter.
pub struct TfLiteInterpreter {
    _private: [u8; 0],
}

/// Opaque options for building a TensorFlow Lite interpreter.
pub struct TfLiteInterpreterOptions {
    _private: [u8; 0],
}

/// An opaque TensorFlow Lite model.
pub struct TfLiteModel {
    _private: [u8; 0],
}

/// An opaque TensorFlow Lite tensor.
pub struct TfLiteTensor {
    _private: [u8; 0],
}

/// The element type of a TensorFlow Lite tensor, in the C API's order.
#[derive(Copy, Clone, PartialEq, Eq)]
pub enum Type {
    NoType,
    Float32,
    Int32,
    UInt8,
    Int64,
    String,
    Bool,
    Int16,
    Complex64,
    Int8,
    Float16,
}

} // verus!
