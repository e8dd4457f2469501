//! A real-time, block-streaming noise-suppression core for mono 16 kHz
//! audio, verified with Verus.
//!
//! The engine reframes a continuous sample stream into overlapping analysis
//! windows, transforms each to the spectral domain, applies a suppression
//! mask obtained from a pluggable estimator, reconstructs and refines a
//! time-domain estimate with a second estimator, and overlap-adds the result
//! into a continuous output stream. A deferred pipeline wraps the engine in
//! a request/response protocol with one-chunk pipelining and starvation
//! detection for callers that cannot block on compute.
//!
//! Samples are carried as the IEEE-754 bit patterns of single-precision
//! values (`u32`), so every piece of buffer bookkeeping is verified exactly;
//! the scalar float operations and the transform itself stand behind small
//! trusted wrappers.

pub mod constants;
pub mod engine;
pub mod error;
pub mod estimator;
pub mod float_ops;
pub mod frame;
pub mod processor;
pub mod registry;
pub mod spectral;
pub mod tflite;
