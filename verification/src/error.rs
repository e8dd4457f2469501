use vstd::prelude::*;

verus! {

/// Failures surfaced by the denoising core.
#[derive(Clone, Copy, Debug, PartialEq, Eq)]
pub enum DtlnError {
    /// An estimator collaborator could not be constructed; no engine exists.
    CreationFailure,
    /// A window update was handed a chunk that is not exactly one block shift long.
    InvalidBlockSize,
    /// A stream was handed input whose length is not a multiple of the block shift.
    UnalignedInputLength,
    /// An estimator invocation failed mid-cycle; the windows were left
    /// consistent so the caller may retry with the next chunk.
    EstimatorFailure,
    /// The deferred pipeline was stopped; it accepts no further submissions.
    Stopped,
}

/// Failure of a single estimator invocation, as reported by the collaborator.
#[derive(Clone, Copy, Debug, PartialEq, Eq)]
pub struct EstimatorError;

} // verus!
