//! The estimator collaborators consumed by the block processor.
//!
//! An estimator is a black-box transform from a primary input and a carried
//! recurrent state to a primary output of the same shape and a new state.
//! Each implementation exposes its transfer function as a spec-level model,
//! so that a whole processing run is a deterministic function of the input
//! stream and the initial state.

use vstd::prelude::*;

use crate::error::EstimatorError;

verus! {

/// A black-box transform honouring
/// `estimate(primary, state_in) -> (primary_out, state_out)`, where
/// `primary_out` has the shape of `primary` and `state_out` the shape of
/// `state_in`. Stage one maps a magnitude spectrum to a suppression mask;
/// stage two refines a time-domain block.
pub trait Estimator: Sized {
    /// The transfer function of this estimator: `None` exactly when the
    /// invocation fails for these arguments. An implementation outside the
    /// verified world may leave this at its default, in which case verified
    /// reasoning treats its every invocation as failing.
    open spec fn model(&self, primary: Seq<u32>, state: Seq<u32>) -> Option<
        (Seq<u32>, Seq<u32>),
    > {
        None
    }

    /// Run the estimator once on the given primary input and carried state.
    /// A successful outcome keeps the primary shape and the state shape.
    fn estimate(&self, primary: &Vec<u32>, state: &Vec<u32>) -> (r: Result<
        (Vec<u32>, Vec<u32>),
        EstimatorError,
    >)
        ensures
            (match r {
                Ok(out) => self.model(primary@, state@) == Some((out.0@, out.1@))
                    && out.0@.len() == primary@.len() && out.1@.len() == state@.len(),
                Err(_) => self.model(primary@, state@) is None,
            }),
    ;
}

/// Whether an estimator's transfer function keeps the primary shape and the
/// state shape on every successful outcome — true of every implementation
/// honouring the interface, and what the `estimate` contract promises of each
/// call.
pub open spec fn shaped<E: Estimator>(e: &E) -> bool {
    forall|p: Seq<u32>, s: Seq<u32>|
        match #[trigger] e.model(p, s) {
            Some(out) => out.0.len() == p.len() && out.1.len() == s.len(),
            None => true,
        }
}

/// An estimator that suppresses everything: its primary output is all zero
/// bits and the state is handed back unchanged. With it, stage one masks the
/// whole spectrum to silence.
pub struct ZeroEstimator;

/// An estimator that changes nothing: primary input and state are handed back
/// as they came. With it, stage one applies a unit-free mask of raw
/// magnitudes and stage two keeps the reconstructed block.
pub struct PassEstimator;

/// An estimator whose every invocation fails, for exercising the failure
/// paths of the block processor.
pub struct FailingEstimator;

impl Estimator for ZeroEstimator {
    open spec fn model(&self, primary: Seq<u32>, state: Seq<u32>) -> Option<(Seq<u32>, Seq<u32>)> {
        Some((Seq::new(primary.len(), |i: int| 0u32), state))
    }

    fn estimate(&self, primary: &Vec<u32>, state: &Vec<u32>) -> (r: Result<
        (Vec<u32>, Vec<u32>),
        EstimatorError,
    >) {
        let mut out: Vec<u32> = Vec::new();
        let n = primary.len();
        let mut i: usize = 0;
        while i < n
            invariant
                i <= n,
                out@.len() == i,
                forall|j: int| 0 <= j < i ==> out@[j] == 0u32,
            decreases n - i,
        {
            out.push(0u32);
            i = i + 1;
        }
        let st = copy_samples(state);
        proof {
            assert(out@ =~= Seq::new(primary@.len(), |i: int| 0u32));
        }
        Ok((out, st))
    }
}

impl Estimator for PassEstimator {
    open spec fn model(&self, primary: Seq<u32>, state: Seq<u32>) -> Option<(Seq<u32>, Seq<u32>)> {
        Some((primary, state))
    }

    fn estimate(&self, primary: &Vec<u32>, state: &Vec<u32>) -> (r: Result<
        (Vec<u32>, Vec<u32>),
        EstimatorError,
    >) {
        Ok((copy_samples(primary), copy_samples(state)))
    }
}

impl Estimator for FailingEstimator {
    open spec fn model(&self, primary: Seq<u32>, state: Seq<u32>) -> Option<(Seq<u32>, Seq<u32>)> {
        None
    }

    fn estimate(&self, primary: &Vec<u32>, state: &Vec<u32>) -> (r: Result<
        (Vec<u32>, Vec<u32>),
        EstimatorError,
    >) {
        Err(EstimatorError)
    }
}

/// Element-wise copy of a sample buffer.
pub fn copy_samples(v: &Vec<u32>) -> (r: Vec<u32>)
    ensures
        r@ == v@,
{
    let mut out: Vec<u32> = Vec::new();
    let n = v.len();
    let mut i: usize = 0;
    while i < n
        invariant
            n == v@.len(),
            i <= n,
            out@.len() == i,
            forall|j: int| 0 <= j < i ==> out@[j] == v@[j],
        decreases n - i,
    {
        out.push(v[i]);
        i = i + 1;
    }
    proof {
        assert(out@ =~= v@);
    }
    out
}

} // verus!
