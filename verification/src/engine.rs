//! The block processor and stream engine: one analysis, estimate, synthesis,
//! refine, overlap-add cycle per block shift of input, driven over
//! arbitrary-length streams.

use vstd::prelude::*;

use crate::constants::{DTLN_BLOCK_LEN, DTLN_BLOCK_SHIFT, DTLN_FFT_OUT_SIZE};
use crate::error::DtlnError;
use crate::estimator::{shaped, Estimator};
use crate::float_ops::mul_bits;
use crate::frame::{advanced, overlap_added, zero_block, FrameBuffer};
use crate::spectral::{fft_bits, forward, inverse, inverse_spec, mags_of, masked_of, phases_of};

verus! {

/// The mathematical state of an engine: the two windows and the two
/// recurrent state vectors.
pub ghost struct EngineModel {
    pub analysis: Seq<u32>,
    pub synthesis: Seq<u32>,
    pub state1: Seq<u32>,
    pub state2: Seq<u32>,
}

/// The state of a freshly created engine: everything zero.
pub open spec fn fresh_model() -> EngineModel {
    EngineModel {
        analysis: zero_block(),
        synthesis: zero_block(),
        state1: zero_block(),
        state2: zero_block(),
    }
}

/// All four buffers hold exactly one block of samples.
pub open spec fn model_wf(m: EngineModel) -> bool {
    &&& m.analysis.len() == DTLN_BLOCK_LEN
    &&& m.synthesis.len() == DTLN_BLOCK_LEN
    &&& m.state1.len() == DTLN_BLOCK_LEN
    &&& m.state2.len() == DTLN_BLOCK_LEN
}

/// One block cycle on the model: advance the analysis window with `chunk`,
/// take magnitude and phase of its transform, run stage one to obtain a
/// suppression mask and a new first state, reconstruct a time-domain estimate
/// from the masked magnitude and the original phase, run stage two to refine
/// it and obtain a new second state, overlap-add the refined block into the
/// synthesis window, and emit its leading block shift.
///
/// On a stage failure the cycle stops: the synthesis window is untouched and
/// the recurrent state of the failing stage (and of any stage not yet run)
/// keeps its prior value; the advanced analysis window is kept, so the next
/// chunk continues the stream.
pub open spec fn cycle<E1: Estimator, E2: Estimator>(
    e1: &E1,
    e2: &E2,
    m: EngineModel,
    chunk: Seq<u32>,
) -> (EngineModel, Option<Seq<u32>>) {
    let analysis = advanced(m.analysis, chunk);
    let bins = fft_bits(analysis);
    let mag = mags_of(bins);
    let phase = phases_of(bins);
    match e1.model(mag, m.state1) {
        None => (
            EngineModel {
                analysis: analysis,
                synthesis: m.synthesis,
                state1: m.state1,
                state2: m.state2,
            },
            None,
        ),
        Some(stage1) => {
            let est = inverse_spec(masked_of(mag, stage1.0), phase);
            match e2.model(est, m.state2) {
                None => (
                    EngineModel {
                        analysis: analysis,
                        synthesis: m.synthesis,
                        state1: stage1.1,
                        state2: m.state2,
                    },
                    None,
                ),
                Some(stage2) => {
                    let synthesis = overlap_added(m.synthesis, stage2.0);
                    (
                        EngineModel {
                            analysis: analysis,
                            synthesis: synthesis,
                            state1: stage1.1,
                            state2: stage2.1,
                        },
                        Some(synthesis.take(DTLN_BLOCK_SHIFT as int)),
                    )
                },
            }
        },
    }
}

/// A whole run over `input`, one cycle per leading block shift, outputs
/// concatenated in order. A failing cycle ends the run with `None` and the
/// state the failing cycle left behind; input shorter than one block shift
/// (in particular, an empty tail) is not consumed.
pub open spec fn stream<E1: Estimator, E2: Estimator>(
    e1: &E1,
    e2: &E2,
    m: EngineModel,
    input: Seq<u32>,
) -> (EngineModel, Option<Seq<u32>>)
    decreases input.len(),
{
    if input.len() < DTLN_BLOCK_SHIFT {
        (m, Some(Seq::empty()))
    } else {
        let step = cycle(e1, e2, m, input.take(DTLN_BLOCK_SHIFT as int));
        match step.1 {
            None => (step.0, None),
            Some(o1) => {
                let rest = stream(e1, e2, step.0, input.skip(DTLN_BLOCK_SHIFT as int));
                match rest.1 {
                    None => (rest.0, None),
                    Some(o2) => (rest.0, Some(o1 + o2)),
                }
            },
        }
    }
}

/// A successful cycle on a well-formed model leaves a well-formed model and
/// emits exactly one block shift of samples; a failing cycle also keeps the
/// model well-formed.
pub proof fn lemma_cycle_wf<E1: Estimator, E2: Estimator>(
    e1: &E1,
    e2: &E2,
    m: EngineModel,
    chunk: Seq<u32>,
)
    requires
        shaped(e1),
        shaped(e2),
        model_wf(m),
        chunk.len() == DTLN_BLOCK_SHIFT,
    ensures
        model_wf(cycle(e1, e2, m, chunk).0),
        (match cycle(e1, e2, m, chunk).1 {
            Some(o) => o.len() == DTLN_BLOCK_SHIFT,
            None => true,
        }),
{
    let analysis = advanced(m.analysis, chunk);
    let mag = mags_of(fft_bits(analysis));
    let phase = phases_of(fft_bits(analysis));
    match e1.model(mag, m.state1) {
        None => {},
        Some(stage1) => {
            let est = inverse_spec(masked_of(mag, stage1.0), phase);
            let _ = e2.model(est, m.state2);
        },
    }
}

/// Block shift invariant: a successful run emits exactly as many samples as
/// it was given, provided the input length is a multiple of the block shift.
pub proof fn lemma_stream_preserves_length<E1: Estimator, E2: Estimator>(
    e1: &E1,
    e2: &E2,
    m: EngineModel,
    input: Seq<u32>,
)
    requires
        shaped(e1),
        shaped(e2),
        model_wf(m),
        input.len() % (DTLN_BLOCK_SHIFT as nat) == 0,
    ensures
        model_wf(stream(e1, e2, m, input).0),
        (match stream(e1, e2, m, input).1 {
            Some(o) => o.len() == input.len(),
            None => true,
        }),
    decreases input.len(),
{
    if input.len() < DTLN_BLOCK_SHIFT {
    } else {
        let chunk = input.take(DTLN_BLOCK_SHIFT as int);
        lemma_cycle_wf(e1, e2, m, chunk);
        let step = cycle(e1, e2, m, chunk);
        match step.1 {
            None => {},
            Some(o1) => {
                lemma_stream_preserves_length(e1, e2, step.0, input.skip(DTLN_BLOCK_SHIFT as int));
            },
        }
    }
}

/// State continuity: feeding `first` and then `second` from the state the
/// first run left behind is the same as feeding their concatenation in a
/// single run — the final state agrees, and the emitted samples are the
/// concatenation of the two runs' emissions. Only the fixed-size state
/// carries across calls, so splitting a stream at any block-shift boundary
/// cannot change what is produced.
pub proof fn lemma_state_continuity<E1: Estimator, E2: Estimator>(
    e1: &E1,
    e2: &E2,
    m: EngineModel,
    first: Seq<u32>,
    second: Seq<u32>,
)
    requires
        first.len() % (DTLN_BLOCK_SHIFT as nat) == 0,
    ensures
        ({
            let a = stream(e1, e2, m, first);
            match a.1 {
                Some(o1) => ({
                    let b = stream(e1, e2, a.0, second);
                    let w = stream(e1, e2, m, first + second);
                    &&& w.0 == b.0
                    &&& w.1 == (match b.1 {
                        Some(o2) => Some(o1 + o2),
                        None => None::<Seq<u32>>,
                    })
                }),
                None => stream(e1, e2, m, first + second) == (a.0, None::<Seq<u32>>),
            }
        }),
    decreases first.len(),
{
    if first.len() == 0 {
        assert(first + second =~= second);
        assert(stream(e1, e2, m, first) == (m, Some(Seq::<u32>::empty())));
        let b = stream(e1, e2, m, second);
        match b.1 {
            Some(o2) => {
                assert(Seq::<u32>::empty() + o2 =~= o2);
            },
            None => {},
        }
    } else {
        assert(first.len() >= DTLN_BLOCK_SHIFT);
        let chunk = first.take(DTLN_BLOCK_SHIFT as int);
        let rest = first.skip(DTLN_BLOCK_SHIFT as int);
        assert((first + second).len() >= DTLN_BLOCK_SHIFT);
        assert((first + second).take(DTLN_BLOCK_SHIFT as int) =~= chunk);
        assert((first + second).skip(DTLN_BLOCK_SHIFT as int) =~= rest + second);
        assert(rest.len() % (DTLN_BLOCK_SHIFT as nat) == 0);
        let step = cycle(e1, e2, m, chunk);
        match step.1 {
            None => {},
            Some(o1) => {
                lemma_state_continuity(e1, e2, step.0, rest, second);
                let sr = stream(e1, e2, step.0, rest);
                match sr.1 {
                    Some(or) => {
                        let sb = stream(e1, e2, sr.0, second);
                        match sb.1 {
                            Some(o2) => {
                                assert(o1 + (or + o2) =~= (o1 + or) + o2);
                            },
                            None => {},
                        }
                    },
                    None => {},
                }
            },
        }
    }
}

/// The streaming engine: the two estimator collaborators, the sliding
/// analysis and synthesis windows, and the two recurrent state vectors that
/// persist across every block for the lifetime of the engine.
pub struct DtlnEngine<E1: Estimator, E2: Estimator> {
    pub est1: E1,
    pub est2: E2,
    pub analysis: FrameBuffer,
    pub synthesis: FrameBuffer,
    pub states_1: Vec<u32>,
    pub states_2: Vec<u32>,
}

impl<E1: Estimator, E2: Estimator> View for DtlnEngine<E1, E2> {
    type V = EngineModel;

    closed spec fn view(&self) -> EngineModel {
        EngineModel {
            analysis: self.analysis@,
            synthesis: self.synthesis@,
            state1: self.states_1@,
            state2: self.states_2@,
        }
    }
}

impl<E1: Estimator, E2: Estimator> DtlnEngine<E1, E2> {
    pub open spec fn wf(&self) -> bool {
        model_wf(self@)
    }

    /// A fresh engine around the two given estimators, with zeroed windows
    /// and zeroed recurrent state.
    pub fn new(est1: E1, est2: E2) -> (r: DtlnEngine<E1, E2>)
        ensures
            r.wf(),
            r@ == fresh_model(),
            r.est1 == est1,
            r.est2 == est2,
    {
        let analysis = FrameBuffer::new();
        let synthesis = FrameBuffer::new();
        let states_1 = zeroed_state();
        let states_2 = zeroed_state();
        DtlnEngine { est1, est2, analysis, synthesis, states_1, states_2 }
    }

    /// Copy of the analysis window.
    pub fn analysis_window(&self) -> (r: Vec<u32>)
        ensures
            r@ == self@.analysis,
    {
        self.analysis.samples()
    }

    /// Copy of the synthesis window.
    pub fn synthesis_window(&self) -> (r: Vec<u32>)
        ensures
            r@ == self@.synthesis,
    {
        self.synthesis.samples()
    }

    /// One cycle on one chunk of exactly one block shift.
    fn process_block(&mut self, chunk: &Vec<u32>) -> (r: Result<Vec<u32>, DtlnError>)
        requires
            old(self).wf(),
            chunk@.len() == DTLN_BLOCK_SHIFT,
        ensures
            final(self).wf(),
            final(self).est1 == old(self).est1,
            final(self).est2 == old(self).est2,
            ({
                let step = cycle(&old(self).est1, &old(self).est2, old(self)@, chunk@);
                &&& final(self)@ == step.0
                &&& (match r {
                    Ok(o) => step.1 == Some(o@) && o@.len() == DTLN_BLOCK_SHIFT,
                    Err(e) => step.1 is None && e == DtlnError::EstimatorFailure,
                })
            }),
    {
        let _ = self.analysis.advance(chunk);
        let win = self.analysis.samples();
        let (mag, phase) = forward(&win);
        let stage1 = match self.est1.estimate(&mag, &self.states_1) {
            Ok(p) => p,
            Err(_) => {
                return Err(DtlnError::EstimatorFailure);
            },
        };
        let (mask, new_s1) = stage1;
        let mut masked: Vec<u32> = Vec::new();
        let mut i: usize = 0;
        while i < DTLN_FFT_OUT_SIZE
            invariant
                mag@.len() == DTLN_FFT_OUT_SIZE,
                mask@.len() == DTLN_FFT_OUT_SIZE,
                i <= DTLN_FFT_OUT_SIZE,
                masked@.len() == i,
                forall|j: int| 0 <= j < i ==> masked@[j] == masked_of(mag@, mask@)[j],
            decreases DTLN_FFT_OUT_SIZE - i,
        {
            masked.push(mul_bits(mag[i], mask[i]));
            i = i + 1;
        }
        proof {
            assert(masked@ =~= masked_of(mag@, mask@));
        }
        let est = inverse(&masked, &phase);
        let stage2 = match self.est2.estimate(&est, &self.states_2) {
            Ok(p) => p,
            Err(_) => {
                self.states_1 = new_s1;
                return Err(DtlnError::EstimatorFailure);
            },
        };
        let (refined, new_s2) = stage2;
        self.states_1 = new_s1;
        self.states_2 = new_s2;
        self.synthesis.shift_add(&refined);
        let out = self.synthesis.leading();
        Ok(out)
    }

    /// Process an input stream whose length is a multiple of the block
    /// shift: one cycle per successive block-shift slice, emitted samples
    /// concatenated in input order. Input of any other length is rejected
    /// with `UnalignedInputLength` and nothing is consumed. A failing cycle
    /// surfaces `EstimatorFailure`; the cycles before it remain committed.
    ///
    /// On a fresh engine the first emissions are mostly near-silence: the
    /// synthesis window starts zeroed and fills only as state accumulates
    /// over the first block-length's worth of cycles. That startup transient
    /// is expected, not an error.
    pub fn denoise(&mut self, samples: &Vec<u32>) -> (r: Result<Vec<u32>, DtlnError>)
        requires
            old(self).wf(),
        ensures
            final(self).wf(),
            final(self).est1 == old(self).est1,
            final(self).est2 == old(self).est2,
            samples@.len() % (DTLN_BLOCK_SHIFT as nat) != 0 ==> r == Err::<Vec<u32>, DtlnError>(
                DtlnError::UnalignedInputLength,
            ) && final(self)@ == old(self)@,
            samples@.len() % (DTLN_BLOCK_SHIFT as nat) == 0 ==> ({
                let run = stream(&old(self).est1, &old(self).est2, old(self)@, samples@);
                &&& final(self)@ == run.0
                &&& (match r {
                    Ok(o) => run.1 == Some(o@) && o@.len() == samples@.len(),
                    Err(e) => run.1 is None && e == DtlnError::EstimatorFailure,
                })
            }),
    {
        let len = samples.len();
        if len % DTLN_BLOCK_SHIFT != 0 {
            return Err(DtlnError::UnalignedInputLength);
        }
        let n = len / DTLN_BLOCK_SHIFT;
        proof {
            vstd::arithmetic::div_mod::lemma_fundamental_div_mod(
                len as int,
                DTLN_BLOCK_SHIFT as int,
            );
            assert(n * DTLN_BLOCK_SHIFT == samples@.len());
        }
        let mut out: Vec<u32> = Vec::new();
        let mut k: usize = 0;
        while k < n
            invariant
                self.wf(),
                self.est1 == old(self).est1,
                self.est2 == old(self).est2,
                samples@.len() % (DTLN_BLOCK_SHIFT as nat) == 0,
                samples@.len() <= usize::MAX,
                n * DTLN_BLOCK_SHIFT == samples@.len(),
                k <= n,
                out@.len() == k * DTLN_BLOCK_SHIFT,
                stream(
                    &old(self).est1,
                    &old(self).est2,
                    old(self)@,
                    samples@.take((k * DTLN_BLOCK_SHIFT) as int),
                ) == (self@, Some(out@)),
            decreases n - k,
        {
            let ghost m0 = old(self)@;
            let ghost mk = self@;
            let ghost prefix = samples@.take((k * DTLN_BLOCK_SHIFT) as int);
            proof {
                assert((k + 1) * DTLN_BLOCK_SHIFT <= n * DTLN_BLOCK_SHIFT) by (nonlinear_arith)
                    requires
                        k < n,
                ;
                assert(k * DTLN_BLOCK_SHIFT + DTLN_BLOCK_SHIFT == (k + 1) * DTLN_BLOCK_SHIFT) by (nonlinear_arith);
                assert(k * DTLN_BLOCK_SHIFT + DTLN_BLOCK_SHIFT <= samples@.len());
            }
            let base = k * DTLN_BLOCK_SHIFT;
            let mut chunk: Vec<u32> = Vec::new();
            let mut j: usize = 0;
            while j < DTLN_BLOCK_SHIFT
                invariant
                    base + DTLN_BLOCK_SHIFT <= samples@.len(),
                    samples@.len() <= usize::MAX,
                    j <= DTLN_BLOCK_SHIFT,
                    chunk@.len() == j,
                    forall|jj: int| 0 <= jj < j ==> chunk@[jj] == samples@[base + jj],
                decreases DTLN_BLOCK_SHIFT - j,
            {
                chunk.push(samples[base + j]);
                j = j + 1;
            }
            proof {
                assert(prefix + chunk@ =~= samples@.take((base + DTLN_BLOCK_SHIFT) as int));
                assert(prefix.len() % (DTLN_BLOCK_SHIFT as nat) == 0) by (nonlinear_arith)
                    requires
                        prefix.len() == k * DTLN_BLOCK_SHIFT,
                ;
                lemma_state_continuity(&old(self).est1, &old(self).est2, m0, prefix, chunk@);
                // one chunk alone is exactly one cycle
                assert(chunk@.take(DTLN_BLOCK_SHIFT as int) =~= chunk@);
                assert(chunk@.skip(DTLN_BLOCK_SHIFT as int).len() == 0);
            }
            match self.process_block(&chunk) {
                Ok(mut o) => {
                    proof {
                        let step = cycle(&old(self).est1, &old(self).est2, mk, chunk@);
                        assert(stream(
                            &old(self).est1,
                            &old(self).est2,
                            step.0,
                            chunk@.skip(DTLN_BLOCK_SHIFT as int),
                        ) == (step.0, Some(Seq::<u32>::empty())));
                        assert(stream(&old(self).est1, &old(self).est2, mk, chunk@) == (
                            step.0,
                            Some(step.1.unwrap() + Seq::<u32>::empty()),
                        ));
                        assert(step.1.unwrap() + Seq::<u32>::empty() =~= step.1.unwrap());
                    }
                    out.append(&mut o);
                },
                Err(e) => {
                    proof {
                        let step = cycle(&old(self).est1, &old(self).est2, mk, chunk@);
                        assert(stream(&old(self).est1, &old(self).est2, mk, chunk@) == (
                            step.0,
                            None::<Seq<u32>>,
                        ));
                        let taken = samples@.take((base + DTLN_BLOCK_SHIFT) as int);
                        let rest = samples@.skip((base + DTLN_BLOCK_SHIFT) as int);
                        assert(taken.len() % (DTLN_BLOCK_SHIFT as nat) == 0) by (nonlinear_arith)
                            requires
                                taken.len() == (k + 1) * DTLN_BLOCK_SHIFT,
                        ;
                        lemma_state_continuity(&old(self).est1, &old(self).est2, m0, taken, rest);
                        assert(taken + rest =~= samples@);
                    }
                    return Err(e);
                },
            }
            k = k + 1;
        }
        proof {
            assert(samples@.take((n * DTLN_BLOCK_SHIFT) as int) =~= samples@);
        }
        Ok(out)
    }
}

/// A zeroed recurrent-state vector of one block length.
fn zeroed_state() -> (r: Vec<u32>)
    ensures
        r@ == zero_block(),
{
    let mut data: Vec<u32> = Vec::new();
    let mut i: usize = 0;
    while i < DTLN_BLOCK_LEN
        invariant
            i <= DTLN_BLOCK_LEN,
            data@.len() == i,
            forall|j: int| 0 <= j < i ==> data@[j] == 0u32,
        decreases DTLN_BLOCK_LEN - i,
    {
        data.push(0u32);
        i = i + 1;
    }
    proof {
        assert(data@ =~= zero_block());
    }
    data
}

} // verus!
