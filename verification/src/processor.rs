//! The deferred pipeline and the immediate processor around the engine.
//!
//! The deferred pipeline is the protocol state machine of a dedicated worker
//! behind two first-in-first-out hand-off queues. The caller's `denoise` is
//! the submit step: it first takes the oldest finished result if one is
//! waiting — otherwise a silence chunk, starved unless this is the first call
//! — and then unconditionally queues the new chunk for the worker. `work` is
//! one worker step: it processes the oldest queued chunk and queues the
//! result. An embedding that runs `work` on its own thread of execution gets
//! the caller-side behaviour unchanged; the queues are the sole
//! synchronization boundary.
//!
//! A ghost history of every accepted chunk is carried alongside, and the
//! well-formedness invariant ties the queues and the engine to that history.
//! From it, the contracts state the ordering guarantee: every non-starved
//! result handed out is the denoised output of the oldest not-yet-delivered
//! chunk, so results come back strictly in submission order, one chunk late,
//! starved or not.

use vstd::prelude::*;

use crate::constants::DTLN_BLOCK_SHIFT;
use crate::engine::{stream, DtlnEngine, EngineModel};
use crate::error::DtlnError;
use crate::estimator::{copy_samples, Estimator};
use crate::frame::zero_chunk;

verus! {

/// What one submit hands back: a chunk of samples and whether the worker had
/// fallen behind (in which case the samples are silence, never stale data).
#[derive(Clone, Debug, PartialEq, Eq)]
pub struct DenoiseResult {
    pub samples: Vec<u32>,
    pub processor_starved: bool,
}

/// The views of a queue of sample chunks.
pub open spec fn views_of(v: Seq<Vec<u32>>) -> Seq<Seq<u32>> {
    v.map_values(|x: Vec<u32>| x@)
}

/// Engine state after processing `chunks` one after the other from `m0`.
pub open spec fn chain_state<E1: Estimator, E2: Estimator>(
    e1: &E1,
    e2: &E2,
    m0: EngineModel,
    chunks: Seq<Seq<u32>>,
) -> EngineModel
    decreases chunks.len(),
{
    if chunks.len() == 0 {
        m0
    } else {
        chain_state(e1, e2, stream(e1, e2, m0, chunks[0]).0, chunks.skip(1))
    }
}

/// Whether every chunk of `chunks` processes without estimator failure.
pub open spec fn chain_ok<E1: Estimator, E2: Estimator>(
    e1: &E1,
    e2: &E2,
    m0: EngineModel,
    chunks: Seq<Seq<u32>>,
) -> bool
    decreases chunks.len(),
{
    if chunks.len() == 0 {
        true
    } else {
        &&& stream(e1, e2, m0, chunks[0]).1 is Some
        &&& chain_ok(e1, e2, stream(e1, e2, m0, chunks[0]).0, chunks.skip(1))
    }
}

/// The denoised outputs of `chunks`, one per chunk, in submission order.
pub open spec fn chain_outputs<E1: Estimator, E2: Estimator>(
    e1: &E1,
    e2: &E2,
    m0: EngineModel,
    chunks: Seq<Seq<u32>>,
) -> Seq<Seq<u32>>
    decreases chunks.len(),
{
    if chunks.len() == 0 {
        Seq::empty()
    } else {
        seq![stream(e1, e2, m0, chunks[0]).1.unwrap()] + chain_outputs(
            e1,
            e2,
            stream(e1, e2, m0, chunks[0]).0,
            chunks.skip(1),
        )
    }
}

/// There is one output per chunk.
pub proof fn lemma_chain_outputs_len<E1: Estimator, E2: Estimator>(
    e1: &E1,
    e2: &E2,
    m0: EngineModel,
    chunks: Seq<Seq<u32>>,
)
    ensures
        chain_outputs(e1, e2, m0, chunks).len() == chunks.len(),
    decreases chunks.len(),
{
    if chunks.len() == 0 {
    } else {
        lemma_chain_outputs_len(e1, e2, stream(e1, e2, m0, chunks[0]).0, chunks.skip(1));
    }
}

/// Processing one more chunk extends the chain at its end: the final state is
/// the stream of the new chunk from the old final state, success is success
/// so far plus success of the new chunk, and the outputs gain exactly the new
/// chunk's output at the end.
pub proof fn lemma_chain_snoc<E1: Estimator, E2: Estimator>(
    e1: &E1,
    e2: &E2,
    m0: EngineModel,
    chunks: Seq<Seq<u32>>,
    c: Seq<u32>,
)
    ensures
        chain_state(e1, e2, m0, chunks.push(c)) == stream(
            e1,
            e2,
            chain_state(e1, e2, m0, chunks),
            c,
        ).0,
        chain_ok(e1, e2, m0, chunks.push(c)) == (chain_ok(e1, e2, m0, chunks) && stream(
            e1,
            e2,
            chain_state(e1, e2, m0, chunks),
            c,
        ).1 is Some),
        chain_ok(e1, e2, m0, chunks) ==> chain_outputs(e1, e2, m0, chunks.push(c)) == chain_outputs(
            e1,
            e2,
            m0,
            chunks,
        ).push(stream(e1, e2, chain_state(e1, e2, m0, chunks), c).1.unwrap()),
    decreases chunks.len(),
{
    if chunks.len() == 0 {
        let s = stream(e1, e2, m0, c);
        assert(chunks.push(c)[0] == c);
        assert(chunks.push(c).skip(1) =~= Seq::<Seq<u32>>::empty());
        assert(chain_state(e1, e2, s.0, Seq::<Seq<u32>>::empty()) == s.0);
        assert(chain_ok(e1, e2, s.0, Seq::<Seq<u32>>::empty()));
        assert(chain_outputs(e1, e2, s.0, Seq::<Seq<u32>>::empty()) == Seq::<Seq<u32>>::empty());
        assert(chain_state(e1, e2, m0, chunks) == m0);
        assert(chain_ok(e1, e2, m0, chunks));
        assert(chain_outputs(e1, e2, m0, chunks) == Seq::<Seq<u32>>::empty());
        assert(seq![s.1.unwrap()] + Seq::<Seq<u32>>::empty() =~= Seq::<Seq<u32>>::empty().push(
            s.1.unwrap(),
        ));
    } else {
        let m1 = stream(e1, e2, m0, chunks[0]).0;
        assert(chunks.push(c)[0] == chunks[0]);
        assert(chunks.push(c).skip(1) =~= chunks.skip(1).push(c));
        lemma_chain_snoc(e1, e2, m1, chunks.skip(1), c);
        if chain_ok(e1, e2, m0, chunks) {
            let head = seq![stream(e1, e2, m0, chunks[0]).1.unwrap()];
            let tail = chain_outputs(e1, e2, m1, chunks.skip(1));
            let onew = stream(e1, e2, chain_state(e1, e2, m0, chunks), c).1.unwrap();
            assert(head + tail.push(onew) =~= (head + tail).push(onew));
        }
    }
}

/// A processor which defers processing behind a request queue and a response
/// queue, giving the caller a non-blocking interface with one-chunk
/// pipelining and starvation detection.
pub struct DtlnDeferredProcessor<E1: Estimator, E2: Estimator> {
    pub engine: DtlnEngine<E1, E2>,
    pub requests: Vec<Vec<u32>>,
    pub responses: Vec<Vec<u32>>,
    pub first_sample: bool,
    pub stopped: bool,
    /// Every chunk ever accepted, in submission order.
    pub submitted: Ghost<Seq<Seq<u32>>>,
    /// How many submitted chunks the worker has finished.
    pub done: Ghost<nat>,
    /// How many finished results the caller has taken.
    pub delivered: Ghost<nat>,
    /// The engine state at creation.
    pub base_model: Ghost<EngineModel>,
}

impl<E1: Estimator, E2: Estimator> DtlnDeferredProcessor<E1, E2> {
    /// The queues, the engine and the ghost history agree: the request queue
    /// holds exactly the submitted-but-unprocessed chunks, the engine is the
    /// fold of the processed ones, and the response queue holds the outputs
    /// of the processed-but-undelivered ones, in order.
    pub open spec fn wf(&self) -> bool {
        let e1 = &self.engine.est1;
        let e2 = &self.engine.est2;
        &&& self.engine.wf()
        &&& self.delivered@ <= self.done@
        &&& self.done@ <= self.submitted@.len()
        &&& views_of(self.requests@) == self.submitted@.skip(self.done@ as int)
        &&& forall|i: int|
            0 <= i < self.submitted@.len() ==> (#[trigger] self.submitted@[i]).len() % (
            DTLN_BLOCK_SHIFT as nat) == 0
        &&& !self.stopped ==> {
            &&& chain_ok(e1, e2, self.base_model@, self.submitted@.take(self.done@ as int))
            &&& self.engine@ == chain_state(
                e1,
                e2,
                self.base_model@,
                self.submitted@.take(self.done@ as int),
            )
            &&& views_of(self.responses@) == chain_outputs(
                e1,
                e2,
                self.base_model@,
                self.submitted@.take(self.done@ as int),
            ).skip(self.delivered@ as int)
        }
    }

    /// A fresh pipeline around the given engine: empty queues, nothing
    /// submitted, first submit still to come.
    pub fn new(engine: DtlnEngine<E1, E2>) -> (r: DtlnDeferredProcessor<E1, E2>)
        requires
            engine.wf(),
        ensures
            r.wf(),
            r.engine == engine,
            r.first_sample == true,
            r.stopped == false,
            r.submitted@ == Seq::<Seq<u32>>::empty(),
            r.done@ == 0,
            r.delivered@ == 0,
            r.base_model@ == engine@,
            r.requests@.len() == 0,
            r.responses@.len() == 0,
    {
        let r = DtlnDeferredProcessor {
            engine,
            requests: Vec::new(),
            responses: Vec::new(),
            first_sample: true,
            stopped: false,
            submitted: Ghost(Seq::empty()),
            done: Ghost(0),
            delivered: Ghost(0),
            base_model: Ghost(engine@),
        };
        proof {
            assert(r.submitted@.skip(0) =~= Seq::<Seq<u32>>::empty());
            assert(views_of(r.requests@) =~= Seq::<Seq<u32>>::empty());
            assert(r.submitted@.take(0) =~= Seq::<Seq<u32>>::empty());
            assert(views_of(r.responses@) =~= Seq::<Seq<u32>>::empty());
            assert(chain_outputs(&r.engine.est1, &r.engine.est2, r.base_model@, Seq::empty()).skip(
                0,
            ) =~= Seq::<Seq<u32>>::empty());
        }
        r
    }

    /// Submit one chunk and take the oldest finished result.
    ///
    /// After `stop` every submission fails with `Stopped`; a chunk whose
    /// length is not a multiple of the block shift is rejected with
    /// `UnalignedInputLength`; in both cases nothing changes. Otherwise the
    /// chunk is queued for the worker, and what is returned is: the oldest
    /// waiting result — which is exactly the denoised output of the oldest
    /// not-yet-delivered chunk, so results come back strictly in submission
    /// order — or, when no result is waiting, a silence chunk of the input's
    /// length, marked starved unless this is the very first submit.
    pub fn denoise(&mut self, samples: &Vec<u32>) -> (r: Result<DenoiseResult, DtlnError>)
        requires
            old(self).wf(),
        ensures
            final(self).wf(),
            final(self).engine.est1 == old(self).engine.est1,
            final(self).engine.est2 == old(self).engine.est2,
            old(self).stopped ==> r == Err::<DenoiseResult, DtlnError>(DtlnError::Stopped)
                && *final(self) == *old(self),
            !old(self).stopped && samples@.len() % (DTLN_BLOCK_SHIFT as nat) != 0 ==> r == Err::<
                DenoiseResult,
                DtlnError,
            >(DtlnError::UnalignedInputLength) && *final(self) == *old(self),
            !old(self).stopped && samples@.len() % (DTLN_BLOCK_SHIFT as nat) == 0 ==> ({
                &&& final(self).submitted@ == old(self).submitted@.push(samples@)
                &&& final(self).done@ == old(self).done@
                &&& final(self).base_model@ == old(self).base_model@
                &&& final(self).engine@ == old(self).engine@
                &&& final(self).stopped == false
                &&& final(self).first_sample == false
                &&& (match r {
                    Ok(res) => if old(self).responses@.len() > 0 {
                        &&& res.samples@ == chain_outputs(
                            &old(self).engine.est1,
                            &old(self).engine.est2,
                            old(self).base_model@,
                            old(self).submitted@.take(old(self).done@ as int),
                        )[old(self).delivered@ as int]
                        &&& res.processor_starved == false
                        &&& final(self).delivered@ == old(self).delivered@ + 1
                    } else {
                        &&& res.samples@ == zero_chunk(samples@.len())
                        &&& res.processor_starved == !old(self).first_sample
                        &&& final(self).delivered@ == old(self).delivered@
                    },
                    Err(_) => false,
                })
            }),
    {
        if self.stopped {
            return Err(DtlnError::Stopped);
        }
        if samples.len() % DTLN_BLOCK_SHIFT != 0 {
            return Err(DtlnError::UnalignedInputLength);
        }
        proof {
            lemma_chain_outputs_len(
                &self.engine.est1,
                &self.engine.est2,
                self.base_model@,
                self.submitted@.take(self.done@ as int),
            );
        }
        let result = if self.responses.len() > 0 {
            let resp = self.responses.remove(0);
            proof {
                assert(views_of(old(self).responses@)[0] == resp@);
                assert(views_of(self.responses@) =~= views_of(old(self).responses@).skip(1));
            }
            self.delivered = Ghost(self.delivered@ + 1);
            DenoiseResult { samples: resp, processor_starved: false }
        } else {
            let silence = zero_vec(samples.len());
            DenoiseResult { samples: silence, processor_starved: !self.first_sample }
        };
        let ghost pre_requests = self.requests@;
        self.requests.push(copy_samples(samples));
        self.submitted = Ghost(self.submitted@.push(samples@));
        self.first_sample = false;
        proof {
            assert(views_of(self.requests@) =~= views_of(pre_requests).push(samples@));
            assert(self.submitted@.skip(self.done@ as int) =~= old(self).submitted@.skip(
                self.done@ as int,
            ).push(samples@));
            assert(self.submitted@.take(self.done@ as int) =~= old(self).submitted@.take(
                self.done@ as int,
            ));
            if old(self).responses@.len() > 0 {
                assert(chain_outputs(
                    &self.engine.est1,
                    &self.engine.est2,
                    self.base_model@,
                    self.submitted@.take(self.done@ as int),
                ).skip(self.delivered@ as int) =~= chain_outputs(
                    &self.engine.est1,
                    &self.engine.est2,
                    self.base_model@,
                    old(self).submitted@.take(old(self).done@ as int),
                ).skip(old(self).delivered@ as int).skip(1));
                assert(views_of(self.responses@) =~= chain_outputs(
                    &self.engine.est1,
                    &self.engine.est2,
                    self.base_model@,
                    self.submitted@.take(self.done@ as int),
                ).skip(self.delivered@ as int));
            }
        }
        Ok(result)
    }

    /// One worker step: process the oldest queued chunk, if any, and queue
    /// its result. Returns whether a chunk was processed. On an estimator
    /// failure the pipeline stops: the hand-off is unrecoverable for this
    /// engine instance and every later call fails deterministically.
    pub fn work(&mut self) -> (r: Result<bool, DtlnError>)
        requires
            old(self).wf(),
        ensures
            final(self).wf(),
            final(self).engine.est1 == old(self).engine.est1,
            final(self).engine.est2 == old(self).engine.est2,
            final(self).submitted@ == old(self).submitted@,
            final(self).delivered@ == old(self).delivered@,
            final(self).base_model@ == old(self).base_model@,
            final(self).first_sample == old(self).first_sample,
            old(self).stopped ==> r == Err::<bool, DtlnError>(DtlnError::Stopped) && *final(self)
                == *old(self),
            !old(self).stopped ==> (match r {
                Ok(b) => if b {
                    &&& old(self).requests@.len() > 0
                    &&& final(self).done@ == old(self).done@ + 1
                    &&& final(self).engine@ == stream(
                        &old(self).engine.est1,
                        &old(self).engine.est2,
                        old(self).engine@,
                        old(self).submitted@[old(self).done@ as int],
                    ).0
                    &&& final(self).responses@.len() == old(self).responses@.len() + 1
                    &&& final(self).stopped == false
                } else {
                    old(self).requests@.len() == 0 && *final(self) == *old(self)
                },
                Err(e) => {
                    &&& e == DtlnError::EstimatorFailure
                    &&& old(self).requests@.len() > 0
                    &&& final(self).done@ == old(self).done@ + 1
                    &&& final(self).stopped == true
                },
            }),
    {
        if self.stopped {
            return Err(DtlnError::Stopped);
        }
        if self.requests.len() == 0 {
            return Ok(false);
        }
        let chunk = self.requests.remove(0);
        proof {
            assert(views_of(old(self).requests@)[0] == chunk@);
            assert(views_of(old(self).requests@) == old(self).submitted@.skip(
                old(self).done@ as int,
            ));
            assert(views_of(old(self).requests@).len() == old(self).requests@.len());
            assert(old(self).done@ < old(self).submitted@.len());
            vstd::seq_lib::lemma_seq_skip_index::<Seq<u32>>(
                old(self).submitted@,
                old(self).done@ as int,
                0,
            );
            assert(chunk@ == self.submitted@[self.done@ as int]);
            assert(views_of(self.requests@) =~= views_of(old(self).requests@).skip(1));
            assert(self.submitted@.skip(self.done@ as int + 1) =~= old(self).submitted@.skip(
                old(self).done@ as int,
            ).skip(1));
            assert(chunk@.len() % (DTLN_BLOCK_SHIFT as nat) == 0);
            lemma_chain_snoc(
                &self.engine.est1,
                &self.engine.est2,
                self.base_model@,
                self.submitted@.take(self.done@ as int),
                chunk@,
            );
            assert(self.submitted@.take(self.done@ as int).push(chunk@) =~= self.submitted@.take(
                self.done@ as int + 1,
            ));
        }
        let ghost pre_responses = self.responses@;
        match self.engine.denoise(&chunk) {
            Ok(o) => {
                self.responses.push(o);
                self.done = Ghost(self.done@ + 1);
                proof {
                    lemma_chain_outputs_len(
                        &self.engine.est1,
                        &self.engine.est2,
                        self.base_model@,
                        old(self).submitted@.take(old(self).done@ as int),
                    );
                    assert(views_of(self.responses@) =~= views_of(pre_responses).push(
                        stream(
                            &self.engine.est1,
                            &self.engine.est2,
                            chain_state(
                                &self.engine.est1,
                                &self.engine.est2,
                                self.base_model@,
                                self.submitted@.take(old(self).done@ as int),
                            ),
                            chunk@,
                        ).1.unwrap(),
                    ));
                    assert(views_of(self.responses@) =~= chain_outputs(
                        &self.engine.est1,
                        &self.engine.est2,
                        self.base_model@,
                        self.submitted@.take(self.done@ as int),
                    ).skip(self.delivered@ as int));
                }
                Ok(true)
            },
            Err(_) => {
                self.stopped = true;
                self.done = Ghost(self.done@ + 1);
                Err(DtlnError::EstimatorFailure)
            },
        }
    }

    /// Stop the pipeline: any in-flight worker step completes, and every
    /// later submission fails deterministically with `Stopped`.
    pub fn stop(&mut self)
        requires
            old(self).wf(),
        ensures
            final(self).wf(),
            final(self).stopped == true,
            final(self).engine == old(self).engine,
            final(self).requests == old(self).requests,
            final(self).responses == old(self).responses,
            final(self).first_sample == old(self).first_sample,
            final(self).submitted@ == old(self).submitted@,
            final(self).done@ == old(self).done@,
            final(self).delivered@ == old(self).delivered@,
    {
        self.stopped = true;
    }
}

/// A processor which runs the engine inline: each call returns the denoised
/// output of its own input, and starvation cannot occur.
pub struct DtlnImmediateProcessor<E1: Estimator, E2: Estimator> {
    pub engine: DtlnEngine<E1, E2>,
}

impl<E1: Estimator, E2: Estimator> DtlnImmediateProcessor<E1, E2> {
    pub open spec fn wf(&self) -> bool {
        self.engine.wf()
    }

    /// A fresh inline processor around the given engine.
    pub fn new(engine: DtlnEngine<E1, E2>) -> (r: DtlnImmediateProcessor<E1, E2>)
        requires
            engine.wf(),
        ensures
            r.wf(),
            r.engine == engine,
    {
        DtlnImmediateProcessor { engine }
    }

    /// Denoise one chunk inline: the result carries the denoised samples of
    /// exactly this input, and the starvation flag is always clear.
    pub fn denoise(&mut self, samples: &Vec<u32>) -> (r: Result<DenoiseResult, DtlnError>)
        requires
            old(self).wf(),
        ensures
            final(self).wf(),
            final(self).engine.est1 == old(self).engine.est1,
            final(self).engine.est2 == old(self).engine.est2,
            samples@.len() % (DTLN_BLOCK_SHIFT as nat) != 0 ==> r == Err::<
                DenoiseResult,
                DtlnError,
            >(DtlnError::UnalignedInputLength) && final(self).engine@ == old(self).engine@,
            samples@.len() % (DTLN_BLOCK_SHIFT as nat) == 0 ==> ({
                let run = stream(
                    &old(self).engine.est1,
                    &old(self).engine.est2,
                    old(self).engine@,
                    samples@,
                );
                &&& final(self).engine@ == run.0
                &&& (match r {
                    Ok(res) => run.1 == Some(res.samples@) && res.samples@.len() == samples@.len()
                        && res.processor_starved == false,
                    Err(e) => run.1 is None && e == DtlnError::EstimatorFailure,
                })
            }),
    {
        match self.engine.denoise(samples) {
            Ok(samples) => Ok(DenoiseResult { samples, processor_starved: false }),
            Err(e) => Err(e),
        }
    }

    /// Stopping an inline processor does nothing.
    pub fn stop(&mut self)
        ensures
            *final(self) == *old(self),
    {
    }
}

/// The bounded wait of the caller's retrieval step, in milliseconds: just
/// under the real-time duration of one chunk of `samples_len` samples at
/// 16 kHz, that is `⌊samples_len / 16⌋ − 1`, floored at zero. An embedding
/// that polls the worker from its own thread of execution waits at most this
/// long before falling back to a starved silence result.
pub fn max_retrieval_wait_ms(samples_len: usize) -> (r: u64)
    ensures
        samples_len >= 16 ==> r == samples_len as int / 16 - 1,
        samples_len < 16 ==> r == 0,
{
    let ms = samples_len as u64 / 16;
    if ms >= 1 {
        ms - 1
    } else {
        0
    }
}

/// A silence chunk: `len` samples of zero bits.
pub fn zero_vec(len: usize) -> (r: Vec<u32>)
    ensures
        r@ == zero_chunk(len as nat),
{
    let mut out: Vec<u32> = Vec::new();
    let mut i: usize = 0;
    while i < len
        invariant
            i <= len,
            out@.len() == i,
            forall|j: int| 0 <= j < i ==> out@[j] == 0u32,
        decreases len - i,
    {
        out.push(0u32);
        i = i + 1;
    }
    proof {
        assert(out@ =~= zero_chunk(len as nat));
    }
    out
}

} // verus!
