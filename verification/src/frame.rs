//! Sliding-window bookkeeping for the analysis and synthesis windows.

use vstd::prelude::*;

use crate::constants::{DTLN_BLOCK_LEN, DTLN_BLOCK_SHIFT};
use crate::error::DtlnError;
use crate::float_ops::{add_bits, f32_add};

verus! {

/// An all-zero window of `DTLN_BLOCK_LEN` samples.
pub open spec fn zero_block() -> Seq<u32> {
    Seq::new(DTLN_BLOCK_LEN as nat, |i: int| 0u32)
}

/// An all-zero chunk of the given length.
pub open spec fn zero_chunk(len: nat) -> Seq<u32> {
    Seq::new(len, |i: int| 0u32)
}

/// The window slid left by `DTLN_BLOCK_SHIFT` samples with `chunk` appended
/// in the freed trailing region.
pub open spec fn advanced(win: Seq<u32>, chunk: Seq<u32>) -> Seq<u32> {
    win.skip(DTLN_BLOCK_SHIFT as int) + chunk
}

/// The overlap-add step: the window slid left by `DTLN_BLOCK_SHIFT` with a
/// zeroed trailing region, then `block` added element-wise over the full
/// extent.
pub open spec fn overlap_added(win: Seq<u32>, block: Seq<u32>) -> Seq<u32> {
    Seq::new(
        win.len(),
        |i: int|
            f32_add(
                if i + DTLN_BLOCK_SHIFT < win.len() {
                    win[i + DTLN_BLOCK_SHIFT]
                } else {
                    0u32
                },
                block[i],
            ),
    )
}

/// A fixed-length window of `DTLN_BLOCK_LEN` samples, mutated in place by
/// sliding operations only.
pub struct FrameBuffer {
    data: Vec<u32>,
}

impl View for FrameBuffer {
    type V = Seq<u32>;

    closed spec fn view(&self) -> Seq<u32> {
        self.data@
    }
}

impl FrameBuffer {
    /// The window always holds exactly one block of samples.
    pub open spec fn wf(&self) -> bool {
        self@.len() == DTLN_BLOCK_LEN
    }

    /// A fresh, all-zero window.
    pub fn new() -> (r: FrameBuffer)
        ensures
            r.wf(),
            r@ == zero_block(),
    {
        let mut data: Vec<u32> = Vec::new();
        let mut i: usize = 0;
        while i < DTLN_BLOCK_LEN
            invariant
                i <= DTLN_BLOCK_LEN,
                data@.len() == i,
                forall|j: int| 0 <= j < i ==> data@[j] == 0u32,
            decreases DTLN_BLOCK_LEN - i,
        {
            data.push(0u32);
            i = i + 1;
        }
        proof {
            assert(data@ =~= zero_block());
        }
        FrameBuffer { data }
    }

    /// Slide the window left by `DTLN_BLOCK_SHIFT`, discarding the oldest
    /// samples, and copy `new_samples` into the freed trailing region. Fails
    /// with `InvalidBlockSize`, leaving the window unchanged, exactly when
    /// the chunk is not one block shift long.
    pub fn advance(&mut self, new_samples: &Vec<u32>) -> (r: Result<(), DtlnError>)
        requires
            old(self).wf(),
        ensures
            final(self).wf(),
            new_samples@.len() == DTLN_BLOCK_SHIFT ==> r is Ok && final(self)@ == advanced(
                old(self)@,
                new_samples@,
            ),
            new_samples@.len() != DTLN_BLOCK_SHIFT ==> r == Err::<(), DtlnError>(
                DtlnError::InvalidBlockSize,
            ) && final(self)@ == old(self)@,
    {
        if new_samples.len() != DTLN_BLOCK_SHIFT {
            return Err(DtlnError::InvalidBlockSize);
        }
        let mut next: Vec<u32> = Vec::new();
        let mut i: usize = 0;
        while i < DTLN_BLOCK_LEN - DTLN_BLOCK_SHIFT
            invariant
                self.wf(),
                i <= DTLN_BLOCK_LEN - DTLN_BLOCK_SHIFT,
                next@.len() == i,
                forall|j: int| 0 <= j < i ==> next@[j] == self@[j + DTLN_BLOCK_SHIFT],
            decreases DTLN_BLOCK_LEN - DTLN_BLOCK_SHIFT - i,
        {
            next.push(self.data[i + DTLN_BLOCK_SHIFT]);
            i = i + 1;
        }
        let mut k: usize = 0;
        while k < DTLN_BLOCK_SHIFT
            invariant
                self.wf(),
                new_samples@.len() == DTLN_BLOCK_SHIFT,
                k <= DTLN_BLOCK_SHIFT,
                next@.len() == DTLN_BLOCK_LEN - DTLN_BLOCK_SHIFT + k,
                forall|j: int|
                    0 <= j < DTLN_BLOCK_LEN - DTLN_BLOCK_SHIFT ==> next@[j] == self@[j
                        + DTLN_BLOCK_SHIFT],
                forall|j: int|
                    0 <= j < k ==> next@[DTLN_BLOCK_LEN - DTLN_BLOCK_SHIFT + j] == new_samples@[j],
            decreases DTLN_BLOCK_SHIFT - k,
        {
            next.push(new_samples[k]);
            k = k + 1;
        }
        proof {
            assert(next@ =~= advanced(self@, new_samples@));
        }
        self.data = next;
        Ok(())
    }

    /// One overlap-add cycle: slide left by `DTLN_BLOCK_SHIFT`, zero the
    /// freed trailing region, and add `block` element-wise over the whole
    /// window.
    pub fn shift_add(&mut self, block: &Vec<u32>)
        requires
            old(self).wf(),
            block@.len() == DTLN_BLOCK_LEN,
        ensures
            final(self).wf(),
            final(self)@ == overlap_added(old(self)@, block@),
    {
        let mut next: Vec<u32> = Vec::new();
        let mut i: usize = 0;
        while i < DTLN_BLOCK_LEN
            invariant
                self.wf(),
                block@.len() == DTLN_BLOCK_LEN,
                i <= DTLN_BLOCK_LEN,
                next@.len() == i,
                forall|j: int| 0 <= j < i ==> next@[j] == overlap_added(self@, block@)[j],
            decreases DTLN_BLOCK_LEN - i,
        {
            let base: u32 = if i + DTLN_BLOCK_SHIFT < DTLN_BLOCK_LEN {
                self.data[i + DTLN_BLOCK_SHIFT]
            } else {
                0u32
            };
            next.push(add_bits(base, block[i]));
            i = i + 1;
        }
        proof {
            assert(next@ =~= overlap_added(self@, block@));
        }
        self.data = next;
    }

    /// Copy of the leading `DTLN_BLOCK_SHIFT` samples: the fully-summed,
    /// finalized region emitted once per cycle.
    pub fn leading(&self) -> (r: Vec<u32>)
        requires
            self.wf(),
        ensures
            r@ == self@.take(DTLN_BLOCK_SHIFT as int),
    {
        let mut out: Vec<u32> = Vec::new();
        let mut i: usize = 0;
        while i < DTLN_BLOCK_SHIFT
            invariant
                self.wf(),
                i <= DTLN_BLOCK_SHIFT,
                out@.len() == i,
                forall|j: int| 0 <= j < i ==> out@[j] == self@[j],
            decreases DTLN_BLOCK_SHIFT - i,
        {
            out.push(self.data[i]);
            i = i + 1;
        }
        proof {
            assert(out@ =~= self@.take(DTLN_BLOCK_SHIFT as int));
        }
        out
    }

    /// Copy of the whole window.
    pub fn samples(&self) -> (r: Vec<u32>)
        ensures
            r@ == self@,
    {
        crate::estimator::copy_samples(&self.data)
    }
}

} // verus!
