//! An explicit engine table keyed by integer id, for embedding layers that
//! hand out handles instead of owning engine values directly. Each entry
//! pairs an engine with a one-block audio buffer that is denoised in place.

use vstd::prelude::*;

use crate::constants::DTLN_BLOCK_LEN;
use crate::engine::{fresh_model, stream, DtlnEngine};
use crate::error::DtlnError;
use crate::estimator::{copy_samples, Estimator};
use crate::frame::{zero_block, zero_chunk};
use crate::processor::zero_vec;
use vstd::pervasive::unreached;

verus! {

/// One table entry: a handle, its engine, and its one-block audio buffer.
pub struct EngineEntry<E1: Estimator, E2: Estimator> {
    pub id: u32,
    pub engine: DtlnEngine<E1, E2>,
    pub audio: Vec<u32>,
}

/// A table of engines keyed by unique integer ids, owned by the embedding
/// layer and passed explicitly — never implicit process-wide state.
pub struct EngineTable<E1: Estimator, E2: Estimator> {
    pub entries: Vec<EngineEntry<E1, E2>>,
    pub next_id: u32,
}

impl<E1: Estimator, E2: Estimator> EngineTable<E1, E2> {
    /// Whether some entry carries the given id.
    pub open spec fn contains_id(&self, id: u32) -> bool {
        exists|i: int| 0 <= i < self.entries@.len() && self.entries@[i].id == id
    }

    /// The index of the entry carrying the given id.
    pub open spec fn idx_of(&self, id: u32) -> int {
        choose|i: int| 0 <= i < self.entries@.len() && self.entries@[i].id == id
    }

    /// Ids are unique and below the next handle to hand out, every engine is
    /// well-formed, and every audio buffer holds exactly one block.
    pub open spec fn wf(&self) -> bool {
        &&& forall|i: int, j: int|
            0 <= i < j < self.entries@.len() ==> (#[trigger] self.entries@[i]).id != (
            #[trigger] self.entries@[j]).id
        &&& forall|i: int|
            0 <= i < self.entries@.len() ==> (#[trigger] self.entries@[i]).engine.wf()
        &&& forall|i: int|
            0 <= i < self.entries@.len() ==> (#[trigger] self.entries@[i]).audio@.len()
                == DTLN_BLOCK_LEN
        &&& forall|i: int|
            0 <= i < self.entries@.len() ==> (#[trigger] self.entries@[i]).id < self.next_id
    }

    /// An empty table.
    pub fn new() -> (r: EngineTable<E1, E2>)
        ensures
            r.wf(),
            r.entries@.len() == 0,
            r.next_id == 0,
    {
        EngineTable { entries: Vec::new(), next_id: 0 }
    }

    /// Whether the table holds an engine under the given id.
    pub fn contains(&self, id: u32) -> (r: bool)
        requires
            self.wf(),
        ensures
            r == self.contains_id(id),
    {
        self.find_index(id).is_some()
    }

    /// The index of the entry with the given id, if any.
    fn find_index(&self, id: u32) -> (r: Option<usize>)
        requires
            self.wf(),
        ensures
            (match r {
                Some(i) => self.contains_id(id) && i == self.idx_of(id) && i
                    < self.entries@.len() && self.entries@[i as int].id == id,
                None => !self.contains_id(id),
            }),
    {
        let n = self.entries.len();
        let mut i: usize = 0;
        while i < n
            invariant
                self.wf(),
                n == self.entries@.len(),
                i <= n,
                forall|j: int| 0 <= j < i ==> (#[trigger] self.entries@[j]).id != id,
            decreases n - i,
        {
            if self.entries[i].id == id {
                proof {
                    assert(self.contains_id(id));
                    let w = self.idx_of(id);
                    assert(0 <= w < self.entries@.len() && self.entries@[w].id == id);
                    assert(w == i as int);
                }
                return Some(i);
            }
            i = i + 1;
        }
        None
    }
}

/// Create a new engine around the given estimators, store it in the table
/// under a fresh id with a zeroed audio buffer, and return the id.
pub fn dtln_create_global<E1: Estimator, E2: Estimator>(
    table: &mut EngineTable<E1, E2>,
    est1: E1,
    est2: E2,
) -> (id: u32)
    requires
        old(table).wf(),
        old(table).next_id < u32::MAX,
    ensures
        final(table).wf(),
        id == old(table).next_id,
        !old(table).contains_id(id),
        final(table).contains_id(id),
        final(table).next_id == old(table).next_id + 1,
        final(table).entries@.len() == old(table).entries@.len() + 1,
        final(table).entries@.take(old(table).entries@.len() as int) == old(table).entries@,
        ({
            let e = final(table).entries@.last();
            &&& e.id == id
            &&& e.engine@ == fresh_model()
            &&& e.engine.est1 == est1
            &&& e.engine.est2 == est2
            &&& e.audio@ == zero_block()
        }),
{
    let id = table.next_id;
    let engine = DtlnEngine::new(est1, est2);
    let audio = zero_vec(DTLN_BLOCK_LEN);
    proof {
        assert(zero_chunk(DTLN_BLOCK_LEN as nat) =~= zero_block());
    }
    table.entries.push(EngineEntry { id, engine, audio });
    table.next_id = table.next_id + 1;
    proof {
        assert(final(table).entries@.take(old(table).entries@.len() as int) =~= old(
            table,
        ).entries@);
        assert(final(table).entries@[old(table).entries@.len() as int].id == id);
    }
    id
}

/// Remove the entry with the given id, if any; its engine and buffer are
/// dropped. Without such an entry the table is left as it is.
pub fn dtln_destroy_global<E1: Estimator, E2: Estimator>(table: &mut EngineTable<E1, E2>, id: u32)
    requires
        old(table).wf(),
    ensures
        final(table).wf(),
        !final(table).contains_id(id),
        final(table).next_id == old(table).next_id,
        old(table).contains_id(id) ==> final(table).entries@ == old(table).entries@.remove(
            old(table).idx_of(id),
        ),
        !old(table).contains_id(id) ==> *final(table) == *old(table),
{
    match table.find_index(id) {
        Some(i) => {
            let ghost pre = table.entries@;
            let ghost w = i as int;
            table.entries.remove(i);
            proof {
                let post = table.entries@;
                assert(forall|a: int|
                    0 <= a < post.len() ==> #[trigger] post[a] == (if a < w {
                        pre[a]
                    } else {
                        pre[a + 1]
                    }));
                assert(!table.contains_id(id)) by {
                    if table.contains_id(id) {
                        let b = choose|b: int|
                            0 <= b < post.len() && post[b].id == id;
                        if b < w {
                            assert(pre[b].id == id && pre[w].id == id);
                        } else {
                            assert(pre[b + 1].id == id && pre[w].id == id);
                        }
                    }
                }
            }
        },
        None => {},
    }
}

/// Denoise the entry's one-block audio buffer in place with its own engine:
/// on success the buffer holds the denoised block and `Ok` is returned; on an
/// estimator failure the buffer is unchanged (the engine keeps the state the
/// failing run left behind) and `EstimatorFailure` is surfaced.
pub fn dtln_denoise_global<E1: Estimator, E2: Estimator>(
    table: &mut EngineTable<E1, E2>,
    id: u32,
) -> (r: Result<(), DtlnError>)
    requires
        old(table).wf(),
        old(table).contains_id(id),
    ensures
        final(table).wf(),
        final(table).contains_id(id),
        final(table).next_id == old(table).next_id,
        final(table).entries@.len() == old(table).entries@.len(),
        ({
            let w = old(table).idx_of(id);
            let entry = old(table).entries@[w];
            let run = stream(&entry.engine.est1, &entry.engine.est2, entry.engine@, entry.audio@);
            &&& final(table).idx_of(id) == w
            &&& (forall|j: int|
                0 <= j < old(table).entries@.len() && j != w ==> final(table).entries@[j] == old(
                    table,
                ).entries@[j])
            &&& final(table).entries@[w].id == entry.id
            &&& final(table).entries@[w].engine.est1 == entry.engine.est1
            &&& final(table).entries@[w].engine.est2 == entry.engine.est2
            &&& final(table).entries@[w].engine@ == run.0
            &&& (match r {
                Ok(_) => run.1 == Some(final(table).entries@[w].audio@),
                Err(e) => e == DtlnError::EstimatorFailure && run.1 is None
                    && final(table).entries@[w].audio@ == entry.audio@,
            })
        }),
{
    let i = match table.find_index(id) {
        Some(i) => i,
        None => unreached(),
    };
    let ghost pre = table.entries@;
    let ghost w = i as int;
    let mut entry = table.entries.remove(i);
    let input = copy_samples(&entry.audio);
    proof {
        assert(input@.len() % (crate::constants::DTLN_BLOCK_SHIFT as nat) == 0);
    }
    let res = entry.engine.denoise(&input);
    let r = match res {
        Ok(o) => {
            entry.audio = o;
            Ok(())
        },
        Err(_) => Err(DtlnError::EstimatorFailure),
    };
    table.entries.insert(i, entry);
    proof {
        let post = table.entries@;
        assert(post =~= pre.update(w, post[w]));
        assert(post[w].id == id);
        assert(final(table).contains_id(id));
        let b = final(table).idx_of(id);
        assert(0 <= b < post.len() && post[b].id == id);
        if b != w {
            assert(pre[b].id == id && pre[w].id == id);
        }
        assert(b == w);
    }
    r
}

} // verus!
