//! The cross-detector aligner of the streaming pipeline: it gathers the
//! detections that several detectors report on chunks, and hands a chunk on
//! once every detector has processed past it.

use vstd::prelude::*;

use crate::chunk::Chunk;
use crate::detection::{by_start, sort_by_start, Detection};
use crate::sorting::{insert_by, lemma_insert_at, lemma_insert_sorted, sort_by, sorted_by};

verus! {

/// A chunk with the detections reported on it so far.
#[derive(Debug)]
pub struct PendingBatch {
    pub chunk: Chunk,
    pub detections: Vec<Detection>,
}

/// The same chunk: equal indexes, offsets and text.
pub open spec fn same_chunk(a: Chunk, b: Chunk) -> bool {
    &&& a.input_start_index == b.input_start_index
    &&& a.input_end_index == b.input_end_index
    &&& a.start == b.start
    &&& a.end == b.end
    &&& a.text@ == b.text@
}

fn is_same_chunk(a: &Chunk, b: &Chunk) -> (r: bool)
    ensures
        r == same_chunk(*a, *b),
{
    a.input_start_index == b.input_start_index && a.input_end_index == b.input_end_index
        && a.start == b.start && a.end == b.end && a.text == b.text
}

/// Orders pending batches by the first generation frame of their chunk.
pub open spec fn by_first_frame() -> spec_fn(PendingBatch) -> int {
    |b: PendingBatch| b.chunk.input_start_index as int
}

/// The index up to which every detector has processed: the least of the
/// highest indexes that each has reported, or none while any detector has
/// reported nothing.
pub open spec fn completed_index(processed: Seq<Option<usize>>) -> Option<int>
    decreases processed.len(),
{
    if processed.len() == 0 {
        None
    } else if processed.len() == 1 {
        match processed[0] {
            Some(x) => Some(x as int),
            None => None,
        }
    } else {
        match (completed_index(processed.drop_last()), processed.last()) {
            (Some(a), Some(b)) => Some(if a <= b { a } else { b as int }),
            _ => None,
        }
    }
}

/// The completed index is the least reported index: every detector has
/// reported, and reported at least it.
pub proof fn lemma_completed_bounds(processed: Seq<Option<usize>>)
    requires
        completed_index(processed) is Some,
    ensures
        forall|d: int|
            0 <= d < processed.len() ==> (#[trigger] processed[d]) is Some && processed[d]->0
                >= completed_index(processed)->0,
    decreases processed.len(),
{
    if processed.len() > 1 {
        let init = processed.drop_last();
        lemma_completed_bounds(init);
        assert forall|d: int| 0 <= d < processed.len() implies (#[trigger] processed[d]) is Some
            && processed[d]->0 >= completed_index(processed)->0 by {
            if d < processed.len() - 1 {
                assert(processed[d] == init[d]);
            }
        }
    }
}

/// The highest index a detector has reported, after it reports `index`.
pub open spec fn raised(p: Option<usize>, index: usize) -> Option<usize> {
    match p {
        Some(x) => if x >= index { Some(x) } else { Some(index) },
        None => Some(index),
    }
}

/// The pending batches after detections `ds` on chunk `c` arrive: added to
/// the batch of the same chunk where there is one, else a new batch placed
/// in order of first generation frame, after the batches of equal order.
pub open spec fn merged(p: Seq<PendingBatch>, c: Chunk, ds: Seq<Detection>) -> Seq<(Chunk, Seq<Detection>)> {
    let m = p.map_values(|b: PendingBatch| (b.chunk, b.detections@));
    if exists|i: int| 0 <= i < p.len() && same_chunk((#[trigger] p[i]).chunk, c) {
        let i = choose|i: int| 0 <= i < p.len() && same_chunk((#[trigger] p[i]).chunk, c);
        m.update(i, (p[i].chunk, p[i].detections@ + ds))
    } else {
        insert_by(m, (c, ds), |b: (Chunk, Seq<Detection>)| b.0.input_start_index as int)
    }
}

/// Batches detections of several detectors by chunk, handing a chunk on
/// once every detector has processed up to its last generation frame.
#[derive(Debug)]
pub struct MaxProcessedIndexBatcher {
    pub n_detectors: usize,
    /// Per detector, the highest `input_end_index` it has reported
    pub processed: Vec<Option<usize>>,
    /// Chunks not yet handed on, in order of first generation frame
    pub pending: Vec<PendingBatch>,
}

impl MaxProcessedIndexBatcher {
    pub open spec fn wf(&self) -> bool {
        &&& self.n_detectors > 0
        &&& self.processed@.len() == self.n_detectors
        &&& sorted_by(self.pending@, by_first_frame())
        &&& forall|i: int, j: int|
            0 <= i < j < self.pending@.len() ==> !same_chunk(
                (#[trigger] self.pending@[i]).chunk,
                (#[trigger] self.pending@[j]).chunk,
            )
    }

    /// The pending chunks with their detections.
    pub open spec fn batches(&self) -> Seq<(Chunk, Seq<Detection>)> {
        self.pending@.map_values(|b: PendingBatch| (b.chunk, b.detections@))
    }

    /// A batcher for `n_detectors` detectors, with nothing reported.
    pub fn new(n_detectors: usize) -> (r: Self)
        requires
            n_detectors > 0,
        ensures
            r.wf(),
            r.n_detectors == n_detectors,
            forall|i: int| 0 <= i < n_detectors ==> r.processed@[i] is None,
            r.pending@.len() == 0,
    {
        let mut processed: Vec<Option<usize>> = Vec::new();
        let mut i: usize = 0;
        while i < n_detectors
            invariant
                i <= n_detectors,
                processed@.len() == i,
                forall|j: int| 0 <= j < i ==> processed@[j] is None,
            decreases n_detectors - i,
        {
            processed.push(None);
            i = i + 1;
        }
        MaxProcessedIndexBatcher { n_detectors, processed, pending: Vec::new() }
    }

    /// Records the detections that detector `detector` reports on `chunk`.
    pub fn push(&mut self, detector: usize, chunk: Chunk, detections: Vec<Detection>)
        requires
            old(self).wf(),
            detector < old(self).n_detectors,
        ensures
            final(self).wf(),
            final(self).n_detectors == old(self).n_detectors,
            final(self).processed@ == old(self).processed@.update(
                detector as int,
                raised(old(self).processed@[detector as int], chunk.input_end_index),
            ),
            final(self).batches() == merged(old(self).pending@, chunk, detections@),
    {
        let ghost ds = detections@;
        let ghost c = chunk;
        let ghost p0 = self.pending@;
        let cur = self.processed[detector];
        let next = match cur {
            Some(x) => if x >= chunk.input_end_index {
                Some(x)
            } else {
                Some(chunk.input_end_index)
            },
            None => Some(chunk.input_end_index),
        };
        self.processed.set(detector, next);
        let n = self.pending.len();
        let mut i: usize = 0;
        while i < n && !is_same_chunk(&self.pending[i].chunk, &chunk)
            invariant
                n == self.pending@.len(),
                self.pending@ == p0,
                c == chunk,
                i <= n,
                forall|j: int| 0 <= j < i ==> !same_chunk((#[trigger] p0[j]).chunk, c),
            decreases n - i,
        {
            i = i + 1;
        }
        let ghost m0 = p0.map_values(|b: PendingBatch| (b.chunk, b.detections@));
        if i < n {
            proof {
                let k = choose|k: int| 0 <= k < p0.len() && same_chunk((#[trigger] p0[k]).chunk, c);
                if k != i {
                    if k < i {
                    } else {
                        assert(same_chunk(p0[i as int].chunk, p0[k].chunk));
                    }
                }
            }
            let mut b = self.pending.remove(i);
            let mut more = detections;
            b.detections.append(&mut more);
            self.pending.insert(i, b);
            proof {
                assert(self.pending@ =~= p0.update(i as int, self.pending@[i as int]));
                assert(self.batches() =~= m0.update(
                    i as int,
                    (p0[i as int].chunk, p0[i as int].detections@ + ds),
                ));
                assert forall|a: int, z: int|
                    0 <= a < z < self.pending@.len() implies !same_chunk(
                    (#[trigger] self.pending@[a]).chunk,
                    (#[trigger] self.pending@[z]).chunk,
                ) by {
                    assert(self.pending@[a].chunk == p0[a].chunk);
                    assert(self.pending@[z].chunk == p0[z].chunk);
                }
                assert(sorted_by(self.pending@, by_first_frame())) by {
                    assert forall|a: int, z: int| 0 <= a < z < self.pending@.len() implies (by_first_frame())(
                        self.pending@[a],
                    ) <= (by_first_frame())(self.pending@[z]) by {
                        assert(self.pending@[a].chunk == p0[a].chunk);
                        assert(self.pending@[z].chunk == p0[z].chunk);
                    }
                }
            }
        } else {
            let mut p = n;
            while p > 0 && self.pending[p - 1].chunk.input_start_index > chunk.input_start_index
                invariant
                    p <= n,
                    n == self.pending@.len(),
                    self.pending@ == p0,
                    c == chunk,
                    forall|j: int|
                        p <= j < n ==> (#[trigger] p0[j]).chunk.input_start_index
                            > c.input_start_index,
                decreases p,
            {
                p = p - 1;
            }
            let b = PendingBatch { chunk, detections };
            let ghost key = |x: (Chunk, Seq<Detection>)| x.0.input_start_index as int;
            proof {
                assert forall|j: int| p <= j < m0.len() implies key(#[trigger] m0[j]) > key((c, ds)) by {
                    assert(m0[j].0 == p0[j].chunk);
                }
                if p > 0 {
                    assert(m0[p - 1].0 == p0[p - 1].chunk);
                }
                lemma_insert_at(m0, (c, ds), key, p as int);
                lemma_insert_at(p0, b, by_first_frame(), p as int);
                lemma_insert_sorted(p0, b, by_first_frame());
            }
            self.pending.insert(p, b);
            proof {
                assert(self.pending@ =~= p0.take(p as int).push(b) + p0.skip(p as int));
                assert(self.batches() =~= m0.take(p as int).push((c, ds)) + m0.skip(p as int));
                assert forall|a: int, z: int|
                    0 <= a < z < self.pending@.len() implies !same_chunk(
                    (#[trigger] self.pending@[a]).chunk,
                    (#[trigger] self.pending@[z]).chunk,
                ) by {
                    if a < p && z < p {
                        assert(self.pending@[a] == p0[a] && self.pending@[z] == p0[z]);
                    } else if a < p && z == p {
                        assert(self.pending@[a] == p0[a]);
                    } else if a < p {
                        assert(self.pending@[a] == p0[a] && self.pending@[z] == p0[z - 1]);
                    } else if a == p {
                        assert(self.pending@[z] == p0[z - 1]);
                    } else {
                        assert(self.pending@[a] == p0[a - 1] && self.pending@[z] == p0[z - 1]);
                    }
                }
            }
        }
    }

    /// The index up to which every detector has processed, if each has
    /// reported.
    pub fn completed(&self) -> (r: Option<usize>)
        requires
            self.wf(),
        ensures
            match r {
                Some(x) => completed_index(self.processed@) == Some(x as int),
                None => completed_index(self.processed@) is None,
            },
    {
        let n = self.processed.len();
        let mut acc: Option<usize> = self.processed[0];
        let mut i: usize = 1;
        assert(self.processed@.take(1).drop_last().len() == 0);
        assert(completed_index(self.processed@.take(1)) == match self.processed@[0] {
            Some(x) => Some(x as int),
            None => None::<int>,
        });
        while i < n
            invariant
                n == self.processed@.len(),
                1 <= i <= n,
                match acc {
                    Some(x) => completed_index(self.processed@.take(i as int)) == Some(x as int),
                    None => completed_index(self.processed@.take(i as int)) is None,
                },
            decreases n - i,
        {
            assert(self.processed@.take(i + 1).drop_last() =~= self.processed@.take(i as int));
            acc = match (acc, self.processed[i]) {
                (Some(a), Some(b)) => Some(if a <= b { a } else { b }),
                _ => None,
            };
            i = i + 1;
        }
        assert(self.processed@.take(n as int) =~= self.processed@);
        acc
    }

    /// Whether the first pending chunk can be handed on: every detector has
    /// processed up to its last generation frame.
    pub open spec fn ready(&self) -> bool {
        &&& self.pending@.len() > 0
        &&& completed_index(self.processed@) is Some
        &&& self.pending@[0].chunk.input_end_index <= completed_index(self.processed@)->0
    }

    /// Hands on the first pending chunk, with the detections of all
    /// detectors on it ordered by start (those without a start last), once
    /// every detector has processed past it.
    pub fn pop_batch(&mut self) -> (r: Option<(Chunk, Vec<Detection>)>)
        requires
            old(self).wf(),
        ensures
            final(self).wf(),
            final(self).n_detectors == old(self).n_detectors,
            final(self).processed == old(self).processed,
            r is Some <==> old(self).ready(),
            r is None ==> final(self).pending@ == old(self).pending@,
            r is Some ==> {
                let (c, ds) = r->0;
                &&& c == old(self).pending@[0].chunk
                &&& forall|d: int|
                    0 <= d < old(self).n_detectors ==> (#[trigger] old(self).processed@[d]) is Some
                        && c.input_end_index <= old(self).processed@[d]->0
                &&& ds@ == sort_by(old(self).pending@[0].detections@, by_start())
                &&& final(self).pending@ == old(self).pending@.drop_first()
                &&& forall|k: int|
                    0 <= k < final(self).pending@.len() ==> c.input_start_index
                        <= (#[trigger] final(self).pending@[k]).chunk.input_start_index
            },
    {
        if self.pending.len() == 0 {
            return None;
        }
        let done = self.completed();
        match done {
            Some(x) => {
                if self.pending[0].chunk.input_end_index <= x {
                    let ghost p0 = self.pending@;
                    let b = self.pending.remove(0);
                    let detections = sort_by_start(b.detections);
                    proof {
                        lemma_completed_bounds(self.processed@);
                        assert(self.pending@ =~= p0.drop_first());
                        assert forall|k: int| 0 <= k < self.pending@.len() implies b.chunk.input_start_index
                            <= (#[trigger] self.pending@[k]).chunk.input_start_index by {
                            assert(self.pending@[k] == p0[k + 1]);
                            assert((by_first_frame())(p0[0]) <= (by_first_frame())(p0[k + 1]));
                        }
                        assert forall|a: int, z: int|
                            0 <= a < z < self.pending@.len() implies !same_chunk(
                            (#[trigger] self.pending@[a]).chunk,
                            (#[trigger] self.pending@[z]).chunk,
                        ) by {
                            assert(self.pending@[a] == p0[a + 1] && self.pending@[z] == p0[z + 1]);
                        }
                        assert(sorted_by(self.pending@, by_first_frame())) by {
                            assert forall|a: int, z: int|
                                0 <= a < z < self.pending@.len() implies (by_first_frame())(
                                self.pending@[a],
                            ) <= (by_first_frame())(self.pending@[z]) by {
                                assert(self.pending@[a] == p0[a + 1] && self.pending@[z] == p0[z + 1]);
                            }
                        }
                    }
                    Some((b.chunk, detections))
                } else {
                    None
                }
            },
            None => None,
        }
    }

    /// Hands on every chunk that can be handed on now, in order, each with
    /// its ordered detections.
    pub fn drain(&mut self) -> (r: Vec<(Chunk, Vec<Detection>)>)
        requires
            old(self).wf(),
        ensures
            final(self).wf(),
            final(self).n_detectors == old(self).n_detectors,
            final(self).processed == old(self).processed,
            !final(self).ready(),
            r@.len() + final(self).pending@.len() == old(self).pending@.len(),
            final(self).pending@ == old(self).pending@.skip(r@.len() as int),
            forall|i: int|
                0 <= i < r@.len() ==> (#[trigger] r@[i]).0 == old(self).pending@[i].chunk && r@[i].1@
                    == sort_by(old(self).pending@[i].detections@, by_start()),
            forall|i: int, j: int|
                0 <= i < j < r@.len() ==> (#[trigger] r@[i]).0.input_start_index
                    <= (#[trigger] r@[j]).0.input_start_index,
    {
        let ghost p0 = self.pending@;
        let mut r: Vec<(Chunk, Vec<Detection>)> = Vec::new();
        loop
            invariant_except_break
                self.wf(),
                self.n_detectors == old(self).n_detectors,
                self.processed == old(self).processed,
                p0 == old(self).pending@,
                r@.len() + self.pending@.len() == p0.len(),
                self.pending@ == p0.skip(r@.len() as int),
                forall|i: int|
                    0 <= i < r@.len() ==> (#[trigger] r@[i]).0 == p0[i].chunk && r@[i].1@ == sort_by(
                        p0[i].detections@,
                        by_start(),
                    ),
                forall|i: int, j: int|
                    0 <= i < j < r@.len() ==> (#[trigger] r@[i]).0.input_start_index
                        <= (#[trigger] r@[j]).0.input_start_index,
                forall|i: int, k: int|
                    0 <= i < r@.len() && 0 <= k < self.pending@.len() ==> (#[trigger] r@[i]).0.input_start_index
                        <= (#[trigger] self.pending@[k]).chunk.input_start_index,
            ensures
                self.wf(),
                self.n_detectors == old(self).n_detectors,
                self.processed == old(self).processed,
                !self.ready(),
                r@.len() + self.pending@.len() == p0.len(),
                self.pending@ == p0.skip(r@.len() as int),
                forall|i: int|
                    0 <= i < r@.len() ==> (#[trigger] r@[i]).0 == p0[i].chunk && r@[i].1@ == sort_by(
                        p0[i].detections@,
                        by_start(),
                    ),
                forall|i: int, j: int|
                    0 <= i < j < r@.len() ==> (#[trigger] r@[i]).0.input_start_index
                        <= (#[trigger] r@[j]).0.input_start_index,
            decreases self.pending@.len(),
        {
            let ghost before = self.pending@;
            let ghost rb = r@;
            match self.pop_batch() {
                Some(b) => {
                    proof {
                        assert(before[0] == p0[rb.len() as int]);
                        assert forall|k: int| 0 <= k < self.pending@.len() implies self.pending@[k] == before[k + 1] by {}
                        assert(self.pending@ =~= p0.skip(rb.len() + 1 as int));
                    }
                    r.push(b);
                    proof {
                        assert forall|i: int, j: int|
                            0 <= i < j < r@.len() implies (#[trigger] r@[i]).0.input_start_index
                            <= (#[trigger] r@[j]).0.input_start_index by {
                            if j == rb.len() {
                                assert(r@[i] == rb[i]);
                                assert(0 < before.len());
                            } else {
                                assert(r@[i] == rb[i] && r@[j] == rb[j]);
                            }
                        }
                        assert forall|i: int, k: int|
                            0 <= i < r@.len() && 0 <= k < self.pending@.len() implies (#[trigger] r@[i]).0.input_start_index
                            <= (#[trigger] self.pending@[k]).chunk.input_start_index by {
                            if i < rb.len() {
                                assert(r@[i] == rb[i]);
                                assert(self.pending@[k] == before[k + 1]);
                            }
                        }
                    }
                },
                None => {
                    break ;
                },
            }
        }
        r
    }
}

} // verus!
