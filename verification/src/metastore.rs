//! What the publisher expects of a metastore, as a model, and an in-memory
//! metastore that follows the model.

use crate::encoding::str_equal;
use crate::split::{PublishRequest, RequestView, TimeRange};
use vstd::prelude::*;

verus! {

/// Why the metastore did not commit a segment.
#[derive(Clone, Copy, Debug, PartialEq, Eq, Structural)]
pub enum ConflictKind {
    /// The segment is already visible in its index.
    AlreadyPublished,
    /// The checkpoint is strictly less than the one stored for the index.
    StaleCheckpoint,
    /// The metastore has no index of that name.
    UnknownIndex,
    /// The backend could not be reached; the call may be made again.
    Transient,
}

/// A visible segment as a mathematical value.
pub struct SegmentView {
    pub segment_id: Seq<char>,
    pub time_range: Option<TimeRange>,
    pub checkpoint: u64,
}

/// The state of one index: its visible segments, in the order in which they
/// were committed.
pub struct IndexView {
    pub segments: Seq<SegmentView>,
}

impl IndexView {
    /// An index with no segment.
    pub open spec fn empty() -> IndexView {
        IndexView { segments: Seq::empty() }
    }

    /// The checkpoint stored for the index: that of the segment committed
    /// last, and zero before any commit.
    pub open spec fn checkpoint(self) -> u64 {
        if self.segments.len() == 0 {
            0
        } else {
            self.segments.last().checkpoint
        }
    }

    /// Whether the segment is visible in the index.
    pub open spec fn holds(self, segment_id: Seq<char>) -> bool {
        exists|i: int| 0 <= i < self.segments.len() && self.segments[i].segment_id == segment_id
    }

    /// Whether exactly one visible segment has this identifier.
    pub open spec fn holds_once(self, segment_id: Seq<char>) -> bool {
        exists|i: int|
            0 <= i < self.segments.len() && self.segments[i].segment_id == segment_id && forall|
                j: int,
            |
                0 <= j < self.segments.len() && self.segments[j].segment_id == segment_id ==> j
                    == i
    }

    /// The identifiers of the visible segments, in commit order.
    pub open spec fn segment_ids(self) -> Seq<Seq<char>> {
        self.segments.map_values(|s: SegmentView| s.segment_id)
    }

    /// No segment identifier occurs twice in the index.
    pub open spec fn segments_unique(self) -> bool {
        forall|i: int, j: int|
            0 <= i < j < self.segments.len() ==> self.segments[i].segment_id
                != self.segments[j].segment_id
    }

    /// No segment has a checkpoint below that of a segment committed
    /// before it.
    pub open spec fn checkpoints_monotone(self) -> bool {
        forall|i: int, j: int|
            0 <= i <= j < self.segments.len() ==> self.segments[i].checkpoint
                <= self.segments[j].checkpoint
    }

    pub open spec fn wf(self) -> bool {
        self.segments_unique() && self.checkpoints_monotone()
    }

    /// The index after the segment of `request` has been committed.
    pub open spec fn commit(self, request: RequestView) -> IndexView {
        IndexView {
            segments: self.segments.push(
                SegmentView {
                    segment_id: request.segment_id,
                    time_range: request.time_range,
                    checkpoint: request.checkpoint,
                },
            ),
        }
    }
}

/// The state of a metastore: its indexes by name, the number of calls that
/// will fail transiently before the backend answers again, and every publish
/// call that has reached it, in order.
pub struct MetastoreView {
    pub indexes: Map<Seq<char>, IndexView>,
    pub faults: u64,
    pub calls: Seq<RequestView>,
}

impl MetastoreView {
    /// Every index keeps its segment identifiers unique and its checkpoints
    /// monotone.
    pub open spec fn wf(self) -> bool {
        forall|name: Seq<char>| self.indexes.dom().contains(name) ==> (#[trigger] self.indexes[name]).wf()
    }

    /// What a publish call answers, apart from logging the call. While
    /// faults are pending the call fails transiently and uses one up. Else an
    /// unknown index, an already visible segment and a stale checkpoint are
    /// told apart in that order, and where none of them holds the segment is
    /// committed at the end of its index.
    pub open spec fn answer(self, request: RequestView) -> Result<(), ConflictKind> {
        if self.faults > 0 {
            Err(ConflictKind::Transient)
        } else if !self.indexes.dom().contains(request.index_id) {
            Err(ConflictKind::UnknownIndex)
        } else if self.indexes[request.index_id].holds(request.segment_id) {
            Err(ConflictKind::AlreadyPublished)
        } else if request.checkpoint < self.indexes[request.index_id].checkpoint() {
            Err(ConflictKind::StaleCheckpoint)
        } else {
            Ok(())
        }
    }

    /// The metastore with no fault pending.
    pub open spec fn calm(self) -> MetastoreView {
        MetastoreView { faults: 0, ..self }
    }

    /// The metastore after a publish call. The call is logged; a transient
    /// failure uses up one pending fault; a commit adds the segment to its
    /// index. Nothing else changes, so a segment becomes visible only by a
    /// call that answers `Ok`.
    pub open spec fn after(self, request: RequestView) -> MetastoreView {
        let calls = self.calls.push(request);
        match self.answer(request) {
            Ok(()) => MetastoreView {
                indexes: self.indexes.insert(
                    request.index_id,
                    self.indexes[request.index_id].commit(request),
                ),
                faults: self.faults,
                calls,
            },
            Err(ConflictKind::Transient) => MetastoreView {
                indexes: self.indexes,
                faults: (self.faults - 1) as u64,
                calls,
            },
            Err(_) => MetastoreView { indexes: self.indexes, faults: self.faults, calls },
        }
    }
}

/// A publish call keeps segment identifiers unique within each index, and
/// checkpoints monotone.
pub proof fn lemma_publish_keeps_wf(m: MetastoreView, request: RequestView)
    requires
        m.wf(),
    ensures
        m.after(request).wf(),
{
    let after = m.after(request);
    if m.answer(request) is Ok {
        let index = m.indexes[request.index_id];
        let committed = index.commit(request);
        assert(committed.segments_unique()) by {
            assert forall|i: int, j: int| 0 <= i < j < committed.segments.len() implies committed.segments[i].segment_id
                != committed.segments[j].segment_id by {
                if j == index.segments.len() {
                    assert(committed.segments[i] == index.segments[i]);
                }
            }
        }
        assert(committed.checkpoints_monotone()) by {
            assert forall|i: int, j: int|
                0 <= i <= j < committed.segments.len() implies committed.segments[i].checkpoint
                <= committed.segments[j].checkpoint by {
                if j == index.segments.len() && i < j {
                    assert(index.segments[i].checkpoint <= index.segments.last().checkpoint);
                }
            }
        }
        assert forall|name: Seq<char>| after.indexes.dom().contains(name) implies (
        #[trigger] after.indexes[name]).wf() by {
            if name != request.index_id {
                assert(after.indexes[name] == m.indexes[name]);
            }
        }
    }
}

/// A visible segment.
#[derive(Clone, Debug, PartialEq, Eq)]
pub struct Segment {
    pub segment_id: String,
    pub time_range: Option<TimeRange>,
    pub checkpoint: u64,
}

impl View for Segment {
    type V = SegmentView;

    open spec fn view(&self) -> SegmentView {
        SegmentView {
            segment_id: self.segment_id@,
            time_range: self.time_range,
            checkpoint: self.checkpoint,
        }
    }
}

struct IndexEntry {
    index_id: String,
    segments: Vec<Segment>,
}

impl IndexEntry {
    spec fn state(self) -> IndexView {
        IndexView { segments: self.segments@.map_values(|s: Segment| s@) }
    }

    fn holds(&self, segment_id: &str) -> (held: bool)
        ensures
            held == self.state().holds(segment_id@),
    {
        let mut i: usize = 0;
        while i < self.segments.len()
            invariant
                i <= self.segments@.len(),
                forall|j: int| 0 <= j < i ==> self.segments@[j].segment_id@ != segment_id@,
            decreases self.segments@.len() - i,
        {
            if str_equal(self.segments[i].segment_id.as_str(), segment_id) {
                proof {
                    assert(self.state().segments[i as int].segment_id == segment_id@);
                }
                return true;
            }
            i += 1;
        }
        proof {
            let state = self.state();
            assert forall|j: int| 0 <= j < state.segments.len() implies state.segments[j].segment_id
                != segment_id@ by {
                assert(state.segments[j] == self.segments@[j]@);
            }
        }
        false
    }

    fn checkpoint(&self) -> (stored: u64)
        ensures
            stored == self.state().checkpoint(),
    {
        let n = self.segments.len();
        if n == 0 {
            0
        } else {
            self.segments[n - 1].checkpoint
        }
    }
}

/// Where `name` stands in `names`.
spec fn position(names: Seq<Seq<char>>, name: Seq<char>) -> int {
    choose|i: int| 0 <= i < names.len() && names[i] == name
}

/// A metastore that lives in memory. It answers as the model says, keeps
/// every call that reached it, and can be told to fail transiently for a
/// number of calls.
pub struct MemoryMetastore {
    indexes: Vec<IndexEntry>,
    faults: u64,
    calls: Vec<PublishRequest>,
}

impl View for MemoryMetastore {
    type V = MetastoreView;

    closed spec fn view(&self) -> MetastoreView {
        MetastoreView {
            indexes: Map::new(
                |name: Seq<char>| self.names().contains(name),
                |name: Seq<char>| self.indexes@[position(self.names(), name)].state(),
            ),
            faults: self.faults,
            calls: self.calls@.map_values(|r: PublishRequest| r@),
        }
    }
}

impl MemoryMetastore {
    spec fn names(self) -> Seq<Seq<char>> {
        self.indexes@.map_values(|e: IndexEntry| e.index_id@)
    }

    /// No index stands twice in the metastore, and every index is well
    /// formed.
    pub closed spec fn wf(self) -> bool {
        self.names().no_duplicates() && self@.wf()
    }

    proof fn lemma_entry(self, i: int)
        requires
            self.names().no_duplicates(),
            0 <= i < self.indexes@.len(),
        ensures
            self@.indexes.dom().contains(self.indexes@[i].index_id@),
            self@.indexes[self.indexes@[i].index_id@] == self.indexes@[i].state(),
    {
        let names = self.names();
        let name = self.indexes@[i].index_id@;
        assert(names[i] == name);
        let p = position(names, name);
        assert(0 <= p < names.len() && names[p] == name);
        assert(p == i);
    }

    /// A metastore without an index, a pending fault or a logged call.
    pub fn new() -> (metastore: MemoryMetastore)
        ensures
            metastore.wf(),
            metastore@.indexes == Map::<Seq<char>, IndexView>::empty(),
            metastore@.faults == 0,
            metastore@.calls == Seq::<RequestView>::empty(),
    {
        let metastore = MemoryMetastore { indexes: Vec::new(), faults: 0, calls: Vec::new() };
        proof {
            assert(metastore.names() =~= Seq::<Seq<char>>::empty());
            assert(metastore@.indexes =~= Map::<Seq<char>, IndexView>::empty());
            assert(metastore@.calls =~= Seq::<RequestView>::empty());
        }
        metastore
    }

    fn find(&self, name: &str) -> (found: Option<usize>)
        ensures
            match found {
                Some(i) => i < self.indexes@.len() && self.indexes@[i as int].index_id@ == name@,
                None => true,
            },
            found is Some == self@.indexes.dom().contains(name@),
    {
        let mut i: usize = 0;
        while i < self.indexes.len()
            invariant
                i <= self.indexes@.len(),
                forall|j: int| 0 <= j < i ==> self.indexes@[j].index_id@ != name@,
            decreases self.indexes@.len() - i,
        {
            if str_equal(self.indexes[i].index_id.as_str(), name) {
                proof {
                    assert(self.names()[i as int] == name@);
                }
                return Some(i);
            }
            i += 1;
        }
        proof {
            let names = self.names();
            assert forall|j: int| 0 <= j < names.len() implies names[j] != name@ by {
                assert(names[j] == self.indexes@[j].index_id@);
            }
        }
        None
    }

    /// Whether the metastore has an index of that name.
    pub fn has_index(&self, name: &str) -> (known: bool)
        ensures
            known == self@.indexes.dom().contains(name@),
    {
        self.find(name).is_some()
    }

    /// Adds an empty index of that name, unless there is one already.
    /// Returns whether the index was added.
    pub fn create_index(&mut self, name: &str) -> (added: bool)
        requires
            old(self).wf(),
        ensures
            final(self).wf(),
            added == !old(self)@.indexes.dom().contains(name@),
            final(self)@.indexes == if added {
                old(self)@.indexes.insert(name@, IndexView::empty())
            } else {
                old(self)@.indexes
            },
            final(self)@.faults == old(self)@.faults,
            final(self)@.calls == old(self)@.calls,
    {
        match self.find(name) {
            Some(_) => false,
            None => {
                let ghost before = *self;
                let entry = IndexEntry { index_id: name.to_owned(), segments: Vec::new() };
                self.indexes.push(entry);
                proof {
                    let names = self.names();
                    let wanted = before@.indexes.insert(name@, IndexView::empty());
                    assert(names =~= before.names().push(name@));
                    assert(names.no_duplicates());
                    assert(entry.state().segments =~= Seq::<SegmentView>::empty());
                    assert(entry.state() == IndexView::empty());
                    self.lemma_entry(names.len() - 1);
                    assert forall|other: Seq<char>| #[trigger]
                        wanted.dom().contains(other) implies self@.indexes.dom().contains(other)
                        && self@.indexes[other] == wanted[other] by {
                        if other != name@ {
                            let p = position(before.names(), other);
                            assert(names[p] == other);
                            self.lemma_entry(p);
                            before.lemma_entry(p);
                        }
                    }
                    assert forall|other: Seq<char>| #[trigger]
                        self@.indexes.dom().contains(other) implies wanted.dom().contains(other) by {
                        let p = position(names, other);
                        if p < before.names().len() {
                            assert(before.names()[p] == other);
                        }
                    }
                    assert(self@.indexes =~= wanted);
                    assert(self@.calls == before@.calls);
                    assert forall|other: Seq<char>| self@.indexes.dom().contains(other) implies (
                    #[trigger] self@.indexes[other]).wf() by {
                        if other != name@ {
                            assert(before@.indexes.dom().contains(other));
                        }
                    }
                }
                true
            },
        }
    }

    /// Makes the next `count` publish calls fail transiently.
    pub fn fail_next(&mut self, count: u64)
        ensures
            final(self).wf() == old(self).wf(),
            final(self)@.indexes == old(self)@.indexes,
            final(self)@.faults == count,
            final(self)@.calls == old(self)@.calls,
    {
        let ghost before = *self;
        self.faults = count;
        proof {
            assert(self.names() == before.names());
            assert(self@.indexes =~= before@.indexes);
        }
    }

    /// Commits the segment of `request` to its index, or says why not, as
    /// the model does. The call is logged either way.
    pub fn publish_segment(&mut self, request: &PublishRequest) -> (answer: Result<
        (),
        ConflictKind,
    >)
        requires
            old(self).wf(),
        ensures
            final(self).wf(),
            answer == old(self)@.answer(request@),
            final(self)@ == old(self)@.after(request@),
    {
        let ghost before = *self;
        let ghost wanted = before@.after(request@);
        proof {
            lemma_publish_keeps_wf(before@, request@);
        }
        self.calls.push(request.duplicate());
        proof {
            assert(self.names() == before.names());
            assert(self@.indexes =~= before@.indexes);
            assert(self@.calls =~= wanted.calls);
        }
        if self.faults > 0 {
            self.faults = self.faults - 1;
            proof {
                assert(self.names() == before.names());
                assert(self@.indexes =~= before@.indexes);
            }
            return Err(ConflictKind::Transient);
        }
        match self.find(request.index_id.as_str()) {
            None => Err(ConflictKind::UnknownIndex),
            Some(i) => {
                proof {
                    self.lemma_entry(i as int);
                }
                if self.indexes[i].holds(request.segment_id.as_str()) {
                    Err(ConflictKind::AlreadyPublished)
                } else if request.checkpoint < self.indexes[i].checkpoint() {
                    Err(ConflictKind::StaleCheckpoint)
                } else {
                    let ghost middle = *self;
                    let segment = Segment {
                        segment_id: request.segment_id.clone(),
                        time_range: request.time_range,
                        checkpoint: request.checkpoint,
                    };
                    self.indexes[i].segments.push(segment);
                    proof {
                        let name = request@.index_id;
                        assert(self.names() =~= middle.names());
                        assert(self.indexes@[i as int].state().segments =~= middle.indexes@[i as int].state().commit(
                            request@,
                        ).segments);
                        self.lemma_entry(i as int);
                        assert forall|other: Seq<char>| #[trigger]
                            wanted.indexes.dom().contains(other) implies self@.indexes.dom().contains(
                            other,
                        ) && self@.indexes[other] == wanted.indexes[other] by {
                            if other != name {
                                let p = position(middle.names(), other);
                                middle.lemma_entry(p);
                                self.lemma_entry(p);
                            }
                        }
                        assert(self@.indexes =~= wanted.indexes);
                        assert(self@.calls =~= wanted.calls);
                    }
                    Ok(())
                }
            },
        }
    }

    /// The identifiers of the segments visible in the index, in the order in
    /// which they were committed, or `None` where there is no such index.
    pub fn segment_ids(&self, name: &str) -> (ids: Option<Vec<String>>)
        requires
            self.wf(),
        ensures
            match ids {
                Some(v) => self@.indexes.dom().contains(name@) && v@.map_values(|s: String| s@)
                    == self@.indexes[name@].segment_ids(),
                None => !self@.indexes.dom().contains(name@),
            },
    {
        match self.find(name) {
            None => None,
            Some(i) => {
                proof {
                    self.lemma_entry(i as int);
                }
                let entry = &self.indexes[i];
                let mut ids: Vec<String> = Vec::new();
                let mut k: usize = 0;
                while k < entry.segments.len()
                    invariant
                        k <= entry.segments@.len(),
                        ids@.len() == k,
                        forall|j: int| 0 <= j < k ==> ids@[j]@ == entry.segments@[j].segment_id@,
                    decreases entry.segments@.len() - k,
                {
                    ids.push(entry.segments[k].segment_id.clone());
                    k += 1;
                }
                proof {
                    assert(ids@.map_values(|s: String| s@) =~= entry.state().segment_ids());
                }
                Some(ids)
            },
        }
    }

    /// The checkpoint stored for the index, or `None` where there is no such
    /// index.
    pub fn checkpoint(&self, name: &str) -> (stored: Option<u64>)
        requires
            self.wf(),
        ensures
            match stored {
                Some(c) => self@.indexes.dom().contains(name@) && c
                    == self@.indexes[name@].checkpoint(),
                None => !self@.indexes.dom().contains(name@),
            },
    {
        match self.find(name) {
            None => None,
            Some(i) => {
                proof {
                    self.lemma_entry(i as int);
                }
                Some(self.indexes[i].checkpoint())
            },
        }
    }

    /// The number of publish calls that have reached the metastore.
    pub fn call_count(&self) -> (count: usize)
        ensures
            count == self@.calls.len(),
    {
        self.calls.len()
    }

    /// The `i`-th publish call that reached the metastore.
    pub fn call(&self, i: usize) -> (request: PublishRequest)
        requires
            i < self@.calls.len(),
        ensures
            request@ == self@.calls[i as int],
    {
        self.calls[i].duplicate()
    }

    /// The number of calls that will still fail transiently.
    pub fn pending_faults(&self) -> (count: u64)
        ensures
            count == self@.faults,
    {
        self.faults
    }
}

} // verus!
