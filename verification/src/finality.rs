//! The registry of funding transactions that wait for a finality proof.

use crate::asset_lock_proof::{
    clone_proof_option, proof_option_view, AssetLockProof, AssetLockProofView,
};
use crate::chain::{bytes_eq, Txid};
use vstd::prelude::*;

verus! {

/// The time between two looks at the registry, in milliseconds.
pub const POLL_INTERVAL_MS: u64 = 200;

/// What the registry holds: for each registered transaction, its proof once
/// it is resolved.
pub type TrackerMap = Map<Txid, Option<AssetLockProofView>>;

struct TrackerEntry {
    txid: Txid,
    resolved: Option<AssetLockProof>,
}

/// The content of one entry of the registry.
pub struct TrackerEntryView {
    pub txid: Txid,
    pub resolved: Option<AssetLockProofView>,
}

/// The registry that a list of entries stands for.
pub open spec fn entries_map(entries: Seq<TrackerEntryView>) -> TrackerMap
    decreases entries.len(),
{
    if entries.len() == 0 {
        Map::empty()
    } else {
        entries_map(entries.drop_last()).insert(entries.last().txid, entries.last().resolved)
    }
}

/// No transaction has two entries.
pub open spec fn distinct_txids(entries: Seq<TrackerEntryView>) -> bool {
    forall|i: int, j: int|
        0 <= i < j < entries.len() ==> (#[trigger] entries[i]).txid != (#[trigger] entries[j]).txid
}

proof fn lemma_map_dom(entries: Seq<TrackerEntryView>, txid: Txid)
    ensures
        entries_map(entries).dom().contains(txid) <==> exists|i: int|
            0 <= i < entries.len() && (#[trigger] entries[i]).txid == txid,
    decreases entries.len(),
{
    if entries.len() > 0 {
        let rest = entries.drop_last();
        lemma_map_dom(rest, txid);
        if entries_map(entries).dom().contains(txid) {
            if entries.last().txid == txid {
                assert(entries[entries.len() - 1].txid == txid);
            } else {
                let i = choose|i: int| 0 <= i < rest.len() && (#[trigger] rest[i]).txid == txid;
                assert(entries[i].txid == txid);
            }
        }
        if exists|i: int| 0 <= i < entries.len() && (#[trigger] entries[i]).txid == txid {
            let i = choose|i: int| 0 <= i < entries.len() && (#[trigger] entries[i]).txid == txid;
            if i < rest.len() {
                assert(rest[i].txid == txid);
            }
        }
    }
}

proof fn lemma_map_at(entries: Seq<TrackerEntryView>, i: int)
    requires
        distinct_txids(entries),
        0 <= i < entries.len(),
    ensures
        entries_map(entries).dom().contains(entries[i].txid),
        entries_map(entries)[entries[i].txid] == entries[i].resolved,
    decreases entries.len(),
{
    let rest = entries.drop_last();
    if i < rest.len() {
        assert(distinct_txids(rest)) by {
            assert forall|a: int, b: int| 0 <= a < b < rest.len() implies (
            #[trigger] rest[a]).txid != (#[trigger] rest[b]).txid by {
                assert(entries[a].txid != entries[b].txid);
            }
        }
        lemma_map_at(rest, i);
        assert(rest[i] == entries[i]);
        assert(entries[i].txid != entries[entries.len() - 1].txid);
    }
}

proof fn lemma_map_update(entries: Seq<TrackerEntryView>, i: int, entry: TrackerEntryView)
    requires
        distinct_txids(entries),
        0 <= i < entries.len(),
        entry.txid == entries[i].txid,
    ensures
        distinct_txids(entries.update(i, entry)),
        entries_map(entries.update(i, entry)) == entries_map(entries).insert(
            entry.txid,
            entry.resolved,
        ),
    decreases entries.len(),
{
    let updated = entries.update(i, entry);
    let rest = entries.drop_last();
    assert forall|a: int, b: int| 0 <= a < b < updated.len() implies (
    #[trigger] updated[a]).txid != (#[trigger] updated[b]).txid by {
        assert(entries[a].txid != entries[b].txid);
    }
    if i == entries.len() - 1 {
        assert(updated.drop_last() =~= rest);
        assert(entries_map(updated) =~= entries_map(entries).insert(entry.txid, entry.resolved));
    } else {
        assert(distinct_txids(rest)) by {
            assert forall|a: int, b: int| 0 <= a < b < rest.len() implies (
            #[trigger] rest[a]).txid != (#[trigger] rest[b]).txid by {
                assert(entries[a].txid != entries[b].txid);
            }
        }
        lemma_map_update(rest, i, entry);
        assert(updated.drop_last() =~= rest.update(i, entry));
        assert(entries[i].txid != entries[entries.len() - 1].txid);
        assert(entries_map(updated) =~= entries_map(entries).insert(entry.txid, entry.resolved));
    }
}

proof fn lemma_map_remove(entries: Seq<TrackerEntryView>, i: int)
    requires
        distinct_txids(entries),
        0 <= i < entries.len(),
    ensures
        distinct_txids(entries.remove(i)),
        entries_map(entries.remove(i)) == entries_map(entries).remove(entries[i].txid),
    decreases entries.len(),
{
    let removed = entries.remove(i);
    let rest = entries.drop_last();
    assert forall|a: int, b: int| 0 <= a < b < removed.len() implies (
    #[trigger] removed[a]).txid != (#[trigger] removed[b]).txid by {
        let a0 = if a < i {
            a
        } else {
            a + 1
        };
        let b0 = if b < i {
            b
        } else {
            b + 1
        };
        assert(entries[a0].txid != entries[b0].txid);
    }
    assert(distinct_txids(rest)) by {
        assert forall|a: int, b: int| 0 <= a < b < rest.len() implies (#[trigger] rest[a]).txid
            != (#[trigger] rest[b]).txid by {
            assert(entries[a].txid != entries[b].txid);
        }
    }
    if i == entries.len() - 1 {
        assert(removed =~= rest);
        lemma_map_dom(rest, entries[i].txid);
        if entries_map(rest).dom().contains(entries[i].txid) {
            let w = choose|w: int|
                0 <= w < rest.len() && (#[trigger] rest[w]).txid == entries[i].txid;
            assert(entries[w].txid != entries[i].txid);
        }
        assert(entries_map(removed) =~= entries_map(entries).remove(entries[i].txid));
    } else {
        lemma_map_remove(rest, i);
        assert(removed.drop_last() =~= rest.remove(i));
        assert(removed.last() == entries.last());
        assert(entries[i].txid != entries[entries.len() - 1].txid);
        assert(entries_map(removed) =~= entries_map(entries).remove(entries[i].txid));
    }
}

/// Whether a transaction is registered, and whether its proof has come.
#[derive(Clone, Copy, Debug, PartialEq, Eq, Structural)]
pub enum FinalityStatus {
    /// The transaction is not registered.
    Unknown,
    /// The transaction is registered and waits for its proof.
    Pending,
    /// The proof of the transaction has come.
    Resolved,
}

/// The status of `txid` in a registry.
pub open spec fn spec_status(tracker: TrackerMap, txid: Txid) -> FinalityStatus {
    if !tracker.dom().contains(txid) {
        FinalityStatus::Unknown
    } else if tracker[txid] is None {
        FinalityStatus::Pending
    } else {
        FinalityStatus::Resolved
    }
}

/// The proof of `txid` has come.
pub open spec fn is_resolved(tracker: TrackerMap, txid: Txid) -> bool {
    tracker.dom().contains(txid) && tracker[txid] is Some
}

/// Every transaction that is resolved in `before` is resolved in `after`.
pub open spec fn keeps_resolved(before: TrackerMap, after: TrackerMap) -> bool {
    forall|txid: Txid| is_resolved(before, txid) ==> is_resolved(after, txid)
}

/// The registry from transaction id to proof. An entry without a proof is
/// pending; a proof, once it has come, stays.
pub struct FinalityTracker {
    entries: Vec<TrackerEntry>,
}

impl FinalityTracker {
    spec fn entry_views(&self) -> Seq<TrackerEntryView> {
        Seq::new(
            self.entries@.len(),
            |i: int|
                TrackerEntryView {
                    txid: self.entries@[i].txid,
                    resolved: proof_option_view(self.entries@[i].resolved),
                },
        )
    }

    pub closed spec fn view(&self) -> TrackerMap {
        entries_map(self.entry_views())
    }

    /// No transaction has two entries.
    pub closed spec fn wf(&self) -> bool {
        distinct_txids(self.entry_views())
    }

    /// A registry without entries.
    pub fn new() -> (tracker: FinalityTracker)
        ensures
            tracker.wf(),
            tracker@ == Map::<Txid, Option<AssetLockProofView>>::empty(),
    {
        let tracker = FinalityTracker { entries: Vec::new() };
        assert(tracker.entry_views() =~= Seq::empty());
        tracker
    }

    fn find(&self, txid: &Txid) -> (found: Option<usize>)
        requires
            self.wf(),
        ensures
            match found {
                Some(i) => i < self.entries@.len() && self.entries@[i as int].txid == *txid
                    && self@.dom().contains(*txid) && self@[*txid] == proof_option_view(
                    self.entries@[i as int].resolved,
                ),
                None => !self@.dom().contains(*txid),
            },
    {
        let mut i: usize = 0;
        while i < self.entries.len()
            invariant
                self.wf(),
                i <= self.entries.len(),
                forall|k: int| 0 <= k < i ==> self.entries@[k].txid != *txid,
            decreases self.entries.len() - i,
        {
            if bytes_eq(&self.entries[i].txid, txid) {
                proof {
                    lemma_map_at(self.entry_views(), i as int);
                }
                return Some(i);
            }
            i = i + 1;
        }
        proof {
            lemma_map_dom(self.entry_views(), *txid);
            if self@.dom().contains(*txid) {
                let w = choose|w: int|
                    0 <= w < self.entry_views().len() && (#[trigger] self.entry_views()[w]).txid
                        == *txid;
                assert(self.entries@[w].txid == *txid);
            }
        }
        None
    }

    /// Registers a transaction as waiting for its proof. A transaction that
    /// is registered already keeps its entry, resolved or not.
    pub fn register_pending(&mut self, txid: Txid) -> (added: bool)
        requires
            old(self).wf(),
        ensures
            final(self).wf(),
            added == !old(self)@.dom().contains(txid),
            added ==> final(self)@ == old(self)@.insert(txid, None),
            !added ==> final(self)@ == old(self)@,
            keeps_resolved(old(self)@, final(self)@),
    {
        if self.find(&txid).is_some() {
            return false;
        }
        let ghost before = self.entry_views();
        self.entries.push(TrackerEntry { txid, resolved: None });
        proof {
            let after = self.entry_views();
            assert(after.drop_last() =~= before);
            assert(after.last() == (TrackerEntryView { txid, resolved: None }));
            assert forall|a: int, b: int| 0 <= a < b < after.len() implies (
            #[trigger] after[a]).txid != (#[trigger] after[b]).txid by {
                if b == before.len() {
                    lemma_map_dom(before, txid);
                    assert(before[a].txid == after[a].txid);
                } else {
                    assert(before[a].txid != before[b].txid);
                }
            }
        }
        true
    }

    /// Records the proof of a registered transaction, in place of what the
    /// entry held. For a transaction that is not registered nothing is
    /// recorded.
    pub fn resolve(&mut self, txid: Txid, resolution: AssetLockProof) -> (recorded: bool)
        requires
            old(self).wf(),
        ensures
            final(self).wf(),
            recorded == old(self)@.dom().contains(txid),
            recorded ==> final(self)@ == old(self)@.insert(txid, Some(resolution@)),
            !recorded ==> final(self)@ == old(self)@,
            keeps_resolved(old(self)@, final(self)@),
    {
        match self.find(&txid) {
            None => false,
            Some(i) => {
                let ghost before = self.entry_views();
                let ghost entry = TrackerEntryView { txid, resolved: Some(resolution@) };
                self.entries.set(i, TrackerEntry { txid, resolved: Some(resolution) });
                proof {
                    assert(self.entry_views() =~= before.update(i as int, entry));
                    lemma_map_update(before, i as int, entry);
                }
                true
            },
        }
    }

    /// Takes back the registration of a transaction that still waits for its
    /// proof. A resolved entry stays.
    pub fn remove_pending(&mut self, txid: Txid) -> (removed: bool)
        requires
            old(self).wf(),
        ensures
            final(self).wf(),
            removed == (spec_status(old(self)@, txid) == FinalityStatus::Pending),
            removed ==> final(self)@ == old(self)@.remove(txid),
            !removed ==> final(self)@ == old(self)@,
            keeps_resolved(old(self)@, final(self)@),
    {
        match self.find(&txid) {
            None => false,
            Some(i) => {
                if self.entries[i].resolved.is_some() {
                    return false;
                }
                let ghost before = self.entry_views();
                let _ = self.entries.remove(i);
                proof {
                    assert(self.entry_views() =~= before.remove(i as int));
                    lemma_map_remove(before, i as int);
                }
                true
            },
        }
    }

    /// Whether a transaction is registered, and whether its proof has come.
    pub fn status(&self, txid: &Txid) -> (status: FinalityStatus)
        requires
            self.wf(),
        ensures
            status == spec_status(self@, *txid),
    {
        match self.find(txid) {
            None => FinalityStatus::Unknown,
            Some(i) => if self.entries[i].resolved.is_some() {
                FinalityStatus::Resolved
            } else {
                FinalityStatus::Pending
            },
        }
    }

    /// The proof of a transaction, once it has come.
    pub fn resolution(&self, txid: &Txid) -> (resolution: Option<AssetLockProof>)
        requires
            self.wf(),
        ensures
            proof_option_view(resolution) == if is_resolved(self@, *txid) {
                self@[*txid]
            } else {
                None
            },
    {
        match self.find(txid) {
            None => None,
            Some(i) => clone_proof_option(&self.entries[i].resolved),
        }
    }

    /// The number of registered transactions.
    pub fn len(&self) -> (count: usize)
        requires
            self.wf(),
        ensures
            count == self@.dom().len(),
            self@.dom().finite(),
    {
        proof {
            lemma_map_len(self.entry_views());
        }
        self.entries.len()
    }
}

proof fn lemma_map_len(entries: Seq<TrackerEntryView>)
    requires
        distinct_txids(entries),
    ensures
        entries_map(entries).dom().finite(),
        entries_map(entries).dom().len() == entries.len(),
    decreases entries.len(),
{
    if entries.len() > 0 {
        let rest = entries.drop_last();
        assert(distinct_txids(rest)) by {
            assert forall|a: int, b: int| 0 <= a < b < rest.len() implies (#[trigger] rest[a]).txid
                != (#[trigger] rest[b]).txid by {
                assert(entries[a].txid != entries[b].txid);
            }
        }
        lemma_map_len(rest);
        lemma_map_dom(rest, entries.last().txid);
        if entries_map(rest).dom().contains(entries.last().txid) {
            let w = choose|w: int|
                0 <= w < rest.len() && (#[trigger] rest[w]).txid == entries.last().txid;
            assert(entries[w].txid != entries[entries.len() - 1].txid);
        }
        assert(entries_map(entries).dom() =~= entries_map(rest).dom().insert(
            entries.last().txid,
        ));
    }
}

/// What a consumer that waits for a proof does next.
#[derive(Debug, PartialEq, Eq)]
pub enum Resolution {
    /// The proof has come.
    Resolved(AssetLockProof),
    /// The proof has not come: look again after this many milliseconds.
    Wait(u64),
    /// The proof has not come within the time that the consumer allows.
    TimedOut,
}

pub enum ResolutionView {
    Resolved(AssetLockProofView),
    Wait(u64),
    TimedOut,
}

impl View for Resolution {
    type V = ResolutionView;

    open spec fn view(&self) -> ResolutionView {
        match self {
            Resolution::Resolved(resolution) => ResolutionView::Resolved(resolution@),
            Resolution::Wait(interval) => ResolutionView::Wait(*interval),
            Resolution::TimedOut => ResolutionView::TimedOut,
        }
    }
}

/// What a consumer does next that has waited `waited_ms` for the proof of
/// `txid` and allows `timeout_ms` at most, or any time where it names none.
pub open spec fn spec_await_resolution(
    tracker: TrackerMap,
    txid: Txid,
    poll_interval_ms: u64,
    waited_ms: u64,
    timeout_ms: Option<u64>,
) -> ResolutionView {
    if is_resolved(tracker, txid) {
        ResolutionView::Resolved(tracker[txid]->0)
    } else if timeout_ms is Some && waited_ms >= timeout_ms->0 {
        ResolutionView::TimedOut
    } else {
        ResolutionView::Wait(poll_interval_ms)
    }
}

impl FinalityTracker {
    /// One look of a consumer that waits for the proof of `txid`: the proof if
    /// it has come; otherwise whether to look again after `poll_interval_ms`,
    /// or to give up because `waited_ms` has reached the consumer's timeout.
    /// The registry is not changed, and is not held while the consumer
    /// sleeps.
    pub fn await_resolution(
        &self,
        txid: &Txid,
        poll_interval_ms: u64,
        waited_ms: u64,
        timeout_ms: Option<u64>,
    ) -> (next: Resolution)
        requires
            self.wf(),
        ensures
            next@ == spec_await_resolution(self@, *txid, poll_interval_ms, waited_ms, timeout_ms),
    {
        match self.resolution(txid) {
            Some(resolution) => Resolution::Resolved(resolution),
            None => match timeout_ms {
                Some(limit) => if waited_ms >= limit {
                    Resolution::TimedOut
                } else {
                    Resolution::Wait(poll_interval_ms)
                },
                None => Resolution::Wait(poll_interval_ms),
            },
        }
    }
}

/// Resolution is monotonic: recording a proof, registering and taking back
/// a registration, in any order, never turn a resolved entry into a pending
/// one, nor remove it.
pub proof fn lemma_resolution_is_monotonic(first: TrackerMap, second: TrackerMap, third: TrackerMap)
    requires
        keeps_resolved(first, second),
        keeps_resolved(second, third),
    ensures
        keeps_resolved(first, third),
{
}

} // verus!
