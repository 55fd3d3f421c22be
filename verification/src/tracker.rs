//! Dirty Page Tracker: maps each dirty page to the log position at which
//! it was first dirtied. Source of truth for the flush scope of a
//! checkpoint run and for its recovery anchor.
//!
//! `mark_dirty` has first-dirty semantics: an already-tracked page keeps
//! its `recovery_lsn`. Every call stamps the page's entry with a fresh
//! version, so that a run's `clear_flushed` can tell pages unwritten
//! since its snapshot apart from pages dirtied or written again after
//! the snapshot was taken; the latter stay tracked across the commit.

use vstd::prelude::*;

verus! {

/// One tracked dirty page: the page, the log position in effect when it
/// first became dirty, and the tracker version at which it was inserted.
#[derive(Clone, Copy, Debug, PartialEq, Eq, Structural)]
pub struct PageEntry {
    /// Stable page id.
    pub page_id: u64,
    /// Log position at first dirtying since the page was last cleaned.
    pub recovery_lsn: u64,
    /// Tracker version at the page's most recent dirtying; any write
    /// after a snapshot leaves the version strictly above the snapshot's.
    pub version: u64,
}

/// No two positions of the sequence hold the same page id.
pub open spec fn unique_page_ids(s: Seq<PageEntry>) -> bool {
    forall|i: int, j: int|
        0 <= i < j < s.len() ==> (#[trigger] s[i]).page_id != (#[trigger] s[j]).page_id
}

/// The mapping from page id to entry that a sequence of entries
/// represents; on duplicate ids the later position wins.
pub open spec fn page_table(s: Seq<PageEntry>) -> Map<u64, PageEntry>
    decreases s.len(),
{
    if s.len() == 0 {
        Map::empty()
    } else {
        page_table(s.drop_last()).insert(s.last().page_id, s.last())
    }
}

/// An entry survives `clear_flushed(cleared, up_to_version)` unless its
/// page was flushed (listed in `cleared`) and it was not re-dirtied since
/// the snapshot (its version is at most `up_to_version`).
pub open spec fn survives_clear(e: PageEntry, cleared: Seq<u64>, up_to_version: u64) -> bool {
    !(cleared.contains(e.page_id) && e.version <= up_to_version)
}

/// The table's keys are exactly the page ids occurring in the sequence;
/// under unique ids each position is its page's table entry.
pub proof fn lemma_page_table_index(s: Seq<PageEntry>)
    ensures
        forall|p: u64|
            #[trigger] page_table(s).contains_key(p) <==> exists|k: int|
                0 <= k < s.len() && (#[trigger] s[k]).page_id == p,
        unique_page_ids(s) ==> forall|k: int|
            0 <= k < s.len() ==> page_table(s)[(#[trigger] s[k]).page_id] == s[k],
    decreases s.len(),
{
    if s.len() > 0 {
        let t = s.drop_last();
        let e = s.last();
        lemma_page_table_index(t);
        assert forall|p: u64| #[trigger] page_table(s).contains_key(p) implies exists|k: int|
            0 <= k < s.len() && (#[trigger] s[k]).page_id == p by {
            if p == e.page_id {
                assert(s[s.len() - 1].page_id == p);
            } else {
                assert(page_table(t).contains_key(p));
                let k = choose|k: int| 0 <= k < t.len() && (#[trigger] t[k]).page_id == p;
                assert(t[k] == s[k]);
                assert(s[k].page_id == p);
            }
        }
        assert forall|p: u64|
            (exists|k: int| 0 <= k < s.len() && (#[trigger] s[k]).page_id == p) implies page_table(
            s,
        ).contains_key(p) by {
            let k = choose|k: int| 0 <= k < s.len() && (#[trigger] s[k]).page_id == p;
            if k == s.len() - 1 {
                assert(p == e.page_id);
            } else {
                assert(t[k] == s[k]);
                assert(t[k].page_id == p);
                assert(page_table(t).contains_key(p));
            }
        }
        if unique_page_ids(s) {
            assert(unique_page_ids(t)) by {
                assert forall|i: int, j: int| 0 <= i < j < t.len() implies (#[trigger] t[i]).page_id
                    != (#[trigger] t[j]).page_id by {
                    assert(s[i].page_id != s[j].page_id);
                }
            }
            assert forall|k: int| 0 <= k < s.len() implies page_table(s)[(
            #[trigger] s[k]).page_id] == s[k] by {
                if k == s.len() - 1 {
                } else {
                    assert(s[k].page_id != e.page_id);
                    assert(t[k] == s[k]);
                }
            }
        }
    }
}

/// Appending an entry updates the table at that entry's page id.
pub proof fn lemma_page_table_push(s: Seq<PageEntry>, e: PageEntry)
    ensures
        page_table(s.push(e)) == page_table(s).insert(e.page_id, e),
{
    assert(s.push(e).drop_last() =~= s);
    assert(s.push(e).last() == e);
}

/// Replacing the entry at a position by one for the same page updates
/// the table at that page id.
pub proof fn lemma_page_table_update(s: Seq<PageEntry>, k: int, e: PageEntry)
    requires
        0 <= k < s.len(),
        unique_page_ids(s),
        e.page_id == s[k].page_id,
    ensures
        page_table(s.update(k, e)) == page_table(s).insert(e.page_id, e),
        unique_page_ids(s.update(k, e)),
    decreases s.len(),
{
    let t = s.drop_last();
    let u = s.update(k, e);
    assert(unique_page_ids(u)) by {
        assert forall|i: int, j: int| 0 <= i < j < u.len() implies (#[trigger] u[i]).page_id != (
        #[trigger] u[j]).page_id by {
            assert(u[i].page_id == s[i].page_id);
            assert(u[j].page_id == s[j].page_id);
        }
    }
    if k == s.len() - 1 {
        assert(u.drop_last() =~= t);
        assert(u.last() == e);
        assert(page_table(t).insert(s.last().page_id, s.last()).insert(e.page_id, e)
            =~= page_table(t).insert(e.page_id, e));
    } else {
        assert(unique_page_ids(t)) by {
            assert forall|i: int, j: int| 0 <= i < j < t.len() implies (#[trigger] t[i]).page_id
                != (#[trigger] t[j]).page_id by {
                assert(s[i].page_id != s[j].page_id);
            }
        }
        assert(t[k] == s[k]);
        lemma_page_table_update(t, k, e);
        assert(u.drop_last() =~= t.update(k, e));
        assert(u.last() == s.last());
        assert(s[k].page_id != s[s.len() - 1].page_id);
        assert(page_table(t).insert(e.page_id, e).insert(s.last().page_id, s.last())
            =~= page_table(t).insert(s.last().page_id, s.last()).insert(e.page_id, e));
    }
}

/// Filtering a uniquely-keyed sequence restricts its table to the entries
/// the predicate keeps, leaving kept entries unchanged.
pub proof fn lemma_page_table_filter(s: Seq<PageEntry>, pred: spec_fn(PageEntry) -> bool)
    requires
        unique_page_ids(s),
    ensures
        unique_page_ids(s.filter(pred)),
        forall|p: u64|
            #[trigger] page_table(s.filter(pred)).contains_key(p) <==> (page_table(
                s,
            ).contains_key(p) && pred(page_table(s)[p])),
        forall|p: u64|
            #[trigger] page_table(s.filter(pred)).contains_key(p) ==> page_table(s.filter(pred))[p]
                == page_table(s)[p],
    decreases s.len(),
{
    reveal(Seq::filter);
    lemma_page_table_index(s);
    if s.len() == 0 {
        assert(s.filter(pred) =~= s);
    } else {
        let t = s.drop_last();
        let e = s.last();
        assert(unique_page_ids(t)) by {
            assert forall|i: int, j: int| 0 <= i < j < t.len() implies (#[trigger] t[i]).page_id
                != (#[trigger] t[j]).page_id by {
                assert(s[i].page_id != s[j].page_id);
            }
        }
        lemma_page_table_filter(t, pred);
        lemma_page_table_index(t);
        lemma_page_table_index(s.filter(pred));
        lemma_page_table_index(t.filter(pred));
        // e's page id does not occur in t, hence not in t.filter(pred).
        assert(!page_table(t).contains_key(e.page_id)) by {
            if page_table(t).contains_key(e.page_id) {
                let k = choose|k: int|
                    0 <= k < t.len() && (#[trigger] t[k]).page_id == e.page_id;
                assert(s[k].page_id == s[s.len() - 1].page_id);
            }
        }
        if pred(e) {
            assert(s.filter(pred) == t.filter(pred).push(e));
            lemma_page_table_push(t.filter(pred), e);
            assert(unique_page_ids(t.filter(pred).push(e))) by {
                let f = t.filter(pred).push(e);
                assert forall|i: int, j: int| 0 <= i < j < f.len() implies (
                #[trigger] f[i]).page_id != (#[trigger] f[j]).page_id by {
                    if j == f.len() - 1 {
                        assert(f[i] == t.filter(pred)[i]);
                        assert(page_table(t.filter(pred)).contains_key(f[i].page_id));
                        assert(page_table(t).contains_key(f[i].page_id));
                    } else {
                        assert(f[i] == t.filter(pred)[i]);
                        assert(f[j] == t.filter(pred)[j]);
                    }
                }
            }
        } else {
            assert(s.filter(pred) == t.filter(pred));
            assert(!page_table(t.filter(pred)).contains_key(e.page_id));
        }
    }
}

/// Every element of a filtered sequence occurs in the original one.
pub proof fn lemma_filter_elements(s: Seq<PageEntry>, pred: spec_fn(PageEntry) -> bool)
    ensures
        forall|i: int|
            0 <= i < s.filter(pred).len() ==> s.contains(#[trigger] s.filter(pred)[i]),
    decreases s.len(),
{
    reveal(Seq::filter);
    if s.len() > 0 {
        let t = s.drop_last();
        let e = s.last();
        lemma_filter_elements(t, pred);
        let f = s.filter(pred);
        assert forall|i: int| 0 <= i < f.len() implies s.contains(#[trigger] f[i]) by {
            if pred(e) && i == f.len() - 1 {
                assert(f[i] == e);
                assert(s[s.len() - 1] == e);
            } else {
                assert(f[i] == t.filter(pred)[i]);
                assert(t.contains(f[i]));
                let k = choose|k: int| 0 <= k < t.len() && t[k] == f[i];
                assert(s[k] == f[i]);
            }
        }
    }
}

/// Every key of the page table maps to an entry carrying that page id.
pub proof fn lemma_table_entry_ids(s: Seq<PageEntry>)
    ensures
        forall|p: u64|
            #[trigger] page_table(s).contains_key(p) ==> page_table(s)[p].page_id == p,
    decreases s.len(),
{
    if s.len() > 0 {
        lemma_table_entry_ids(s.drop_last());
        assert forall|p: u64| #[trigger] page_table(s).contains_key(p) implies page_table(
            s,
        )[p].page_id == p by {
            if p != s.last().page_id {
                assert(page_table(s.drop_last()).contains_key(p));
                assert(page_table(s)[p] == page_table(s.drop_last())[p]);
            }
        }
    }
}

/// The Dirty Page Tracker. Shared between the transaction paths (point
/// mutations through `mark_dirty`) and the checkpoint executor (the brief
/// `snapshot` and `clear_flushed` calls); no I/O ever happens inside it.
pub struct DirtyPageTracker {
    entries: Vec<PageEntry>,
    version: u64,
}

/// An immutable copy of the tracker taken at the start of a checkpoint
/// run: the dirty entries and the tracker version at that instant.
pub struct TrackerSnapshot {
    /// Copies of the tracked entries at the snapshot instant.
    pub entries: Vec<PageEntry>,
    /// The tracker version at the snapshot instant; every entry inserted
    /// later carries a strictly larger version.
    pub version: u64,
}

impl DirtyPageTracker {
    /// The mapping from tracked page id to its entry.
    pub closed spec fn table(self) -> Map<u64, PageEntry> {
        page_table(self.entries@)
    }

    /// The tracked entries in insertion order.
    pub closed spec fn entry_seq(self) -> Seq<PageEntry> {
        self.entries@
    }

    /// The version stamped onto the most recent insertion.
    pub closed spec fn current_version(self) -> u64 {
        self.version
    }

    /// Well-formedness: page ids are unique and every entry's version is
    /// positive and no newer than the tracker's.
    pub closed spec fn wf(self) -> bool {
        &&& unique_page_ids(self.entries@)
        &&& forall|i: int|
            0 <= i < self.entries@.len() ==> 0 < (#[trigger] self.entries@[i]).version
                <= self.version
    }

    /// An empty tracker.
    pub fn new() -> (t: Self)
        ensures
            t.wf(),
            t.table() == Map::<u64, PageEntry>::empty(),
            t.entry_seq() == Seq::<PageEntry>::empty(),
            t.current_version() == 0,
    {
        DirtyPageTracker { entries: Vec::new(), version: 0 }
    }

    /// How many pages are currently tracked as dirty.
    pub fn dirty_count(&self) -> (n: usize)
        ensures
            n == self.entry_seq().len(),
    {
        self.entries.len()
    }

    /// Whether the page is currently tracked as dirty.
    pub fn contains_page(&self, page_id: u64) -> (b: bool)
        ensures
            b == self.table().contains_key(page_id),
    {
        let n = self.entries.len();
        let mut i: usize = 0;
        while i < n
            invariant
                0 <= i <= n,
                n == self.entries@.len(),
                forall|k: int| 0 <= k < i ==> (#[trigger] self.entries@[k]).page_id != page_id,
            decreases n - i,
        {
            if self.entries[i].page_id == page_id {
                proof {
                    lemma_page_table_index(self.entries@);
                    assert(exists|k: int|
                        0 <= k < self.entries@.len() && (#[trigger] self.entries@[k]).page_id
                            == page_id);
                }
                return true;
            }
            i += 1;
        }
        proof {
            lemma_page_table_index(self.entries@);
        }
        false
    }

    /// Records a dirtying of the page at log position `current_lsn`. A
    /// page already tracked keeps its `recovery_lsn` (first-dirty
    /// semantics: later writes to a dirty page do not move it) but is
    /// stamped with a fresh version, so that a checkpoint snapshot taken
    /// before this write can no longer clear the entry.
    pub fn mark_dirty(&mut self, page_id: u64, current_lsn: u64)
        requires
            old(self).wf(),
            old(self).current_version() < u64::MAX,
        ensures
            final(self).wf(),
            final(self).current_version() == old(self).current_version() + 1,
            final(self).table() == old(self).table().insert(
                page_id,
                PageEntry {
                    page_id,
                    recovery_lsn: if old(self).table().contains_key(page_id) {
                        old(self).table()[page_id].recovery_lsn
                    } else {
                        current_lsn
                    },
                    version: (old(self).current_version() + 1) as u64,
                },
            ),
            final(self).table().contains_key(page_id),
            old(self).table().contains_key(page_id) ==> exists|k: int|
                0 <= k < old(self).entry_seq().len() && (#[trigger] old(self).entry_seq()[
                k]).page_id == page_id && final(self).entry_seq() == old(self).entry_seq().update(
                    k,
                    PageEntry {
                        page_id,
                        recovery_lsn: old(self).entry_seq()[k].recovery_lsn,
                        version: (old(self).current_version() + 1) as u64,
                    },
                ),
            !old(self).table().contains_key(page_id) ==> final(self).entry_seq() == old(
                self,
            ).entry_seq().push(
                PageEntry {
                    page_id,
                    recovery_lsn: current_lsn,
                    version: (old(self).current_version() + 1) as u64,
                },
            ),
    {
        let new_version = self.version + 1;
        let n = self.entries.len();
        let mut i: usize = 0;
        while i < n
            invariant
                0 <= i <= n,
                n == self.entries@.len(),
                *self == *old(self),
                old(self).wf(),
                old(self).current_version() < u64::MAX,
                new_version == old(self).current_version() + 1,
                forall|k: int| 0 <= k < i ==> (#[trigger] self.entries@[k]).page_id != page_id,
            decreases n - i,
        {
            if self.entries[i].page_id == page_id {
                let e = PageEntry {
                    page_id,
                    recovery_lsn: self.entries[i].recovery_lsn,
                    version: new_version,
                };
                proof {
                    lemma_page_table_index(self.entries@);
                    lemma_page_table_update(self.entries@, i as int, e);
                }
                self.entries.set(i, e);
                self.version = new_version;
                proof {
                    let olds = old(self).entry_seq();
                    assert(page_table(olds)[olds[i as int].page_id] == olds[i as int]);
                    assert forall|k: int| 0 <= k < self.entries@.len() implies 0 < (
                    #[trigger] self.entries@[k]).version <= self.version by {
                        if k != i as int {
                            assert(self.entries@[k] == olds[k]);
                        }
                    }
                }
                return ;
            }
            i += 1;
        }
        let e = PageEntry { page_id, recovery_lsn: current_lsn, version: new_version };
        proof {
            lemma_page_table_push(self.entries@, e);
            lemma_page_table_index(self.entries@);
        }
        self.entries.push(e);
        self.version = new_version;
        proof {
            assert(unique_page_ids(self.entries@)) by {
                let s = self.entries@;
                assert forall|i: int, j: int| 0 <= i < j < s.len() implies (
                #[trigger] s[i]).page_id != (#[trigger] s[j]).page_id by {
                    if j == s.len() - 1 {
                        assert(s[i] == old(self).entry_seq()[i]);
                    } else {
                        assert(s[i] == old(self).entry_seq()[i]);
                        assert(s[j] == old(self).entry_seq()[j]);
                    }
                }
            }
            assert forall|k: int| 0 <= k < self.entries@.len() implies 0 < (
            #[trigger] self.entries@[k]).version <= self.version by {
                if k < self.entries@.len() - 1 {
                    assert(self.entries@[k] == old(self).entry_seq()[k]);
                }
            }
        }
    }

    /// Takes an immutable copy of the table under the tracker lock: the
    /// flush scope of one checkpoint run.
    pub fn snapshot(&self) -> (snap: TrackerSnapshot)
        requires
            self.wf(),
        ensures
            snap.entries@ == self.entry_seq(),
            snap.version == self.current_version(),
            unique_page_ids(snap.entries@),
            page_table(snap.entries@) == self.table(),
            forall|i: int|
                0 <= i < snap.entries@.len() ==> (#[trigger] snap.entries@[i]).version
                    <= snap.version,
    {
        let n = self.entries.len();
        let mut copy: Vec<PageEntry> = Vec::new();
        let mut i: usize = 0;
        while i < n
            invariant
                0 <= i <= n,
                n == self.entries@.len(),
                copy@ == self.entries@.take(i as int),
            decreases n - i,
        {
            let e = self.entries[i];
            copy.push(e);
            proof {
                assert(copy@ =~= self.entries@.take(i as int + 1));
            }
            i += 1;
        }
        proof {
            assert(copy@ =~= self.entries@);
        }
        TrackerSnapshot { entries: copy, version: self.version }
    }

    /// Removes the entries of pages that were flushed (listed in
    /// `page_ids`) and have not been re-dirtied since the snapshot whose
    /// version is `up_to_version`; a page re-dirtied after that snapshot
    /// carries a larger version and stays tracked.
    pub fn clear_flushed(&mut self, page_ids: &Vec<u64>, up_to_version: u64)
        requires
            old(self).wf(),
        ensures
            final(self).wf(),
            final(self).current_version() == old(self).current_version(),
            forall|p: u64|
                #[trigger] final(self).table().contains_key(p) <==> (old(self).table().contains_key(
                    p,
                ) && survives_clear(old(self).table()[p], page_ids@, up_to_version)),
            forall|p: u64|
                #[trigger] final(self).table().contains_key(p) ==> final(self).table()[p]
                    == old(self).table()[p],
            forall|i: int|
                0 <= i < final(self).entry_seq().len() ==> old(self).entry_seq().contains(
                    #[trigger] final(self).entry_seq()[i],
                ),
    {
        let ghost pred = |e: PageEntry| survives_clear(e, page_ids@, up_to_version);
        let n = self.entries.len();
        let mut kept: Vec<PageEntry> = Vec::new();
        let mut i: usize = 0;
        while i < n
            invariant
                0 <= i <= n,
                n == self.entries@.len(),
                kept@ == self.entries@.take(i as int).filter(pred),
                pred == (|e: PageEntry| survives_clear(e, page_ids@, up_to_version)),
            decreases n - i,
        {
            let e = self.entries[i];
            let flushed = contains_id(page_ids, e.page_id);
            proof {
                reveal(Seq::filter);
                let prefix = self.entries@.take(i as int);
                assert(self.entries@.take(i as int + 1).drop_last() =~= prefix);
                assert(self.entries@.take(i as int + 1).last() == e);
            }
            if !(flushed && e.version <= up_to_version) {
                kept.push(e);
            }
            i += 1;
        }
        proof {
            assert(self.entries@.take(n as int) =~= self.entries@);
            lemma_page_table_filter(self.entries@, pred);
            lemma_page_table_index(self.entries@);
            lemma_filter_elements(self.entries@, pred);
        }
        self.entries = kept;
        proof {
            lemma_page_table_index(self.entries@);
            let olds = old(self).entry_seq();
            assert forall|i: int| 0 <= i < self.entries@.len() implies 0 < (
            #[trigger] self.entries@[i]).version <= self.version by {
                let e = self.entries@[i];
                assert(page_table(self.entries@).contains_key(e.page_id));
                assert(page_table(self.entries@)[e.page_id] == e);
                assert(page_table(olds).contains_key(e.page_id));
                assert(page_table(olds)[e.page_id] == e);
                let k = choose|k: int| 0 <= k < olds.len() && (#[trigger] olds[k]).page_id
                    == e.page_id;
                assert(page_table(olds)[olds[k].page_id] == olds[k]);
                assert(olds[k] == e);
            }
        }
    }
}

/// Under unique page ids the table has exactly one key per entry.
pub proof fn lemma_page_table_len(s: Seq<PageEntry>)
    requires
        unique_page_ids(s),
    ensures
        page_table(s).len() == s.len(),
        page_table(s).dom().finite(),
    decreases s.len(),
{
    if s.len() > 0 {
        let t = s.drop_last();
        assert(unique_page_ids(t)) by {
            assert forall|i: int, j: int| 0 <= i < j < t.len() implies (#[trigger] t[i]).page_id
                != (#[trigger] t[j]).page_id by {
                assert(s[i].page_id != s[j].page_id);
            }
        }
        lemma_page_table_len(t);
        lemma_page_table_index(t);
        assert(!page_table(t).contains_key(s.last().page_id)) by {
            if page_table(t).contains_key(s.last().page_id) {
                let k = choose|k: int|
                    0 <= k < t.len() && (#[trigger] t[k]).page_id == s.last().page_id;
                assert(s[k].page_id == s[s.len() - 1].page_id);
            }
        }
    }
}

/// Every key of the dirty page table maps to an entry for that very page.
pub proof fn lemma_tracker_key_ids(t: DirtyPageTracker)
    ensures
        forall|p: u64|
            #[trigger] t.table().contains_key(p) ==> t.table()[p].page_id == p,
{
    lemma_table_entry_ids(t.entry_seq());
}

/// A well-formed tracker holds exactly one table key per tracked entry.
pub proof fn lemma_tracker_table_len(t: DirtyPageTracker)
    requires
        t.wf(),
    ensures
        t.table().len() == t.entry_seq().len(),
        t.table().dom().finite(),
{
    lemma_page_table_len(t.entry_seq());
}

/// Law: the Dirty Page Tracker never holds two entries for the same page
/// id, however it was built up by `mark_dirty` and `clear_flushed` (both
/// preserve well-formedness, which `new` establishes).
pub proof fn lemma_tracker_no_duplicates(t: DirtyPageTracker)
    requires
        t.wf(),
    ensures
        unique_page_ids(t.entry_seq()),
        forall|i: int, j: int|
            0 <= i < j < t.entry_seq().len() ==> (#[trigger] t.entry_seq()[i]).page_id != (
            #[trigger] t.entry_seq()[j]).page_id,
{
}

/// Returns whether `x` occurs in `v`.
fn contains_id(v: &Vec<u64>, x: u64) -> (b: bool)
    ensures
        b == v@.contains(x),
{
    let n = v.len();
    let mut i: usize = 0;
    while i < n
        invariant
            0 <= i <= n,
            n == v@.len(),
            forall|k: int| 0 <= k < i ==> v@[k] != x,
        decreases n - i,
    {
        if v[i] == x {
            return true;
        }
        i += 1;
    }
    false
}

} // verus!
