//! The unified feed of a job application: its two append-only logs (notes
//! and status changes) merged into one sequence, each entry tagged with the
//! log it came from and the whole feed ordered chronologically, that is, by
//! the lexicographic order of the textual `created_at` timestamps.

use vstd::prelude::*;
use vstd::multiset::Multiset;
use crate::db::{
    JobApplicationNotes, JobApplicationStatusHistory, JobApplicationTimeline,
};
use crate::text::{lex_le, lemma_lex_le_total, lemma_lex_le_trans, str_lex_le};

verus! {

broadcast use vstd::seq_lib::group_to_multiset_ensures;

/// One entry of the unified feed: a row of one of the two append-only logs,
/// tagged by origin.
#[derive(Debug)]
pub enum TimelineEntry {
    Note(JobApplicationNotes),
    Status(JobApplicationStatusHistory),
}

impl TimelineEntry {
    /// Which log the entry came from.
    pub open spec fn spec_kind(self) -> JobApplicationTimeline {
        match self {
            TimelineEntry::Note(_) => JobApplicationTimeline::Note,
            TimelineEntry::Status(_) => JobApplicationTimeline::Status,
        }
    }

    /// The timestamp of the underlying row.
    pub open spec fn spec_created_at(self) -> Seq<char> {
        match self {
            TimelineEntry::Note(n) => n.created_at@,
            TimelineEntry::Status(h) => h.created_at@,
        }
    }

    /// Which log the entry came from.
    pub fn kind(&self) -> (k: JobApplicationTimeline)
        ensures
            k == self.spec_kind(),
    {
        match self {
            TimelineEntry::Note(_) => JobApplicationTimeline::Note,
            TimelineEntry::Status(_) => JobApplicationTimeline::Status,
        }
    }

    /// The timestamp of the underlying row.
    pub fn created_at(&self) -> (r: &str)
        ensures
            r@ == self.spec_created_at(),
    {
        match self {
            TimelineEntry::Note(n) => n.created_at.as_str(),
            TimelineEntry::Status(h) => h.created_at.as_str(),
        }
    }
}

/// Whether the entries come in chronological order: every entry's timestamp
/// precedes (or equals) each later entry's.
pub open spec fn entries_ordered(s: Seq<TimelineEntry>) -> bool {
    forall|i: int, j: int|
        0 <= i < j < s.len() ==> lex_le(
            #[trigger] s[i].spec_created_at(),
            #[trigger] s[j].spec_created_at(),
        )
}

/// The position at which `e` belongs in the ordered `entries`: the first
/// index whose entry does not come before `e`.
fn insert_position(entries: &Vec<TimelineEntry>, e: &TimelineEntry) -> (idx: usize)
    ensures
        idx <= entries@.len(),
        forall|j: int|
            0 <= j < idx ==> !lex_le(
                e.spec_created_at(),
                #[trigger] entries@[j].spec_created_at(),
            ),
        idx < entries@.len() ==> lex_le(
            e.spec_created_at(),
            entries@[idx as int].spec_created_at(),
        ),
{
    let n = entries.len();
    let mut idx: usize = 0;
    while idx < n
        invariant
            idx <= n,
            n == entries@.len(),
            forall|j: int|
                0 <= j < idx ==> !lex_le(
                    e.spec_created_at(),
                    #[trigger] entries@[j].spec_created_at(),
                ),
        decreases n - idx,
    {
        if str_lex_le(e.created_at(), entries[idx].created_at()) {
            return idx;
        }
        idx += 1;
    }
    idx
}

/// Puts `e` where it belongs in the ordered `entries`, keeping the order and
/// adding exactly this entry to the contents.
pub fn insert_ordered(entries: &mut Vec<TimelineEntry>, e: TimelineEntry)
    requires
        entries_ordered(old(entries)@),
    ensures
        entries_ordered(final(entries)@),
        final(entries)@.to_multiset() == old(entries)@.to_multiset().insert(e),
        final(entries)@.len() == old(entries)@.len() + 1,
{
    let ghost s0 = entries@;
    let idx = insert_position(entries, &e);
    entries.insert(idx, e);
    proof {
        let s1 = s0.insert(idx as int, e);
        assert(entries@ == s1);
        vstd::seq_lib::to_multiset_insert(s0, idx as int, e);
        assert forall|i: int, j: int| 0 <= i < j < s1.len() implies lex_le(
            #[trigger] s1[i].spec_created_at(),
            #[trigger] s1[j].spec_created_at(),
        ) by {
            let ec = e.spec_created_at();
            if j < idx {
                assert(s1[i] == s0[i] && s1[j] == s0[j]);
            } else if i < idx && j == idx {
                assert(s1[i] == s0[i]);
                lemma_lex_le_total(ec, s0[i].spec_created_at());
            } else if i < idx && j > idx {
                assert(s1[i] == s0[i] && s1[j] == s0[j - 1]);
                if i == j - 1 {
                    lemma_lex_le_total(ec, s0[i].spec_created_at());
                    lemma_lex_le_trans(s0[i].spec_created_at(), ec, s0[j - 1].spec_created_at());
                } else {
                    assert(lex_le(s0[i].spec_created_at(), s0[j - 1].spec_created_at()));
                }
            } else if i == idx {
                assert(s1[j] == s0[j - 1]);
                assert(lex_le(ec, s0[idx as int].spec_created_at()));
                if j - 1 > idx {
                    assert(lex_le(
                        s0[idx as int].spec_created_at(),
                        s0[j - 1].spec_created_at(),
                    ));
                    lemma_lex_le_trans(
                        ec,
                        s0[idx as int].spec_created_at(),
                        s0[j - 1].spec_created_at(),
                    );
                }
            } else {
                assert(s1[i] == s0[i - 1] && s1[j] == s0[j - 1]);
            }
        }
    }
}

/// The two logs of one job application as one feed: every note and every
/// status change appears exactly once, tagged with its origin, and the feed
/// is ordered chronologically.
pub fn merge_timeline(
    notes: Vec<JobApplicationNotes>,
    history: Vec<JobApplicationStatusHistory>,
) -> (r: Vec<TimelineEntry>)
    ensures
        entries_ordered(r@),
        r@.to_multiset() == notes@.map_values(|n: JobApplicationNotes| TimelineEntry::Note(n))
            .to_multiset().add(
            history@.map_values(|h: JobApplicationStatusHistory| TimelineEntry::Status(h))
                .to_multiset(),
        ),
        r@.len() == notes@.len() + history@.len(),
{
    let ghost note_entries = notes@.map_values(|n: JobApplicationNotes| TimelineEntry::Note(n));
    let ghost status_entries = history@.map_values(
        |h: JobApplicationStatusHistory| TimelineEntry::Status(h),
    );
    let mut out: Vec<TimelineEntry> = Vec::new();
    let mut ns = notes;
    let mut hs = history;
    proof {
        assert(out@.to_multiset() =~= Multiset::<TimelineEntry>::empty());
    }
    while ns.len() > 0
        invariant
            entries_ordered(out@),
            out@.to_multiset().add(
                ns@.map_values(|n: JobApplicationNotes| TimelineEntry::Note(n)).to_multiset(),
            ) == note_entries.to_multiset(),
        decreases ns.len(),
    {
        let ghost ns_before = ns@;
        let n = ns.pop().unwrap();
        let entry = TimelineEntry::Note(n);
        proof {
            let f = |x: JobApplicationNotes| TimelineEntry::Note(x);
            assert(ns_before.map_values(f) =~= ns@.map_values(f).push(entry));
            vstd::seq_lib::to_multiset_build(ns@.map_values(f), entry);
            assert(out@.to_multiset().insert(entry).add(ns@.map_values(f).to_multiset())
                =~= out@.to_multiset().add(ns_before.map_values(f).to_multiset()));
        }
        insert_ordered(&mut out, entry);
    }
    proof {
        assert(ns@.map_values(|n: JobApplicationNotes| TimelineEntry::Note(n))
            =~= Seq::<TimelineEntry>::empty());
        assert(Seq::<TimelineEntry>::empty().to_multiset()
            =~= Multiset::<TimelineEntry>::empty());
        assert(out@.to_multiset() == note_entries.to_multiset());
    }
    while hs.len() > 0
        invariant
            entries_ordered(out@),
            out@.to_multiset().add(
                hs@.map_values(|h: JobApplicationStatusHistory| TimelineEntry::Status(h))
                    .to_multiset(),
            ) == note_entries.to_multiset().add(status_entries.to_multiset()),
        decreases hs.len(),
    {
        let ghost hs_before = hs@;
        let h = hs.pop().unwrap();
        let entry = TimelineEntry::Status(h);
        proof {
            let f = |x: JobApplicationStatusHistory| TimelineEntry::Status(x);
            assert(hs_before.map_values(f) =~= hs@.map_values(f).push(entry));
            vstd::seq_lib::to_multiset_build(hs@.map_values(f), entry);
            assert(out@.to_multiset().insert(entry).add(hs@.map_values(f).to_multiset())
                =~= out@.to_multiset().add(hs_before.map_values(f).to_multiset()));
        }
        insert_ordered(&mut out, entry);
    }
    proof {
        broadcast use vstd::multiset::axiom_len_add;

        assert(hs@.map_values(|h: JobApplicationStatusHistory| TimelineEntry::Status(h))
            =~= Seq::<TimelineEntry>::empty());
        assert(out@.to_multiset() == note_entries.to_multiset().add(status_entries.to_multiset()));
        assert(out@.len() == out@.to_multiset().len());
        assert(note_entries.to_multiset().len() == note_entries.len());
        assert(status_entries.to_multiset().len() == status_entries.len());
    }
    out
}

} // verus!
