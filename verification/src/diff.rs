//! The diff engine: given the entries of a freshly parsed feed and the
//! baseline timestamp carried over from the last successful cycle, it selects
//! the entries that are new. An entry is new exactly when it carries a
//! `published` timestamp that compares strictly greater than the baseline —
//! an entry without a timestamp never qualifies — and the selection keeps the
//! feed's entry order.

use crate::model::Entry;
use crate::model::EntryView;
use crate::model::entry_views;
use vstd::prelude::*;

verus! {

/// Whether an entry published at `published` is new against `baseline`.
/// This is the ordering of optional timestamps: an absent `published` is
/// never new, a present one beats an absent baseline and otherwise the
/// seconds are compared strictly.
pub open spec fn is_new(published: Option<i64>, baseline: Option<i64>) -> bool {
    match (published, baseline) {
        (Some(p), Some(b)) => p > b,
        (Some(_), None) => true,
        (None, _) => false,
    }
}

/// The new entries of a feed against `baseline`, in feed order.
pub open spec fn new_entries(entries: Seq<EntryView>, baseline: Option<i64>) -> Seq<EntryView>
    decreases entries.len(),
{
    if entries.len() == 0 {
        Seq::empty()
    } else {
        let init = new_entries(entries.drop_last(), baseline);
        if is_new(entries.last().published, baseline) {
            init.push(entries.last())
        } else {
            init
        }
    }
}

/// The positions within `entries` that the new entries come from, in order.
pub open spec fn new_indices(entries: Seq<EntryView>, baseline: Option<i64>) -> Seq<int>
    decreases entries.len(),
{
    if entries.len() == 0 {
        Seq::empty()
    } else {
        let init = new_indices(entries.drop_last(), baseline);
        if is_new(entries.last().published, baseline) {
            init.push(entries.len() - 1)
        } else {
            init
        }
    }
}

/// An entry is in the new-entry set exactly when it is in the feed and its
/// `published` timestamp is present and strictly greater than the baseline.
pub proof fn lemma_new_entry_membership(
    entries: Seq<EntryView>,
    baseline: Option<i64>,
    e: EntryView,
)
    ensures
        new_entries(entries, baseline).contains(e) <==> entries.contains(e) && is_new(
            e.published,
            baseline,
        ),
    decreases entries.len(),
{
    if entries.len() == 0 {
    } else {
        let pre = entries.drop_last();
        let lastv = entries.last();
        lemma_new_entry_membership(pre, baseline, e);
        assert(entries.contains(e) <==> pre.contains(e) || lastv == e) by {
            if entries.contains(e) {
                let i = choose|i: int| 0 <= i < entries.len() && entries[i] == e;
                if i < entries.len() - 1 {
                    assert(pre[i] == e);
                }
            }
            if pre.contains(e) {
                let i = choose|i: int| 0 <= i < pre.len() && pre[i] == e;
                assert(entries[i] == e);
            }
            if lastv == e {
                assert(entries[entries.len() - 1] == e);
            }
        }
        let init = new_entries(pre, baseline);
        if is_new(lastv.published, baseline) {
            assert(init.push(lastv).contains(e) <==> init.contains(e) || lastv == e) by {
                if init.push(lastv).contains(e) {
                    let i = choose|i: int|
                        0 <= i < init.push(lastv).len() && init.push(lastv)[i] == e;
                    if i < init.len() {
                        assert(init[i] == e);
                    }
                }
                if init.contains(e) {
                    let i = choose|i: int| 0 <= i < init.len() && init[i] == e;
                    assert(init.push(lastv)[i] == e);
                }
                if lastv == e {
                    assert(init.push(lastv)[init.len() as int] == e);
                }
            }
        }
    }
}

/// The new-entry set lists, in increasing position order, exactly the feed
/// entries whose timestamps qualify: the positions recorded by `new_indices`
/// are strictly increasing, and the entry at each recorded position is the
/// corresponding element of `new_entries`. Notifications built from the set
/// therefore follow the feed's entry order.
pub proof fn lemma_new_entries_ordered(entries: Seq<EntryView>, baseline: Option<i64>)
    ensures
        ({
            let ne = new_entries(entries, baseline);
            let idx = new_indices(entries, baseline);
            &&& idx.len() == ne.len()
            &&& forall|i: int|
                0 <= i < idx.len() ==> 0 <= #[trigger] idx[i] < entries.len() && ne[i]
                    == entries[idx[i]] && is_new(entries[idx[i]].published, baseline)
            &&& forall|i: int, j: int| 0 <= i < j < idx.len() ==> idx[i] < idx[j]
        }),
    decreases entries.len(),
{
    if entries.len() == 0 {
    } else {
        let pre = entries.drop_last();
        lemma_new_entries_ordered(pre, baseline);
        assert(forall|k: int| 0 <= k < pre.len() ==> pre[k] == entries[k]);
    }
}

/// Decides whether one entry is new against the baseline.
pub fn entry_is_new(published: Option<i64>, baseline: Option<i64>) -> (r: bool)
    ensures
        r == is_new(published, baseline),
{
    match (published, baseline) {
        (Some(p), Some(b)) => p > b,
        (Some(_), None) => true,
        (None, _) => false,
    }
}

/// Copies one entry; the copy shows the same title, summary and timestamp.
pub fn clone_entry(e: &Entry) -> (r: Entry)
    ensures
        r@ == e@,
{
    Entry {
        title: crate::model::copy_bytes(&e.title),
        summary: crate::model::copy_bytes(&e.summary),
        published: e.published,
    }
}

/// Selects the entries that are new against `baseline`, keeping feed order.
pub fn compute_new_entries(entries: &Vec<Entry>, baseline: Option<i64>) -> (r: Vec<Entry>)
    ensures
        entry_views(r@) == new_entries(entry_views(entries@), baseline),
{
    let mut r: Vec<Entry> = Vec::new();
    let mut i: usize = 0;
    while i < entries.len()
        invariant
            0 <= i <= entries@.len(),
            entry_views(r@) == new_entries(entry_views(entries@).subrange(0, i as int), baseline),
        decreases entries@.len() - i,
    {
        let e = &entries[i];
        proof {
            let evs = entry_views(entries@);
            assert(evs.subrange(0, i + 1).drop_last() =~= evs.subrange(0, i as int));
            assert(evs.subrange(0, i + 1).last() == evs[i as int]);
        }
        let ghost old_r = r@;
        if entry_is_new(e.published, baseline) {
            r.push(clone_entry(e));
            proof {
                assert(entry_views(r@) =~= entry_views(old_r).push(entries@[i as int]@));
            }
        }
        proof {
            assert(entry_views(r@) =~= new_entries(
                entry_views(entries@).subrange(0, i + 1),
                baseline,
            ));
        }
        i += 1;
    }
    proof {
        assert(entry_views(entries@).subrange(0, entries@.len() as int) =~= entry_views(entries@));
    }
    r
}

} // verus!
