//! Validation of a freshly parsed feed. The parser hands over raw entries in
//! which any field may be missing; feed data is untrusted input, so an entry
//! that lacks a title or a summary is skipped rather than faulting, and the
//! rest are kept in document order. The caller learns how many entries were
//! skipped from the cycle outcome.

use crate::model::Entry;
use crate::model::EntryView;
use crate::model::FeedView;
use crate::model::ParsedFeed;
use crate::model::RawEntryView;
use crate::model::RawFeed;
use crate::model::copy_bytes;
use crate::model::entry_views;
use crate::model::raw_entry_views;
use vstd::prelude::*;

verus! {

/// A raw entry is kept only when both its title and its summary are present.
pub open spec fn valid_raw(e: RawEntryView) -> bool {
    e.title is Some && e.summary is Some
}

/// The validated form of a kept raw entry.
pub open spec fn entry_of_raw(e: RawEntryView) -> EntryView {
    EntryView {
        title: match e.title {
            Some(t) => t,
            None => Seq::empty(),
        },
        summary: match e.summary {
            Some(s) => s,
            None => Seq::empty(),
        },
        published: e.published,
    }
}

/// The entries that validation keeps, in document order.
pub open spec fn kept_entries(raws: Seq<RawEntryView>) -> Seq<EntryView>
    decreases raws.len(),
{
    if raws.len() == 0 {
        Seq::empty()
    } else {
        let init = kept_entries(raws.drop_last());
        if valid_raw(raws.last()) {
            init.push(entry_of_raw(raws.last()))
        } else {
            init
        }
    }
}

/// Validation never invents entries: it keeps at most what it was given.
pub proof fn lemma_kept_entries_len(raws: Seq<RawEntryView>)
    ensures
        kept_entries(raws).len() <= raws.len(),
    decreases raws.len(),
{
    if raws.len() == 0 {
    } else {
        lemma_kept_entries_len(raws.drop_last());
    }
}

/// The validated feed that a raw parse turns into.
pub open spec fn feed_of_raw(f: crate::model::RawFeedView) -> FeedView {
    FeedView { updated: f.updated, entries: kept_entries(f.entries) }
}

/// Validates a raw feed: entries lacking a title or a summary are dropped,
/// the rest are kept in order, and the `updated` value passes through.
pub fn validate_feed(raw: &RawFeed) -> (f: ParsedFeed)
    ensures
        f@ == feed_of_raw(raw@),
{
    let mut entries: Vec<Entry> = Vec::new();
    let mut i: usize = 0;
    while i < raw.entries.len()
        invariant
            0 <= i <= raw.entries@.len(),
            entry_views(entries@) == kept_entries(
                raw_entry_views(raw.entries@).subrange(0, i as int),
            ),
        decreases raw.entries@.len() - i,
    {
        let e = &raw.entries[i];
        proof {
            let rvs = raw_entry_views(raw.entries@);
            assert(rvs.subrange(0, i + 1).drop_last() =~= rvs.subrange(0, i as int));
            assert(rvs.subrange(0, i + 1).last() == rvs[i as int]);
        }
        let ghost old_entries = entries@;
        match (&e.title, &e.summary) {
            (Some(t), Some(s)) => {
                entries.push(
                    Entry { title: copy_bytes(t), summary: copy_bytes(s), published: e.published },
                );
                proof {
                    assert(entry_views(entries@) =~= entry_views(old_entries).push(
                        entry_of_raw(raw.entries@[i as int]@),
                    ));
                }
            },
            _ => {},
        }
        proof {
            assert(entry_views(entries@) =~= kept_entries(
                raw_entry_views(raw.entries@).subrange(0, i + 1),
            ));
        }
        i += 1;
    }
    proof {
        let rvs = raw_entry_views(raw.entries@);
        assert(rvs.subrange(0, raw.entries@.len() as int) =~= rvs);
    }
    ParsedFeed { updated: raw.updated, entries }
}

} // verus!
