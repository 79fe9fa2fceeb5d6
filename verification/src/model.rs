use vstd::prelude::*;

verus! {

/// How many seconds the poll loop waits between two cycles (two hours).
pub const POLL_INTERVAL_SECONDS: u64 = 7200;

/// How many seconds separate two consecutive notification sends in one cycle.
pub const PACING_DELAY_SECONDS: u64 = 10;

/// The single piece of state carried from one polling cycle to the next:
/// the feed-level `updated` timestamp observed on the last successful parse,
/// in Unix seconds, or `None` before the first successful parse (and after a
/// cycle whose feed carried no `updated` value).
#[derive(Clone, Copy)]
pub struct PollState {
    pub last_post_time: Option<i64>,
}

/// A feed entry as the parser hands it over, before validation: any of the
/// fields may be missing in the wire document. Text is carried as UTF-8 bytes,
/// timestamps as Unix seconds.
pub struct RawEntry {
    pub title: Option<Vec<u8>>,
    pub summary: Option<Vec<u8>>,
    pub published: Option<i64>,
}

/// A feed document as the parser hands it over, before validation.
pub struct RawFeed {
    pub updated: Option<i64>,
    pub entries: Vec<RawEntry>,
}

/// A validated entry: title and summary are present (entries lacking either
/// are dropped during validation), `published` may still be absent.
pub struct Entry {
    pub title: Vec<u8>,
    pub summary: Vec<u8>,
    pub published: Option<i64>,
}

/// A validated feed: the feed-level `updated` timestamp, if any, and the
/// entries in document order.
pub struct ParsedFeed {
    pub updated: Option<i64>,
    pub entries: Vec<Entry>,
}

/// The recoverable failure of one cycle's parse step: the snapshot did not
/// decode as a feed document. The cycle that sees it leaves the poll state
/// untouched.
pub struct ParseError;

pub ghost struct RawEntryView {
    pub title: Option<Seq<u8>>,
    pub summary: Option<Seq<u8>>,
    pub published: Option<i64>,
}

pub ghost struct RawFeedView {
    pub updated: Option<i64>,
    pub entries: Seq<RawEntryView>,
}

pub ghost struct EntryView {
    pub title: Seq<u8>,
    pub summary: Seq<u8>,
    pub published: Option<i64>,
}

pub ghost struct FeedView {
    pub updated: Option<i64>,
    pub entries: Seq<EntryView>,
}

impl View for RawEntry {
    type V = RawEntryView;

    open spec fn view(&self) -> RawEntryView {
        RawEntryView {
            title: match self.title {
                Some(t) => Some(t@),
                None => None,
            },
            summary: match self.summary {
                Some(s) => Some(s@),
                None => None,
            },
            published: self.published,
        }
    }
}

impl View for RawFeed {
    type V = RawFeedView;

    open spec fn view(&self) -> RawFeedView {
        RawFeedView { updated: self.updated, entries: raw_entry_views(self.entries@) }
    }
}

impl View for Entry {
    type V = EntryView;

    open spec fn view(&self) -> EntryView {
        EntryView { title: self.title@, summary: self.summary@, published: self.published }
    }
}

impl View for ParsedFeed {
    type V = FeedView;

    open spec fn view(&self) -> FeedView {
        FeedView { updated: self.updated, entries: entry_views(self.entries@) }
    }
}

pub open spec fn raw_entry_views(s: Seq<RawEntry>) -> Seq<RawEntryView> {
    s.map_values(|e: RawEntry| e@)
}

pub open spec fn entry_views(s: Seq<Entry>) -> Seq<EntryView> {
    s.map_values(|e: Entry| e@)
}

/// Copies a byte string; the copy shows the same bytes.
pub fn copy_bytes(v: &Vec<u8>) -> (r: Vec<u8>)
    ensures
        r@ == v@,
{
    vstd::slice::slice_to_vec(v.as_slice())
}

/// Tests two optional timestamps for equality, the way the change check
/// compares the stored baseline with the feed's `updated` value.
pub fn opt_time_eq(a: Option<i64>, b: Option<i64>) -> (r: bool)
    ensures
        r == (a == b),
{
    match (a, b) {
        (Some(x), Some(y)) => x == y,
        (None, None) => true,
        _ => false,
    }
}

} // verus!
