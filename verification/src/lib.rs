//! A feed-watcher core: it decides, from a parsed syndication feed and the
//! timestamp baseline carried over from the previous cycle, which entries are
//! new and what notification each of them turns into. Fetching the document,
//! writing the snapshot, decoding the document into plain values and
//! delivering the notifications are left to the caller; everything that
//! decides is here, and the parse outcome reaches it as plain values.

pub mod changelog;
pub mod cycle;
pub mod diff;
pub mod model;
pub mod notify;
pub mod validate;

use vstd::prelude::*;

verus! {

/// The state a fresh process starts from: no baseline yet, so the first
/// successful parse only records one and never notifies.
pub fn initial_state() -> (s: crate::model::PollState)
    ensures
        s.last_post_time is None,
{
    crate::model::PollState { last_post_time: None }
}

} // verus!
