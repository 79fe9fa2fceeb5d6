//! One polling cycle's decisions. Given the baseline carried over from the
//! previous cycle and the outcome of this cycle's parse, the cycle decides
//! which notifications to send and what the next baseline is:
//!
//! - a parse failure leaves the baseline untouched and sends nothing;
//! - the first successful parse records the feed's `updated` value as the
//!   baseline and sends nothing — the startup state never notifies for
//!   historical entries;
//! - afterwards, a feed whose `updated` value differs from the baseline has
//!   its new entries notified, and the baseline becomes the feed's `updated`
//!   value either way, even when that value is absent.
//!
//! Running the loop around these decisions — the timer, the fetch, the
//! snapshot write and the delivery — is the caller's job.

use crate::diff::compute_new_entries;
use crate::diff::new_entries;
use crate::model::FeedView;
use crate::model::ParseError;
use crate::model::ParsedFeed;
use crate::model::PollState;
use crate::model::RawFeed;
use crate::model::entry_views;
use crate::model::opt_time_eq;
use crate::model::raw_entry_views;
use crate::validate::feed_of_raw;
use crate::validate::kept_entries;
use crate::validate::lemma_kept_entries_len;
use crate::validate::validate_feed;
use crate::notify::Notification;
use crate::notify::NotificationView;
use crate::notify::build_notifications;
use crate::notify::notification_views;
use crate::notify::notifications_for;
use vstd::prelude::*;

verus! {

/// What one successfully parsed feed does to the cycle: the next baseline is
/// the feed's `updated` value, and notifications go out — one per new entry,
/// in feed order — only when a baseline was set and the feed's `updated`
/// value differs from it.
pub open spec fn cycle_step(last: Option<i64>, feed: FeedView) -> (Option<i64>, Seq<
    NotificationView,
>) {
    if last is Some && last != feed.updated {
        (feed.updated, notifications_for(new_entries(feed.entries, last)))
    } else {
        (feed.updated, Seq::<NotificationView>::empty())
    }
}

/// One cycle including the parse outcome: a failed parse (`None`) leaves the
/// baseline as it was and sends nothing.
pub open spec fn cycle_result(last: Option<i64>, parsed: Option<FeedView>) -> (Option<i64>, Seq<
    NotificationView,
>) {
    match parsed {
        Some(f) => cycle_step(last, f),
        None => (last, Seq::<NotificationView>::empty()),
    }
}

/// On the first successful parse — no baseline yet — a cycle sends no
/// notification, whatever the feed holds, and the feed's `updated` value
/// (possibly itself absent) becomes the baseline.
pub proof fn lemma_first_cycle_records_baseline(feed: FeedView)
    ensures
        cycle_step(None, feed).0 == feed.updated,
        cycle_step(None, feed).1 == Seq::<NotificationView>::empty(),
{
}

/// A feed whose `updated` value equals the stored baseline is quiet: the
/// cycle sends nothing and the baseline stays.
pub proof fn lemma_unchanged_feed_is_quiet(last: Option<i64>, feed: FeedView)
    requires
        feed.updated == last,
    ensures
        cycle_step(last, feed).0 == last,
        cycle_step(last, feed).1 == Seq::<NotificationView>::empty(),
{
}

/// Idempotence: whatever one cycle did, running a second cycle on the same
/// feed sends no notification and moves the baseline nowhere.
pub proof fn lemma_cycle_idempotent(last: Option<i64>, feed: FeedView)
    ensures
        cycle_step(cycle_step(last, feed).0, feed).0 == cycle_step(last, feed).0,
        cycle_step(cycle_step(last, feed).0, feed).1 == Seq::<NotificationView>::empty(),
{
}

/// Failure isolation: a cycle whose parse failed leaves the baseline exactly
/// as it was and sends nothing, and the next successful cycle evaluates the
/// same feed against that unchanged baseline.
pub proof fn lemma_parse_failure_preserves_baseline(last: Option<i64>, feed: FeedView)
    ensures
        cycle_result(last, None).0 == last,
        cycle_result(last, None).1 == Seq::<NotificationView>::empty(),
        cycle_result(cycle_result(last, None).0, Some(feed)) == cycle_step(last, feed),
{
}

/// The outcome of one full cycle: the state to carry into the next cycle,
/// the notifications to deliver in order, whether the parse succeeded (a
/// failed parse is logged by the caller, never fatal), and how many
/// incomplete entries validation skipped (for the caller to log).
pub struct CycleOutcome {
    pub state: PollState,
    pub notifications: Vec<Notification>,
    pub parsed_ok: bool,
    pub dropped_entries: usize,
}

/// Runs the diff and the notifier for one successfully parsed feed.
pub fn run_cycle(state: &PollState, feed: &ParsedFeed) -> (r: (PollState, Vec<Notification>))
    ensures
        r.0.last_post_time == cycle_step(state.last_post_time, feed@).0,
        notification_views(r.1@) == cycle_step(state.last_post_time, feed@).1,
{
    let changed = match state.last_post_time {
        Some(_) => !opt_time_eq(state.last_post_time, feed.updated),
        None => false,
    };
    if changed {
        let posts = compute_new_entries(&feed.entries, state.last_post_time);
        let notifs = build_notifications(&posts);
        (PollState { last_post_time: feed.updated }, notifs)
    } else {
        let notifs: Vec<Notification> = Vec::new();
        proof {
            assert(notification_views(notifs@) =~= Seq::<NotificationView>::empty());
        }
        (PollState { last_post_time: feed.updated }, notifs)
    }
}

/// Runs one whole cycle on the outcome of this cycle's parse step: validate,
/// diff, build the notifications. The caller performs the parse itself — the
/// document is untrusted input, and what the parser makes of it arrives here
/// as plain values — and a failed parse leaves the state untouched and sends
/// nothing.
pub fn run_cycle_outcome(state: &PollState, parsed: Result<RawFeed, ParseError>) -> (r:
    CycleOutcome)
    ensures
        match parsed {
            Ok(raw) => {
                let step = cycle_result(state.last_post_time, Some(feed_of_raw(raw@)));
                r.parsed_ok && r.state.last_post_time == step.0 && notification_views(
                    r.notifications@,
                ) == step.1 && r.dropped_entries == raw@.entries.len() - kept_entries(
                    raw@.entries,
                ).len()
            },
            Err(_) => !r.parsed_ok && r.state.last_post_time == state.last_post_time
                && notification_views(r.notifications@) == Seq::<NotificationView>::empty()
                && r.dropped_entries == 0,
        },
{
    match parsed {
        Ok(raw) => {
            let feed = validate_feed(&raw);
            proof {
                lemma_kept_entries_len(raw@.entries);
                assert(entry_views(feed.entries@).len() == feed.entries@.len());
                assert(raw_entry_views(raw.entries@).len() == raw.entries@.len());
            }
            let dropped = raw.entries.len() - feed.entries.len();
            let (next, notifs) = run_cycle(state, &feed);
            CycleOutcome {
                state: next,
                notifications: notifs,
                parsed_ok: true,
                dropped_entries: dropped,
            }
        },
        Err(_) => {
            let notifs: Vec<Notification> = Vec::new();
            proof {
                assert(notification_views(notifs@) =~= Seq::<NotificationView>::empty());
            }
            CycleOutcome {
                state: PollState { last_post_time: state.last_post_time },
                notifications: notifs,
                parsed_ok: false,
                dropped_entries: 0,
            }
        },
    }
}

} // verus!
