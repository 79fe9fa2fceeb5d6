use knewsnotifd::changelog::extract_changelog;
use knewsnotifd::cycle::run_cycle;
use knewsnotifd::cycle::run_cycle_outcome;
use knewsnotifd::diff::compute_new_entries;
use knewsnotifd::diff::entry_is_new;
use knewsnotifd::model::ParseError;
use knewsnotifd::validate::validate_feed;
use knewsnotifd::initial_state;
use knewsnotifd::model::Entry;
use knewsnotifd::model::PACING_DELAY_SECONDS;
use knewsnotifd::model::POLL_INTERVAL_SECONDS;
use knewsnotifd::model::ParsedFeed;
use knewsnotifd::model::PollState;
use knewsnotifd::model::RawEntry;
use knewsnotifd::model::RawFeed;
use knewsnotifd::notify::build_changelog_text;
use knewsnotifd::notify::build_entry_notification;
use knewsnotifd::notify::build_online_notification;
use knewsnotifd::notify::build_notifications;

fn to_raw_feed(f: feed_rs::model::Feed) -> RawFeed {
    RawFeed {
        updated: f.updated.map(|d| d.timestamp()),
        entries: f
            .entries
            .into_iter()
            .map(|e| RawEntry {
                title: e.title.map(|t| t.content.into_bytes()),
                summary: e.summary.map(|t| t.content.into_bytes()),
                published: e.published.map(|d| d.timestamp()),
            })
            .collect(),
    }
}

fn entry(title: &str, summary: &str, published: Option<i64>) -> Entry {
    Entry {
        title: title.as_bytes().to_vec(),
        summary: summary.as_bytes().to_vec(),
        published,
    }
}

#[test]
fn changelog_quoted_url_is_extracted() {
    let summary = b"release notes... ChangeLog: see \"http://x/y\" for details".to_vec();
    assert_eq!(extract_changelog(&summary), Some(b"http://x/y".to_vec()));
}

#[test]
fn changelog_without_marker_falls_back() {
    let summary = b"nothing to see here, not even a quoted \"url\"".to_vec();
    assert_eq!(extract_changelog(&summary), None);
}

#[test]
fn changelog_marker_without_quote_falls_back() {
    let summary = b"ChangeLog: it is around somewhere, unquoted".to_vec();
    assert_eq!(extract_changelog(&summary), None);
}

#[test]
fn changelog_single_quote_runs_to_the_end() {
    let summary = b"ChangeLog: \"http://x/unterminated".to_vec();
    assert_eq!(extract_changelog(&summary), Some(b"http://x/unterminated".to_vec()));
}

#[test]
fn changelog_uses_first_marker() {
    let summary = b"ChangeLog: \"http://first\" then ChangeLog: \"http://second\"".to_vec();
    assert_eq!(extract_changelog(&summary), Some(b"http://first".to_vec()));
}

#[test]
fn changelog_text_links_the_url() {
    let url = Some(b"http://x/y".to_vec());
    assert_eq!(build_changelog_text(&url), b"[View changelog](http://x/y)".to_vec());
    assert_eq!(build_changelog_text(&None), b"No change log".to_vec());
}

#[test]
fn missing_timestamp_is_never_new() {
    assert!(!entry_is_new(None, None));
    assert!(!entry_is_new(None, Some(5)));
    assert!(entry_is_new(Some(5), None));
    assert!(entry_is_new(Some(6), Some(5)));
    assert!(!entry_is_new(Some(5), Some(5)));
    assert!(!entry_is_new(Some(4), Some(5)));
}

#[test]
fn new_entries_keep_feed_order() {
    let entries = vec![
        entry("old", "s", Some(10)),
        entry("untimed", "s", None),
        entry("first new", "s", Some(20)),
        entry("second new", "s", Some(30)),
    ];
    let picked = compute_new_entries(&entries, Some(10));
    assert_eq!(picked.len(), 2);
    assert_eq!(picked[0].title, b"first new".to_vec());
    assert_eq!(picked[1].title, b"second new".to_vec());
}

#[test]
fn entry_notification_carries_title_author_and_fallback() {
    let e = entry("6.7.1: stable", "no link in here", Some(7));
    let n = build_entry_notification(&e);
    assert_eq!(n.username, b"knewsnotifd".to_vec());
    assert_eq!(
        n.avatar_url,
        "https://i.pinimg.com/736x/c7/b8/11/c7b8113247fecd83bd9b5ed5bd3f34d5.jpg"
            .as_bytes()
            .to_vec()
    );
    assert_eq!(n.embeds.len(), 1);
    assert_eq!(n.embeds[0].title, b"6.7.1: stable".to_vec());
    assert_eq!(n.embeds[0].author_name, Some(b"kernel.org".to_vec()));
    assert_eq!(n.embeds[0].author_url, Some(b"https://kernel.org/".to_vec()));
    assert_eq!(n.embeds[0].description, Some(b"No change log".to_vec()));
    assert_eq!(
        n.embeds[0].footer_text,
        Some("Made with ❤️ by luxzi".as_bytes().to_vec())
    );
    assert_eq!(
        n.embeds[0].footer_icon,
        Some(
            "https://cdn.discordapp.com/avatars/297490782397399040/ff6fc9810917f2f41e72682c8fa02e4f?size=256"
                .as_bytes()
                .to_vec()
        )
    );
}

#[test]
fn entry_notification_links_changelog() {
    let e = entry("6.8: mainline", "ChangeLog: see \"http://x/y\" for details", Some(7));
    let n = build_entry_notification(&e);
    assert_eq!(
        n.embeds[0].description,
        Some(b"[View changelog](http://x/y)".to_vec())
    );
}

#[test]
fn online_notification_names_the_version() {
    let n = build_online_notification(&b"0.1.0".to_vec());
    assert_eq!(n.username, b"knewsnotifd".to_vec());
    assert_eq!(n.embeds.len(), 1);
    assert_eq!(
        n.embeds[0].title,
        "🟢 knewsnotifd 0.1.0 online".as_bytes().to_vec()
    );
    assert_eq!(n.embeds[0].author_name, None);
    assert_eq!(n.embeds[0].description, None);
    assert_eq!(
        n.embeds[0].footer_text,
        Some("Made with ❤️ by luxzi".as_bytes().to_vec())
    );
}

#[test]
fn first_cycle_only_records_the_baseline() {
    let state = initial_state();
    let feed = ParsedFeed {
        updated: Some(100),
        entries: vec![entry("e1", "s", Some(100))],
    };
    let (next, notifs) = run_cycle(&state, &feed);
    assert_eq!(notifs.len(), 0);
    assert_eq!(next.last_post_time, Some(100));
}

#[test]
fn first_cycle_with_unset_updated_stays_unset() {
    let state = initial_state();
    let feed = ParsedFeed {
        updated: None,
        entries: vec![entry("e1", "s", Some(100))],
    };
    let (next, notifs) = run_cycle(&state, &feed);
    assert_eq!(notifs.len(), 0);
    assert_eq!(next.last_post_time, None);
}

#[test]
fn second_cycle_notifies_the_new_entry() {
    let state = initial_state();
    let feed1 = ParsedFeed {
        updated: Some(100),
        entries: vec![entry("e1", "s", Some(100))],
    };
    let (state, notifs) = run_cycle(&state, &feed1);
    assert_eq!(notifs.len(), 0);
    let feed2 = ParsedFeed {
        updated: Some(200),
        entries: vec![entry("e1", "s", Some(100)), entry("e2", "s", Some(200))],
    };
    let (state, notifs) = run_cycle(&state, &feed2);
    assert_eq!(notifs.len(), 1);
    assert_eq!(notifs[0].embeds[0].title, b"e2".to_vec());
    assert_eq!(state.last_post_time, Some(200));
}

#[test]
fn unchanged_feed_is_quiet_on_the_second_run() {
    let feed = ParsedFeed {
        updated: Some(100),
        entries: vec![entry("e1", "s", Some(100)), entry("e2", "s", Some(90))],
    };
    let state = PollState { last_post_time: Some(50) };
    let (state, first) = run_cycle(&state, &feed);
    assert_eq!(first.len(), 2);
    let (state, second) = run_cycle(&state, &feed);
    assert_eq!(second.len(), 0);
    assert_eq!(state.last_post_time, Some(100));
}

#[test]
fn notifications_follow_feed_order() {
    let posts = vec![entry("a", "s", Some(2)), entry("b", "s", Some(3)), entry("c", "s", Some(4))];
    let notifs = build_notifications(&posts);
    assert_eq!(notifs.len(), 3);
    assert_eq!(notifs[0].embeds[0].title, b"a".to_vec());
    assert_eq!(notifs[1].embeds[0].title, b"b".to_vec());
    assert_eq!(notifs[2].embeds[0].title, b"c".to_vec());
}

#[test]
fn updated_withdrawn_still_counts_as_changed() {
    let state = PollState { last_post_time: Some(100) };
    let feed = ParsedFeed {
        updated: None,
        entries: vec![entry("e1", "s", Some(150))],
    };
    let (state, notifs) = run_cycle(&state, &feed);
    assert_eq!(notifs.len(), 1);
    assert_eq!(state.last_post_time, None);
}

#[test]
fn validation_drops_incomplete_entries() {
    let raw = RawFeed {
        updated: Some(10),
        entries: vec![
            RawEntry { title: None, summary: Some(b"s".to_vec()), published: Some(1) },
            RawEntry { title: Some(b"kept".to_vec()), summary: Some(b"s".to_vec()), published: Some(2) },
            RawEntry { title: Some(b"no summary".to_vec()), summary: None, published: Some(3) },
        ],
    };
    let feed = validate_feed(&raw);
    assert_eq!(feed.updated, Some(10));
    assert_eq!(feed.entries.len(), 1);
    assert_eq!(feed.entries[0].title, b"kept".to_vec());
    assert_eq!(feed.entries[0].published, Some(2));
}

#[test]
fn parse_extracts_updated_and_entries() {
    let doc = "<?xml version=\"1.0\" encoding=\"utf-8\"?>\n\
        <feed xmlns=\"http://www.w3.org/2005/Atom\">\n\
        <title>Linux Kernel Releases</title>\n\
        <id>tag:example,2024:feed</id>\n\
        <updated>2024-01-02T03:04:05Z</updated>\n\
        <entry>\n\
        <id>tag:example,2024:e1</id>\n\
        <title>6.7: stable</title>\n\
        <summary>ChangeLog: see \"http://x/y\" for details</summary>\n\
        <published>2024-01-02T03:04:05Z</published>\n\
        <updated>2024-01-02T03:04:05Z</updated>\n\
        </entry>\n\
        </feed>\n"
        .as_bytes()
        .to_vec();
    let expected = chrono::DateTime::parse_from_rfc3339("2024-01-02T03:04:05Z")
        .unwrap()
        .timestamp();
    let raw = to_raw_feed(feed_rs::parser::parse(doc.as_slice()).unwrap());
    let feed = validate_feed(&raw);
    assert_eq!(feed.updated, Some(expected));
    assert_eq!(feed.entries.len(), 1);
    assert_eq!(feed.entries[0].title, b"6.7: stable".to_vec());
    assert_eq!(feed.entries[0].published, Some(expected));
    assert_eq!(
        extract_changelog(&feed.entries[0].summary),
        Some(b"http://x/y".to_vec())
    );
}

#[test]
fn garbage_document_fails_the_parse_and_keeps_state() {
    let state = PollState { last_post_time: Some(42) };
    assert!(feed_rs::parser::parse(b"this is no feed at all".as_slice()).is_err());
    let outcome = run_cycle_outcome(&state, Err(ParseError));
    assert!(!outcome.parsed_ok);
    assert_eq!(outcome.notifications.len(), 0);
    assert_eq!(outcome.dropped_entries, 0);
    assert_eq!(outcome.state.last_post_time, Some(42));
}

#[test]
fn parsed_document_runs_the_whole_pipeline() {
    let doc = "<?xml version=\"1.0\" encoding=\"utf-8\"?>\n\
        <feed xmlns=\"http://www.w3.org/2005/Atom\">\n\
        <title>Linux Kernel Releases</title>\n\
        <id>tag:example,2024:feed</id>\n\
        <updated>2024-03-04T00:00:00Z</updated>\n\
        <entry>\n\
        <id>tag:example,2024:e2</id>\n\
        <title>6.8: mainline</title>\n\
        <summary>plain words only</summary>\n\
        <published>2024-03-04T00:00:00Z</published>\n\
        <updated>2024-03-04T00:00:00Z</updated>\n\
        </entry>\n\
        </feed>\n"
        .as_bytes()
        .to_vec();
    let t = chrono::DateTime::parse_from_rfc3339("2024-03-04T00:00:00Z")
        .unwrap()
        .timestamp();
    let state = PollState { last_post_time: Some(t - 1000) };
    let raw = to_raw_feed(feed_rs::parser::parse(doc.as_slice()).unwrap());
    let outcome = run_cycle_outcome(&state, Ok(raw));
    assert!(outcome.parsed_ok);
    assert_eq!(outcome.dropped_entries, 0);
    assert_eq!(outcome.state.last_post_time, Some(t));
    assert_eq!(outcome.notifications.len(), 1);
    assert_eq!(outcome.notifications[0].embeds[0].title, b"6.8: mainline".to_vec());
    assert_eq!(
        outcome.notifications[0].embeds[0].description,
        Some(b"No change log".to_vec())
    );
}

#[test]
fn updated_bump_without_newer_entries_sends_nothing() {
    let state = PollState { last_post_time: Some(100) };
    let feed = ParsedFeed {
        updated: Some(200),
        entries: vec![entry("old", "s", Some(50)), entry("untimed", "s", None)],
    };
    let (state, notifs) = run_cycle(&state, &feed);
    assert_eq!(notifs.len(), 0);
    assert_eq!(state.last_post_time, Some(200));
}

#[test]
fn cycle_after_a_failed_parse_reuses_the_baseline() {
    let state = PollState { last_post_time: Some(100) };
    let outcome = run_cycle_outcome(&state, Err(ParseError));
    assert!(!outcome.parsed_ok);
    assert_eq!(outcome.state.last_post_time, Some(100));
    let feed = ParsedFeed {
        updated: Some(300),
        entries: vec![entry("late", "s", Some(250))],
    };
    let (state, notifs) = run_cycle(&outcome.state, &feed);
    assert_eq!(notifs.len(), 1);
    assert_eq!(notifs[0].embeds[0].title, b"late".to_vec());
    assert_eq!(state.last_post_time, Some(300));
}

#[test]
fn cycle_outcome_counts_the_dropped_entries() {
    let raw = RawFeed {
        updated: Some(20),
        entries: vec![
            RawEntry { title: None, summary: Some(b"s".to_vec()), published: Some(15) },
            RawEntry { title: Some(b"whole".to_vec()), summary: Some(b"s".to_vec()), published: Some(15) },
        ],
    };
    let state = PollState { last_post_time: Some(10) };
    let outcome = run_cycle_outcome(&state, Ok(raw));
    assert!(outcome.parsed_ok);
    assert_eq!(outcome.dropped_entries, 1);
    assert_eq!(outcome.notifications.len(), 1);
    assert_eq!(outcome.notifications[0].embeds[0].title, b"whole".to_vec());
    assert_eq!(outcome.state.last_post_time, Some(20));
}

#[test]
fn pacing_and_interval_are_the_fixed_durations() {
    assert_eq!(PACING_DELAY_SECONDS, 10);
    assert_eq!(POLL_INTERVAL_SECONDS, 7200);
}
