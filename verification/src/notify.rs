//! The notifier: what each new entry turns into before it is handed to the
//! webhook. A notification carries the bot's display name and avatar and one
//! rich-content embed with the entry title, the feed's author identity, a
//! description that links the changelog (or says there is none) and the
//! maker's footer. A separate "online" notification announces the process at
//! startup. Delivery itself — the HTTP POST and the pacing sleep between
//! consecutive sends — is the caller's job; the order of the notifications
//! built here is the feed's entry order.

use crate::changelog::changelog_of;
use crate::changelog::extract_changelog;
use crate::changelog::opt_bytes;
use crate::model::Entry;
use crate::model::EntryView;
use crate::model::copy_bytes;
use crate::model::entry_views;
use vstd::prelude::*;
use vstd::string::StringSliceAdditionalSpecFns;

verus! {

/// One rich-content block of a notification.
pub struct Embed {
    pub title: Vec<u8>,
    pub author_name: Option<Vec<u8>>,
    pub author_url: Option<Vec<u8>>,
    pub description: Option<Vec<u8>>,
    pub footer_text: Option<Vec<u8>>,
    pub footer_icon: Option<Vec<u8>>,
}

/// One message for the webhook: the sender identity and its embeds.
pub struct Notification {
    pub username: Vec<u8>,
    pub avatar_url: Vec<u8>,
    pub embeds: Vec<Embed>,
}

pub ghost struct EmbedView {
    pub title: Seq<u8>,
    pub author_name: Option<Seq<u8>>,
    pub author_url: Option<Seq<u8>>,
    pub description: Option<Seq<u8>>,
    pub footer_text: Option<Seq<u8>>,
    pub footer_icon: Option<Seq<u8>>,
}

pub ghost struct NotificationView {
    pub username: Seq<u8>,
    pub avatar_url: Seq<u8>,
    pub embeds: Seq<EmbedView>,
}

impl View for Embed {
    type V = EmbedView;

    open spec fn view(&self) -> EmbedView {
        EmbedView {
            title: self.title@,
            author_name: opt_bytes(self.author_name),
            author_url: opt_bytes(self.author_url),
            description: opt_bytes(self.description),
            footer_text: opt_bytes(self.footer_text),
            footer_icon: opt_bytes(self.footer_icon),
        }
    }
}

impl View for Notification {
    type V = NotificationView;

    open spec fn view(&self) -> NotificationView {
        NotificationView {
            username: self.username@,
            avatar_url: self.avatar_url@,
            embeds: self.embeds@.map_values(|e: Embed| e@),
        }
    }
}

pub open spec fn notification_views(s: Seq<Notification>) -> Seq<NotificationView> {
    s.map_values(|n: Notification| n@)
}

/// The bot's display name on every message it sends.
pub open spec fn bot_username() -> Seq<u8> {
    ("knewsnotifd").spec_bytes()
}

/// The bot's avatar image.
pub open spec fn profile_image_url() -> Seq<u8> {
    ("https://i.pinimg.com/736x/c7/b8/11/c7b8113247fecd83bd9b5ed5bd3f34d5.jpg").spec_bytes()
}

/// The maker's avatar, shown beside the footer of every embed.
pub open spec fn creator_image_url() -> Seq<u8> {
    ("https://cdn.discordapp.com/avatars/297490782397399040/ff6fc9810917f2f41e72682c8fa02e4f?size=256").spec_bytes()
}

/// The author identity stamped on every entry notification.
pub open spec fn feed_author_name() -> Seq<u8> {
    ("kernel.org").spec_bytes()
}

pub open spec fn feed_author_url() -> Seq<u8> {
    ("https://kernel.org/").spec_bytes()
}

/// The footer text of every embed.
pub open spec fn footer_text() -> Seq<u8> {
    ("Made with ❤️ by luxzi").spec_bytes()
}

/// The description used when a summary names no changelog.
pub open spec fn no_changelog_text() -> Seq<u8> {
    ("No change log").spec_bytes()
}

pub open spec fn changelog_link_prefix() -> Seq<u8> {
    ("[View changelog](").spec_bytes()
}

pub open spec fn changelog_link_suffix() -> Seq<u8> {
    (")").spec_bytes()
}

pub open spec fn online_title_prefix() -> Seq<u8> {
    ("🟢 knewsnotifd ").spec_bytes()
}

pub open spec fn online_title_suffix() -> Seq<u8> {
    (" online").spec_bytes()
}

/// The description of an entry notification: a link to the changelog when the
/// summary names one, the fallback text when it does not.
pub open spec fn changelog_text(c: Option<Seq<u8>>) -> Seq<u8> {
    match c {
        Some(u) => changelog_link_prefix() + u + changelog_link_suffix(),
        None => no_changelog_text(),
    }
}

/// The notification that one new entry turns into.
pub open spec fn entry_notification(e: EntryView) -> NotificationView {
    NotificationView {
        username: bot_username(),
        avatar_url: profile_image_url(),
        embeds: seq![
            EmbedView {
                title: e.title,
                author_name: Some(feed_author_name()),
                author_url: Some(feed_author_url()),
                description: Some(changelog_text(changelog_of(e.summary))),
                footer_text: Some(footer_text()),
                footer_icon: Some(creator_image_url()),
            },
        ],
    }
}

/// The notifications for a run of new entries, one per entry, in entry order.
pub open spec fn notifications_for(es: Seq<EntryView>) -> Seq<NotificationView> {
    es.map_values(|e: EntryView| entry_notification(e))
}

/// The title of the startup notification for a given version text.
pub open spec fn online_title(version: Seq<u8>) -> Seq<u8> {
    online_title_prefix() + version + online_title_suffix()
}

/// The one startup notification, sent before the first cycle.
pub open spec fn online_notification(version: Seq<u8>) -> NotificationView {
    NotificationView {
        username: bot_username(),
        avatar_url: profile_image_url(),
        embeds: seq![
            EmbedView {
                title: online_title(version),
                author_name: None,
                author_url: None,
                description: None,
                footer_text: Some(footer_text()),
                footer_icon: Some(creator_image_url()),
            },
        ],
    }
}

/// Copies a text constant into an owned byte string.
fn bytes_of(s: &str) -> (v: Vec<u8>)
    ensures
        v@ == s.spec_bytes(),
{
    vstd::slice::slice_to_vec(s.as_bytes())
}

impl Embed {
    /// A fresh embed with only a title.
    pub fn new(title: Vec<u8>) -> (e: Embed)
        ensures
            e@ == (EmbedView {
                title: title@,
                author_name: None,
                author_url: None,
                description: None,
                footer_text: None,
                footer_icon: None,
            }),
    {
        Embed {
            title,
            author_name: None,
            author_url: None,
            description: None,
            footer_text: None,
            footer_icon: None,
        }
    }

    /// Sets the author name and link.
    pub fn author(self, name: Vec<u8>, url: Option<Vec<u8>>) -> (e: Embed)
        ensures
            e@ == (EmbedView { author_name: Some(name@), author_url: opt_bytes(url), ..self@ }),
    {
        Embed { author_name: Some(name), author_url: url, ..self }
    }

    /// Sets the description.
    pub fn description(self, d: Vec<u8>) -> (e: Embed)
        ensures
            e@ == (EmbedView { description: Some(d@), ..self@ }),
    {
        Embed { description: Some(d), ..self }
    }

    /// Sets the footer text and icon.
    pub fn footer(self, text: Vec<u8>, icon: Option<Vec<u8>>) -> (e: Embed)
        ensures
            e@ == (EmbedView { footer_text: Some(text@), footer_icon: opt_bytes(icon), ..self@ }),
    {
        Embed { footer_text: Some(text), footer_icon: icon, ..self }
    }
}

impl Notification {
    /// A fresh message from the given sender identity, with no embeds yet.
    pub fn new(username: Vec<u8>, avatar_url: Vec<u8>) -> (n: Notification)
        ensures
            n@ == (NotificationView {
                username: username@,
                avatar_url: avatar_url@,
                embeds: Seq::empty(),
            }),
    {
        let n = Notification { username, avatar_url, embeds: Vec::new() };
        proof {
            assert(n.embeds@.map_values(|e: Embed| e@) =~= Seq::<EmbedView>::empty());
        }
        n
    }

    /// Appends one embed.
    pub fn embed(self, e: Embed) -> (n: Notification)
        ensures
            n@ == (NotificationView { embeds: self@.embeds.push(e@), ..self@ }),
    {
        let ghost old_self = self;
        let mut embeds = self.embeds;
        embeds.push(e);
        let n = Notification { username: self.username, avatar_url: self.avatar_url, embeds };
        proof {
            assert(n.embeds@.map_values(|em: Embed| em@) =~= old_self@.embeds.push(e@));
        }
        n
    }
}

/// Builds the description for a changelog lookup result.
pub fn build_changelog_text(c: &Option<Vec<u8>>) -> (r: Vec<u8>)
    ensures
        r@ == changelog_text(opt_bytes(*c)),
{
    match c {
        Some(u) => {
            let mut v = bytes_of("[View changelog](");
            let mut mid = copy_bytes(u);
            v.append(&mut mid);
            let mut suf = bytes_of(")");
            v.append(&mut suf);
            v
        },
        None => bytes_of("No change log"),
    }
}

/// Builds the notification for one new entry: its title, the feed's author
/// identity, the changelog link found in its summary (or the fallback text)
/// and the branding footer.
pub fn build_entry_notification(e: &Entry) -> (n: Notification)
    ensures
        n@ == entry_notification(e@),
{
    let found = extract_changelog(&e.summary);
    let desc = build_changelog_text(&found);
    let embed = Embed::new(copy_bytes(&e.title)).author(
        bytes_of("kernel.org"),
        Some(bytes_of("https://kernel.org/")),
    ).description(desc).footer(
        bytes_of("Made with ❤️ by luxzi"),
        Some(
            bytes_of(
                "https://cdn.discordapp.com/avatars/297490782397399040/ff6fc9810917f2f41e72682c8fa02e4f?size=256",
            ),
        ),
    );
    let n = Notification::new(
        bytes_of("knewsnotifd"),
        bytes_of("https://i.pinimg.com/736x/c7/b8/11/c7b8113247fecd83bd9b5ed5bd3f34d5.jpg"),
    ).embed(embed);
    proof {
        assert(n@.embeds =~= entry_notification(e@).embeds);
    }
    n
}

/// Builds the one notification per new entry, in the order the entries come.
pub fn build_notifications(posts: &Vec<Entry>) -> (r: Vec<Notification>)
    ensures
        notification_views(r@) == notifications_for(entry_views(posts@)),
{
    let mut r: Vec<Notification> = Vec::new();
    let mut i: usize = 0;
    while i < posts.len()
        invariant
            0 <= i <= posts@.len(),
            notification_views(r@) == notifications_for(
                entry_views(posts@).subrange(0, i as int),
            ),
        decreases posts@.len() - i,
    {
        let ghost old_r = r@;
        let n = build_entry_notification(&posts[i]);
        r.push(n);
        proof {
            assert(notification_views(r@) =~= notification_views(old_r).push(
                entry_notification(posts@[i as int]@),
            ));
            assert(notifications_for(entry_views(posts@).subrange(0, i + 1)) =~= notifications_for(
                entry_views(posts@).subrange(0, i as int),
            ).push(entry_notification(posts@[i as int]@)));
        }
        i += 1;
    }
    proof {
        assert(entry_views(posts@).subrange(0, posts@.len() as int) =~= entry_views(posts@));
    }
    r
}

/// Builds the startup notification for the given version text.
pub fn build_online_notification(version: &Vec<u8>) -> (n: Notification)
    ensures
        n@ == online_notification(version@),
{
    let mut title = bytes_of("🟢 knewsnotifd ");
    let mut mid = copy_bytes(version);
    title.append(&mut mid);
    let mut suf = bytes_of(" online");
    title.append(&mut suf);
    let embed = Embed::new(title).footer(
        bytes_of("Made with ❤️ by luxzi"),
        Some(
            bytes_of(
                "https://cdn.discordapp.com/avatars/297490782397399040/ff6fc9810917f2f41e72682c8fa02e4f?size=256",
            ),
        ),
    );
    let n = Notification::new(
        bytes_of("knewsnotifd"),
        bytes_of("https://i.pinimg.com/736x/c7/b8/11/c7b8113247fecd83bd9b5ed5bd3f34d5.jpg"),
    ).embed(embed);
    proof {
        assert(n@.embeds =~= online_notification(version@).embeds);
    }
    n
}

} // verus!
