//! A single status: its messages, render options, and what its view shows.

use vstd::prelude::*;
use crate::app::{ContextPage, Dialog, DialogAction, Message as AppMessage};
use crate::cache::Cache;
use crate::config::FeedDensity;
use crate::entities::{Account, Attachment, AttachmentType, Status};
use crate::features::compose;
use crate::render::{render_html, rendered_html, TEXT_WIDTH};
use crate::text::concat;

verus! {

#[derive(Debug)]
pub enum Message {
    OpenAccount(Account),
    ExpandStatus(String),
    Reply(String, String),
    Favorite(String, bool),
    Boost(String, bool),
    Bookmark(String, bool),
    OpenLink(String),
    /// Show an image attachment in an overlay: (preview URL, full-size URL).
    ViewImage(String, String),
    /// Request to delete one of the authenticated user's own statuses;
    /// opens a confirmation dialog rather than deleting immediately.
    Delete(String),
}

/// Which parts of a status a view shows.
#[derive(Debug, Copy, Clone)]
pub struct StatusOptions {
    pub media: bool,
    pub tags: bool,
    pub actions: bool,
    pub expand: bool,
}

impl StatusOptions {
    pub fn new(media: bool, tags: bool, actions: bool, expand: bool) -> (options: Self)
        ensures
            options == (StatusOptions { media, tags, actions, expand }),
    {
        StatusOptions { media, tags, actions, expand }
    }

    pub fn all() -> (options: StatusOptions)
        ensures
            options == (StatusOptions { media: true, tags: true, actions: true, expand: true }),
    {
        StatusOptions::new(true, true, true, true)
    }

    pub fn none() -> (options: StatusOptions)
        ensures
            options == (StatusOptions { media: false, tags: false, actions: false, expand: false }),
    {
        StatusOptions::new(false, false, false, false)
    }
}

/// The message a status message turns into at the application level; a
/// reply is described by [`compose::is_reply_to`] instead.
pub open spec fn routed(message: Message) -> Option<AppMessage> {
    match message {
        Message::OpenAccount(account) => Some(
            AppMessage::ToggleContextPage(ContextPage::Account(account)),
        ),
        Message::ExpandStatus(id) => Some(AppMessage::ToggleContextPage(ContextPage::Status(id))),
        Message::Reply(_, _) => None,
        Message::Favorite(id, on) => Some(AppMessage::Status(Message::Favorite(id, on))),
        Message::Boost(id, on) => Some(AppMessage::Status(Message::Boost(id, on))),
        Message::Bookmark(id, on) => Some(AppMessage::Status(Message::Bookmark(id, on))),
        Message::OpenLink(url) => Some(AppMessage::Open(url)),
        Message::ViewImage(preview, full) => Some(
            AppMessage::Dialog(DialogAction::Open(Dialog::Image(preview, full))),
        ),
        Message::Delete(id) => Some(
            AppMessage::Dialog(DialogAction::Open(Dialog::DeleteStatus(id))),
        ),
    }
}

/// `routed_message` carries out `message` at the application level: the
/// message [`routed`] names, or for a reply a compose dialog answering the
/// status.
pub open spec fn routes(message: Message, routed_message: AppMessage) -> bool {
    match message {
        Message::Reply(status_id, username) => match routed_message {
            AppMessage::Dialog(DialogAction::Open(Dialog::Compose(state))) => compose::is_reply_to(
                state,
                status_id@,
                username@,
            ),
            _ => false,
        },
        _ => routed_message == routed(message)->0,
    }
}

/// Turn a status message into the application-level message that carries
/// it out: opening a profile or the status, starting a reply, asking for
/// delete confirmation, or the favourite/boost/bookmark request.
pub fn update(message: Message) -> (routed_message: AppMessage)
    ensures
        routes(message, routed_message),
{
    match message {
        Message::OpenAccount(account) => AppMessage::ToggleContextPage(ContextPage::Account(account)),
        Message::ExpandStatus(id) => AppMessage::ToggleContextPage(ContextPage::Status(id)),
        Message::Reply(status_id, username) => AppMessage::Dialog(
            DialogAction::Open(Dialog::Compose(compose::State::reply(status_id, username))),
        ),
        Message::Favorite(id, on) => AppMessage::Status(Message::Favorite(id, on)),
        Message::Boost(id, on) => AppMessage::Status(Message::Boost(id, on)),
        Message::Bookmark(id, on) => AppMessage::Status(Message::Bookmark(id, on)),
        Message::OpenLink(url) => AppMessage::Open(url),
        Message::ViewImage(preview, full) => AppMessage::Dialog(
            DialogAction::Open(Dialog::Image(preview, full)),
        ),
        Message::Delete(id) => AppMessage::Dialog(DialogAction::Open(Dialog::DeleteStatus(id))),
    }
}

/// The status a view renders: for a boost, the boosted status as cached
/// (or as embedded when it is not cached); otherwise the status itself.
pub open spec fn shown_status(status: Status, cache_statuses: Map<Seq<char>, Status>) -> Status {
    match status.reblog {
        Some(reblog) => if cache_statuses.dom().contains(reblog.id@) {
            cache_statuses[reblog.id@]
        } else {
            *reblog
        },
        None => status,
    }
}

/// The status to render for `status`.
pub fn displayed<'a>(status: &'a Status, cache: &'a Cache) -> (shown: &'a Status)
    ensures
        *shown == shown_status(*status, cache.statuses@),
{
    match &status.reblog {
        Some(reblog) => match cache.statuses.get(reblog.id.as_str()) {
            Some(cached) => &**cached,
            None => &**reblog,
        },
        None => status,
    }
}

/// The "… boosted" banner shown above a boost.
pub fn boost_banner(status: &Status) -> (banner: Option<String>)
    ensures
        match banner {
            Some(text) => status.reblog is Some && text@ == status.account.display_name@
                + " boosted"@,
            None => status.reblog is None,
        },
{
    if status.reblog.is_some() {
        Some(concat(status.account.display_name.as_str(), " boosted"))
    } else {
        None
    }
}

/// The author's display name shown above the handle, when it has one.
pub fn display_name(account: &Account) -> (name: Option<&String>)
    ensures
        match name {
            Some(n) => *n == account.display_name && account.display_name@.len() > 0,
            None => account.display_name@.len() == 0,
        },
{
    if account.display_name.as_str().is_empty() {
        None
    } else {
        Some(&account.display_name)
    }
}

/// Side length of the author's avatar: large at full density.
pub fn avatar_size(density: FeedDensity) -> (size: u16)
    ensures
        size == if density == FeedDensity::Full {
            50u16
        } else {
            36u16
        },
{
    if density == FeedDensity::Full {
        50
    } else {
        36
    }
}

/// Whether the preview card is shown.
pub fn shows_card(status: &Status, density: FeedDensity) -> (res: bool)
    ensures
        res == (density != FeedDensity::TextOnly && status.card is Some),
{
    density != FeedDensity::TextOnly && status.card.is_some()
}

/// Whether the card and media are shown small.
pub fn is_compact(density: FeedDensity) -> (res: bool)
    ensures
        res == (density == FeedDensity::Compact),
{
    density == FeedDensity::Compact
}

/// Whether the media strip is shown.
pub fn shows_media(status: &Status, options: StatusOptions, density: FeedDensity) -> (res: bool)
    ensures
        res == (density != FeedDensity::TextOnly && status.media_attachments@.len() > 0
            && options.media),
{
    density != FeedDensity::TextOnly && status.media_attachments.len() > 0 && options.media
}

/// Whether the hashtag strip is shown: never at text-only density.
pub fn shows_tags(status: &Status, options: StatusOptions, density: FeedDensity) -> (res: bool)
    ensures
        res == (density != FeedDensity::TextOnly && status.tags@.len() > 0 && options.tags),
{
    density != FeedDensity::TextOnly && status.tags.len() > 0 && options.tags
}

/// What pressing a media attachment does: pictures with a preview open in
/// the image overlay, everything else opens in the browser.
pub fn media_action(attachment: &Attachment) -> (message: Message)
    ensures
        match attachment.preview_url {
            Some(preview) if attachment.kind == AttachmentType::Image || attachment.kind
                == AttachmentType::Gifv => message == Message::ViewImage(preview, attachment.url),
            _ => message == Message::OpenLink(attachment.url),
        },
{
    let is_picture = attachment.kind == AttachmentType::Image || attachment.kind
        == AttachmentType::Gifv;
    match &attachment.preview_url {
        Some(preview) if is_picture => Message::ViewImage(preview.clone(), attachment.url.clone()),
        _ => Message::OpenLink(attachment.url.clone()),
    }
}

/// A toggle button (boost, favourite, bookmark): highlighted when the
/// server says it is on, pressable only when the server reported a state.
#[derive(Debug)]
pub struct Toggle {
    pub active: bool,
    pub on_press: Option<Message>,
}

/// The action row of a status.
#[derive(Debug)]
pub struct Actions {
    pub reply: Message,
    pub replies_count: u32,
    pub reblogs_count: u32,
    pub favourites_count: u32,
    pub boost: Toggle,
    pub favourite: Toggle,
    pub bookmark: Toggle,
    /// Offered on the authenticated user's own statuses.
    pub delete: Option<Message>,
}

pub open spec fn toggle_spec(state: Option<bool>, pressed: spec_fn(bool) -> Message) -> Toggle {
    Toggle {
        active: state == Some(true),
        on_press: match state {
            Some(on) => Some(pressed(on)),
            None => None,
        },
    }
}

/// The action row for `status`, when the options ask for one.
pub fn actions(status: &Status, options: StatusOptions, cache: &Cache) -> (row: Option<Actions>)
    ensures
        !options.actions ==> row is None,
        options.actions ==> row is Some && ({
            let a = row->0;
            &&& a.reply == Message::Reply(status.id, status.account.username)
            &&& a.replies_count == status.replies_count
            &&& a.reblogs_count == status.reblogs_count
            &&& a.favourites_count == status.favourites_count
            &&& a.boost == toggle_spec(status.reblogged, |on: bool| Message::Boost(status.id, on))
            &&& a.favourite == toggle_spec(
                status.favourited,
                |on: bool| Message::Favorite(status.id, on),
            )
            &&& a.bookmark == toggle_spec(
                status.bookmarked,
                |on: bool| Message::Bookmark(status.id, on),
            )
            &&& a.delete == if cache.me is Some && cache.me->0.id@ == status.account.id@ {
                Some(Message::Delete(status.id))
            } else {
                None
            }
        }),
{
    if !options.actions {
        return None;
    }
    let delete = if cache.is_me(status.account.id.as_str()) {
        Some(Message::Delete(status.id.clone()))
    } else {
        None
    };
    let boost = Toggle {
        active: status.reblogged == Some(true),
        on_press: match status.reblogged {
            Some(on) => Some(Message::Boost(status.id.clone(), on)),
            None => None,
        },
    };
    let favourite = Toggle {
        active: status.favourited == Some(true),
        on_press: match status.favourited {
            Some(on) => Some(Message::Favorite(status.id.clone(), on)),
            None => None,
        },
    };
    let bookmark = Toggle {
        active: status.bookmarked == Some(true),
        on_press: match status.bookmarked {
            Some(on) => Some(Message::Bookmark(status.id.clone(), on)),
            None => None,
        },
    };
    Some(
        Actions {
            reply: Message::Reply(status.id.clone(), status.account.username.clone()),
            replies_count: status.replies_count,
            reblogs_count: status.reblogs_count,
            favourites_count: status.favourites_count,
            boost,
            favourite,
            bookmark,
            delete,
        },
    )
}

/// The status text, rendered from its HTML, and the message pressing it
/// sends when the options allow expanding the status.
pub fn content(status: &Status, options: StatusOptions) -> (res: (Option<String>, Option<Message>))
    ensures
        match res.0 {
            Some(text) => rendered_html(status.content@, TEXT_WIDTH as nat) == Some(text@),
            None => rendered_html(status.content@, TEXT_WIDTH as nat) is None,
        },
        res.1 == if options.expand {
            Some(Message::ExpandStatus(status.id))
        } else {
            None
        },
{
    let text = render_html(status.content.as_str(), TEXT_WIDTH);
    let expand = if options.expand {
        Some(Message::ExpandStatus(status.id.clone()))
    } else {
        None
    };
    (text, expand)
}

/// Label of a hashtag button.
pub fn tag_label(name: &str) -> (label: String)
    ensures
        label@ == "#"@ + name@,
{
    concat("#", name)
}

/// The author handle shown under the display name.
pub fn handle_label(username: &str) -> (label: String)
    ensures
        label@ == "@"@ + username@,
{
    concat("@", username)
}

/// Pressing favourite, boost or bookmark on a status is carried out by the
/// same action on the same status in the same state: a boost is never
/// turned into a favourite or a bookmark, nor the other way round.
pub proof fn toggles_keep_their_action(id: String, on: bool, routed_message: AppMessage)
    ensures
        routes(Message::Favorite(id, on), routed_message) <==> routed_message == AppMessage::Status(
            Message::Favorite(id, on),
        ),
        routes(Message::Boost(id, on), routed_message) <==> routed_message == AppMessage::Status(
            Message::Boost(id, on),
        ),
        routes(Message::Bookmark(id, on), routed_message) <==> routed_message == AppMessage::Status(
            Message::Bookmark(id, on),
        ),
{
}

} // verus!
