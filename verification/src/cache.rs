//! Everything fetched so far, keyed by id, plus the display preferences
//! that every view consults.

use vstd::prelude::*;
use std::rc::Rc;
use crate::config::FeedDensity;
use crate::entities::{
    share_opt, Account, Attachment, Card, ImageData, Notification, Relationship, Status,
};
use crate::store::KeyedStore;

verus! {

/// Fetched content and display preferences.
#[derive(Debug)]
pub struct Cache {
    /// Downloaded images, keyed by URL.
    pub handles: KeyedStore<ImageData>,
    pub statuses: KeyedStore<Status>,
    pub notifications: KeyedStore<Notification>,
    /// The authenticated user's relationship (following/muting/blocking) to
    /// each account whose profile has been viewed, keyed by account id.
    pub relationships: KeyedStore<Relationship>,
    /// The currently authenticated account, if logged in.
    pub me: Option<Account>,
    pub hide_boosts: bool,
    pub hide_replies: bool,
    pub feed_density: FeedDensity,
    /// Set whenever new content is cached; cleared once flushed to disk.
    pub dirty: bool,
}

/// The status cache after caching `status` and, for a boost, the boosted
/// status under its own id.
pub open spec fn statuses_with(
    statuses: Map<Seq<char>, Status>,
    status: Status,
) -> Map<Seq<char>, Status> {
    let with_status = statuses.insert(status.id@, status);
    match status.reblog {
        Some(reblog) => with_status.insert(reblog.id@, *reblog),
        None => with_status,
    }
}

/// Whether a status passes the boost and reply filters.
pub open spec fn visible(hide_boosts: bool, hide_replies: bool, status: Status) -> bool {
    !(hide_boosts && status.reblog is Some || hide_replies && status.in_reply_to_id is Some)
}

impl Cache {
    pub fn new() -> (cache: Self)
        ensures
            cache.handles@ == Map::<Seq<char>, ImageData>::empty(),
            cache.statuses@ == Map::<Seq<char>, Status>::empty(),
            cache.notifications@ == Map::<Seq<char>, Notification>::empty(),
            cache.relationships@ == Map::<Seq<char>, Relationship>::empty(),
            cache.me is None,
            !cache.hide_boosts,
            !cache.hide_replies,
            cache.feed_density == FeedDensity::Full,
            !cache.dirty,
    {
        Cache {
            handles: KeyedStore::new(),
            statuses: KeyedStore::new(),
            notifications: KeyedStore::new(),
            relationships: KeyedStore::new(),
            me: None,
            hide_boosts: false,
            hide_replies: false,
            feed_density: FeedDensity::Full,
            dirty: false,
        }
    }

    /// Whether a status should be shown given the current display
    /// preferences.
    pub fn is_visible(&self, status: &Status) -> (res: bool)
        ensures
            res == visible(self.hide_boosts, self.hide_replies, *status),
    {
        !(self.hide_boosts && status.reblog.is_some() || self.hide_replies
            && status.in_reply_to_id.is_some())
    }

    pub fn insert_relationship(&mut self, relationship: Relationship)
        ensures
            final(self).relationships@ == old(self).relationships@.insert(
                relationship.id@,
                relationship,
            ),
            final(self).statuses == old(self).statuses,
            final(self).notifications == old(self).notifications,
            final(self).handles == old(self).handles,
            final(self).me == old(self).me,
            final(self).dirty == old(self).dirty,
            final(self).hide_boosts == old(self).hide_boosts,
            final(self).hide_replies == old(self).hide_replies,
            final(self).feed_density == old(self).feed_density,
    {
        let id = relationship.id.clone();
        self.relationships.insert(id, Rc::new(relationship));
    }

    /// Whether the given account id belongs to the authenticated user.
    pub fn is_me(&self, account_id: &str) -> (res: bool)
        ensures
            res == (self.me is Some && self.me->0.id@ == account_id@),
    {
        match &self.me {
            Some(account) => crate::text::str_eq(account.id.as_str(), account_id),
            None => false,
        }
    }

    /// Cache a status and, for a boost, the boosted status too.
    pub fn insert_status(&mut self, status: Status)
        ensures
            final(self).statuses@ == statuses_with(old(self).statuses@, status),
            final(self).dirty,
            final(self).notifications == old(self).notifications,
            final(self).relationships == old(self).relationships,
            final(self).handles == old(self).handles,
            final(self).me == old(self).me,
            final(self).hide_boosts == old(self).hide_boosts,
            final(self).hide_replies == old(self).hide_replies,
            final(self).feed_density == old(self).feed_density,
    {
        self.insert_shared(Rc::new(status));
    }

    fn insert_shared(&mut self, status: Rc<Status>)
        ensures
            final(self).statuses@ == statuses_with(old(self).statuses@, *status),
            final(self).dirty,
            final(self).notifications == old(self).notifications,
            final(self).relationships == old(self).relationships,
            final(self).handles == old(self).handles,
            final(self).me == old(self).me,
            final(self).hide_boosts == old(self).hide_boosts,
            final(self).hide_replies == old(self).hide_replies,
            final(self).feed_density == old(self).feed_density,
    {
        let id = status.id.clone();
        let reblog = share_opt(&status.reblog);
        self.statuses.insert(id, status);
        if let Some(reblog) = reblog {
            let reblog_id = reblog.id.clone();
            self.statuses.insert(reblog_id, reblog);
        }
        self.dirty = true;
    }

    /// Cache a notification and the status it is about.
    pub fn insert_notification(&mut self, notification: Notification)
        ensures
            final(self).notifications@ == old(self).notifications@.insert(
                notification.id@,
                notification,
            ),
            final(self).statuses@ == match notification.status {
                Some(status) => statuses_with(old(self).statuses@, *status),
                None => old(self).statuses@,
            },
            final(self).dirty,
            final(self).relationships == old(self).relationships,
            final(self).handles == old(self).handles,
            final(self).me == old(self).me,
            final(self).hide_boosts == old(self).hide_boosts,
            final(self).hide_replies == old(self).hide_replies,
            final(self).feed_density == old(self).feed_density,
    {
        let id = notification.id.clone();
        let status = share_opt(&notification.status);
        self.notifications.insert(id, Rc::new(notification));
        if let Some(status) = status {
            self.insert_shared(status);
        }
        self.dirty = true;
    }

    /// Keep a downloaded image under its URL.
    pub fn insert_handle(&mut self, url: String, handle: ImageData)
        ensures
            final(self).handles@ == old(self).handles@.insert(url@, handle),
            final(self).statuses == old(self).statuses,
            final(self).notifications == old(self).notifications,
            final(self).relationships == old(self).relationships,
            final(self).me == old(self).me,
            final(self).dirty == old(self).dirty,
            final(self).hide_boosts == old(self).hide_boosts,
            final(self).hide_replies == old(self).hide_replies,
            final(self).feed_density == old(self).feed_density,
    {
        self.handles.insert(url, Rc::new(handle));
    }

    /// Forget everything fetched for the current account; display
    /// preferences stay.
    pub fn clear(&mut self)
        ensures
            final(self).handles@ == Map::<Seq<char>, ImageData>::empty(),
            final(self).statuses@ == Map::<Seq<char>, Status>::empty(),
            final(self).notifications@ == Map::<Seq<char>, Notification>::empty(),
            final(self).relationships@ == Map::<Seq<char>, Relationship>::empty(),
            final(self).me is None,
            !final(self).dirty,
            final(self).hide_boosts == old(self).hide_boosts,
            final(self).hide_replies == old(self).hide_replies,
            final(self).feed_density == old(self).feed_density,
    {
        self.statuses.clear();
        self.notifications.clear();
        self.handles.clear();
        self.relationships.clear();
        self.me = None;
        self.dirty = false;
    }
}

/// Avatar and header of an account, when set.
pub open spec fn account_images(account: Account) -> Seq<Seq<char>> {
    (if account.avatar@.len() > 0 {
        seq![account.avatar@]
    } else {
        Seq::empty()
    }) + (if account.header@.len() > 0 {
        seq![account.header@]
    } else {
        Seq::empty()
    })
}

/// Image of a preview card, when there is one.
pub open spec fn card_images(card: Option<Card>) -> Seq<Seq<char>> {
    match card {
        Some(c) => match c.image {
            Some(image) => seq![image@],
            None => Seq::empty(),
        },
        None => Seq::empty(),
    }
}

/// Preview URLs of attachments, in order, skipping those without one.
pub open spec fn preview_urls(attachments: Seq<Attachment>) -> Seq<Seq<char>>
    decreases attachments.len(),
{
    if attachments.len() == 0 {
        Seq::empty()
    } else {
        preview_urls(attachments.drop_last()) + match attachments.last().preview_url {
            Some(url) => seq![url@],
            None => Seq::empty(),
        }
    }
}

/// Every image a status shows: its author's avatar and header, then for a
/// boost the boosted author's images, card image and media previews, then
/// the status's own card image and media previews.
pub open spec fn status_images(status: Status) -> Seq<Seq<char>> {
    let boosted = match status.reblog {
        Some(reblog) => account_images(reblog.account) + card_images(reblog.card) + preview_urls(
            reblog.media_attachments@,
        ),
        None => Seq::empty(),
    };
    account_images(status.account) + boosted + card_images(status.card) + preview_urls(
        status.media_attachments@,
    )
}

/// Every image a notification shows: the notifying account's images, then
/// the status's author images, card image and media previews.
pub open spec fn notification_images(notification: Notification) -> Seq<Seq<char>> {
    let from_account = match notification.account {
        Some(account) => account_images(account),
        None => Seq::empty(),
    };
    let from_status = match notification.status {
        Some(status) => account_images(status.account) + card_images(status.card) + preview_urls(
            status.media_attachments@,
        ),
        None => Seq::empty(),
    };
    from_account + from_status
}

fn push_account_images(urls: &mut Vec<String>, account: &Account)
    ensures
        final(urls).deep_view() == old(urls).deep_view() + account_images(*account),
{
    let ghost before = urls.deep_view();
    if !account.avatar.as_str().is_empty() {
        urls.push(account.avatar.clone());
    }
    if !account.header.as_str().is_empty() {
        urls.push(account.header.clone());
    }
    assert(urls.deep_view() =~= before + account_images(*account));
}

fn push_card_image(urls: &mut Vec<String>, card: &Option<Card>)
    ensures
        final(urls).deep_view() == old(urls).deep_view() + card_images(*card),
{
    let ghost before = urls.deep_view();
    if let Some(card) = card {
        if let Some(image) = &card.image {
            urls.push(image.clone());
        }
    }
    assert(urls.deep_view() =~= before + card_images(*card));
}

fn push_previews(urls: &mut Vec<String>, attachments: &Vec<Attachment>)
    ensures
        final(urls).deep_view() == old(urls).deep_view() + preview_urls(attachments@),
{
    let ghost before = urls.deep_view();
    let mut i: usize = 0;
    while i < attachments.len()
        invariant
            i <= attachments@.len(),
            urls.deep_view() == before + preview_urls(attachments@.take(i as int)),
        decreases attachments@.len() - i,
    {
        let ghost prefix = attachments@.take(i as int);
        let ghost next = attachments@.take(i + 1);
        assert(next.drop_last() =~= prefix);
        assert(next.last() == attachments@[i as int]);
        let ghost extra = match attachments@[i as int].preview_url {
            Some(url) => seq![url@],
            None => Seq::<Seq<char>>::empty(),
        };
        assert(preview_urls(next) == preview_urls(prefix) + extra);
        let ghost mid = urls.deep_view();
        if let Some(url) = &attachments[i].preview_url {
            urls.push(url.clone());
        }
        assert(urls.deep_view() =~= mid + extra);
        i += 1;
        assert(urls.deep_view() =~= before + preview_urls(attachments@.take(i as int)));
    }
    assert(attachments@.take(attachments@.len() as int) =~= attachments@);
}

/// URLs of every image a status shows, in display order.
pub fn extract_status_images(status: &Status) -> (urls: Vec<String>)
    ensures
        urls.deep_view() == status_images(*status),
{
    let mut urls: Vec<String> = Vec::new();
    push_account_images(&mut urls, &status.account);
    if let Some(reblog) = &status.reblog {
        push_account_images(&mut urls, &reblog.account);
        push_card_image(&mut urls, &reblog.card);
        push_previews(&mut urls, &reblog.media_attachments);
    }
    push_card_image(&mut urls, &status.card);
    push_previews(&mut urls, &status.media_attachments);
    assert(urls.deep_view() =~= status_images(*status));
    urls
}

/// URLs of every image a notification shows, in display order.
pub fn extract_notification_images(notification: &Notification) -> (urls: Vec<String>)
    ensures
        urls.deep_view() == notification_images(*notification),
{
    let mut urls: Vec<String> = Vec::new();
    if let Some(account) = &notification.account {
        push_account_images(&mut urls, account);
    }
    if let Some(status) = &notification.status {
        push_account_images(&mut urls, &status.account);
        push_card_image(&mut urls, &status.card);
        push_previews(&mut urls, &status.media_attachments);
    }
    assert(urls.deep_view() =~= notification_images(*notification));
    urls
}

/// With neither filter on, every status is visible.
pub proof fn no_filters_show_everything(status: Status)
    ensures
        visible(false, false, status),
{
}

/// Caching a status makes it, and for a boost the boosted status, readable
/// under their ids; a boost whose id differs from the boosted status keeps
/// itself under its own id.
pub proof fn cached_status_is_readable(statuses: Map<Seq<char>, Status>, status: Status)
    ensures
        statuses_with(statuses, status).dom().contains(status.id@),
        status.reblog is None ==> statuses_with(statuses, status)[status.id@] == status,
        status.reblog is Some && status.reblog->0.id@ != status.id@ ==> statuses_with(
            statuses,
            status,
        )[status.id@] == status,
        status.reblog is Some ==> statuses_with(statuses, status)[status.reblog->0.id@]
            == status.reblog->0,
        forall|k: Seq<char>|
            k != status.id@ && (status.reblog is Some ==> k != status.reblog->0.id@) ==> #[trigger] statuses_with(statuses, status).dom().contains(k)
                == statuses.dom().contains(k),
{
}

} // verus!
