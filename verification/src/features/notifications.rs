//! Notifications feed: what is loaded, the type filter, follow-request
//! answers, clearing, and the text each notification shows.

use vstd::prelude::*;
use crate::app::{Effect, Feed, Message as AppMessage, Request};
use crate::cache::{extract_notification_images, notification_images, Cache};
use crate::client::{token_usable, Client};
use crate::entities::{Notification, NotificationType};
use crate::features::status;
use crate::features::timeline::{remove_id, without};
use crate::text::concat;

verus! {

/// State of the notifications page.
pub struct Notifications {
    pub mastodon: Client,
    /// Ids of the notifications shown, newest first.
    pub notifications: Vec<String>,
    pub max_id: Option<String>,
    pub loading: bool,
    /// Only notifications of this type are shown, when set.
    pub filter: Option<NotificationType>,
}

/// Messages from a rendered notification.
#[derive(Debug)]
pub enum ItemMessage {
    Status(status::Message),
    /// Accept a follow request: (notification id, requesting account id).
    AcceptFollowRequest(String, String),
    /// Reject a follow request: (notification id, requesting account id).
    RejectFollowRequest(String, String),
}

pub enum Message {
    SetClient(Client),
    AppendNotification(Notification),
    PrependNotification(Notification),
    Notification(ItemMessage),
    LoadMore(bool),
    /// A fetch finished, whether or not it returned anything.
    LoadComplete,
    SetFilter(Option<NotificationType>),
    ClearAll,
}

/// The filters the picker offers, in order.
pub open spec fn filters_spec() -> Seq<Option<NotificationType>> {
    seq![
        None,
        Some(NotificationType::Mention),
        Some(NotificationType::Reblog),
        Some(NotificationType::Favourite),
        Some(NotificationType::Follow),
    ]
}

pub open spec fn filter_label_spec(filter: Option<NotificationType>) -> Seq<char> {
    match filter {
        None => "All"@,
        Some(NotificationType::Mention) => "Mentions"@,
        Some(NotificationType::Reblog) => "Boosts"@,
        Some(NotificationType::Favourite) => "Favorites"@,
        Some(NotificationType::Follow) => "Follows"@,
        Some(_) => "Other"@,
    }
}

/// The filters the picker offers, in order.
pub fn filters() -> (list: Vec<Option<NotificationType>>)
    ensures
        list@ == filters_spec(),
{
    let mut list = Vec::new();
    list.push(None);
    list.push(Some(NotificationType::Mention));
    list.push(Some(NotificationType::Reblog));
    list.push(Some(NotificationType::Favourite));
    list.push(Some(NotificationType::Follow));
    assert(list@ =~= filters_spec());
    list
}

pub fn filter_label(filter: Option<NotificationType>) -> (label: &'static str)
    ensures
        label@ == filter_label_spec(filter),
{
    match filter {
        None => "All",
        Some(NotificationType::Mention) => "Mentions",
        Some(NotificationType::Reblog) => "Boosts",
        Some(NotificationType::Favourite) => "Favorites",
        Some(NotificationType::Follow) => "Follows",
        Some(_) => "Other",
    }
}

/// What a notification's header says.
pub open spec fn action_text_spec(notification: Notification) -> Seq<char> {
    match notification.account {
        None => "Unknown notification type"@,
        Some(account) => {
            let name = account.display_name@;
            match notification.kind {
                NotificationType::Mention => name + " mentioned you"@,
                NotificationType::Reblog => name + " boosted"@,
                NotificationType::Favourite => name + " liked"@,
                NotificationType::Follow => name + " followed you"@,
                NotificationType::FollowRequest => name + " requested to follow you"@,
                NotificationType::PollVote => name + " voted on a poll"@,
                NotificationType::Status => name + " has posted a status"@,
                NotificationType::Update => "A post has been edited"@,
                NotificationType::AdminSignup => "Someone signed up (optionally sent to admins)"@,
                NotificationType::AdminReport => "A new report has been filed"@,
                NotificationType::PollExpired => "A poll has expired"@,
                NotificationType::Reaction => name + " reacted to a status"@,
                NotificationType::Move => name + " moved a status"@,
                NotificationType::GroupInvited => name + " was invited to a group"@,
                NotificationType::App => name + " used an app"@,
                NotificationType::Quote => name + " quoted a status"@,
                NotificationType::QuotedUpdate => name + " updated a quoted status"@,
                NotificationType::Unknown => "Unknown notification type"@,
            }
        },
    }
}

/// The header text of a notification.
pub fn action_text(notification: &Notification) -> (text: String)
    ensures
        text@ == action_text_spec(*notification),
{
    match &notification.account {
        None => String::from_str("Unknown notification type"),
        Some(account) => {
            let name = account.display_name.as_str();
            match notification.kind {
                NotificationType::Mention => concat(name, " mentioned you"),
                NotificationType::Reblog => concat(name, " boosted"),
                NotificationType::Favourite => concat(name, " liked"),
                NotificationType::Follow => concat(name, " followed you"),
                NotificationType::FollowRequest => concat(name, " requested to follow you"),
                NotificationType::PollVote => concat(name, " voted on a poll"),
                NotificationType::Status => concat(name, " has posted a status"),
                NotificationType::Update => String::from_str("A post has been edited"),
                NotificationType::AdminSignup => String::from_str(
                    "Someone signed up (optionally sent to admins)",
                ),
                NotificationType::AdminReport => String::from_str("A new report has been filed"),
                NotificationType::PollExpired => String::from_str("A poll has expired"),
                NotificationType::Reaction => concat(name, " reacted to a status"),
                NotificationType::Move => concat(name, " moved a status"),
                NotificationType::GroupInvited => concat(name, " was invited to a group"),
                NotificationType::App => concat(name, " used an app"),
                NotificationType::Quote => concat(name, " quoted a status"),
                NotificationType::QuotedUpdate => concat(name, " updated a quoted status"),
                NotificationType::Unknown => String::from_str("Unknown notification type"),
            }
        },
    }
}

/// Accept/reject buttons, offered on follow requests that name an account:
/// (accept, reject).
pub fn follow_request_actions(notification: &Notification) -> (actions: Option<(ItemMessage, ItemMessage)>)
    ensures
        match actions {
            Some((accept, reject)) => {
                &&& notification.kind == NotificationType::FollowRequest
                &&& notification.account is Some
                &&& accept == ItemMessage::AcceptFollowRequest(notification.id, notification.account->0.id)
                &&& reject == ItemMessage::RejectFollowRequest(notification.id, notification.account->0.id)
            },
            None => notification.kind != NotificationType::FollowRequest || notification.account is None,
        },
{
    if notification.kind != NotificationType::FollowRequest {
        return None;
    }
    match &notification.account {
        Some(account) => Some(
            (
                ItemMessage::AcceptFollowRequest(notification.id.clone(), account.id.clone()),
                ItemMessage::RejectFollowRequest(notification.id.clone(), account.id.clone()),
            ),
        ),
        None => None,
    }
}

/// Turn a fetched page into messages appending each notification, in
/// order, then one marking the fetch complete (also after a failure).
pub fn fetched(result: Result<Vec<Notification>, String>) -> (messages: Vec<Message>)
    ensures
        match result {
            Ok(list) => messages@.len() == list@.len() + 1 && (forall|i: int|
                0 <= i < list@.len() ==> #[trigger] messages@[i] == Message::AppendNotification(
                    list@[i],
                )) && messages@.last() == Message::LoadComplete,
            Err(_) => messages@ == seq![Message::LoadComplete],
        },
{
    let mut messages: Vec<Message> = Vec::new();
    match result {
        Ok(mut list) => {
            let ghost all = list@;
            let ghost mut taken: int = 0;
            while list.len() > 0
                invariant
                    0 <= taken <= all.len(),
                    list@ == all.skip(taken),
                    messages@.len() == taken,
                    forall|i: int|
                        0 <= i < taken ==> #[trigger] messages@[i] == Message::AppendNotification(
                            all[i],
                        ),
                decreases list@.len(),
            {
                let notification = list.remove(0);
                proof {
                    assert(all.skip(taken + 1) =~= all.skip(taken).drop_first());
                }
                messages.push(Message::AppendNotification(notification));
                proof {
                    taken = taken + 1;
                }
            }
        },
        Err(_) => {},
    }
    messages.push(Message::LoadComplete);
    messages
}

/// A notification passes the filter.
pub open spec fn passes(filter: Option<NotificationType>, notification: Notification) -> bool {
    match filter {
        None => true,
        Some(kind) => notification.kind == kind,
    }
}

/// Filter keeping ids of cached notifications that pass the type filter.
pub open spec fn shown_with(
    filter: Option<NotificationType>,
    cached: Map<Seq<char>, Notification>,
) -> spec_fn(String) -> bool {
    |s: String| cached.dom().contains(s@) && passes(filter, cached[s@])
}

/// `new` and `effects` are what handling `message` makes of `old`.
pub open spec fn stepped(old: Notifications, message: Message, new: Notifications, effects: Seq<Effect>) -> bool {
    &&& new.filter == match message {
        Message::SetFilter(filter) => filter,
        _ => old.filter,
    }
    &&& new.mastodon == match message {
        Message::SetClient(client) => client,
        _ => old.mastodon,
    }
    &&& match message {
        Message::SetClient(_) | Message::SetFilter(_) => {
            &&& new.notifications@ == old.notifications@
            &&& new.loading == old.loading
            &&& new.max_id == old.max_id
            &&& effects.len() == 0
        },
        Message::LoadMore(load) => {
            &&& new.loading == (old.loading || load)
            &&& new.notifications@ == old.notifications@
            &&& new.max_id == old.max_id
            &&& effects.len() == 0
        },
        Message::LoadComplete => {
            &&& !new.loading
            &&& new.notifications@ == old.notifications@
            &&& new.max_id == old.max_id
            &&& effects.len() == 0
        },
        Message::AppendNotification(n) => {
            &&& !new.loading
            &&& new.max_id == Some(n.id)
            &&& new.notifications@ == old.notifications@.push(n.id)
            &&& effects.len() == 2
            &&& effects[0] == Effect::Send(AppMessage::CacheNotification(n))
            &&& effects[1] matches Effect::Send(AppMessage::Fetch(urls))
                && urls.deep_view() == notification_images(n)
        },
        Message::PrependNotification(n) => {
            &&& new.notifications@ == seq![n.id] + old.notifications@
            &&& new.loading == old.loading
            &&& new.max_id == old.max_id
            &&& effects == seq![Effect::Send(AppMessage::CacheNotification(n))]
        },
        Message::ClearAll => {
            &&& new.notifications@.len() == 0
            &&& new.loading == old.loading
            &&& new.max_id == old.max_id
            &&& effects == seq![
                Effect::Request(old.mastodon, Request::DismissNotifications),
            ]
        },
        Message::Notification(ItemMessage::Status(m)) => {
            &&& new.notifications@ == old.notifications@
            &&& new.loading == old.loading
            &&& new.max_id == old.max_id
            &&& effects.len() == 1
            &&& effects[0] matches Effect::Send(routed) && status::routes(m, routed)
        },
        Message::Notification(ItemMessage::AcceptFollowRequest(notification_id, account_id)) => {
            &&& new.notifications@ == without(old.notifications@, notification_id@)
            &&& new.loading == old.loading
            &&& new.max_id == old.max_id
            &&& effects == seq![
                Effect::Request(old.mastodon, Request::AcceptFollowRequest(account_id)),
            ]
        },
        Message::Notification(ItemMessage::RejectFollowRequest(notification_id, account_id)) => {
            &&& new.notifications@ == without(old.notifications@, notification_id@)
            &&& new.loading == old.loading
            &&& new.max_id == old.max_id
            &&& effects == seq![
                Effect::Request(old.mastodon, Request::RejectFollowRequest(account_id)),
            ]
        },
    }
}

/// The fetch the page needs running: the next page while logged in and
/// either empty or loading more.
pub open spec fn feed_of(page: Notifications) -> Option<Feed> {
    if token_usable(page.mastodon.token) && (page.notifications@.len() == 0 || page.loading) {
        Some(Feed::Notifications { client: page.mastodon, max_id: page.max_id })
    } else {
        None
    }
}

impl Notifications {
    pub fn new(mastodon: Client) -> (page: Self)
        ensures
            page.mastodon == mastodon,
            page.notifications@.len() == 0,
            page.max_id is None,
            !page.loading,
            page.filter is None,
    {
        Notifications {
            mastodon,
            notifications: Vec::new(),
            max_id: None,
            loading: false,
            filter: None,
        }
    }

    pub fn is_authenticated(&self) -> (res: bool)
        ensures
            res == token_usable(self.mastodon.token),
    {
        self.mastodon.is_authenticated()
    }

    /// Position of the current filter in the picker, if it offers it.
    pub fn selected_filter(&self) -> (index: Option<usize>)
        ensures
            match index {
                Some(i) => i < 5 && filters_spec()[i as int] == self.filter,
                None => forall|i: int| 0 <= i < 5 ==> filters_spec()[i] != self.filter,
            },
    {
        match self.filter {
            None => Some(0),
            Some(NotificationType::Mention) => Some(1),
            Some(NotificationType::Reblog) => Some(2),
            Some(NotificationType::Favourite) => Some(3),
            Some(NotificationType::Follow) => Some(4),
            Some(_) => None,
        }
    }

    /// Ids of the notifications to render: cached ones passing the filter,
    /// in order.
    pub fn displayed_ids(&self, cache: &Cache) -> (ids: Vec<String>)
        ensures
            ids@ == self.notifications@.filter(shown_with(self.filter, cache.notifications@)),
    {
        let mut ids: Vec<String> = Vec::new();
        let mut i: usize = 0;
        while i < self.notifications.len()
            invariant
                i <= self.notifications@.len(),
                ids@ == self.notifications@.take(i as int).filter(
                    shown_with(self.filter, cache.notifications@),
                ),
            decreases self.notifications@.len() - i,
        {
            proof {
                assert(self.notifications@.take(i + 1) =~= self.notifications@.take(i as int).push(
                    self.notifications@[i as int],
                ));
                self.notifications@.take(i as int).lemma_filter_push(
                    self.notifications@[i as int],
                    shown_with(self.filter, cache.notifications@),
                );
            }
            let keep = match cache.notifications.get(self.notifications[i].as_str()) {
                Some(n) => match self.filter {
                    None => true,
                    Some(kind) => n.kind == kind,
                },
                None => false,
            };
            if keep {
                ids.push(self.notifications[i].clone());
            }
            i += 1;
        }
        assert(self.notifications@.take(self.notifications@.len() as int) =~= self.notifications@);
        ids
    }

    pub fn update(&mut self, message: Message) -> (effects: Vec<Effect>)
        ensures
            stepped(*old(self), message, *final(self), effects@),
    {
        let mut effects: Vec<Effect> = Vec::new();
        match message {
            Message::SetClient(mastodon) => self.mastodon = mastodon,
            Message::LoadMore(load) => {
                if !self.loading && load {
                    self.loading = true;
                }
            },
            Message::LoadComplete => self.loading = false,
            Message::AppendNotification(notification) => {
                self.loading = false;
                self.max_id = Some(notification.id.clone());
                self.notifications.push(notification.id.clone());
                let urls = extract_notification_images(&notification);
                effects.push(Effect::Send(AppMessage::CacheNotification(notification)));
                effects.push(Effect::Send(AppMessage::Fetch(urls)));
            },
            Message::PrependNotification(notification) => {
                self.notifications.insert(0, notification.id.clone());
                assert(self.notifications@ =~= seq![notification.id] + old(self).notifications@);
                effects.push(Effect::Send(AppMessage::CacheNotification(notification)));
            },
            Message::SetFilter(filter) => self.filter = filter,
            Message::ClearAll => {
                self.notifications = Vec::new();
                effects.push(Effect::Request(self.mastodon.copy(), Request::DismissNotifications));
            },
            Message::Notification(item) => match item {
                ItemMessage::Status(message) => effects.push(Effect::Send(status::update(message))),
                ItemMessage::AcceptFollowRequest(notification_id, account_id) => {
                    self.notifications = remove_id(&self.notifications, notification_id.as_str());
                    effects.push(
                        Effect::Request(
                            self.mastodon.copy(),
                            Request::AcceptFollowRequest(account_id),
                        ),
                    );
                },
                ItemMessage::RejectFollowRequest(notification_id, account_id) => {
                    self.notifications = remove_id(&self.notifications, notification_id.as_str());
                    effects.push(
                        Effect::Request(
                            self.mastodon.copy(),
                            Request::RejectFollowRequest(account_id),
                        ),
                    );
                },
            },
        }
        effects
    }

    /// The fetch this page needs running: the next page while logged in and
    /// either empty or loading more.
    pub fn subscription(&self) -> (feed: Option<Feed>)
        ensures
            feed == feed_of(*self),
    {
        if self.is_authenticated() && (self.notifications.len() == 0 || self.loading) {
            Some(
                Feed::Notifications {
                    client: self.mastodon.copy(),
                    max_id: match &self.max_id {
                        Some(id) => Some(id.clone()),
                        None => None,
                    },
                },
            )
        } else {
            None
        }
    }
}

/// Answering a follow request sends exactly that answer, for the requesting
/// account, through the page's client, and drops the notification: a
/// rejection never accepts and an acceptance never rejects.
pub proof fn follow_requests_get_their_answer(
    old: Notifications,
    notification_id: String,
    account_id: String,
    accept: bool,
    new: Notifications,
    effects: Seq<Effect>,
)
    requires
        stepped(
            old,
            Message::Notification(
                if accept {
                    ItemMessage::AcceptFollowRequest(notification_id, account_id)
                } else {
                    ItemMessage::RejectFollowRequest(notification_id, account_id)
                },
            ),
            new,
            effects,
        ),
    ensures
        accept ==> effects == seq![
            Effect::Request(old.mastodon, Request::AcceptFollowRequest(account_id)),
        ],
        !accept ==> effects == seq![
            Effect::Request(old.mastodon, Request::RejectFollowRequest(account_id)),
        ],
        forall|i: int| 0 <= i < new.notifications@.len() ==> #[trigger] new.notifications@[i]@
            != notification_id@,
{
    broadcast use vstd::seq_lib::group_filter_ensures;

    assert forall|i: int| 0 <= i < new.notifications@.len() implies #[trigger] new.notifications@[i]@
        != notification_id@ by {
        assert(crate::features::timeline::other_than(notification_id@)(new.notifications@[i]));
    }
}

/// Clearing empties the page and asks the server to dismiss everything;
/// choosing a filter sets it and changes nothing else.
pub proof fn clearing_and_filtering(
    old: Notifications,
    message: Message,
    new: Notifications,
    effects: Seq<Effect>,
)
    requires
        stepped(old, message, new, effects),
    ensures
        message is ClearAll ==> new.notifications@.len() == 0 && effects == seq![
            Effect::Request(old.mastodon, Request::DismissNotifications),
        ],
        message matches Message::SetFilter(f) ==> new.filter == f && new.notifications@
            == old.notifications@ && effects.len() == 0,
        message matches Message::AppendNotification(n) ==> new.notifications@.last() == n.id
            && effects[0] == Effect::Send(AppMessage::CacheNotification(n)),
{
}

} // verus!
