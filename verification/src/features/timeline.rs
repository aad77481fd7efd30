//! Feed-shaped timelines: home, public, local, federated, favourites,
//! bookmarks, and the timelines of a hashtag or a list.

use vstd::prelude::*;
use crate::app::{Effect, Feed, Message as AppMessage};
use crate::cache::{extract_status_images, status_images, Cache};
use crate::client::{token_usable, Client};
use crate::entities::Status;
use crate::features::status;
use crate::text::{contains_char, str_eq};

verus! {

/// Which Mastodon timeline a [`Timeline`] renders.
#[derive(Debug)]
pub enum TimelineKind {
    /// The authenticated user's home feed.
    Home,
    /// The public (federated) timeline, unfiltered.
    Public,
    /// The local instance's public timeline.
    Local,
    /// The public timeline, filtered down to posts from remote instances.
    Federated,
    /// Statuses the user has favourited.
    Favorites,
    /// Statuses the user has bookmarked.
    Bookmarks,
    /// A hashtag's timeline.
    Tag(String),
    /// A user list's timeline.
    List(String),
}

impl TimelineKind {
    pub fn copy(&self) -> (res: TimelineKind)
        ensures
            res == *self,
    {
        match self {
            TimelineKind::Home => TimelineKind::Home,
            TimelineKind::Public => TimelineKind::Public,
            TimelineKind::Local => TimelineKind::Local,
            TimelineKind::Federated => TimelineKind::Federated,
            TimelineKind::Favorites => TimelineKind::Favorites,
            TimelineKind::Bookmarks => TimelineKind::Bookmarks,
            TimelineKind::Tag(t) => TimelineKind::Tag(t.clone()),
            TimelineKind::List(l) => TimelineKind::List(l.clone()),
        }
    }

    /// Whether the timeline only exists for a logged-in user.
    pub fn requires_auth(&self) -> (res: bool)
        ensures
            res == (*self is Home || *self is Favorites || *self is Bookmarks),
    {
        match self {
            TimelineKind::Home | TimelineKind::Favorites | TimelineKind::Bookmarks => true,
            _ => false,
        }
    }
}

/// State of one feed-shaped timeline.
pub struct Timeline {
    pub mastodon: Client,
    pub kind: TimelineKind,
    /// Ids of the statuses shown, newest first.
    pub statuses: Vec<String>,
    /// Id of the oldest status loaded; the next page starts below it.
    pub max_id: Option<String>,
    pub loading: bool,
}

pub enum Message {
    SetClient(Client),
    AppendStatus(Status),
    PrependStatus(Status),
    DeleteStatus(String),
    Status(status::Message),
    LoadMore(bool),
}

/// The ids left after dropping every occurrence of `id`.
pub open spec fn without(ids: Seq<String>, id: Seq<char>) -> Seq<String> {
    ids.filter(other_than(id))
}

/// Filter keeping strings whose text is not `id`.
pub open spec fn other_than(id: Seq<char>) -> spec_fn(String) -> bool {
    |s: String| s@ != id
}

/// A status is from another instance: its author's `acct` names one.
pub open spec fn is_remote(status: Status) -> bool {
    status.account.acct@.contains('@')
}

/// The statuses a fetch of `kind` contributes: only remote ones for the
/// federated timeline, all of them otherwise.
pub open spec fn kept_statuses(kind: TimelineKind, statuses: Seq<Status>) -> Seq<Status> {
    if kind is Federated {
        statuses.filter(remote())
    } else {
        statuses
    }
}

/// Filter keeping ids of statuses present in the cache.
pub open spec fn cached_in(statuses: Map<Seq<char>, Status>) -> spec_fn(String) -> bool {
    |s: String| statuses.dom().contains(s@)
}

/// Filter keeping statuses from other instances.
pub open spec fn remote() -> spec_fn(Status) -> bool {
    |s: Status| is_remote(s)
}

/// Remove every occurrence of `id`.
pub fn remove_id(ids: &Vec<String>, id: &str) -> (res: Vec<String>)
    ensures
        res@ == without(ids@, id@),
{
    let mut res: Vec<String> = Vec::new();
    let mut i: usize = 0;
    while i < ids.len()
        invariant
            i <= ids@.len(),
            res@ == without(ids@.take(i as int), id@),
        decreases ids@.len() - i,
    {
        proof {
            assert(ids@.take(i + 1) =~= ids@.take(i as int).push(ids@[i as int]));
            ids@.take(i as int).lemma_filter_push(ids@[i as int], other_than(id@));
        }
        if !str_eq(ids[i].as_str(), id) {
            res.push(ids[i].clone());
        }
        i += 1;
    }
    assert(ids@.take(ids@.len() as int) =~= ids@);
    res
}

/// Turn a fetched page of statuses into messages appending them, in order;
/// the federated timeline keeps only remote statuses. A failed fetch
/// contributes nothing.
pub fn fetched(kind: &TimelineKind, result: Result<Vec<Status>, String>) -> (messages: Vec<Message>)
    ensures
        match result {
            Ok(statuses) => messages@.len() == kept_statuses(*kind, statuses@).len() && forall|i: int|
                0 <= i < messages@.len() ==> #[trigger] messages@[i] == Message::AppendStatus(
                    kept_statuses(*kind, statuses@)[i],
                ),
            Err(_) => messages@.len() == 0,
        },
{
    let mut messages: Vec<Message> = Vec::new();
    match result {
        Ok(mut statuses) => {
            let ghost all = statuses@;
            let federated = matches!(kind, TimelineKind::Federated);
            let ghost mut taken: int = 0;
            while statuses.len() > 0
                invariant
                    0 <= taken <= all.len(),
                    statuses@ == all.skip(taken),
                    federated == (*kind is Federated),
                    messages@.len() == kept_statuses(*kind, all.take(taken)).len(),
                    forall|i: int|
                        0 <= i < messages@.len() ==> #[trigger] messages@[i] == Message::AppendStatus(
                            kept_statuses(*kind, all.take(taken))[i],
                        ),
                decreases statuses@.len(),
            {
                let status = statuses.remove(0);
                proof {
                    assert(all.take(taken + 1) =~= all.take(taken).push(status));
                    all.take(taken).lemma_filter_push(status, remote());
                    assert(all.skip(taken + 1) =~= all.skip(taken).drop_first());
                }
                let keep = if federated {
                    contains_char(status.account.acct.as_str(), '@')
                } else {
                    true
                };
                if keep {
                    messages.push(Message::AppendStatus(status));
                }
                proof {
                    taken = taken + 1;
                }
            }
            assert(all.take(taken) =~= all);
        },
        Err(_) => {},
    }
    messages
}

/// `new` and `effects` are what handling `message` makes of `old`.
pub open spec fn stepped(old: Timeline, message: Message, new: Timeline, effects: Seq<Effect>) -> bool {
    match message {
        Message::SetClient(client) => {
            &&& new.mastodon == client
            &&& new.kind == old.kind
            &&& new.statuses@ == old.statuses@
            &&& new.max_id == old.max_id
            &&& new.loading == old.loading
            &&& effects.len() == 0
        },
        Message::LoadMore(load) => {
            &&& new.loading == (old.loading || load)
            &&& new.mastodon == old.mastodon
            &&& new.kind == old.kind
            &&& new.statuses@ == old.statuses@
            &&& new.max_id == old.max_id
            &&& effects.len() == 0
        },
        Message::AppendStatus(status) => {
            &&& !new.loading
            &&& new.max_id == Some(status.id)
            &&& new.statuses@ == old.statuses@.push(status.id)
            &&& new.mastodon == old.mastodon
            &&& new.kind == old.kind
            &&& effects.len() == 2
            &&& effects[0] == Effect::Send(AppMessage::CacheStatus(status))
            &&& effects[1] matches Effect::Send(AppMessage::Fetch(urls))
                && urls.deep_view() == status_images(status)
        },
        Message::PrependStatus(status) => {
            &&& new.statuses@ == seq![status.id] + old.statuses@
            &&& new.loading == old.loading
            &&& new.max_id == old.max_id
            &&& new.mastodon == old.mastodon
            &&& new.kind == old.kind
            &&& effects == seq![Effect::Send(AppMessage::CacheStatus(status))]
        },
        Message::DeleteStatus(id) => {
            &&& new.statuses@ == without(old.statuses@, id@)
            &&& new.loading == old.loading
            &&& new.max_id == old.max_id
            &&& new.mastodon == old.mastodon
            &&& new.kind == old.kind
            &&& effects.len() == 0
        },
        Message::Status(m) => {
            &&& new == old
            &&& effects.len() == 1
            &&& effects[0] matches Effect::Send(routed) && status::routes(m, routed)
        },
    }
}

/// The fetch timeline `t` needs running: the next page while it is empty
/// or loading more, nothing when it needs a login it lacks.
pub open spec fn feed_of(t: Timeline) -> Option<Feed> {
    if t.kind.requires_auth_spec() && !token_usable(t.mastodon.token) {
        None
    } else if t.statuses@.len() == 0 || t.loading {
        Some(Feed::Timeline { client: t.mastodon, kind: t.kind, max_id: t.max_id })
    } else {
        None
    }
}

/// The fetch an optional timeline needs running.
pub open spec fn opt_feed_of(t: Option<Timeline>) -> Option<Feed> {
    match t {
        Some(t) => feed_of(t),
        None => None,
    }
}

/// The optional timeline a page shows after handling `message`: the shown
/// timeline steps, and no timeline stays none with nothing to do.
pub open spec fn stepped_opt(
    old: Option<Timeline>,
    message: Message,
    new: Option<Timeline>,
    effects: Seq<Effect>,
) -> bool {
    match old {
        Some(t) => new matches Some(u) && stepped(t, message, u, effects),
        None => new is None && effects.len() == 0,
    }
}

impl Timeline {
    pub fn new(mastodon: Client, kind: TimelineKind) -> (timeline: Self)
        ensures
            timeline.mastodon == mastodon,
            timeline.kind == kind,
            timeline.statuses@.len() == 0,
            timeline.max_id is None,
            !timeline.loading,
    {
        Timeline { mastodon, kind, statuses: Vec::new(), max_id: None, loading: false }
    }

    pub fn is_authenticated(&self) -> (res: bool)
        ensures
            res == token_usable(self.mastodon.token),
    {
        self.mastodon.is_authenticated()
    }

    /// Ids of the statuses to render: those that are cached, in order.
    pub fn displayed_ids(&self, cache: &Cache) -> (ids: Vec<String>)
        ensures
            ids@ == self.statuses@.filter(cached_in(cache.statuses@)),
    {
        let mut ids: Vec<String> = Vec::new();
        let mut i: usize = 0;
        while i < self.statuses.len()
            invariant
                i <= self.statuses@.len(),
                ids@ == self.statuses@.take(i as int).filter(cached_in(cache.statuses@)),
            decreases self.statuses@.len() - i,
        {
            proof {
                assert(self.statuses@.take(i + 1) =~= self.statuses@.take(i as int).push(
                    self.statuses@[i as int],
                ));
                self.statuses@.take(i as int).lemma_filter_push(
                    self.statuses@[i as int],
                    cached_in(cache.statuses@),
                );
            }
            if cache.statuses.contains_key(self.statuses[i].as_str()) {
                ids.push(self.statuses[i].clone());
            }
            i += 1;
        }
        assert(self.statuses@.take(self.statuses@.len() as int) =~= self.statuses@);
        ids
    }

    /// Whether scrolling to the bottom asks for the next page.
    pub fn wants_more(&self, at_bottom: bool) -> (res: bool)
        ensures
            res == (!self.loading && at_bottom),
    {
        !self.loading && at_bottom
    }

    pub fn update(&mut self, message: Message) -> (effects: Vec<Effect>)
        ensures
            stepped(*old(self), message, *final(self), effects@),
    {
        let mut effects: Vec<Effect> = Vec::new();
        match message {
            Message::SetClient(mastodon) => self.mastodon = mastodon,
            Message::LoadMore(load) => {
                if !self.loading && load {
                    self.loading = true;
                }
            },
            Message::AppendStatus(status) => {
                self.loading = false;
                self.max_id = Some(status.id.clone());
                self.statuses.push(status.id.clone());
                let urls = extract_status_images(&status);
                effects.push(Effect::Send(AppMessage::CacheStatus(status)));
                effects.push(Effect::Send(AppMessage::Fetch(urls)));
            },
            Message::PrependStatus(status) => {
                self.statuses.insert(0, status.id.clone());
                assert(self.statuses@ =~= seq![status.id] + old(self).statuses@);
                effects.push(Effect::Send(AppMessage::CacheStatus(status)));
            },
            Message::DeleteStatus(id) => {
                self.statuses = remove_id(&self.statuses, id.as_str());
            },
            Message::Status(message) => {
                effects.push(Effect::Send(status::update(message)));
            },
        }
        effects
    }

    /// The fetch this timeline needs running: the next page while it is
    /// empty or loading more, nothing when it needs a login it lacks.
    pub fn subscription(&self) -> (feed: Option<Feed>)
        ensures
            feed == feed_of(*self),
    {
        if self.kind.requires_auth() && !self.is_authenticated() {
            return None;
        }
        if self.statuses.len() == 0 || self.loading {
            Some(
                Feed::Timeline {
                    client: self.mastodon.copy(),
                    kind: self.kind.copy(),
                    max_id: match &self.max_id {
                        Some(id) => Some(id.clone()),
                        None => None,
                    },
                },
            )
        } else {
            None
        }
    }
}

impl TimelineKind {
    pub open spec fn requires_auth_spec(&self) -> bool {
        *self is Home || *self is Favorites || *self is Bookmarks
    }
}

/// No two of the strings hold the same text.
pub open spec fn distinct_texts(list: Seq<String>) -> bool {
    forall|i: int, j: int| 0 <= i < j < list.len() ==> #[trigger] list[i]@ != #[trigger] list[j]@
}

/// Dropping every copy of a text keeps the remaining texts distinct.
pub proof fn without_keeps_texts_distinct(list: Seq<String>, id: Seq<char>)
    requires
        distinct_texts(list),
    ensures
        distinct_texts(without(list, id)),
    decreases list.len(),
{
    if list.len() > 0 {
        let init = list.drop_last();
        let last = list.last();
        without_keeps_texts_distinct(init, id);
        assert(list =~= init.push(last));
        init.lemma_filter_push(last, other_than(id));
        let kept = without(init, id);
        if last@ != id {
            assert(without(list, id) == kept.push(last));
            assert forall|j: int| 0 <= j < kept.len() implies #[trigger] kept[j]@ != last@ by {
                assert(kept.contains(kept[j]));
                init.lemma_filter_contains_rev(other_than(id), kept[j]);
                let k = choose|k: int| 0 <= k < init.len() && init[k] == kept[j];
                assert(list[k] == init[k]);
            }
        } else {
            assert(without(list, id) == kept);
        }
    }
}

/// Every status the federated timeline keeps is from another instance.
pub proof fn federated_keeps_only_remote(statuses: Seq<Status>)
    ensures
        forall|i: int|
            0 <= i < kept_statuses(TimelineKind::Federated, statuses).len() ==> is_remote(
                #[trigger] kept_statuses(TimelineKind::Federated, statuses)[i],
            ),
{
    broadcast use vstd::seq_lib::group_filter_ensures;

}

/// Deleting a status removes it from the timeline entirely and keeps the
/// rest in order.
pub proof fn delete_removes_all(ids: Seq<String>, id: Seq<char>)
    ensures
        forall|i: int| 0 <= i < without(ids, id).len() ==> #[trigger] without(ids, id)[i]@ != id,
        without(ids, id).len() <= ids.len(),
{
    broadcast use vstd::seq_lib::group_filter_ensures;

}

/// What each message does to the list of shown statuses: an appended
/// status comes last and is cached, a prepended one comes first and is
/// cached, a deleted id is gone while every other status stays, and asking
/// for more starts loading.
pub proof fn timeline_messages_place_statuses(
    old: Timeline,
    message: Message,
    new: Timeline,
    effects: Seq<Effect>,
)
    requires
        stepped(old, message, new, effects),
    ensures
        message matches Message::AppendStatus(s) ==> {
            &&& new.statuses@.len() == old.statuses@.len() + 1
            &&& new.statuses@.last() == s.id
            &&& new.statuses@.drop_last() == old.statuses@
            &&& new.max_id == Some(s.id)
            &&& effects[0] == Effect::Send(AppMessage::CacheStatus(s))
        },
        message matches Message::PrependStatus(s) ==> {
            &&& new.statuses@.len() == old.statuses@.len() + 1
            &&& new.statuses@[0] == s.id
            &&& new.statuses@.drop_first() == old.statuses@
            &&& effects == seq![Effect::Send(AppMessage::CacheStatus(s))]
        },
        message matches Message::DeleteStatus(id) ==> {
            &&& forall|i: int| 0 <= i < new.statuses@.len() ==> #[trigger] new.statuses@[i]@ != id@
            &&& forall|i: int|
                0 <= i < old.statuses@.len() && old.statuses@[i]@ != id@ ==> new.statuses@.contains(
                    #[trigger] old.statuses@[i],
                )
        },
        message matches Message::LoadMore(load) ==> (load ==> new.loading),
        message matches Message::SetClient(client) ==> new.mastodon == client && new.statuses@
            == old.statuses@,
{
    broadcast use vstd::seq_lib::group_filter_ensures;

    if let Message::AppendStatus(s) = message {
        assert(new.statuses@.drop_last() =~= old.statuses@);
    }
    if let Message::PrependStatus(s) = message {
        assert(new.statuses@.drop_first() =~= old.statuses@);
    }
    if let Message::DeleteStatus(id) = message {
        assert forall|i: int| 0 <= i < new.statuses@.len() implies #[trigger] new.statuses@[i]@ != id@ by {
            assert(other_than(id@)(new.statuses@[i]));
        }
        assert forall|i: int|
            0 <= i < old.statuses@.len() && old.statuses@[i]@ != id@ implies new.statuses@.contains(
            #[trigger] old.statuses@[i],
        ) by {
            old.statuses@.lemma_filter_contains(other_than(id@), i);
        }
    }
}

} // verus!
