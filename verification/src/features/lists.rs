//! User lists: the account's lists and a selected list's timeline.

use vstd::prelude::*;
use crate::app::{Effect, Feed};
use crate::client::{token_usable, Client};
use crate::entities::UserList;
use crate::features::timeline::{self, Timeline, TimelineKind};

verus! {

/// State of the lists page.
pub struct Lists {
    pub mastodon: Client,
    pub lists: Vec<UserList>,
    pub loaded: bool,
    pub selected: Option<Timeline>,
}

pub enum Message {
    SetClient(Client),
    SetLists(Vec<UserList>),
    Select(String),
    Timeline(timeline::Message),
}

/// `new` and `effects` are what handling `message` makes of `old`.
pub open spec fn stepped(old: Lists, message: Message, new: Lists, effects: Seq<Effect>) -> bool {
    match message {
        Message::SetClient(client) => {
            &&& new == (Lists { mastodon: client, selected: new.selected, ..old })
            &&& timeline::stepped_opt(
                old.selected,
                timeline::Message::SetClient(client),
                new.selected,
                effects,
            )
        },
        Message::SetLists(lists) => new == (Lists { lists, loaded: true, ..old }) && effects.len()
            == 0,
        Message::Select(id) => {
            &&& new == (Lists { selected: new.selected, ..old })
            &&& new.selected matches Some(t) && t.kind == TimelineKind::List(id) && t.mastodon
                == old.mastodon && t.statuses@.len() == 0 && t.max_id is None && !t.loading
            &&& effects.len() == 0
        },
        Message::Timeline(m) => {
            &&& new == (Lists { selected: new.selected, ..old })
            &&& timeline::stepped_opt(old.selected, m, new.selected, effects)
        },
    }
}

/// The fetch of the page's own list: while logged in and not yet loaded.
pub open spec fn own_feed(page: Lists) -> Option<Feed> {
    if token_usable(page.mastodon.token) && !page.loaded {
        Some(Feed::Lists(page.mastodon))
    } else {
        None
    }
}

impl Lists {
    pub fn new(mastodon: Client) -> (page: Self)
        ensures
            page.mastodon == mastodon,
            page.lists@.len() == 0,
            !page.loaded,
            page.selected is None,
    {
        Lists { mastodon, lists: Vec::new(), loaded: false, selected: None }
    }

    pub fn is_authenticated(&self) -> (res: bool)
        ensures
            res == token_usable(self.mastodon.token),
    {
        self.mastodon.is_authenticated()
    }

    pub fn update(&mut self, message: Message) -> (effects: Vec<Effect>)
        ensures
            stepped(*old(self), message, *final(self), effects@),
    {
        let mut effects: Vec<Effect> = Vec::new();
        match message {
            Message::SetClient(mastodon) => {
                let copy = mastodon.copy();
                self.mastodon = mastodon;
                if let Some(timeline) = &mut self.selected {
                    effects = timeline.update(timeline::Message::SetClient(copy));
                }
            },
            Message::SetLists(lists) => {
                self.lists = lists;
                self.loaded = true;
            },
            Message::Select(id) => {
                self.selected = Some(Timeline::new(self.mastodon.copy(), TimelineKind::List(id)));
            },
            Message::Timeline(message) => {
                if let Some(timeline) = &mut self.selected {
                    effects = timeline.update(message);
                }
            },
        }
        effects
    }

    /// Fetches this page needs running: the lists while logged in and not
    /// yet loaded, and the selected list's timeline fetch.
    pub fn subscriptions(&self) -> (feeds: (Option<Feed>, Option<Feed>))
        ensures
            feeds == (own_feed(*self), timeline::opt_feed_of(self.selected)),
    {
        let lists = if self.is_authenticated() && !self.loaded {
            Some(Feed::Lists(self.mastodon.copy()))
        } else {
            None
        };
        let timeline = match &self.selected {
            Some(timeline) => timeline.subscription(),
            None => None,
        };
        (lists, timeline)
    }
}

} // verus!
