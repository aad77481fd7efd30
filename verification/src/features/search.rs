//! Search: accounts, hashtags and statuses matching a query.

use vstd::prelude::*;
use crate::app::{ContextPage, Effect, Feed, Message as AppMessage, Request};
use crate::client::Client;
use crate::entities::{copy_of_account, Account, SearchResults};
use crate::features::status;
use crate::features::timeline::{self, Timeline, TimelineKind};
use crate::text::{concat, owned, trim, trim_spec};

verus! {

/// State of the search page.
pub struct Search {
    pub mastodon: Client,
    pub query: String,
    pub results: Option<SearchResults>,
    pub tag_timeline: Option<Timeline>,
}

pub enum Message {
    SetClient(Client),
    QueryChanged(String),
    Submit,
    SetResults(SearchResults),
    OpenAccount(Account),
    SelectTag(String),
    Status(status::Message),
    Timeline(timeline::Message),
}

/// An account among the results: its display name, its handle, and the
/// message pressing it sends.
pub struct AccountRow {
    pub name: String,
    pub handle: String,
    pub open: Message,
}

/// A hashtag among the results: its label and the message pressing it sends.
pub struct TagButton {
    pub label: String,
    pub select: Message,
}

/// The result sections the page shows; an empty section is not shown.
pub struct SearchRows {
    pub accounts: Option<Vec<AccountRow>>,
    pub hashtags: Option<Vec<TagButton>>,
    pub shows_statuses: bool,
}

/// `row` shows `account` and opens its profile.
pub open spec fn shows_account(row: AccountRow, account: Account) -> bool {
    &&& row.name == account.display_name
    &&& row.handle@ == "@"@ + account.acct@
    &&& row.open matches Message::OpenAccount(a) && copy_of_account(a, account)
}

fn account_rows(accounts: &Vec<Account>) -> (rows: Vec<AccountRow>)
    ensures
        rows@.len() == accounts@.len(),
        forall|i: int| 0 <= i < rows@.len() ==> shows_account(#[trigger] rows@[i], accounts@[i]),
{
    let mut rows: Vec<AccountRow> = Vec::new();
    let mut i: usize = 0;
    while i < accounts.len()
        invariant
            i <= accounts@.len(),
            rows@.len() == i,
            forall|j: int| 0 <= j < i ==> shows_account(#[trigger] rows@[j], accounts@[j]),
        decreases accounts@.len() - i,
    {
        let account = &accounts[i];
        rows.push(
            AccountRow {
                name: account.display_name.clone(),
                handle: concat("@", account.acct.as_str()),
                open: Message::OpenAccount(account.copy()),
            },
        );
        i += 1;
    }
    rows
}

fn tag_buttons(results: &SearchResults) -> (buttons: Vec<TagButton>)
    ensures
        buttons@.len() == results.hashtags@.len(),
        forall|i: int|
            0 <= i < buttons@.len() ==> {
                &&& #[trigger] buttons@[i].label@ == "#"@ + results.hashtags@[i].name@
                &&& buttons@[i].select == Message::SelectTag(results.hashtags@[i].name)
            },
{
    let mut buttons: Vec<TagButton> = Vec::new();
    let mut i: usize = 0;
    while i < results.hashtags.len()
        invariant
            i <= results.hashtags@.len(),
            buttons@.len() == i,
            forall|j: int|
                0 <= j < i ==> {
                    &&& #[trigger] buttons@[j].label@ == "#"@ + results.hashtags@[j].name@
                    &&& buttons@[j].select == Message::SelectTag(results.hashtags@[j].name)
                },
        decreases results.hashtags@.len() - i,
    {
        let name = &results.hashtags[i].name;
        buttons.push(TagButton { label: concat("#", name.as_str()), select: Message::SelectTag(name.clone()) });
        i += 1;
    }
    buttons
}

/// The result sections of the page, once results have arrived: each
/// account with its handle and profile link, each hashtag with the message
/// selecting it, and whether statuses are listed; a section with nothing in
/// it is left out.
pub fn results_rows(search: &Search) -> (rows: Option<SearchRows>)
    ensures
        search.results is None ==> rows is None,
        search.results matches Some(r) ==> rows matches Some(rows) && {
            &&& (r.accounts@.len() == 0 <==> rows.accounts is None)
            &&& (rows.accounts matches Some(list) ==> list@.len() == r.accounts@.len() && forall|i: int|
                0 <= i < list@.len() ==> shows_account(#[trigger] list@[i], r.accounts@[i]))
            &&& (r.hashtags@.len() == 0 <==> rows.hashtags is None)
            &&& (rows.hashtags matches Some(list) ==> list@.len() == r.hashtags@.len() && forall|i: int|
                0 <= i < list@.len() ==> {
                    &&& #[trigger] list@[i].label@ == "#"@ + r.hashtags@[i].name@
                    &&& list@[i].select == Message::SelectTag(r.hashtags@[i].name)
                })
            &&& rows.shows_statuses == (r.statuses@.len() > 0)
        },
{
    match &search.results {
        None => None,
        Some(results) => {
            let accounts = if results.accounts.len() == 0 {
                None
            } else {
                Some(account_rows(&results.accounts))
            };
            let hashtags = if results.hashtags.len() == 0 {
                None
            } else {
                Some(tag_buttons(results))
            };
            Some(SearchRows { accounts, hashtags, shows_statuses: results.statuses.len() > 0 })
        },
    }
}

/// `new` and `effects` are what handling `message` makes of `old`.
pub open spec fn stepped(old: Search, message: Message, new: Search, effects: Seq<Effect>) -> bool {
    match message {
        Message::SetClient(client) => {
            &&& new == (Search { mastodon: client, tag_timeline: new.tag_timeline, ..old })
            &&& timeline::stepped_opt(
                old.tag_timeline,
                timeline::Message::SetClient(client),
                new.tag_timeline,
                effects,
            )
        },
        Message::QueryChanged(query) => new == (Search { query, ..old }) && effects.len() == 0,
        Message::Submit => {
            &&& new == old
            &&& trim_spec(old.query@).len() == 0 ==> effects.len() == 0
            &&& trim_spec(old.query@).len() > 0 ==> effects.len() == 1 && (effects[0] matches Effect::Request(
                client,
                Request::Search(q),
            ) && client == old.mastodon && q@ == trim_spec(old.query@))
        },
        Message::SetResults(results) => new == (Search { results: Some(results), ..old })
            && effects.len() == 0,
        Message::OpenAccount(account) => new == old && effects == seq![
            Effect::Send(AppMessage::ToggleContextPage(ContextPage::Account(account))),
        ],
        Message::SelectTag(name) => {
            &&& new == (Search { tag_timeline: new.tag_timeline, ..old })
            &&& new.tag_timeline matches Some(t) && t.kind == TimelineKind::Tag(name) && t.mastodon
                == old.mastodon && t.statuses@.len() == 0 && t.max_id is None && !t.loading
            &&& effects.len() == 0
        },
        Message::Status(m) => {
            &&& new == old
            &&& effects.len() == 1
            &&& effects[0] matches Effect::Send(routed) && status::routes(m, routed)
        },
        Message::Timeline(m) => {
            &&& new == (Search { tag_timeline: new.tag_timeline, ..old })
            &&& timeline::stepped_opt(old.tag_timeline, m, new.tag_timeline, effects)
        },
    }
}

impl Search {
    pub fn new(mastodon: Client) -> (page: Self)
        ensures
            page.mastodon == mastodon,
            page.query@.len() == 0,
            page.results is None,
            page.tag_timeline is None,
    {
        Search { mastodon, query: String::new(), results: None, tag_timeline: None }
    }

    pub fn update(&mut self, message: Message) -> (effects: Vec<Effect>)
        ensures
            stepped(*old(self), message, *final(self), effects@),
    {
        let mut effects: Vec<Effect> = Vec::new();
        match message {
            Message::SetClient(mastodon) => {
                let copy = mastodon.copy();
                self.mastodon = mastodon;
                if let Some(timeline) = &mut self.tag_timeline {
                    effects = timeline.update(timeline::Message::SetClient(copy));
                }
            },
            Message::QueryChanged(query) => self.query = query,
            Message::Submit => {
                let query = owned(trim(self.query.as_str()));
                if !query.as_str().is_empty() {
                    effects.push(Effect::Request(self.mastodon.copy(), Request::Search(query)));
                }
            },
            Message::SetResults(results) => self.results = Some(results),
            Message::OpenAccount(account) => {
                effects.push(
                    Effect::Send(AppMessage::ToggleContextPage(ContextPage::Account(account))),
                );
            },
            Message::SelectTag(name) => {
                self.tag_timeline = Some(
                    Timeline::new(self.mastodon.copy(), TimelineKind::Tag(name)),
                );
            },
            Message::Status(message) => effects.push(Effect::Send(status::update(message))),
            Message::Timeline(message) => {
                if let Some(timeline) = &mut self.tag_timeline {
                    effects = timeline.update(message);
                }
            },
        }
        effects
    }

    /// The fetch this page needs running: the selected tag's timeline.
    pub fn subscription(&self) -> (feed: Option<Feed>)
        ensures
            feed == timeline::opt_feed_of(self.tag_timeline),
    {
        match &self.tag_timeline {
            Some(timeline) => timeline.subscription(),
            None => None,
        }
    }
}

} // verus!
