//! Followed hashtags: the followed list with a name filter, follow and
//! unfollow, and the timeline of a selected tag.

use vstd::prelude::*;
use crate::app::{Effect, Feed, Request};
use crate::client::{token_usable, Client};
use crate::entities::Tag;
use crate::features::timeline::{self, remove_id, without, Timeline, TimelineKind};
use crate::text::{contains_str, has_substring, lowercase, str_eq, to_lowercase};

verus! {

/// State of the hashtags page.
pub struct Hashtags {
    pub mastodon: Client,
    pub followed: Vec<Tag>,
    pub loaded: bool,
    /// Tags unfollowed during this visit to the page. They stay listed (with
    /// a "Follow" button) until the page is refreshed.
    pub unfollowed: Vec<String>,
    pub filter: String,
    pub selected: Option<Timeline>,
}

pub enum Message {
    SetClient(Client),
    /// The page became active again; the followed list is fetched anew.
    Refresh,
    SetFollowed(Vec<Tag>),
    FilterChanged(String),
    Select(String),
    /// Return from a tag's timeline to the followed list.
    Deselect,
    /// Toggle following a tag: (name, currently following).
    ToggleFollow(String, bool),
    /// The server's answer to a toggle: (name, now following).
    FollowResult(String, bool),
    Timeline(timeline::Message),
}

/// A tag passes the name filter: the filter is empty or the lower-cased
/// name contains the lower-cased filter.
pub open spec fn matches_filter(filter: Seq<char>, name: Seq<char>) -> bool {
    lowercase(filter).len() == 0 || has_substring(lowercase(name), lowercase(filter))
}

/// Filter keeping tags whose name passes `filter`.
pub open spec fn tag_filter(filter: Seq<char>) -> spec_fn(Tag) -> bool {
    |t: Tag| matches_filter(filter, t.name@)
}

/// The texts of a sequence of strings.
pub open spec fn names(list: Seq<String>) -> Seq<Seq<char>> {
    list.map_values(|s: String| s@)
}

/// One row of the followed list.
#[derive(Debug)]
pub struct TagRow {
    pub name: String,
    pub following: bool,
}

/// `new` and `effects` are what handling `message` makes of `old`.
pub open spec fn stepped(old: Hashtags, message: Message, new: Hashtags, effects: Seq<Effect>) -> bool {
    match message {
        Message::SetClient(client) => {
            &&& new == (Hashtags { mastodon: client, selected: new.selected, ..old })
            &&& timeline::stepped_opt(
                old.selected,
                timeline::Message::SetClient(client),
                new.selected,
                effects,
            )
        },
        Message::Refresh => {
            &&& new == (Hashtags { loaded: false, unfollowed: new.unfollowed, ..old })
            &&& new.unfollowed@.len() == 0
            &&& effects.len() == 0
        },
        Message::SetFollowed(tags) => new == (Hashtags { followed: tags, loaded: true, ..old })
            && effects.len() == 0,
        Message::FilterChanged(filter) => new == (Hashtags { filter, ..old }) && effects.len() == 0,
        Message::Select(name) => {
            &&& new == (Hashtags { selected: new.selected, ..old })
            &&& new.selected matches Some(t) && t.kind == TimelineKind::Tag(name) && t.mastodon
                == old.mastodon && t.statuses@.len() == 0 && t.max_id is None && !t.loading
            &&& effects.len() == 0
        },
        Message::Deselect => new == (Hashtags { selected: None, ..old }) && effects.len() == 0,
        Message::ToggleFollow(name, following) => {
            &&& new == old
            &&& effects == seq![
                Effect::Request(
                    old.mastodon,
                    if following {
                        Request::UnfollowTag(name)
                    } else {
                        Request::FollowTag(name)
                    },
                ),
            ]
        },
        Message::FollowResult(name, following) => {
            &&& new == (Hashtags { unfollowed: new.unfollowed, ..old })
            &&& following ==> new.unfollowed@ == without(old.unfollowed@, name@)
            &&& !following && names(old.unfollowed@).contains(name@) ==> new.unfollowed@
                == old.unfollowed@
            &&& !following && !names(old.unfollowed@).contains(name@) ==> new.unfollowed@
                == old.unfollowed@.push(name)
            &&& effects.len() == 0
        },
        Message::Timeline(m) => {
            &&& new == (Hashtags { selected: new.selected, ..old })
            &&& timeline::stepped_opt(old.selected, m, new.selected, effects)
        },
    }
}

/// The fetch of the page's own list: while logged in and not yet loaded.
pub open spec fn own_feed(page: Hashtags) -> Option<Feed> {
    if token_usable(page.mastodon.token) && !page.loaded {
        Some(Feed::FollowedTags(page.mastodon))
    } else {
        None
    }
}

/// The names recorded as unfollowed stay distinct whatever the page
/// handles: no tag is recorded as unfollowed twice.
pub proof fn unfollowed_stay_distinct(old: Hashtags, message: Message, new: Hashtags, effects: Seq<Effect>)
    requires
        names(old.unfollowed@).no_duplicates(),
        stepped(old, message, new, effects),
    ensures
        names(new.unfollowed@).no_duplicates(),
{
    assert forall|i: int, j: int| 0 <= i < j < old.unfollowed@.len() implies old.unfollowed@[i]@
        != old.unfollowed@[j]@ by {
        assert(names(old.unfollowed@)[i] == old.unfollowed@[i]@);
        assert(names(old.unfollowed@)[j] == old.unfollowed@[j]@);
    }
    match message {
        Message::Refresh => {
            assert(names(new.unfollowed@) =~= Seq::<Seq<char>>::empty());
        },
        Message::FollowResult(name, following) => {
            if following {
                timeline::without_keeps_texts_distinct(old.unfollowed@, name@);
                assert forall|i: int, j: int| 0 <= i < j < names(new.unfollowed@).len() implies names(
                    new.unfollowed@,
                )[i] != names(new.unfollowed@)[j] by {
                    assert(names(new.unfollowed@)[i] == new.unfollowed@[i]@);
                    assert(names(new.unfollowed@)[j] == new.unfollowed@[j]@);
                }
            } else if !names(old.unfollowed@).contains(name@) {
                assert(names(new.unfollowed@) =~= names(old.unfollowed@).push(name@));
            }
        },
        _ => {},
    }
}

impl Hashtags {
    pub fn new(mastodon: Client) -> (page: Self)
        ensures
            page.mastodon == mastodon,
            page.followed@.len() == 0,
            !page.loaded,
            page.unfollowed@.len() == 0,
            page.filter@.len() == 0,
            page.selected is None,
    {
        Hashtags {
            mastodon,
            followed: Vec::new(),
            loaded: false,
            unfollowed: Vec::new(),
            filter: String::new(),
            selected: None,
        }
    }

    pub fn is_authenticated(&self) -> (res: bool)
        ensures
            res == token_usable(self.mastodon.token),
    {
        self.mastodon.is_authenticated()
    }

    /// Whether `name` was unfollowed during this visit.
    pub fn is_unfollowed(&self, name: &str) -> (res: bool)
        ensures
            res == names(self.unfollowed@).contains(name@),
    {
        let mut i: usize = 0;
        while i < self.unfollowed.len()
            invariant
                i <= self.unfollowed@.len(),
                forall|j: int| 0 <= j < i ==> #[trigger] self.unfollowed@[j]@ != name@,
            decreases self.unfollowed@.len() - i,
        {
            if str_eq(self.unfollowed[i].as_str(), name) {
                assert(names(self.unfollowed@)[i as int] == name@);
                return true;
            }
            i += 1;
        }
        proof {
            if names(self.unfollowed@).contains(name@) {
                let k = choose|k: int|
                    0 <= k < self.unfollowed@.len() && #[trigger] names(self.unfollowed@)[k] == name@;
                assert(self.unfollowed@[k]@ != name@);
            }
        }
        false
    }

    /// The followed tags passing the filter, in order, each with whether it
    /// is still followed.
    pub fn rows(&self) -> (rows: Vec<TagRow>)
        ensures
            rows@.len() == self.followed@.filter(tag_filter(self.filter@)).len(),
            forall|i: int|
                0 <= i < rows@.len() ==> {
                    let tag = self.followed@.filter(tag_filter(self.filter@))[i];
                    &&& #[trigger] rows@[i].name == tag.name
                    &&& rows@[i].following == !names(self.unfollowed@).contains(
                        tag.name@,
                    )
                },
    {
        let filter = to_lowercase(self.filter.as_str());
        let mut rows: Vec<TagRow> = Vec::new();
        let mut i: usize = 0;
        while i < self.followed.len()
            invariant
                i <= self.followed@.len(),
                filter@ == lowercase(self.filter@),
                rows@.len() == self.followed@.take(i as int).filter(tag_filter(self.filter@)).len(),
                forall|k: int|
                    0 <= k < rows@.len() ==> {
                        let tag = self.followed@.take(i as int).filter(tag_filter(self.filter@))[k];
                        &&& #[trigger] rows@[k].name == tag.name
                        &&& rows@[k].following == !names(self.unfollowed@).contains(
                            tag.name@,
                        )
                    },
            decreases self.followed@.len() - i,
        {
            let tag = &self.followed[i];
            proof {
                assert(self.followed@.take(i + 1) =~= self.followed@.take(i as int).push(
                    self.followed@[i as int],
                ));
                self.followed@.take(i as int).lemma_filter_push(
                    self.followed@[i as int],
                    tag_filter(self.filter@),
                );
            }
            let keep = filter.as_str().is_empty() || contains_str(
                to_lowercase(tag.name.as_str()).as_str(),
                filter.as_str(),
            );
            if keep {
                let following = !self.is_unfollowed(tag.name.as_str());
                rows.push(TagRow { name: tag.name.clone(), following });
            }
            i += 1;
        }
        assert(self.followed@.take(self.followed@.len() as int) =~= self.followed@);
        rows
    }

    pub fn update(&mut self, message: Message) -> (effects: Vec<Effect>)
        ensures
            stepped(*old(self), message, *final(self), effects@),
    {
        let mut effects: Vec<Effect> = Vec::new();
        match message {
            Message::SetClient(mastodon) => {
                let copy = mastodon.copy();
                self.mastodon = mastodon;
                if let Some(timeline) = &mut self.selected {
                    effects = timeline.update(timeline::Message::SetClient(copy));
                }
            },
            Message::Refresh => {
                self.loaded = false;
                self.unfollowed = Vec::new();
            },
            Message::SetFollowed(tags) => {
                self.followed = tags;
                self.loaded = true;
            },
            Message::FilterChanged(filter) => self.filter = filter,
            Message::Select(name) => {
                self.selected = Some(Timeline::new(self.mastodon.copy(), TimelineKind::Tag(name)));
            },
            Message::Deselect => self.selected = None,
            Message::ToggleFollow(name, following) => {
                let request = if following {
                    Request::UnfollowTag(name)
                } else {
                    Request::FollowTag(name)
                };
                effects.push(Effect::Request(self.mastodon.copy(), request));
            },
            Message::FollowResult(name, following) => {
                if following {
                    self.unfollowed = remove_id(&self.unfollowed, name.as_str());
                } else if !self.is_unfollowed(name.as_str()) {
                    self.unfollowed.push(name);
                    assert(names(self.unfollowed@)[self.unfollowed@.len() - 1]
                        == name@);
                }
            },
            Message::Timeline(message) => {
                if let Some(timeline) = &mut self.selected {
                    effects = timeline.update(message);
                }
            },
        }
        effects
    }

    /// Fetches this page needs running: the followed list while logged in
    /// and not yet loaded, and the selected tag's timeline fetch.
    pub fn subscriptions(&self) -> (feeds: (Option<Feed>, Option<Feed>))
        ensures
            feeds == (own_feed(*self), timeline::opt_feed_of(self.selected)),
    {
        let tags = if self.is_authenticated() && !self.loaded {
            Some(Feed::FollowedTags(self.mastodon.copy()))
        } else {
            None
        };
        let timeline = match &self.selected {
            Some(timeline) => timeline.subscription(),
            None => None,
        };
        (tags, timeline)
    }
}

/// The follow button sends the request that flips the tag's current state:
/// following it unfollows, not following it follows; the page itself does
/// not change until the answer arrives.
pub proof fn toggle_follow_flips(
    old: Hashtags,
    name: String,
    following: bool,
    new: Hashtags,
    effects: Seq<Effect>,
)
    requires
        stepped(old, Message::ToggleFollow(name, following), new, effects),
    ensures
        following ==> effects == seq![Effect::Request(old.mastodon, Request::UnfollowTag(name))],
        !following ==> effects == seq![Effect::Request(old.mastodon, Request::FollowTag(name))],
        new == old,
{
}

/// The answer to a follow or unfollow decides how the tag is shown: a tag
/// confirmed followed is no longer listed as unfollowed, and one confirmed
/// unfollowed is.
pub proof fn follow_results_set_the_row(
    old: Hashtags,
    name: String,
    following: bool,
    new: Hashtags,
    effects: Seq<Effect>,
)
    requires
        stepped(old, Message::FollowResult(name, following), new, effects),
    ensures
        following ==> !names(new.unfollowed@).contains(name@),
        !following ==> names(new.unfollowed@).contains(name@),
        effects.len() == 0,
{
    broadcast use vstd::seq_lib::group_filter_ensures;

    if following {
        if names(new.unfollowed@).contains(name@) {
            let k = choose|k: int| 0 <= k < names(new.unfollowed@).len() && names(new.unfollowed@)[k] == name@;
            assert(timeline::other_than(name@)(new.unfollowed@[k]));
        }
    } else if !names(old.unfollowed@).contains(name@) {
        assert(names(new.unfollowed@)[new.unfollowed@.len() - 1] == name@);
    }
}

} // verus!
