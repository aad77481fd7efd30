//! Account profile: bio, profile fields, and follow/mute/block actions.

use vstd::prelude::*;
use crate::app::Effect;
use crate::cache::Cache;
use crate::entities::{Account, Relationship};
use crate::render::{capitalize, capitalized, render_html, rendered_html, TEXT_WIDTH};

verus! {

#[derive(Debug)]
pub enum Message {
    Open(String),
    /// (account id, currently following)
    Follow(String, bool),
    /// (account id, currently muting)
    Mute(String, bool),
    /// (account id, currently blocking)
    Block(String, bool),
}

/// Handles [`Message::Open`] by opening the URL; follow, mute and block are
/// carried out at the application level, so nothing happens for them here.
pub fn update(message: Message) -> (effects: Vec<Effect>)
    ensures
        match message {
            Message::Open(url) => effects@ == seq![Effect::OpenUrl(url)],
            _ => effects@.len() == 0,
        },
{
    let mut effects = Vec::new();
    if let Message::Open(url) = message {
        effects.push(Effect::OpenUrl(url));
    }
    effects
}

/// The follow/mute/block buttons of a profile.
#[derive(Debug)]
pub struct RelationshipActions {
    pub following: bool,
    pub muting: bool,
    pub blocking: bool,
    pub follow_label: &'static str,
    pub mute_label: &'static str,
    pub block_label: &'static str,
    pub follow: Message,
    pub mute: Message,
    pub block: Message,
}

/// `actions` are the buttons for `account` given whether the user follows,
/// mutes and blocks it: each button is labelled and acts by its state.
pub open spec fn buttons_for(
    actions: RelationshipActions,
    account: Account,
    following: bool,
    muting: bool,
    blocking: bool,
) -> bool {
    &&& actions.following == following
    &&& actions.muting == muting
    &&& actions.blocking == blocking
    &&& actions.follow_label@ == if following {
        "Unfollow"@
    } else {
        "Follow"@
    }
    &&& actions.mute_label@ == if muting {
        "Unmute"@
    } else {
        "Mute"@
    }
    &&& actions.block_label@ == if blocking {
        "Unblock"@
    } else {
        "Block"@
    }
    &&& actions.follow == Message::Follow(account.id, following)
    &&& actions.mute == Message::Mute(account.id, muting)
    &&& actions.block == Message::Block(account.id, blocking)
}

/// The buttons for `account`, given what is known of the relationship (an
/// unknown relationship counts as not following, muting or blocking).
pub fn relationship_actions(account: &Account, relationship: Option<&Relationship>) -> (actions:
    RelationshipActions)
    ensures
        buttons_for(
            actions,
            *account,
            relationship is Some && relationship->0.following,
            relationship is Some && relationship->0.muting,
            relationship is Some && relationship->0.blocking,
        ),
{
    let (following, muting, blocking) = match relationship {
        Some(r) => (r.following, r.muting, r.blocking),
        None => (false, false, false),
    };
    RelationshipActions {
        following,
        muting,
        blocking,
        follow_label: if following {
            "Unfollow"
        } else {
            "Follow"
        },
        mute_label: if muting {
            "Unmute"
        } else {
            "Mute"
        },
        block_label: if blocking {
            "Unblock"
        } else {
            "Block"
        },
        follow: Message::Follow(account.id.clone(), following),
        mute: Message::Mute(account.id.clone(), muting),
        block: Message::Block(account.id.clone(), blocking),
    }
}

/// Relationship buttons for a profile, from the cached relationship: none
/// on the user's own profile.
pub fn profile_actions(account: &Account, cache: &Cache) -> (actions: Option<RelationshipActions>)
    ensures
        (cache.me is Some && cache.me->0.id@ == account.id@) <==> actions is None,
        actions is Some ==> {
            let known = cache.relationships@.dom().contains(account.id@);
            let r = cache.relationships@[account.id@];
            buttons_for(
                actions->0,
                *account,
                known && r.following,
                known && r.muting,
                known && r.blocking,
            )
        },
{
    if cache.is_me(account.id.as_str()) {
        return None;
    }
    let relationship = match cache.relationships.get(account.id.as_str()) {
        Some(r) => Some(&**r),
        None => None,
    };
    Some(relationship_actions(account, relationship))
}

/// A profile field as shown: capitalized name, rendered value, and the
/// message pressing it sends (opening the rendered value).
#[derive(Debug)]
pub struct ProfileField {
    pub name: String,
    pub value: String,
    pub open: Message,
}

/// The rendered biography, when the account has one. `None` inside means
/// rendering failed.
pub fn bio(account: &Account) -> (text: Option<Option<String>>)
    ensures
        account.note@.len() == 0 <==> text is None,
        text matches Some(Some(t)) ==> rendered_html(account.note@, TEXT_WIDTH as nat) == Some(t@),
        text matches Some(None) ==> rendered_html(account.note@, TEXT_WIDTH as nat) is None,
{
    if account.note.as_str().is_empty() {
        None
    } else {
        Some(render_html(account.note.as_str(), TEXT_WIDTH))
    }
}

/// The profile fields as shown, or `None` when one fails to render.
pub fn profile_fields(account: &Account) -> (fields: Option<Vec<ProfileField>>)
    ensures
        match fields {
            Some(list) => list@.len() == account.fields@.len() && forall|i: int|
                0 <= i < list@.len() ==> {
                    &&& #[trigger] list@[i].name@ == capitalized(account.fields@[i].name@)
                    &&& rendered_html(account.fields@[i].value@, TEXT_WIDTH as nat) == Some(
                        list@[i].value@,
                    )
                    &&& list@[i].open == Message::Open(list@[i].value)
                },
            None => exists|i: int|
                0 <= i < account.fields@.len() && rendered_html(
                    #[trigger] account.fields@[i].value@,
                    TEXT_WIDTH as nat,
                ) is None,
        },
{
    let mut list: Vec<ProfileField> = Vec::new();
    let mut i: usize = 0;
    while i < account.fields.len()
        invariant
            i <= account.fields@.len(),
            list@.len() == i,
            forall|j: int|
                0 <= j < i ==> {
                    &&& #[trigger] list@[j].name@ == capitalized(account.fields@[j].name@)
                    &&& rendered_html(account.fields@[j].value@, TEXT_WIDTH as nat) == Some(
                        list@[j].value@,
                    )
                    &&& list@[j].open == Message::Open(list@[j].value)
                },
        decreases account.fields@.len() - i,
    {
        let field = &account.fields[i];
        match render_html(field.value.as_str(), TEXT_WIDTH) {
            Some(value) => {
                let open = Message::Open(value.clone());
                list.push(ProfileField { name: capitalize(field.name.as_str()), value, open });
            },
            None => {
                return None;
            },
        }
        i += 1;
    }
    Some(list)
}

/// Each relationship button acts as it is labelled, on the account shown:
/// it carries the current state, so a button labelled "Unfollow",
/// "Unmute" or "Unblock" undoes that state and the others set it.
pub proof fn buttons_act_as_labelled(
    actions: RelationshipActions,
    account: Account,
    following: bool,
    muting: bool,
    blocking: bool,
)
    requires
        buttons_for(actions, account, following, muting, blocking),
    ensures
        actions.follow matches Message::Follow(id, state) && id == account.id && state == following,
        actions.mute matches Message::Mute(id, state) && id == account.id && state == muting,
        actions.block matches Message::Block(id, state) && id == account.id && state == blocking,
        following <==> actions.follow_label@ == "Unfollow"@,
        muting <==> actions.mute_label@ == "Unmute"@,
        blocking <==> actions.block_label@ == "Unblock"@,
{
    reveal_strlit("Follow");
    reveal_strlit("Unfollow");
    reveal_strlit("Mute");
    reveal_strlit("Unmute");
    reveal_strlit("Block");
    reveal_strlit("Unblock");
    assert("Follow"@.len() != "Unfollow"@.len());
    assert("Mute"@.len() != "Unmute"@.len());
    assert("Block"@.len() != "Unblock"@.len());
}

} // verus!
