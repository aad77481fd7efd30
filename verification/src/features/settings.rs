//! Settings page: display preferences and account switching.

use vstd::prelude::*;
use crate::client::Session;
use crate::config::{FeedDensity, ThemeMode};

verus! {

#[derive(Debug)]
pub enum Message {
    ToggleHideBoosts(bool),
    ToggleHideReplies(bool),
    SetFeedDensity(FeedDensity),
    SetThemeMode(ThemeMode),
    SwitchAccount(usize),
    RemoveAccount(usize),
    AddAccount,
}

/// One row of the accounts section.
#[derive(Debug)]
pub struct AccountRow {
    pub base_url: String,
    /// Offered on every account but the active one.
    pub switch: Option<Message>,
    pub remove: Message,
}

/// The accounts section: every saved session, with a switch button on all
/// but the active one and a remove button on each.
pub fn account_rows(sessions: &Vec<Session>, active: usize) -> (rows: Vec<AccountRow>)
    ensures
        rows@.len() == sessions@.len(),
        forall|i: int|
            0 <= i < rows@.len() ==> {
                &&& #[trigger] rows@[i].base_url == sessions@[i].base_url
                &&& rows@[i].switch == if i == active {
                    None
                } else {
                    Some(Message::SwitchAccount(i as usize))
                }
                &&& rows@[i].remove == Message::RemoveAccount(i as usize)
            },
{
    let mut rows: Vec<AccountRow> = Vec::new();
    let mut i: usize = 0;
    while i < sessions.len()
        invariant
            i <= sessions@.len(),
            rows@.len() == i,
            forall|j: int|
                #![trigger rows@[j]]
                0 <= j < i ==> {
                    &&& rows@[j].base_url == sessions@[j].base_url
                    &&& rows@[j].switch == if j == active {
                        None
                    } else {
                        Some(Message::SwitchAccount(j as usize))
                    }
                    &&& rows@[j].remove == Message::RemoveAccount(j as usize)
                },
        decreases sessions@.len() - i,
    {
        let ghost before = rows@;
        let switch = if i != active {
            Some(Message::SwitchAccount(i))
        } else {
            None
        };
        rows.push(
            AccountRow {
                base_url: sessions[i].base_url.clone(),
                switch,
                remove: Message::RemoveAccount(i),
            },
        );
        assert forall|j: int| 0 <= j < i implies #[trigger] rows@[j] == before[j] by {}
        assert(rows@[i as int].base_url == sessions@[i as int].base_url);
        assert(rows@[i as int].remove == Message::RemoveAccount(i));
        assert(rows@[i as int].switch == if i == active {
            None
        } else {
            Some(Message::SwitchAccount(i))
        });
        i += 1;
    }
    rows
}

} // verus!
