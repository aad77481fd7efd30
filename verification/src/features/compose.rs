//! Compose dialog: new top-level posts and replies, with a content-warning
//! toggle, a visibility picker, and a character counter.

use vstd::prelude::*;
use crate::entities::StatusVisibility;
use crate::text::{concat, is_blank, is_blank_spec};
use vstd::string::*;

verus! {

/// State of the compose dialog. A new top-level post when
/// `in_reply_to_id` is `None`, a reply otherwise. `text` seeds the editor
/// when the dialog opens.
#[derive(Debug)]
pub struct State {
    pub in_reply_to_id: Option<String>,
    pub text: Option<String>,
    pub content_warning: bool,
    pub spoiler_text: String,
    pub visibility: StatusVisibility,
}

/// A fresh dialog: public, no content warning, nothing typed.
pub open spec fn is_blank_state(state: State) -> bool {
    &&& state.in_reply_to_id is None
    &&& state.text is None
    &&& !state.content_warning
    &&& state.spoiler_text@ == Seq::<char>::empty()
    &&& state.visibility == StatusVisibility::Public
}

/// A reply to `status_id`, with the editor seeded with `@username `.
pub open spec fn is_reply_to(state: State, status_id: Seq<char>, username: Seq<char>) -> bool {
    &&& state.in_reply_to_id is Some && state.in_reply_to_id->0@ == status_id
    &&& state.text is Some && state.text->0@ == "@"@ + username + " "@
    &&& !state.content_warning
    &&& state.spoiler_text@ == Seq::<char>::empty()
    &&& state.visibility == StatusVisibility::Public
}

pub open spec fn visibility_label_spec(visibility: StatusVisibility) -> Seq<char> {
    match visibility {
        StatusVisibility::Public => "Public"@,
        StatusVisibility::Unlisted => "Unlisted"@,
        StatusVisibility::Private => "Followers only"@,
        StatusVisibility::Direct => "Direct"@,
        StatusVisibility::Local => "Local"@,
    }
}

/// The visibilities the picker offers, in order.
pub open spec fn visibilities_spec() -> Seq<StatusVisibility> {
    seq![
        StatusVisibility::Public,
        StatusVisibility::Unlisted,
        StatusVisibility::Private,
        StatusVisibility::Direct,
    ]
}

impl Default for State {
    fn default() -> (state: Self)
        ensures
            is_blank_state(state),
    {
        State {
            in_reply_to_id: None,
            text: None,
            content_warning: false,
            spoiler_text: String::new(),
            visibility: StatusVisibility::Public,
        }
    }
}

impl State {
    /// A reply to `status_id`, seeded with `@username `.
    pub fn reply(status_id: String, username: String) -> (state: Self)
        ensures
            is_reply_to(state, status_id@, username@),
    {
        let mut text = concat("@", username.as_str());
        text.append(" ");
        State {
            in_reply_to_id: Some(status_id),
            text: Some(text),
            content_warning: false,
            spoiler_text: String::new(),
            visibility: StatusVisibility::Public,
        }
    }

    pub fn copy(&self) -> (res: State)
        ensures
            res == *self,
    {
        State {
            in_reply_to_id: match &self.in_reply_to_id {
                Some(id) => Some(id.clone()),
                None => None,
            },
            text: match &self.text {
                Some(t) => Some(t.clone()),
                None => None,
            },
            content_warning: self.content_warning,
            spoiler_text: self.spoiler_text.clone(),
            visibility: self.visibility,
        }
    }

    /// The dialog after picking the visibility at `index` of the picker.
    pub fn with_visibility(&self, index: usize) -> (res: State)
        requires
            index < 4,
        ensures
            res == (State { visibility: visibilities_spec()[index as int], ..*self }),
    {
        let mut res = self.copy();
        res.visibility = visibilities()[index];
        res
    }

    /// The dialog after toggling the content warning.
    pub fn with_content_warning(&self, on: bool) -> (res: State)
        ensures
            res == (State { content_warning: on, ..*self }),
    {
        let mut res = self.copy();
        res.content_warning = on;
        res
    }

    /// The dialog after editing the content-warning text.
    pub fn with_spoiler_text(&self, text: String) -> (res: State)
        ensures
            res == (State { spoiler_text: text, ..*self }),
    {
        let mut res = self.copy();
        res.spoiler_text = text;
        res
    }

    /// Whether the dialog answers another status.
    pub fn is_reply(&self) -> (res: bool)
        ensures
            res == self.in_reply_to_id is Some,
    {
        self.in_reply_to_id.is_some()
    }

    /// Position of the current visibility in the picker, if it offers it.
    pub fn selected_visibility(&self) -> (index: Option<usize>)
        ensures
            match index {
                Some(i) => i < 4 && visibilities_spec()[i as int] == self.visibility,
                None => self.visibility == StatusVisibility::Local,
            },
    {
        match self.visibility {
            StatusVisibility::Public => Some(0),
            StatusVisibility::Unlisted => Some(1),
            StatusVisibility::Private => Some(2),
            StatusVisibility::Direct => Some(3),
            StatusVisibility::Local => None,
        }
    }

    /// The content warning sent with the post: the spoiler text when the
    /// warning is on.
    pub fn spoiler(&self) -> (res: Option<String>)
        ensures
            res == if self.content_warning {
                Some(self.spoiler_text)
            } else {
                None
            },
    {
        if self.content_warning {
            Some(self.spoiler_text.clone())
        } else {
            None
        }
    }
}

/// The visibilities the picker offers, in order.
pub fn visibilities() -> (list: Vec<StatusVisibility>)
    ensures
        list@ == visibilities_spec(),
{
    let mut list = Vec::new();
    list.push(StatusVisibility::Public);
    list.push(StatusVisibility::Unlisted);
    list.push(StatusVisibility::Private);
    list.push(StatusVisibility::Direct);
    assert(list@ =~= visibilities_spec());
    list
}

pub fn visibility_label(visibility: StatusVisibility) -> (label: &'static str)
    ensures
        label@ == visibility_label_spec(visibility),
{
    match visibility {
        StatusVisibility::Public => "Public",
        StatusVisibility::Unlisted => "Unlisted",
        StatusVisibility::Private => "Followers only",
        StatusVisibility::Direct => "Direct",
        StatusVisibility::Local => "Local",
    }
}

/// Characters left before the instance's limit (negative when over it).
pub fn remaining(max_characters: u32, text: &str) -> (left: i64)
    requires
        text@.len() < 0x4000_0000_0000_0000,
    ensures
        left == max_characters - text@.len(),
{
    let used = text.unicode_len() as i64;
    max_characters as i64 - used
}

/// Whether the post button is enabled: something besides white space is
/// typed and the text fits the limit.
pub fn can_post(max_characters: u32, text: &str) -> (res: bool)
    requires
        text@.len() < 0x4000_0000_0000_0000,
    ensures
        res == (!is_blank_spec(text@) && max_characters - text@.len() >= 0),
{
    !is_blank(text) && remaining(max_characters, text) >= 0
}

} // verus!
