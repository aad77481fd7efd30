//! The parts of Mastodon's entities that the client's logic reads.
//!
//! The network layer converts what the server sends into these plain values;
//! everything else in the library works on them.

use vstd::prelude::*;
use std::rc::Rc;

verus! {

/// A name/value pair on a profile.
#[derive(Debug)]
pub struct Field {
    pub name: String,
    /// HTML.
    pub value: String,
}

/// A Mastodon account.
#[derive(Debug)]
pub struct Account {
    pub id: String,
    pub username: String,
    /// `username` for local accounts, `username@instance` for remote ones.
    pub acct: String,
    pub display_name: String,
    pub avatar: String,
    pub header: String,
    pub url: String,
    /// Profile biography, HTML.
    pub note: String,
    pub fields: Vec<Field>,
    pub followers_count: i32,
    pub following_count: u32,
    pub statuses_count: u32,
    /// Date the account was created, as shown on the profile.
    pub joined: String,
}

/// Link preview card attached to a status.
#[derive(Debug)]
pub struct Card {
    pub url: String,
    pub title: String,
    pub description: String,
    pub image: Option<String>,
}

#[derive(Debug, Clone, Copy, PartialEq, Eq, Structural)]
pub enum AttachmentType {
    Image,
    Gifv,
    Video,
    Audio,
    Unknown,
}

/// Media attached to a status.
#[derive(Debug)]
pub struct Attachment {
    pub kind: AttachmentType,
    pub url: String,
    pub preview_url: Option<String>,
}

/// A hashtag.
#[derive(Debug)]
pub struct Tag {
    pub name: String,
    pub url: String,
    /// Whether the authenticated user follows the tag, when known.
    pub following: Option<bool>,
}

#[derive(Debug, Clone, Copy, PartialEq, Eq, Structural)]
pub enum StatusVisibility {
    Public,
    Unlisted,
    Private,
    Direct,
    Local,
}

/// A post.
#[derive(Debug)]
pub struct Status {
    pub id: String,
    pub account: Account,
    /// The boosted status when this status is a boost.
    pub reblog: Option<Rc<Status>>,
    pub in_reply_to_id: Option<String>,
    /// HTML.
    pub content: String,
    pub card: Option<Card>,
    pub media_attachments: Vec<Attachment>,
    pub tags: Vec<Tag>,
    pub replies_count: u32,
    pub reblogs_count: u32,
    pub favourites_count: u32,
    pub reblogged: Option<bool>,
    pub favourited: Option<bool>,
    pub bookmarked: Option<bool>,
    pub visibility: StatusVisibility,
}

#[derive(Debug, Clone, Copy, PartialEq, Eq, Structural)]
pub enum NotificationType {
    Follow,
    FollowRequest,
    Mention,
    Reblog,
    Favourite,
    PollVote,
    PollExpired,
    Status,
    Reaction,
    Update,
    Move,
    AdminSignup,
    AdminReport,
    GroupInvited,
    App,
    Quote,
    QuotedUpdate,
    Unknown,
}

/// A notification.
#[derive(Debug)]
pub struct Notification {
    pub id: String,
    pub kind: NotificationType,
    pub account: Option<Account>,
    pub status: Option<Rc<Status>>,
}

/// The authenticated user's relationship to another account.
#[derive(Debug)]
pub struct Relationship {
    /// The other account's id.
    pub id: String,
    pub following: bool,
    pub muting: bool,
    pub blocking: bool,
}

/// A user list.
#[derive(Debug)]
pub struct UserList {
    pub id: String,
    pub title: String,
}

/// Search results.
#[derive(Debug)]
pub struct SearchResults {
    pub accounts: Vec<Account>,
    pub statuses: Vec<Status>,
    pub hashtags: Vec<Tag>,
}

/// An application registration with an instance, kept between the login
/// and authorization-code steps.
#[derive(Debug)]
pub struct Registration {
    pub client_id: String,
    pub client_secret: String,
    /// The authorization page the user must visit.
    pub url: Option<String>,
}

/// A downloaded image.
#[derive(Debug)]
pub struct ImageData {
    pub bytes: Vec<u8>,
}

/// Calls `Rc::clone`: another pointer to the same value.
#[verifier::external_body]
pub(crate) fn share<T>(value: &Rc<T>) -> (res: Rc<T>)
    ensures
        res == *value,
{
    Rc::clone(value)
}

/// Another pointer to the same optional value.
pub fn share_opt<T>(value: &Option<Rc<T>>) -> (res: Option<Rc<T>>)
    ensures
        res == *value,
{
    match value {
        Some(v) => Some(share(v)),
        None => None,
    }
}

/// Two optional strings hold the same text.
pub open spec fn same_opt_text(a: Option<String>, b: Option<String>) -> bool {
    match (a, b) {
        (Some(x), Some(y)) => x@ == y@,
        (None, None) => true,
        _ => false,
    }
}

pub open spec fn same_field(a: Field, b: Field) -> bool {
    a.name@ == b.name@ && a.value@ == b.value@
}

/// Two accounts hold the same data.
pub open spec fn same_account(a: Account, b: Account) -> bool {
    &&& a.id@ == b.id@
    &&& a.username@ == b.username@
    &&& a.acct@ == b.acct@
    &&& a.display_name@ == b.display_name@
    &&& a.avatar@ == b.avatar@
    &&& a.header@ == b.header@
    &&& a.url@ == b.url@
    &&& a.note@ == b.note@
    &&& a.fields@.len() == b.fields@.len()
    &&& forall|i: int| 0 <= i < a.fields@.len() ==> same_field(#[trigger] a.fields@[i], b.fields@[i])
    &&& a.followers_count == b.followers_count
    &&& a.following_count == b.following_count
    &&& a.statuses_count == b.statuses_count
    &&& a.joined@ == b.joined@
}

/// `a` is a field-by-field copy of `b`.
pub open spec fn copy_of_account(a: Account, b: Account) -> bool {
    &&& a.id == b.id
    &&& a.username == b.username
    &&& a.acct == b.acct
    &&& a.display_name == b.display_name
    &&& a.avatar == b.avatar
    &&& a.header == b.header
    &&& a.url == b.url
    &&& a.note == b.note
    &&& a.fields@ == b.fields@
    &&& a.followers_count == b.followers_count
    &&& a.following_count == b.following_count
    &&& a.statuses_count == b.statuses_count
    &&& a.joined == b.joined
}

/// Whether two optional strings hold the same text.
pub fn opt_text_eq(a: &Option<String>, b: &Option<String>) -> (res: bool)
    ensures
        res == same_opt_text(*a, *b),
{
    match a {
        Some(x) => match b {
            Some(y) => *x == *y,
            None => false,
        },
        None => b.is_none(),
    }
}

impl Field {
    pub fn copy(&self) -> (res: Field)
        ensures
            res == *self,
    {
        Field { name: self.name.clone(), value: self.value.clone() }
    }
}

/// Copies of every element of a vector of fields.
pub fn copy_fields(fields: &Vec<Field>) -> (res: Vec<Field>)
    ensures
        res@ == fields@,
{
    let mut res: Vec<Field> = Vec::new();
    let mut i: usize = 0;
    while i < fields.len()
        invariant
            i <= fields@.len(),
            res@ == fields@.take(i as int),
        decreases fields@.len() - i,
    {
        res.push(fields[i].copy());
        assert(fields@.take(i + 1) =~= fields@.take(i as int).push(fields@[i as int]));
        i += 1;
    }
    assert(fields@.take(fields@.len() as int) =~= fields@);
    res
}

impl Account {
    /// Whether the two accounts hold the same data.
    pub fn same_as(&self, other: &Account) -> (res: bool)
        ensures
            res == same_account(*self, *other),
    {
        if !(self.id == other.id && self.username == other.username && self.acct == other.acct
            && self.display_name == other.display_name && self.avatar == other.avatar
            && self.header == other.header && self.url == other.url && self.note == other.note
            && self.followers_count == other.followers_count
            && self.following_count == other.following_count
            && self.statuses_count == other.statuses_count && self.joined == other.joined
            && self.fields.len() == other.fields.len()) {
            return false;
        }
        let mut i: usize = 0;
        while i < self.fields.len()
            invariant
                i <= self.fields@.len(),
                self.fields@.len() == other.fields@.len(),
                forall|j: int| 0 <= j < i ==> same_field(#[trigger] self.fields@[j], other.fields@[j]),
            decreases self.fields@.len() - i,
        {
            if !(self.fields[i].name == other.fields[i].name
                && self.fields[i].value == other.fields[i].value) {
                return false;
            }
            i += 1;
        }
        true
    }

    pub fn copy(&self) -> (res: Account)
        ensures
            copy_of_account(res, *self),
    {
        Account {
            id: self.id.clone(),
            username: self.username.clone(),
            acct: self.acct.clone(),
            display_name: self.display_name.clone(),
            avatar: self.avatar.clone(),
            header: self.header.clone(),
            url: self.url.clone(),
            note: self.note.clone(),
            fields: copy_fields(&self.fields),
            followers_count: self.followers_count,
            following_count: self.following_count,
            statuses_count: self.statuses_count,
            joined: self.joined.clone(),
        }
    }
}

} // verus!
