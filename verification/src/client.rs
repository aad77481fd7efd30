//! Connection details of the active account and the saved sessions.

use vstd::prelude::*;
use crate::entities::same_opt_text;
use crate::text::concat;

verus! {

/// Where the client talks to and with which credentials.
pub struct Client {
    pub base_url: String,
    pub token: Option<String>,
}

/// The access token is present and not empty.
pub open spec fn token_usable(token: Option<String>) -> bool {
    match token {
        Some(t) => t@.len() > 0,
        None => false,
    }
}

/// The log description of a client: its base URL, and `<redacted>` in
/// place of a token.
pub open spec fn debug_text_spec(client: Client) -> Seq<char> {
    "Client { base_url: \""@ + client.base_url@ + "\", token: "@ + (if client.token is Some {
        "Some(\"<redacted>\")"@
    } else {
        "None"@
    }) + " }"@
}

/// The log description of a client depends on its token only through
/// whether it has one: two clients for one instance with different tokens
/// are described alike.
pub proof fn debug_text_hides_token(a: Client, b: Client)
    requires
        a.base_url@ == b.base_url@,
        a.token is Some == b.token is Some,
    ensures
        debug_text_spec(a) == debug_text_spec(b),
{
}

impl Client {
    pub fn new(base_url: String, token: Option<String>) -> (client: Self)
        ensures
            client.base_url == base_url,
            client.token == token,
    {
        Client { base_url, token }
    }

    /// Whether requests go out with a usable access token.
    pub fn is_authenticated(&self) -> (res: bool)
        ensures
            res == token_usable(self.token),
    {
        match &self.token {
            Some(token) => !token.as_str().is_empty(),
            None => false,
        }
    }

    /// A description of the client for logs, in the shape of a derived
    /// `Debug`, that shows the base URL but only whether there is a token,
    /// never the token itself.
    pub fn debug_text(&self) -> (text: String)
        ensures
            text@ == debug_text_spec(*self),
    {
        let mut text = concat("Client { base_url: \"", self.base_url.as_str());
        text.append("\", token: ");
        match &self.token {
            Some(_) => text.append("Some(\"<redacted>\")"),
            None => text.append("None"),
        }
        text.append(" }");
        text
    }

    /// A copy of the connection details.
    pub fn copy(&self) -> (res: Client)
        ensures
            res == *self,
    {
        Client {
            base_url: self.base_url.clone(),
            token: match &self.token {
                Some(t) => Some(t.clone()),
                None => None,
            },
        }
    }
}

impl PartialEq for Client {
    fn eq(&self, other: &Self) -> (res: bool) {
        self.base_url == other.base_url && crate::entities::opt_text_eq(&self.token, &other.token)
    }
}

impl vstd::std_specs::cmp::PartialEqSpecImpl for Client {
    open spec fn obeys_eq_spec() -> bool {
        true
    }

    open spec fn eq_spec(&self, other: &Client) -> bool {
        self.base_url@ == other.base_url@ && same_opt_text(self.token, other.token)
    }
}

/// One saved account.
#[derive(Debug, Clone)]
pub struct Session {
    pub base_url: String,
    pub token: String,
}

impl Session {
    pub fn copy(&self) -> (res: Session)
        ensures
            res == *self,
    {
        Session { base_url: self.base_url.clone(), token: self.token.clone() }
    }
}

/// All saved accounts, and which one is active.
#[derive(Debug, Clone)]
pub struct Sessions {
    pub active: usize,
    pub sessions: Vec<Session>,
}

/// What a [`Sessions`] holds.
pub ghost struct SessionsModel {
    pub active: int,
    pub sessions: Seq<Session>,
}

/// `i` is the first position whose session is for `url`.
pub open spec fn first_for_url(sessions: Seq<Session>, url: Seq<char>, i: int) -> bool {
    &&& 0 <= i < sessions.len()
    &&& sessions[i].base_url@ == url
    &&& forall|j: int| 0 <= j < i ==> #[trigger] sessions[j].base_url@ != url
}

impl SessionsModel {
    /// The active session, when `active` points at one.
    pub open spec fn active_session(self) -> Option<Session> {
        if 0 <= self.active < self.sessions.len() {
            Some(self.sessions[self.active])
        } else {
            None
        }
    }

    /// Replace the first session for the same instance, or add one, and
    /// make it active.
    pub open spec fn upsert(self, session: Session) -> SessionsModel {
        if exists|i: int| first_for_url(self.sessions, session.base_url@, i) {
            let i = choose|i: int| first_for_url(self.sessions, session.base_url@, i);
            SessionsModel { active: i, sessions: self.sessions.update(i, session) }
        } else {
            SessionsModel { active: self.sessions.len() as int, sessions: self.sessions.push(session) }
        }
    }

    /// Drop the session at `index`. A session removed before the active one
    /// keeps the same session active; removing the active one activates the
    /// previous session, or the one now at its position when it was the
    /// first. The active position never points past the remaining sessions.
    pub open spec fn remove(self, index: int) -> SessionsModel {
        if index < 0 || index >= self.sessions.len() {
            self
        } else {
            let rest = self.sessions.remove(index);
            let shifted = if index < self.active || (index == self.active && self.active > 0) {
                self.active - 1
            } else {
                self.active
            };
            SessionsModel {
                active: if rest.len() == 0 {
                    0
                } else if shifted < rest.len() {
                    shifted
                } else {
                    rest.len() - 1
                },
                sessions: rest,
            }
        }
    }

    /// No instance has two saved sessions.
    pub open spec fn urls_unique(self) -> bool {
        forall|i: int, j: int|
            0 <= i < j < self.sessions.len() ==> #[trigger] self.sessions[i].base_url@
                != #[trigger] self.sessions[j].base_url@
    }
}

impl View for Sessions {
    type V = SessionsModel;

    open spec fn view(&self) -> SessionsModel {
        SessionsModel { active: self.active as int, sessions: self.sessions@ }
    }
}

impl Default for Sessions {
    fn default() -> (sessions: Self)
        ensures
            sessions@ == (SessionsModel { active: 0, sessions: Seq::empty() }),
    {
        Sessions { active: 0, sessions: Vec::new() }
    }
}

impl Sessions {
    /// The stored keychain payload, read either as the full account list
    /// or, failing that, as a single session from before several accounts
    /// could be saved.
    pub fn from_payload(full: Option<Sessions>, single: Option<Session>) -> (res: Option<Sessions>)
        ensures
            full is Some ==> res == full,
            full is None && single is Some ==> res is Some && res->0@ == (SessionsModel {
                active: 0,
                sessions: seq![single->0],
            }),
            full is None && single is None ==> res is None,
    {
        if full.is_some() {
            return full;
        }
        match single {
            Some(session) => {
                let mut list = Vec::new();
                list.push(session);
                assert(list@ =~= seq![single->0]);
                Some(Sessions { active: 0, sessions: list })
            },
            None => None,
        }
    }

    /// The active session, if `active` points at one.
    pub fn active_session(&self) -> (res: Option<&Session>)
        ensures
            match res {
                Some(s) => self@.active_session() == Some(*s),
                None => self@.active_session() is None,
            },
    {
        if self.active < self.sessions.len() {
            Some(&self.sessions[self.active])
        } else {
            None
        }
    }

    /// Add a session, or replace an existing one for the same instance, and
    /// make it the active one.
    pub fn upsert_active(&mut self, session: Session)
        ensures
            final(self)@ == old(self)@.upsert(session),
    {
        let found = self.find_url(&session.base_url);
        let ghost url = session.base_url@;
        if let Some(index) = found {
            proof {
                let c = choose|i: int| first_for_url(old(self)@.sessions, url, i);
                if c < index {
                } else if c > index {
                    assert(old(self)@.sessions[index as int].base_url@ != url);
                }
            }
            self.sessions.set(index, session);
            self.active = index;
        } else {
            assert(!exists|i: int| first_for_url(old(self)@.sessions, url, i));
            self.sessions.push(session);
            self.active = self.sessions.len() - 1;
        }
    }

    /// Position of the first session for `url`, if any.
    fn find_url(&self, url: &String) -> (res: Option<usize>)
        ensures
            match res {
                Some(i) => first_for_url(self@.sessions, url@, i as int),
                None => forall|i: int| 0 <= i < self@.sessions.len() ==> #[trigger] self@.sessions[i].base_url@ != url@,
            },
    {
        let mut index: usize = 0;
        while index < self.sessions.len()
            invariant
                index <= self.sessions@.len(),
                forall|j: int| 0 <= j < index ==> #[trigger] self.sessions@[j].base_url@ != url@,
            decreases self.sessions@.len() - index,
        {
            if self.sessions[index].base_url == *url {
                return Some(index);
            }
            index += 1;
        }
        None
    }

    /// Remove the session at `index`. If it was the active one, activate the
    /// previous session (or the new one at the same position), if any remain;
    /// removing another session keeps the same session active.
    pub fn remove(&mut self, index: usize)
        ensures
            final(self)@ == old(self)@.remove(index as int),
    {
        if index >= self.sessions.len() {
            return;
        }
        self.sessions.remove(index);
        if self.sessions.len() == 0 {
            self.active = 0;
        } else {
            if index < self.active || (index == self.active && self.active > 0) {
                self.active = self.active - 1;
            }
            if self.active >= self.sessions.len() {
                self.active = self.sessions.len() - 1;
            }
        }
    }
}

/// Upserting a session always makes it the active session.
pub proof fn upsert_activates(sessions: SessionsModel, session: Session)
    ensures
        sessions.upsert(session).active_session() == Some(session),
{
}

/// Upserting the same session twice is the same as upserting it once.
pub proof fn upsert_idempotent(sessions: SessionsModel, session: Session)
    ensures
        sessions.upsert(session).upsert(session) == sessions.upsert(session),
{
    let url = session.base_url@;
    let once = sessions.upsert(session);
    if exists|k: int| first_for_url(sessions.sessions, url, k) {
        let k = choose|k: int| first_for_url(sessions.sessions, url, k);
        assert forall|j: int| 0 <= j < k implies #[trigger] once.sessions[j].base_url@ != url by {
            assert(once.sessions[j] == sessions.sessions[j]);
        }
        assert(first_for_url(once.sessions, url, once.active));
    } else {
        assert forall|j: int| 0 <= j < once.active implies #[trigger] once.sessions[j].base_url@
            != url by {
            assert(once.sessions[j] == sessions.sessions[j]);
            assert(!first_for_url(sessions.sessions, url, j));
            if once.sessions[j].base_url@ == url {
                lemma_first_exists(sessions.sessions, url, j);
            }
        }
        assert(first_for_url(once.sessions, url, once.active));
    }
    let twice = once.upsert(session);
    let c = choose|c: int| first_for_url(once.sessions, url, c);
    if c < once.active {
        assert(once.sessions[c].base_url@ != url);
    } else if c > once.active {
        assert(once.sessions[once.active].base_url@ != url);
    }
    assert(twice.sessions =~= once.sessions);
}

/// Upserting keeps every instance saved at most once.
pub proof fn upsert_keeps_urls_unique(sessions: SessionsModel, session: Session)
    requires
        sessions.urls_unique(),
    ensures
        sessions.upsert(session).urls_unique(),
{
    let url = session.base_url@;
    let after = sessions.upsert(session);
    if exists|k: int| first_for_url(sessions.sessions, url, k) {
        let k = choose|k: int| first_for_url(sessions.sessions, url, k);
        assert forall|i: int, j: int|
            0 <= i < j < after.sessions.len() implies #[trigger] after.sessions[i].base_url@
            != #[trigger] after.sessions[j].base_url@ by {
            if i == k {
                assert(sessions.sessions[k].base_url@ != sessions.sessions[j].base_url@);
            } else if j == k {
                assert(sessions.sessions[i].base_url@ != sessions.sessions[k].base_url@);
            } else {
                assert(sessions.sessions[i].base_url@ != sessions.sessions[j].base_url@);
            }
        }
    } else {
        let n = sessions.sessions.len() as int;
        assert forall|i: int, j: int|
            0 <= i < j < after.sessions.len() implies #[trigger] after.sessions[i].base_url@
            != #[trigger] after.sessions[j].base_url@ by {
            if j == n {
                if sessions.sessions[i].base_url@ == url {
                    lemma_first_exists(sessions.sessions, url, i);
                }
            } else {
                assert(sessions.sessions[i].base_url@ != sessions.sessions[j].base_url@);
            }
        }
    }
}

/// Removing a saved session keeps every instance saved at most once.
pub proof fn remove_keeps_urls_unique(sessions: SessionsModel, index: int)
    requires
        sessions.urls_unique(),
    ensures
        sessions.remove(index).urls_unique(),
{
    let after = sessions.remove(index);
    if 0 <= index < sessions.sessions.len() {
        assert forall|i: int, j: int|
            0 <= i < j < after.sessions.len() implies #[trigger] after.sessions[i].base_url@
            != #[trigger] after.sessions[j].base_url@ by {
            let oi = if i < index { i } else { i + 1 };
            let oj = if j < index { j } else { j + 1 };
            assert(after.sessions[i] == sessions.sessions[oi]);
            assert(after.sessions[j] == sessions.sessions[oj]);
            assert(sessions.sessions[oi].base_url@ != sessions.sessions[oj].base_url@);
        }
    }
}

/// If some session is for `url`, one of them is the first.
proof fn lemma_first_exists(sessions: Seq<Session>, url: Seq<char>, i: int)
    requires
        0 <= i < sessions.len(),
        sessions[i].base_url@ == url,
    ensures
        exists|f: int| first_for_url(sessions, url, f),
    decreases i,
{
    if exists|j: int| 0 <= j < i && sessions[j].base_url@ == url {
        let j = choose|j: int| 0 <= j < i && sessions[j].base_url@ == url;
        lemma_first_exists(sessions, url, j);
    } else {
        assert(first_for_url(sessions, url, i));
    }
}

/// After removing a saved session, an active session exists whenever any
/// session is left.
pub proof fn remove_keeps_active_valid(sessions: SessionsModel, index: int)
    requires
        sessions.active >= 0,
        0 <= index < sessions.sessions.len(),
    ensures
        sessions.remove(index).sessions.len() == sessions.sessions.len() - 1,
        sessions.remove(index).sessions.len() > 0 ==> sessions.remove(index).active_session() is Some,
{
}

/// Removing the active session activates the previous session, or the one
/// now at the same position when the first session was removed.
pub proof fn remove_active_activates_previous(sessions: SessionsModel)
    requires
        0 <= sessions.active < sessions.sessions.len(),
        sessions.sessions.len() > 1,
    ensures
        sessions.active > 0 ==> sessions.remove(sessions.active).active_session() == Some(
            sessions.sessions[sessions.active - 1],
        ),
        sessions.active == 0 ==> sessions.remove(sessions.active).active_session() == Some(
            sessions.sessions[1],
        ),
{
}

/// Removing a session saved before the active one leaves the active session
/// as it was.
pub proof fn remove_earlier_keeps_active(sessions: SessionsModel, index: int)
    requires
        0 <= index < sessions.active < sessions.sessions.len(),
    ensures
        sessions.remove(index).active_session() == sessions.active_session(),
{
}

/// Removing a session saved after the active one leaves the active session
/// as it was.
pub proof fn remove_later_keeps_active(sessions: SessionsModel, index: int)
    requires
        0 <= sessions.active < index < sessions.sessions.len(),
    ensures
        sessions.remove(index).active_session() == sessions.active_session(),
{
}

/// Removing an index past the end changes nothing.
pub proof fn remove_out_of_range_is_identity(sessions: SessionsModel, index: int)
    requires
        index >= sessions.sessions.len(),
    ensures
        sessions.remove(index) == sessions,
{
}

} // verus!
