//! Application-level state and message handling: navigation, dialogs, the
//! context drawer, login and account switching, and the requests and
//! effects every message turns into.

use vstd::prelude::*;
use crate::cache::Cache;
use crate::client::{token_usable, Client, Session, Sessions, SessionsModel};
use crate::config::{FeedDensity, ThemeMode, TootConfig};
use crate::entities::{
    same_account, Account, ImageData, Notification, Registration, Relationship, SearchResults,
    Status, StatusVisibility, Tag, UserList,
};
use crate::features::{accounts, compose, hashtags, lists, notifications, search, settings, status, timeline};
use crate::features::timeline::{Timeline, TimelineKind};
use crate::text::{
    concat, has_prefix, owned, str_eq, strip_prefix_all, strip_suffix_char, trim,
    trim_end_matches_char, trim_end_spec, trim_spec, trim_start_matches, trim_start_spec,
    whitespace,
};
use vstd::string::*;

verus! {

/// A navigation destination.
#[derive(Debug, Clone, Copy, PartialEq, Eq, Structural)]
pub enum Page {
    Home,
    Notifications,
    Search,
    Favorites,
    Bookmarks,
    Hashtags,
    Lists,
    Explore,
    Local,
    Federated,
}

impl Default for Page {
    fn default() -> (page: Self)
        ensures
            page == Page::Home,
    {
        Page::Home
    }
}

pub open spec fn public_pages() -> Seq<Page> {
    seq![Page::Explore, Page::Local, Page::Federated, Page::Search, Page::Hashtags]
}

pub open spec fn all_pages() -> Seq<Page> {
    seq![
        Page::Home,
        Page::Notifications,
        Page::Search,
        Page::Favorites,
        Page::Bookmarks,
        Page::Hashtags,
        Page::Lists,
        Page::Explore,
        Page::Local,
        Page::Federated,
    ]
}

pub open spec fn page_icon(page: Page) -> Seq<char> {
    match page {
        Page::Home => "user-home-symbolic"@,
        Page::Notifications => "emblem-important-symbolic"@,
        Page::Search => "folder-saved-search-symbolic"@,
        Page::Favorites => "starred-symbolic"@,
        Page::Bookmarks => "bookmark-new-symbolic"@,
        Page::Hashtags => "lang-include-symbolic"@,
        Page::Lists => "view-list-symbolic"@,
        Page::Explore => "find-location-symbolic"@,
        Page::Local => "network-server-symbolic"@,
        Page::Federated => "network-workgroup-symbolic"@,
    }
}

impl Page {
    /// The pages offered without a login.
    pub fn public_variants() -> (pages: Vec<Page>)
        ensures
            pages@ == public_pages(),
    {
        let pages = vec![Page::Explore, Page::Local, Page::Federated, Page::Search, Page::Hashtags];
        assert(pages@ =~= public_pages());
        pages
    }

    /// The pages offered with a login.
    pub fn variants() -> (pages: Vec<Page>)
        ensures
            pages@ == all_pages(),
    {
        let pages = vec![
            Page::Home,
            Page::Notifications,
            Page::Search,
            Page::Favorites,
            Page::Bookmarks,
            Page::Hashtags,
            Page::Lists,
            Page::Explore,
            Page::Local,
            Page::Federated,
        ];
        assert(pages@ =~= all_pages());
        pages
    }

    pub fn icon(&self) -> (name: &'static str)
        ensures
            name@ == page_icon(*self),
    {
        match self {
            Page::Home => "user-home-symbolic",
            Page::Notifications => "emblem-important-symbolic",
            Page::Search => "folder-saved-search-symbolic",
            Page::Favorites => "starred-symbolic",
            Page::Bookmarks => "bookmark-new-symbolic",
            Page::Hashtags => "lang-include-symbolic",
            Page::Lists => "view-list-symbolic",
            Page::Explore => "find-location-symbolic",
            Page::Local => "network-server-symbolic",
            Page::Federated => "network-workgroup-symbolic",
        }
    }
}

/// Every page offered without a login is also offered with one.
pub proof fn public_pages_are_pages()
    ensures
        forall|i: int| 0 <= i < public_pages().len() ==> all_pages().contains(#[trigger] public_pages()[i]),
{
    assert(all_pages()[7] == Page::Explore);
    assert(all_pages()[8] == Page::Local);
    assert(all_pages()[9] == Page::Federated);
    assert(all_pages()[2] == Page::Search);
    assert(all_pages()[5] == Page::Hashtags);
}

/// The navigation bar: the pages offered and the active one.
#[derive(Debug)]
pub struct Nav {
    pub pages: Vec<Page>,
    pub active: usize,
}

impl Nav {
    /// The pages for a logged-in or logged-out user, the first one active.
    pub fn for_login(authenticated: bool) -> (nav: Nav)
        ensures
            nav.pages@ == if authenticated {
                all_pages()
            } else {
                public_pages()
            },
            nav.active == 0,
    {
        let pages = if authenticated {
            Page::variants()
        } else {
            Page::public_variants()
        };
        Nav { pages, active: 0 }
    }

    /// The active page, if the active position holds one.
    pub fn active_page(&self) -> (page: Option<Page>)
        ensures
            page == if self.active < self.pages@.len() {
                Some(self.pages@[self.active as int])
            } else {
                None
            },
    {
        if self.active < self.pages.len() {
            Some(self.pages[self.active])
        } else {
            None
        }
    }
}

/// What the context drawer shows.
#[derive(Debug)]
pub enum ContextPage {
    About,
    Account(Account),
    Status(String),
    Settings,
}

impl Default for ContextPage {
    fn default() -> (page: Self)
        ensures
            page is About,
    {
        ContextPage::About
    }
}

/// Two context pages show the same thing.
pub open spec fn same_context(a: ContextPage, b: ContextPage) -> bool {
    match (a, b) {
        (ContextPage::About, ContextPage::About) => true,
        (ContextPage::Settings, ContextPage::Settings) => true,
        (ContextPage::Status(x), ContextPage::Status(y)) => x@ == y@,
        (ContextPage::Account(x), ContextPage::Account(y)) => same_account(x, y),
        _ => false,
    }
}

impl ContextPage {
    /// Whether the two pages show the same thing.
    pub fn same_as(&self, other: &ContextPage) -> (res: bool)
        ensures
            res == same_context(*self, *other),
    {
        match self {
            ContextPage::About => matches!(other, ContextPage::About),
            ContextPage::Settings => matches!(other, ContextPage::Settings),
            ContextPage::Status(x) => match other {
                ContextPage::Status(y) => *x == *y,
                _ => false,
            },
            ContextPage::Account(x) => match other {
                ContextPage::Account(y) => x.same_as(y),
                _ => false,
            },
        }
    }
}

/// A modal dialog.
#[derive(Debug)]
pub enum Dialog {
    Compose(compose::State),
    SwitchInstance(String),
    Login(String),
    Code(String),
    Logout,
    DeleteStatus(String),
    /// An image attachment: (preview URL, full-size URL).
    Image(String, String),
}

#[derive(Debug)]
pub enum DialogAction {
    Open(Dialog),
    Update(Dialog),
    Close,
    Complete,
}

/// Entries of the header's "View" menu.
#[derive(Clone, Copy, Debug, PartialEq, Eq, Structural)]
pub enum MenuAction {
    About,
    Settings,
}

impl MenuAction {
    pub fn message(&self) -> (message: Message)
        ensures
            message == match *self {
                MenuAction::About => Message::ToggleContextPage(ContextPage::About),
                MenuAction::Settings => Message::ToggleContextPage(ContextPage::Settings),
            },
    {
        match self {
            MenuAction::About => Message::ToggleContextPage(ContextPage::About),
            MenuAction::Settings => Message::ToggleContextPage(ContextPage::Settings),
        }
    }
}

pub enum Message {
    Open(String),
    ToggleContextPage(ContextPage),
    ToggleContextDrawer,
    UpdateConfig(TootConfig),
    InstanceEdit,
    RegisterMastodonClient,
    CompleteRegistration,
    StoreMastodonData(Client),
    StoreRegistration(Option<Registration>),
    Home(timeline::Message),
    Notifications(notifications::Message),
    Explore(timeline::Message),
    Local(timeline::Message),
    Federated(timeline::Message),
    Favorites(timeline::Message),
    Bookmarks(timeline::Message),
    Hashtags(hashtags::Message),
    Lists(lists::Message),
    Search(search::Message),
    Settings(settings::Message),
    Account(accounts::Message),
    Status(status::Message),
    Fetch(Vec<String>),
    CacheStatus(Status),
    CacheNotification(Notification),
    CacheRelationship(Relationship),
    CacheHandle(String, ImageData),
    Dialog(DialogAction),
    /// The compose editor now holds this text.
    EditorEdited(String),
    UpdateMastodonInstance,
    /// The authenticated account, cached right after login.
    SetAccount(Account),
    /// The instance's max status length, fetched right after login.
    SetMaxCharacters(u32),
    /// A status was deleted on the server; remove it from the cache.
    StatusDeleted(String),
    /// The account list was written to the keychain (or failed to be);
    /// on success the client, if any, becomes the active one.
    SessionsSaved(Option<Client>, Result<(), String>),
    /// A recoverable error to surface to the user.
    Error(String),
    /// Nothing to do.
    Noop,
}

/// A preference written to the config store.
#[derive(Debug)]
pub enum ConfigChange {
    Server(String),
    HideBoosts(bool),
    HideReplies(bool),
    FeedDensity(FeedDensity),
    ThemeMode(ThemeMode),
}

/// A request to the Mastodon API.
#[derive(Debug)]
pub enum Request {
    Follow(String),
    Unfollow(String),
    Mute(String),
    Unmute(String),
    Block(String),
    Unblock(String),
    Favourite(String),
    Unfavourite(String),
    Reblog(String),
    Unreblog(String),
    Bookmark(String),
    Unbookmark(String),
    /// The relationship to one account.
    Relationship(String),
    /// Register this application with the instance.
    RegisterApp,
    FetchAccessToken { client_id: String, client_secret: String, code: String },
    PostStatus {
        text: String,
        in_reply_to_id: Option<String>,
        spoiler_text: Option<String>,
        visibility: StatusVisibility,
    },
    DeleteStatus(String),
    DismissNotifications,
    AcceptFollowRequest(String),
    RejectFollowRequest(String),
    FollowTag(String),
    UnfollowTag(String),
    Search(String),
    VerifyCredentials,
    InstanceInfo,
}

/// What the server answered to a [`Request`].
#[derive(Debug)]
pub enum Response {
    Relationship(Relationship),
    Relationships(Vec<Relationship>),
    Status(Status),
    /// A post scheduled for later rather than published.
    Scheduled,
    Registration(Registration),
    AccessToken(String),
    Account(Account),
    MaxCharacters(u32),
    Tag(Tag),
    Results(SearchResults),
    /// An answer with nothing the client uses.
    Done,
}

/// Something the application layer must carry out.
pub enum Effect {
    /// Feed a message back into [`AppModel::update`].
    Send(Message),
    /// Send a request with a client; its answer goes through [`reply`].
    Request(Client, Request),
    /// Download an image; it comes back as [`Message::CacheHandle`].
    FetchImage(String),
    /// Open a URL in the browser.
    OpenUrl(String),
    /// Write the account list to the keychain; the outcome comes back as
    /// [`Message::SessionsSaved`] with the client given here.
    PersistSessions(Option<Client>),
    /// Write a preference to the config store.
    SaveConfig(ConfigChange),
    /// Title the window after the application and the active page.
    UpdateTitle(Option<Page>),
    /// Replace the compose editor's text.
    SetEditorText(String),
    /// Show an error notice.
    Toast(String),
}

/// A fetch a page keeps running while it is shown.
pub enum Feed {
    Timeline { client: Client, kind: TimelineKind, max_id: Option<String> },
    Notifications { client: Client, max_id: Option<String> },
    FollowedTags(Client),
    Lists(Client),
}

/// Which part of the application a feed delivers to.
#[derive(Debug, Clone, Copy, PartialEq, Eq, Structural)]
pub enum Route {
    Home,
    Notifications,
    Explore,
    Local,
    Federated,
    Favorites,
    Bookmarks,
    FollowedTags,
    TagTimeline,
    Lists,
    ListTimeline,
    SearchTimeline,
}

/// What a feed fetched.
#[derive(Debug)]
pub enum FeedOutcome {
    Statuses(Result<Vec<Status>, String>),
    Notifications(Result<Vec<Notification>, String>),
    Tags(Result<Vec<Tag>, String>),
    Lists(Result<Vec<UserList>, String>),
}

/// An event from the user's live stream.
#[derive(Debug)]
pub enum StreamEvent {
    Update(Status),
    Notification(Notification),
    Conversation,
    Delete(String),
    StatusUpdate(Status),
    Heartbeat,
}

/// The message a live-stream event becomes: new posts and deletions go to
/// the home timeline, notifications to the notifications page; other
/// events are ignored.
pub fn stream_message(event: StreamEvent) -> (message: Option<Message>)
    ensures
        match event {
            StreamEvent::Update(s) => message == Some(
                Message::Home(timeline::Message::PrependStatus(s)),
            ),
            StreamEvent::Notification(n) => message == Some(
                Message::Notifications(notifications::Message::PrependNotification(n)),
            ),
            StreamEvent::Delete(id) => message == Some(
                Message::Home(timeline::Message::DeleteStatus(id)),
            ),
            _ => message is None,
        },
{
    match event {
        StreamEvent::Update(s) => Some(Message::Home(timeline::Message::PrependStatus(s))),
        StreamEvent::Notification(n) => Some(
            Message::Notifications(notifications::Message::PrependNotification(n)),
        ),
        StreamEvent::Delete(id) => Some(Message::Home(timeline::Message::DeleteStatus(id))),
        _ => None,
    }
}

/// An instance address as entered, reduced to host and path: white space,
/// leading schemes and trailing slashes removed.
pub open spec fn instance_host(raw: Seq<char>) -> Seq<char> {
    strip_suffix_char(
        strip_prefix_all(strip_prefix_all(trim_spec(raw), "https://"@), "http://"@),
        '/',
    )
}

/// The instance URL used for an address as entered: HTTPS, defaulting to
/// mastodon.social when nothing is entered.
pub open spec fn instance_url(raw: Seq<char>) -> Seq<char> {
    if instance_host(raw).len() == 0 {
        "https://mastodon.social"@
    } else {
        "https://"@ + instance_host(raw)
    }
}

/// Normalize an instance address to an HTTPS URL.
pub fn instance(raw: &str) -> (url: String)
    ensures
        url@ == instance_url(raw@),
{
    let host = trim_end_matches_char(
        trim_start_matches(trim_start_matches(trim(raw), "https://"), "http://"),
        '/',
    );
    if host.is_empty() {
        String::from_str("https://mastodon.social")
    } else {
        concat("https://", host)
    }
}

proof fn lemma_strip_suffix_char(s: Seq<char>, c: char)
    ensures
        strip_suffix_char(s, c).len() > 0 ==> strip_suffix_char(s, c).last() != c,
    decreases s.len(),
{
    if s.len() > 0 && s.last() == c {
        lemma_strip_suffix_char(s.drop_last(), c);
    }
}

/// Instance URLs always use HTTPS and never end in a slash.
pub proof fn instance_url_shape(raw: Seq<char>)
    ensures
        crate::text::has_prefix(instance_url(raw), "https://"@),
        instance_url(raw).len() > 8,
        instance_url(raw).last() != '/',
{
    reveal_strlit("https://mastodon.social");
    reveal_strlit("https://");
    lemma_strip_suffix_char(
        strip_prefix_all(strip_prefix_all(trim_spec(raw), "https://"@), "http://"@),
        '/',
    );
    assert(instance_url(raw).take(8) =~= "https://"@);
}

proof fn lemma_trim_keeps(s: Seq<char>)
    requires
        s.len() > 0,
        !whitespace(s[0]),
        !whitespace(s.last()),
    ensures
        trim_spec(s) == s,
{
    assert(trim_start_spec(s) == s);
    assert(trim_end_spec(s) == s);
}

proof fn lemma_strip_prefix_none(s: Seq<char>, p: Seq<char>)
    requires
        !has_prefix(s, p),
    ensures
        strip_prefix_all(s, p) == s,
{
}

proof fn lemma_strip_prefix_once(p: Seq<char>, s: Seq<char>)
    requires
        p.len() > 0,
        !has_prefix(s, p),
    ensures
        strip_prefix_all(p + s, p) == s,
{
    assert((p + s).take(p.len() as int) =~= p);
    assert((p + s).skip(p.len() as int) =~= s);
    lemma_strip_prefix_none(s, p);
}

proof fn lemma_strip_suffix_once(s: Seq<char>, c: char)
    requires
        s.len() > 0 ==> s.last() != c,
    ensures
        strip_suffix_char(s.push(c), c) == s,
        strip_suffix_char(s, c) == s,
{
    assert(strip_suffix_char(s, c) == s);
    assert(s.push(c).drop_last() =~= s);
    assert(s.push(c).last() == c);
}

/// A bare host name: not empty, without white space or `/`, and not
/// starting with a scheme.
pub open spec fn is_bare_host(h: Seq<char>) -> bool {
    &&& h.len() > 0
    &&& forall|i: int| 0 <= i < h.len() ==> !whitespace(#[trigger] h[i]) && h[i] != '/'
    &&& !has_prefix(h, "https://"@)
    &&& !has_prefix(h, "http://"@)
}

/// A host gives the same instance URL entered bare, with either scheme, or
/// with a trailing slash; and normalising that URL again changes nothing.
pub proof fn instance_ignores_scheme(h: Seq<char>)
    requires
        is_bare_host(h),
    ensures
        instance_url(h) == "https://"@ + h,
        instance_url("https://"@ + h) == "https://"@ + h,
        instance_url("http://"@ + h) == "https://"@ + h,
        instance_url("http://"@ + h + "/"@) == "https://"@ + h,
        instance_url(instance_url(h)) == instance_url(h),
{
    reveal_strlit("https://");
    reveal_strlit("http://");
    reveal_strlit("/");
    let hs = "https://"@;
    let ht = "http://"@;
    let last = h.len() - 1;
    assert(!whitespace(h[0]) && !whitespace(h[last]) && h[last] != '/');
    // bare
    lemma_trim_keeps(h);
    lemma_strip_prefix_none(h, hs);
    lemma_strip_prefix_none(h, ht);
    lemma_strip_suffix_once(h, '/');
    // https://h
    let a = hs + h;
    assert(a[0] == 'h');
    assert(a.last() == h[last]);
    lemma_trim_keeps(a);
    lemma_strip_prefix_once(hs, h);
    // http://h
    let b = ht + h;
    assert(b[0] == 'h');
    assert(b.last() == h[last]);
    lemma_trim_keeps(b);
    assert(!has_prefix(b, hs)) by {
        if has_prefix(b, hs) {
            assert(b.take(8)[4] == b[4]);
        }
    }
    lemma_strip_prefix_none(b, hs);
    lemma_strip_prefix_once(ht, h);
    // http://h/
    let hp = h.push('/');
    let c = ht + h + "/"@;
    assert(c =~= ht + hp);
    assert(c[0] == 'h');
    assert(c.last() == '/');
    lemma_trim_keeps(c);
    assert(!has_prefix(c, hs)) by {
        if has_prefix(c, hs) {
            assert(c.take(8)[4] == c[4]);
        }
    }
    lemma_strip_prefix_none(c, hs);
    assert(!has_prefix(hp, ht)) by {
        if has_prefix(hp, ht) {
            if h.len() >= 7 {
                assert(hp.take(7) =~= h.take(7));
            } else {
                assert(hp.take(7)[5] == hp[5]);
                assert(hp[5] == h[5]);
            }
        }
    }
    lemma_strip_prefix_once(ht, hp);
}

/// Prefix an error with what failed.
fn failure(what: &str, err: String) -> (message: Message)
    ensures
        message matches Message::Error(text) && text@ == what@ + err@,
{
    Message::Error(concat(what, err.as_str()))
}

/// What failed, for the notice shown when a request errs.
pub open spec fn failure_prefix(request: Request) -> Seq<char> {
    match request {
        Request::Follow(_) | Request::Unfollow(_) => "Couldn't update follow: "@,
        Request::Mute(_) | Request::Unmute(_) => "Couldn't update mute: "@,
        Request::Block(_) | Request::Unblock(_) => "Couldn't update block: "@,
        Request::Favourite(_) | Request::Unfavourite(_) => "Couldn't update favorite: "@,
        Request::Reblog(_) | Request::Unreblog(_) => "Couldn't update boost: "@,
        Request::Bookmark(_) | Request::Unbookmark(_) => "Couldn't update bookmark: "@,
        Request::Relationship(_) => "Couldn't load relationship: "@,
        Request::RegisterApp => "Couldn't register with server: "@,
        Request::FetchAccessToken { .. } => "Couldn't complete login: "@,
        Request::PostStatus { .. } => "Couldn't post: "@,
        Request::DeleteStatus(_) => "Couldn't delete post: "@,
        Request::DismissNotifications => "Couldn't clear notifications: "@,
        Request::AcceptFollowRequest(_) => "Couldn't accept follow: "@,
        Request::RejectFollowRequest(_) => "Couldn't reject follow: "@,
        Request::FollowTag(_) | Request::UnfollowTag(_) => "Couldn't update hashtag follow: "@,
        Request::Search(_) => "Search failed: "@,
        Request::VerifyCredentials => "Couldn't load account: "@,
        Request::InstanceInfo => "Couldn't load instance info: "@,
    }
}

fn failure_prefix_of(request: &Request) -> (prefix: &'static str)
    ensures
        prefix@ == failure_prefix(*request),
{
    match request {
        Request::Follow(_) | Request::Unfollow(_) => "Couldn't update follow: ",
        Request::Mute(_) | Request::Unmute(_) => "Couldn't update mute: ",
        Request::Block(_) | Request::Unblock(_) => "Couldn't update block: ",
        Request::Favourite(_) | Request::Unfavourite(_) => "Couldn't update favorite: ",
        Request::Reblog(_) | Request::Unreblog(_) => "Couldn't update boost: ",
        Request::Bookmark(_) | Request::Unbookmark(_) => "Couldn't update bookmark: ",
        Request::Relationship(_) => "Couldn't load relationship: ",
        Request::RegisterApp => "Couldn't register with server: ",
        Request::FetchAccessToken { .. } => "Couldn't complete login: ",
        Request::PostStatus { .. } => "Couldn't post: ",
        Request::DeleteStatus(_) => "Couldn't delete post: ",
        Request::DismissNotifications => "Couldn't clear notifications: ",
        Request::AcceptFollowRequest(_) => "Couldn't accept follow: ",
        Request::RejectFollowRequest(_) => "Couldn't reject follow: ",
        Request::FollowTag(_) | Request::UnfollowTag(_) => "Couldn't update hashtag follow: ",
        Request::Search(_) => "Search failed: ",
        Request::VerifyCredentials => "Couldn't load account: ",
        Request::InstanceInfo => "Couldn't load instance info: ",
    }
}

/// The message the answer to a successful request becomes; `None` for a
/// completed login, described by [`reply`] itself.
pub open spec fn success_message(request: Request, response: Response) -> Option<Message> {
    match request {
        Request::Follow(_) | Request::Unfollow(_) | Request::Mute(_) | Request::Unmute(_)
        | Request::Block(_) | Request::Unblock(_) | Request::AcceptFollowRequest(_)
        | Request::RejectFollowRequest(_) => Some(
            match response {
                Response::Relationship(r) => Message::CacheRelationship(r),
                _ => Message::Noop,
            },
        ),
        Request::Favourite(_) | Request::Unfavourite(_) | Request::Reblog(_) | Request::Unreblog(_)
        | Request::Bookmark(_) | Request::Unbookmark(_) | Request::PostStatus { .. } => Some(
            match response {
                Response::Status(s) => Message::CacheStatus(s),
                _ => Message::Noop,
            },
        ),
        Request::Relationship(_) => Some(
            match response {
                Response::Relationships(list) => if list@.len() > 0 {
                    Message::CacheRelationship(list@[0])
                } else {
                    Message::Noop
                },
                _ => Message::Noop,
            },
        ),
        Request::RegisterApp => Some(
            match response {
                Response::Registration(r) => Message::StoreRegistration(Some(r)),
                _ => Message::Noop,
            },
        ),
        Request::DeleteStatus(id) => Some(Message::StatusDeleted(id)),
        Request::DismissNotifications => Some(Message::Noop),
        Request::FollowTag(name) => Some(
            match response {
                Response::Tag(tag) => Message::Hashtags(
                    hashtags::Message::FollowResult(
                        name,
                        match tag.following {
                            Some(f) => f,
                            None => true,
                        },
                    ),
                ),
                _ => Message::Noop,
            },
        ),
        Request::UnfollowTag(name) => Some(
            match response {
                Response::Tag(tag) => Message::Hashtags(
                    hashtags::Message::FollowResult(
                        name,
                        match tag.following {
                            Some(f) => f,
                            None => false,
                        },
                    ),
                ),
                _ => Message::Noop,
            },
        ),
        Request::Search(_) => Some(
            match response {
                Response::Results(r) => Message::Search(search::Message::SetResults(r)),
                _ => Message::Noop,
            },
        ),
        Request::VerifyCredentials => Some(
            match response {
                Response::Account(a) => Message::SetAccount(a),
                _ => Message::Noop,
            },
        ),
        Request::InstanceInfo => Some(
            match response {
                Response::MaxCharacters(n) => Message::SetMaxCharacters(n),
                _ => Message::Noop,
            },
        ),
        Request::FetchAccessToken { .. } => match response {
            Response::AccessToken(_) => None,
            _ => Some(Message::Noop),
        },
    }
}

/// Turn the outcome of a request into the message that follows it: the
/// answer cached or applied on success, an error notice naming what failed
/// otherwise. A completed login becomes a client for the same instance with
/// the new access token.
pub fn reply(client: Client, request: Request, outcome: Result<Response, String>) -> (message: Message)
    ensures
        match outcome {
            Err(err) => message matches Message::Error(text) && text@ == failure_prefix(request)
                + err@,
            Ok(response) => match success_message(request, response) {
                Some(m) => message == m,
                None => {
                    &&& message matches Message::StoreMastodonData(c)
                    &&& response matches Response::AccessToken(token)
                    &&& message->StoreMastodonData_0.base_url == client.base_url
                    &&& message->StoreMastodonData_0.token == Some(response->AccessToken_0)
                },
            },
        },
{
    let response = match outcome {
        Err(err) => {
            let prefix = failure_prefix_of(&request);
            return failure(prefix, err);
        },
        Ok(response) => response,
    };
    match request {
        Request::Follow(_) | Request::Unfollow(_) | Request::Mute(_) | Request::Unmute(_)
        | Request::Block(_) | Request::Unblock(_) | Request::AcceptFollowRequest(_)
        | Request::RejectFollowRequest(_) => match response {
            Response::Relationship(r) => Message::CacheRelationship(r),
            _ => Message::Noop,
        },
        Request::Favourite(_) | Request::Unfavourite(_) | Request::Reblog(_) | Request::Unreblog(_)
        | Request::Bookmark(_) | Request::Unbookmark(_) | Request::PostStatus { .. } => match response {
            Response::Status(s) => Message::CacheStatus(s),
            _ => Message::Noop,
        },
        Request::Relationship(_) => match response {
            Response::Relationships(mut list) => {
                if list.len() > 0 {
                    Message::CacheRelationship(list.remove(0))
                } else {
                    Message::Noop
                }
            },
            _ => Message::Noop,
        },
        Request::RegisterApp => match response {
            Response::Registration(r) => Message::StoreRegistration(Some(r)),
            _ => Message::Noop,
        },
        Request::DeleteStatus(id) => Message::StatusDeleted(id),
        Request::DismissNotifications => Message::Noop,
        Request::FollowTag(name) => match response {
            Response::Tag(tag) => Message::Hashtags(
                hashtags::Message::FollowResult(
                    name,
                    match tag.following {
                        Some(f) => f,
                        None => true,
                    },
                ),
            ),
            _ => Message::Noop,
        },
        Request::UnfollowTag(name) => match response {
            Response::Tag(tag) => Message::Hashtags(
                hashtags::Message::FollowResult(
                    name,
                    match tag.following {
                        Some(f) => f,
                        None => false,
                    },
                ),
            ),
            _ => Message::Noop,
        },
        Request::Search(_) => match response {
            Response::Results(r) => Message::Search(search::Message::SetResults(r)),
            _ => Message::Noop,
        },
        Request::VerifyCredentials => match response {
            Response::Account(a) => Message::SetAccount(a),
            _ => Message::Noop,
        },
        Request::InstanceInfo => match response {
            Response::MaxCharacters(n) => Message::SetMaxCharacters(n),
            _ => Message::Noop,
        },
        Request::FetchAccessToken { .. } => match response {
            Response::AccessToken(token) => Message::StoreMastodonData(
                Client::new(client.base_url, Some(token)),
            ),
            _ => Message::Noop,
        },
    }
}

/// A timeline message addressed to the part of the application a route
/// names; routes that hold no timeline get nothing.
pub open spec fn route_timeline_spec(route: Route, m: timeline::Message) -> Message {
    match route {
        Route::Home => Message::Home(m),
        Route::Explore => Message::Explore(m),
        Route::Local => Message::Local(m),
        Route::Federated => Message::Federated(m),
        Route::Favorites => Message::Favorites(m),
        Route::Bookmarks => Message::Bookmarks(m),
        Route::TagTimeline => Message::Hashtags(hashtags::Message::Timeline(m)),
        Route::ListTimeline => Message::Lists(lists::Message::Timeline(m)),
        Route::SearchTimeline => Message::Search(search::Message::Timeline(m)),
        _ => Message::Noop,
    }
}

/// Wrap timeline messages for the part of the application a route names.
fn route_timeline(route: Route, messages: Vec<timeline::Message>) -> (routed: Vec<Message>)
    ensures
        routed@.len() == messages@.len(),
        forall|i: int|
            0 <= i < routed@.len() ==> #[trigger] routed@[i] == route_timeline_spec(route, messages@[i]),
{
    let mut messages = messages;
    let ghost all = messages@;
    let mut routed: Vec<Message> = Vec::new();
    let ghost mut taken: int = 0;
    while messages.len() > 0
        invariant
            0 <= taken <= all.len(),
            messages@ == all.skip(taken),
            routed@.len() == taken,
            forall|i: int|
                0 <= i < taken ==> #[trigger] routed@[i] == route_timeline_spec(route, all[i]),
        decreases messages@.len(),
    {
        let m = messages.remove(0);
        proof {
            assert(all.skip(taken + 1) =~= all.skip(taken).drop_first());
        }
        let wrapped = match route {
            Route::Home => Message::Home(m),
            Route::Explore => Message::Explore(m),
            Route::Local => Message::Local(m),
            Route::Federated => Message::Federated(m),
            Route::Favorites => Message::Favorites(m),
            Route::Bookmarks => Message::Bookmarks(m),
            Route::TagTimeline => Message::Hashtags(hashtags::Message::Timeline(m)),
            Route::ListTimeline => Message::Lists(lists::Message::Timeline(m)),
            Route::SearchTimeline => Message::Search(search::Message::Timeline(m)),
            _ => Message::Noop,
        };
        routed.push(wrapped);
        proof {
            taken = taken + 1;
        }
    }
    routed
}

/// The messages a feed's result becomes for the part of the application
/// it was fetched for.
pub fn feed_messages(route: Route, kind: &TimelineKind, outcome: FeedOutcome) -> (messages: Vec<Message>)
    ensures
        outcome matches FeedOutcome::Tags(Ok(tags)) ==> messages@ == if route
            == Route::FollowedTags {
            seq![Message::Hashtags(hashtags::Message::SetFollowed(tags))]
        } else {
            Seq::empty()
        },
        outcome matches FeedOutcome::Lists(Ok(lists)) ==> messages@ == if route == Route::Lists {
            seq![Message::Lists(lists::Message::SetLists(lists))]
        } else {
            Seq::empty()
        },
        outcome matches FeedOutcome::Tags(Err(_)) ==> messages@.len() == 0,
        outcome matches FeedOutcome::Lists(Err(_)) ==> messages@.len() == 0,
        outcome matches FeedOutcome::Statuses(Err(_)) ==> messages@.len() == 0,
        outcome matches FeedOutcome::Statuses(Ok(statuses)) ==> messages@.len()
            == timeline::kept_statuses(*kind, statuses@).len(),
        outcome matches FeedOutcome::Statuses(Ok(statuses)) ==> forall|i: int|
            0 <= i < messages@.len() ==> #[trigger] messages@[i] == route_timeline_spec(
                route,
                timeline::Message::AppendStatus(timeline::kept_statuses(*kind, statuses@)[i]),
            ),
        outcome matches FeedOutcome::Notifications(result) ==> (route == Route::Notifications
            ==> notifications_routed(result, messages@)),
        outcome matches FeedOutcome::Notifications(_) ==> (route != Route::Notifications
            ==> messages@.len() == 0),
{
    match outcome {
        FeedOutcome::Statuses(result) => {
            let ghost r = result;
            let fetched = timeline::fetched(kind, result);
            let ghost f = fetched@;
            let routed = route_timeline(route, fetched);
            proof {
                if let Ok(statuses) = r {
                    assert forall|i: int| 0 <= i < routed@.len() implies #[trigger] routed@[i]
                        == route_timeline_spec(
                        route,
                        timeline::Message::AppendStatus(timeline::kept_statuses(*kind, statuses@)[i]),
                    ) by {
                        assert(f[i] == timeline::Message::AppendStatus(
                            timeline::kept_statuses(*kind, statuses@)[i],
                        ));
                    }
                }
            }
            routed
        },
        FeedOutcome::Notifications(result) => {
            let mut messages: Vec<Message> = Vec::new();
            if route == Route::Notifications {
                let ghost r = result;
                let mut fetched = notifications::fetched(result);
                let ghost all = fetched@;
                let ghost mut taken: int = 0;
                while fetched.len() > 0
                    invariant
                        0 <= taken <= all.len(),
                        fetched@ == all.skip(taken),
                        messages@.len() == taken,
                        forall|i: int|
                            0 <= i < taken ==> #[trigger] messages@[i] == Message::Notifications(all[i]),
                    decreases fetched@.len(),
                {
                    let m = fetched.remove(0);
                    proof {
                        assert(all.skip(taken + 1) =~= all.skip(taken).drop_first());
                    }
                    messages.push(Message::Notifications(m));
                    proof {
                        taken = taken + 1;
                    }
                }
                proof {
                    assert(taken == all.len());
                    match r {
                        Ok(list) => {
                            assert forall|i: int| 0 <= i < list@.len() implies #[trigger] messages@[i]
                                == Message::Notifications(
                                notifications::Message::AppendNotification(list@[i]),
                            ) by {
                                assert(all[i] == notifications::Message::AppendNotification(list@[i]));
                            }
                            assert(messages@.last() == Message::Notifications(all.last()));
                        },
                        Err(_) => {
                            assert(messages@ =~= seq![
                                Message::Notifications(notifications::Message::LoadComplete),
                            ]);
                        },
                    }
                }
            }
            messages
        },
        FeedOutcome::Tags(result) => {
            let mut messages: Vec<Message> = Vec::new();
            if let Ok(tags) = result {
                if route == Route::FollowedTags {
                    messages.push(Message::Hashtags(hashtags::Message::SetFollowed(tags)));
                }
            }
            messages
        },
        FeedOutcome::Lists(result) => {
            let mut messages: Vec<Message> = Vec::new();
            if let Ok(lists) = result {
                if route == Route::Lists {
                    messages.push(Message::Lists(lists::Message::SetLists(lists)));
                }
            }
            messages
        },
    }
}

/// Fetched notifications became messages appending each to the
/// notifications page in order, then one marking the fetch complete.
pub open spec fn notifications_routed(result: Result<Vec<Notification>, String>, messages: Seq<Message>) -> bool {
    match result {
        Ok(list) => messages.len() == list@.len() + 1 && (forall|i: int|
            0 <= i < list@.len() ==> #[trigger] messages[i] == Message::Notifications(
                notifications::Message::AppendNotification(list@[i]),
            )) && messages.last() == Message::Notifications(notifications::Message::LoadComplete),
        Err(_) => messages == seq![Message::Notifications(notifications::Message::LoadComplete)],
    }
}

/// The state of every page.
pub struct Pages {
    pub home: Timeline,
    pub notifications: notifications::Notifications,
    pub explore: Timeline,
    pub local: Timeline,
    pub federated: Timeline,
    pub favorites: Timeline,
    pub bookmarks: Timeline,
    pub hashtags: hashtags::Hashtags,
    pub lists: lists::Lists,
    pub search: search::Search,
}

/// A timeline of `kind` talking through `client` with nothing fetched.
pub open spec fn fresh_timeline(t: Timeline, client: Client, kind: TimelineKind) -> bool {
    &&& t.mastodon == client
    &&& t.kind == kind
    &&& t.statuses@.len() == 0
    &&& t.max_id is None
    &&& !t.loading
}

/// Every page talking through `client`, with nothing fetched, selected or
/// typed yet.
pub open spec fn fresh_pages(pages: Pages, client: Client) -> bool {
    &&& fresh_timeline(pages.home, client, TimelineKind::Home)
    &&& fresh_timeline(pages.explore, client, TimelineKind::Public)
    &&& fresh_timeline(pages.local, client, TimelineKind::Local)
    &&& fresh_timeline(pages.federated, client, TimelineKind::Federated)
    &&& fresh_timeline(pages.favorites, client, TimelineKind::Favorites)
    &&& fresh_timeline(pages.bookmarks, client, TimelineKind::Bookmarks)
    &&& pages.notifications.mastodon == client
    &&& pages.notifications.notifications@.len() == 0
    &&& pages.notifications.max_id is None
    &&& !pages.notifications.loading
    &&& pages.notifications.filter is None
    &&& pages.hashtags.mastodon == client
    &&& pages.hashtags.followed@.len() == 0
    &&& !pages.hashtags.loaded
    &&& pages.hashtags.unfollowed@.len() == 0
    &&& pages.hashtags.filter@.len() == 0
    &&& pages.hashtags.selected is None
    &&& pages.lists.mastodon == client
    &&& pages.lists.lists@.len() == 0
    &&& !pages.lists.loaded
    &&& pages.lists.selected is None
    &&& pages.search.mastodon == client
    &&& pages.search.query@.len() == 0
    &&& pages.search.results is None
    &&& pages.search.tag_timeline is None
}

/// Every page talks through `client`.
pub open spec fn pages_use(pages: Pages, client: Client) -> bool {
    &&& pages.home.mastodon == client
    &&& pages.notifications.mastodon == client
    &&& pages.explore.mastodon == client
    &&& pages.local.mastodon == client
    &&& pages.federated.mastodon == client
    &&& pages.favorites.mastodon == client
    &&& pages.bookmarks.mastodon == client
    &&& pages.hashtags.mastodon == client
    &&& pages.lists.mastodon == client
    &&& pages.search.mastodon == client
}

/// `new` is `old` with the state of `page`, and nothing else, handed
/// `client`.
pub open spec fn handed_client(old: Pages, page: Page, client: Client, new: Pages) -> bool {
    match page {
        Page::Home => new == (Pages { home: new.home, ..old }) && timeline::stepped(old.home, timeline::Message::SetClient(client), new.home, Seq::empty()),
        Page::Notifications => new == (Pages { notifications: new.notifications, ..old }) && notifications::stepped(old.notifications, notifications::Message::SetClient(client), new.notifications, Seq::empty()),
        Page::Search => new == (Pages { search: new.search, ..old }) && search::stepped(old.search, search::Message::SetClient(client), new.search, Seq::empty()),
        Page::Favorites => new == (Pages { favorites: new.favorites, ..old }) && timeline::stepped(old.favorites, timeline::Message::SetClient(client), new.favorites, Seq::empty()),
        Page::Bookmarks => new == (Pages { bookmarks: new.bookmarks, ..old }) && timeline::stepped(old.bookmarks, timeline::Message::SetClient(client), new.bookmarks, Seq::empty()),
        Page::Hashtags => new == (Pages { hashtags: new.hashtags, ..old }) && hashtags::stepped(old.hashtags, hashtags::Message::SetClient(client), new.hashtags, Seq::empty()),
        Page::Lists => new == (Pages { lists: new.lists, ..old }) && lists::stepped(old.lists, lists::Message::SetClient(client), new.lists, Seq::empty()),
        Page::Explore => new == (Pages { explore: new.explore, ..old }) && timeline::stepped(old.explore, timeline::Message::SetClient(client), new.explore, Seq::empty()),
        Page::Local => new == (Pages { local: new.local, ..old }) && timeline::stepped(old.local, timeline::Message::SetClient(client), new.local, Seq::empty()),
        Page::Federated => new == (Pages { federated: new.federated, ..old }) && timeline::stepped(old.federated, timeline::Message::SetClient(client), new.federated, Seq::empty()),
    }
}

/// `new` is `old` with the state of every page handed `client`.
pub open spec fn handed_all(old: Pages, client: Client, new: Pages) -> bool {
    &&& timeline::stepped(old.home, timeline::Message::SetClient(client), new.home, Seq::empty())
    &&& notifications::stepped(old.notifications, notifications::Message::SetClient(client), new.notifications, Seq::empty())
    &&& search::stepped(old.search, search::Message::SetClient(client), new.search, Seq::empty())
    &&& timeline::stepped(old.favorites, timeline::Message::SetClient(client), new.favorites, Seq::empty())
    &&& timeline::stepped(old.bookmarks, timeline::Message::SetClient(client), new.bookmarks, Seq::empty())
    &&& hashtags::stepped(old.hashtags, hashtags::Message::SetClient(client), new.hashtags, Seq::empty())
    &&& lists::stepped(old.lists, lists::Message::SetClient(client), new.lists, Seq::empty())
    &&& timeline::stepped(old.explore, timeline::Message::SetClient(client), new.explore, Seq::empty())
    &&& timeline::stepped(old.local, timeline::Message::SetClient(client), new.local, Seq::empty())
    &&& timeline::stepped(old.federated, timeline::Message::SetClient(client), new.federated, Seq::empty())
}

impl Pages {
    /// Fresh pages talking through `client`.
    pub fn new(client: &Client) -> (pages: Pages)
        ensures
            fresh_pages(pages, *client),
    {
        Pages {
            home: Timeline::new(client.copy(), TimelineKind::Home),
            notifications: notifications::Notifications::new(client.copy()),
            explore: Timeline::new(client.copy(), TimelineKind::Public),
            local: Timeline::new(client.copy(), TimelineKind::Local),
            federated: Timeline::new(client.copy(), TimelineKind::Federated),
            favorites: Timeline::new(client.copy(), TimelineKind::Favorites),
            bookmarks: Timeline::new(client.copy(), TimelineKind::Bookmarks),
            hashtags: hashtags::Hashtags::new(client.copy()),
            lists: lists::Lists::new(client.copy()),
            search: search::Search::new(client.copy()),
        }
    }

    /// Hand `client` to the state of `page`.
    pub fn set_client_for(&mut self, page: Page, client: &Client)
        ensures
            handed_client(*old(self), page, *client, *final(self)),
    {
        match page {
            Page::Home => {
                let done = self.home.update(timeline::Message::SetClient(client.copy()));
                assert(done@ =~= Seq::<Effect>::empty());
            },
            Page::Notifications => {
                let done = self.notifications.update(notifications::Message::SetClient(client.copy()));
                assert(done@ =~= Seq::<Effect>::empty());
            },
            Page::Search => {
                let done = self.search.update(search::Message::SetClient(client.copy()));
                assert(done@ =~= Seq::<Effect>::empty());
            },
            Page::Favorites => {
                let done = self.favorites.update(timeline::Message::SetClient(client.copy()));
                assert(done@ =~= Seq::<Effect>::empty());
            },
            Page::Bookmarks => {
                let done = self.bookmarks.update(timeline::Message::SetClient(client.copy()));
                assert(done@ =~= Seq::<Effect>::empty());
            },
            Page::Hashtags => {
                let done = self.hashtags.update(hashtags::Message::SetClient(client.copy()));
                assert(done@ =~= Seq::<Effect>::empty());
            },
            Page::Lists => {
                let done = self.lists.update(lists::Message::SetClient(client.copy()));
                assert(done@ =~= Seq::<Effect>::empty());
            },
            Page::Explore => {
                let done = self.explore.update(timeline::Message::SetClient(client.copy()));
                assert(done@ =~= Seq::<Effect>::empty());
            },
            Page::Local => {
                let done = self.local.update(timeline::Message::SetClient(client.copy()));
                assert(done@ =~= Seq::<Effect>::empty());
            },
            Page::Federated => {
                let done = self.federated.update(timeline::Message::SetClient(client.copy()));
                assert(done@ =~= Seq::<Effect>::empty());
            },
        }
    }

    /// Hand `client` to every page, so that switching accounts leaves no
    /// page talking to the old session.
    pub fn set_client(&mut self, client: &Client)
        ensures
            handed_all(*old(self), *client, *final(self)),
    {
        let done = self.home.update(timeline::Message::SetClient(client.copy()));
        assert(done@ =~= Seq::<Effect>::empty());
        let done = self.notifications.update(notifications::Message::SetClient(client.copy()));
        assert(done@ =~= Seq::<Effect>::empty());
        let done = self.explore.update(timeline::Message::SetClient(client.copy()));
        assert(done@ =~= Seq::<Effect>::empty());
        let done = self.local.update(timeline::Message::SetClient(client.copy()));
        assert(done@ =~= Seq::<Effect>::empty());
        let done = self.federated.update(timeline::Message::SetClient(client.copy()));
        assert(done@ =~= Seq::<Effect>::empty());
        let done = self.favorites.update(timeline::Message::SetClient(client.copy()));
        assert(done@ =~= Seq::<Effect>::empty());
        let done = self.bookmarks.update(timeline::Message::SetClient(client.copy()));
        assert(done@ =~= Seq::<Effect>::empty());
        let done = self.hashtags.update(hashtags::Message::SetClient(client.copy()));
        assert(done@ =~= Seq::<Effect>::empty());
        let done = self.lists.update(lists::Message::SetClient(client.copy()));
        assert(done@ =~= Seq::<Effect>::empty());
        let done = self.search.update(search::Message::SetClient(client.copy()));
        assert(done@ =~= Seq::<Effect>::empty());
    }
}

/// Handing a page the client every page already got changes nothing more.
proof fn lemma_hand_again(a: Pages, client: Client, b: Pages, page: Page, d: Pages)
    requires
        handed_all(a, client, b),
        handed_client(b, page, client, d),
    ensures
        handed_all(a, client, d),
{
}

proof fn lemma_handed_all_uses(old: Pages, client: Client, new: Pages)
    requires
        handed_all(old, client, new),
    ensures
        pages_use(new, client),
{
}

/// Switching to a saved account leaves no page talking to the old session:
/// every page talks through the new account's client.
pub proof fn switching_leaves_no_page_on_old_session(
    old: AppModel,
    index: usize,
    new: AppModel,
    effects: Seq<Effect>,
)
    requires
        account_switched(old, index, new, effects),
        index < old.sessions@.sessions.len(),
    ensures
        pages_use(new.pages, new.mastodon),
        new.mastodon.token == Some(old.sessions@.sessions[index as int].token),
{
    lemma_handed_all_uses(old.pages, new.mastodon, new.pages);
}

/// Removing the active account leaves no page talking to its session:
/// every page talks through the client that takes over.
pub proof fn removing_active_leaves_no_page_on_old_session(
    old: AppModel,
    new: AppModel,
    effects: Seq<Effect>,
)
    requires
        account_removed(old, old.sessions.active, new, effects),
    ensures
        pages_use(new.pages, new.mastodon),
        client_for(new.sessions@.active_session(), old.instance@, new.mastodon),
{
    lemma_handed_all_uses(old.pages, new.mastodon, new.pages);
}

/// The buttons at the end of the header bar.
pub enum HeaderActions {
    /// Logged out: a login button.
    LoggedOut { login: Message },
    /// Logged in: compose and logout buttons.
    LoggedIn { compose: Message, logout: Message },
}

/// The fetches and streams to keep running.
pub struct Subscriptions {
    pub feeds: Vec<(Route, Feed)>,
    /// The live stream of the logged-in user's events.
    pub user_events: Option<Client>,
}

/// Application state.
pub struct AppModel {
    pub nav: Nav,
    pub context_page: ContextPage,
    pub show_context: bool,
    /// Open dialogs; the first one is shown.
    pub dialog_pages: Vec<Dialog>,
    /// What the compose editor holds.
    pub editor_text: String,
    pub config: TootConfig,
    /// Whether preferences can be written back.
    pub has_config_store: bool,
    /// The instance address as last entered.
    pub instance: String,
    /// The authorization code as last entered.
    pub code: String,
    pub registration: Option<Registration>,
    pub mastodon: Client,
    /// All saved accounts and which one is active.
    pub sessions: Sessions,
    pub cache: Cache,
    /// The instance's maximum status length.
    pub max_characters: u32,
    pub pages: Pages,
}

/// The requests that load the logged-in account and the instance's limits.
pub open spec fn is_session_info(effects: Seq<Effect>, client: Client) -> bool {
    effects == seq![
        Effect::Request(client, Request::VerifyCredentials),
        Effect::Request(client, Request::InstanceInfo),
    ]
}

fn session_info(client: &Client) -> (effects: Vec<Effect>)
    ensures
        is_session_info(effects@, *client),
{
    let mut effects = Vec::new();
    effects.push(Effect::Request(client.copy(), Request::VerifyCredentials));
    effects.push(Effect::Request(client.copy(), Request::InstanceInfo));
    assert(effects@ =~= seq![
        Effect::Request(*client, Request::VerifyCredentials),
        Effect::Request(*client, Request::InstanceInfo),
    ]);
    effects
}

/// The message on a failed keychain write.
pub open spec fn save_failure(err: Seq<char>) -> Seq<char> {
    "Couldn't save session: "@ + err
}

/// The client for the active saved session, or a logged-out one for the
/// instance.
pub open spec fn client_for(active: Option<Session>, instance: Seq<char>, client: Client) -> bool {
    match active {
        Some(session) => client.base_url == session.base_url && client.token == Some(session.token),
        None => client.base_url@ == instance_url(instance) && client.token is None,
    }
}

/// The cache was reset for another account: fetched content forgotten,
/// filters taken from the preferences.
pub open spec fn cache_reset(cache: Cache, config: TootConfig, before: Cache) -> bool {
    &&& cache.handles@ == Map::<Seq<char>, ImageData>::empty()
    &&& cache.statuses@ == Map::<Seq<char>, Status>::empty()
    &&& cache.notifications@ == Map::<Seq<char>, Notification>::empty()
    &&& cache.relationships@ == Map::<Seq<char>, Relationship>::empty()
    &&& cache.me is None
    &&& !cache.dirty
    &&& cache.hide_boosts == config.hide_boosts
    &&& cache.hide_replies == config.hide_replies
    &&& cache.feed_density == before.feed_density
}

/// After `new` took up the client it holds: the cache reset, the pages for
/// its login offered with the first one active, and every page talking
/// through it.
pub open spec fn reset_for(old: AppModel, new: AppModel) -> bool {
    &&& cache_reset(new.cache, old.config, old.cache)
    &&& new.nav.pages@ == if token_usable(new.mastodon.token) {
        all_pages()
    } else {
        public_pages()
    }
    &&& new.nav.active == 0
    &&& handed_all(old.pages, new.mastodon, new.pages)
}

/// `new` and `effects` follow from switching `old` to the saved account at
/// `index`; nothing happens when there is none.
pub open spec fn account_switched(old: AppModel, index: usize, new: AppModel, effects: Seq<Effect>) -> bool {
    if index >= old.sessions@.sessions.len() {
        new == old && effects.len() == 0
    } else {
        let session = old.sessions@.sessions[index as int];
        &&& new == (AppModel {
            sessions: new.sessions,
            mastodon: new.mastodon,
            cache: new.cache,
            nav: new.nav,
            pages: new.pages,
            ..old
        })
        &&& new.sessions@ == (SessionsModel { active: index as int, ..old.sessions@ })
        &&& new.mastodon.base_url == session.base_url
        &&& new.mastodon.token == Some(session.token)
        &&& reset_for(old, new)
        &&& effects.len() == 4
        &&& effects[0] == Effect::UpdateTitle(Some(new.nav.pages@[0]))
        &&& effects[1] == Effect::PersistSessions(None)
        &&& is_session_info(effects.skip(2), new.mastodon)
    }
}

/// `new` and `effects` follow from removing the saved account at `index`
/// from `old`: when it was the active one, the account that becomes active
/// (or a logged-out client) takes over.
pub open spec fn account_removed(old: AppModel, index: usize, new: AppModel, effects: Seq<Effect>) -> bool {
    &&& new.sessions@ == old.sessions@.remove(index as int)
    &&& if index != old.sessions.active {
        &&& new == (AppModel { sessions: new.sessions, ..old })
        &&& effects == seq![Effect::PersistSessions(None)]
    } else {
        &&& new == (AppModel {
            sessions: new.sessions,
            mastodon: new.mastodon,
            cache: new.cache,
            nav: new.nav,
            pages: new.pages,
            ..old
        })
        &&& client_for(new.sessions@.active_session(), old.instance@, new.mastodon)
        &&& reset_for(old, new)
        &&& effects == seq![
            Effect::PersistSessions(None),
            Effect::UpdateTitle(Some(new.nav.pages@[0])),
        ]
    }
}

/// `new` and `effects` follow from opening `dialog` on `old`: it is
/// queued, and a compose dialog seeds the editor.
pub open spec fn dialog_opened(old: AppModel, dialog: Dialog, new: AppModel, effects: Seq<Effect>) -> bool {
    &&& new == (AppModel { dialog_pages: new.dialog_pages, editor_text: new.editor_text, ..old })
    &&& new.dialog_pages@ == old.dialog_pages@.push(dialog)
    &&& match dialog {
        Dialog::Compose(state) => {
            &&& new.editor_text@ == match state.text {
                Some(t) => t@,
                None => Seq::<char>::empty(),
            }
            &&& effects.len() == 1
            &&& effects[0] matches Effect::SetEditorText(t) && t@ == new.editor_text@
        },
        _ => new.editor_text == old.editor_text && effects.len() == 0,
    }
}

/// The effects of exchanging the authorization code `code` for a token
/// when `registration` is pending on the instance entered in `old`.
pub open spec fn token_requested(old: AppModel, code: String, effects: Seq<Effect>) -> bool {
    match old.registration {
        Some(r) => {
            &&& effects.len() == 1
            &&& effects[0] matches Effect::Request(
                client,
                Request::FetchAccessToken { client_id, client_secret, code: sent },
            ) && client.base_url@ == instance_url(old.instance@) && client.token is None
                && client_id == r.client_id && client_secret == r.client_secret && sent == code
        },
        None => effects.len() == 0,
    }
}

/// `new` and `effects` follow from completing the pending registration of
/// `old`.
pub open spec fn registration_completed(old: AppModel, new: AppModel, effects: Seq<Effect>) -> bool {
    &&& new == (AppModel { registration: None, ..old })
    &&& token_requested(old, old.code, effects)
}

/// `new` and `effects` follow from saving the instance address of `old`
/// as the configured server.
pub open spec fn server_saved(old: AppModel, new: AppModel, effects: Seq<Effect>) -> bool {
    &&& new == (AppModel { config: new.config, ..old })
    &&& if old.has_config_store {
        &&& new.config == (TootConfig { server: old.instance, ..old.config })
        &&& effects == seq![Effect::SaveConfig(ConfigChange::Server(old.instance))]
    } else {
        new.config == old.config && effects.len() == 0
    }
}

/// `new` and `effects` follow from toggling the context page `page` on
/// `old`.
pub open spec fn context_toggled(old: AppModel, page: ContextPage, new: AppModel, effects: Seq<Effect>) -> bool {
    &&& (new.context_page, new.show_context) == toggled(old.context_page, old.show_context, page)
    &&& new == (AppModel { context_page: new.context_page, show_context: new.show_context, ..old })
    &&& if same_context(old.context_page, page) {
        effects.len() == 0
    } else if page is Account && token_usable(old.mastodon.token) {
        effects == seq![Effect::Request(old.mastodon, Request::Relationship(page->Account_0.id))]
    } else {
        effects.len() == 0
    }
}

/// `new` and `effects` follow from carrying out the top dialog of `old`
/// and closing it; nothing happens when no dialog is open.
pub open spec fn dialog_completed(old: AppModel, new: AppModel, effects: Seq<Effect>) -> bool {
    if old.dialog_pages@.len() == 0 {
        new == old && effects.len() == 0
    } else {
        let rest = old.dialog_pages@.drop_first();
        let closed = AppModel { dialog_pages: new.dialog_pages, ..old };
        match old.dialog_pages@[0] {
            Dialog::Compose(state) => {
                &&& new == closed
                &&& new.dialog_pages@ == rest
                &&& effects == seq![
                    Effect::Request(
                        old.mastodon,
                        Request::PostStatus {
                            text: old.editor_text,
                            in_reply_to_id: state.in_reply_to_id,
                            spoiler_text: if state.content_warning {
                                Some(state.spoiler_text)
                            } else {
                                None
                            },
                            visibility: state.visibility,
                        },
                    ),
                ]
            },
            Dialog::DeleteStatus(id) => {
                &&& new == closed
                &&& new.dialog_pages@ == rest
                &&& effects == seq![Effect::Request(old.mastodon, Request::DeleteStatus(id))]
            },
            Dialog::SwitchInstance(instance) => {
                let entered = AppModel { instance, ..closed };
                &&& new.dialog_pages@ == rest
                &&& new == (AppModel { config: new.config, mastodon: new.mastodon, ..entered })
                &&& server_saved(entered, AppModel { mastodon: old.mastodon, ..new }, effects)
                &&& new.mastodon.base_url@ == instance_url(instance@)
                &&& new.mastodon.token is None
            },
            Dialog::Login(instance) => {
                let entered = AppModel { instance, ..closed };
                let saved = if old.has_config_store {
                    seq![Effect::SaveConfig(ConfigChange::Server(instance))]
                } else {
                    Seq::empty()
                };
                &&& new == (AppModel { config: new.config, ..entered })
                &&& server_saved(entered, new, saved)
                &&& new.dialog_pages@.len() == old.dialog_pages@.len()
                &&& new.dialog_pages@.drop_last() == rest
                &&& new.dialog_pages@.last() matches Dialog::Code(c) && c@.len() == 0
                &&& effects.len() == saved.len() + 1
                &&& effects.take(saved.len() as int) == saved
                &&& effects.last() matches Effect::Request(client, Request::RegisterApp)
                    && client.base_url@ == instance_url(instance@) && client.token is None
            },
            Dialog::Code(code) => {
                &&& new == (AppModel { code, registration: None, ..closed })
                &&& new.dialog_pages@ == rest
                &&& token_requested(old, code, effects)
            },
            Dialog::Logout => {
                &&& new.dialog_pages@ == rest
                &&& account_removed(closed, old.sessions.active, new, effects)
            },
            Dialog::Image(_, _) => {
                &&& new == closed
                &&& new.dialog_pages@ == rest
                &&& effects.len() == 0
            },
        }
    }
}

impl AppModel {
    /// The state at start-up, from the stored preferences and the saved
    /// accounts, and the effects to run first: titling the window and, when
    /// logged in, loading the account and instance limits.
    pub fn new(config: TootConfig, sessions: Sessions, has_config_store: bool) -> (res: (AppModel, Vec<Effect>))
        ensures
            client_for(sessions@.active_session(), config.server@, res.0.mastodon),
            res.0.sessions == sessions,
            res.0.instance == config.server,
            res.0.nav.pages@ == if token_usable(res.0.mastodon.token) {
                all_pages()
            } else {
                public_pages()
            },
            res.0.nav.active == 0,
            res.0.dialog_pages@.len() == 0,
            !res.0.show_context,
            res.0.context_page is About,
            res.0.max_characters == 500,
            res.0.cache.hide_boosts == config.hide_boosts,
            res.0.cache.hide_replies == config.hide_replies,
            res.0.cache.feed_density == FeedDensity::Full,
            res.0.cache.handles@ == Map::<Seq<char>, ImageData>::empty(),
            res.0.cache.statuses@ == Map::<Seq<char>, Status>::empty(),
            res.0.cache.notifications@ == Map::<Seq<char>, Notification>::empty(),
            res.0.cache.relationships@ == Map::<Seq<char>, Relationship>::empty(),
            res.0.cache.me is None,
            !res.0.cache.dirty,
            res.0.registration is None,
            res.0.editor_text@.len() == 0,
            res.0.code@.len() == 0,
            fresh_pages(res.0.pages, res.0.mastodon),
            res.0.config == config,
            res.0.has_config_store == has_config_store,
            res.1@.len() >= 1,
            res.1@[0] == Effect::UpdateTitle(res.0.nav.active_page_spec()),
            token_usable(res.0.mastodon.token) ==> is_session_info(res.1@.skip(1), res.0.mastodon),
            !token_usable(res.0.mastodon.token) ==> res.1@.len() == 1,
    {
        let url = instance(config.server.as_str());
        let mastodon = match sessions.active_session() {
            Some(session) => Client::new(session.base_url.clone(), Some(session.token.clone())),
            None => Client::new(url, None),
        };
        let authenticated = mastodon.is_authenticated();
        let mut cache = Cache::new();
        cache.hide_boosts = config.hide_boosts;
        cache.hide_replies = config.hide_replies;
        let pages = Pages::new(&mastodon);
        let app = AppModel {
            nav: Nav::for_login(authenticated),
            context_page: ContextPage::About,
            show_context: false,
            dialog_pages: Vec::new(),
            editor_text: String::new(),
            instance: config.server.clone(),
            config,
            has_config_store,
            code: String::new(),
            registration: None,
            mastodon,
            sessions,
            cache,
            max_characters: 500,
            pages,
        };
        let mut effects = Vec::new();
        effects.push(app.update_title());
        if authenticated {
            let mut info = session_info(&app.mastodon);
            effects.append(&mut info);
            assert(effects@.skip(1) =~= seq![
                Effect::Request(app.mastodon, Request::VerifyCredentials),
                Effect::Request(app.mastodon, Request::InstanceInfo),
            ]);
        }
        (app, effects)
    }

    /// Title the window after the active page.
    pub fn update_title(&self) -> (effect: Effect)
        ensures
            effect == Effect::UpdateTitle(self.nav.active_page_spec()),
    {
        Effect::UpdateTitle(self.nav.active_page())
    }

    /// The instance URL for the address as last entered.
    pub fn instance_url(&self) -> (url: String)
        ensures
            url@ == instance_url(self.instance@),
    {
        instance(self.instance.as_str())
    }

    /// The header's buttons: a login button while logged out, compose and
    /// logout buttons while logged in.
    pub fn header_actions(&self) -> (actions: HeaderActions)
        ensures
            match actions {
                HeaderActions::LoggedOut { login } => !token_usable(self.mastodon.token)
                    && login == Message::Dialog(DialogAction::Open(Dialog::Login(self.instance))),
                HeaderActions::LoggedIn { compose, logout } => {
                    &&& token_usable(self.mastodon.token)
                    &&& logout == Message::Dialog(DialogAction::Open(Dialog::Logout))
                    &&& compose matches Message::Dialog(DialogAction::Open(Dialog::Compose(state)))
                        && compose::is_blank_state(state)
                },
            },
    {
        if !self.mastodon.is_authenticated() {
            HeaderActions::LoggedOut {
                login: Message::Dialog(DialogAction::Open(Dialog::Login(self.instance.clone()))),
            }
        } else {
            HeaderActions::LoggedIn {
                compose: Message::Dialog(
                    DialogAction::Open(Dialog::Compose(compose::State::default())),
                ),
                logout: Message::Dialog(DialogAction::Open(Dialog::Logout)),
            }
        }
    }

    /// Offer the pages for the current login, the first one active.
    pub fn update_navbar(&mut self)
        ensures
            final(self).nav.pages@ == if token_usable(old(self).mastodon.token) {
                all_pages()
            } else {
                public_pages()
            },
            final(self).nav.active == 0,
            *final(self) == (AppModel { nav: final(self).nav, ..*old(self) }),
    {
        self.nav = Nav::for_login(self.mastodon.is_authenticated());
    }

    /// Activate the page at `index`: it gets the current client, and the
    /// window is retitled.
    pub fn on_nav_select(&mut self, index: usize) -> (effects: Vec<Effect>)
        requires
            index < old(self).nav.pages@.len(),
        ensures
            final(self).nav.active == index,
            final(self).nav.pages == old(self).nav.pages,
            handed_client(old(self).pages, old(self).nav.pages@[index as int], old(self).mastodon, final(self).pages),
            effects@ == seq![Effect::UpdateTitle(Some(old(self).nav.pages@[index as int]))],
            *final(self) == (AppModel { nav: final(self).nav, pages: final(self).pages, ..*old(self) }),
    {
        self.nav.active = index;
        let page = self.nav.pages[index];
        self.pages.set_client_for(page, &self.mastodon);
        let mut effects = Vec::new();
        effects.push(self.update_title());
        assert(effects@ =~= seq![Effect::UpdateTitle(Some(old(self).nav.pages@[index as int]))]);
        effects
    }

    /// Close the top dialog, or else the context drawer.
    pub fn on_escape(&mut self)
        ensures
            old(self).dialog_pages@.len() > 0 ==> final(self).dialog_pages@ == old(self).dialog_pages@.drop_first()
                && final(self).show_context == old(self).show_context,
            old(self).dialog_pages@.len() == 0 ==> final(self).dialog_pages@.len() == 0
                && !final(self).show_context,
            *final(self) == (AppModel {
                dialog_pages: final(self).dialog_pages,
                show_context: final(self).show_context,
                ..*old(self)
            }),
    {
        if self.dialog_pages.len() > 0 {
            self.dialog_pages.remove(0);
            assert(self.dialog_pages@ =~= old(self).dialog_pages@.drop_first());
            return;
        }
        if self.show_context {
            self.show_context = false;
        }
    }

    /// Forget the previous account's content and hand the current client to
    /// every page.
    fn reset_for_account(&mut self) -> (effects: Vec<Effect>)
        ensures
            reset_for(*old(self), *final(self)),
            effects@ == seq![Effect::UpdateTitle(Some(final(self).nav.pages@[0]))],
            *final(self) == (AppModel {
                cache: final(self).cache,
                nav: final(self).nav,
                pages: final(self).pages,
                ..*old(self)
            }),
    {
        self.cache.clear();
        self.cache.hide_boosts = self.config.hide_boosts;
        self.cache.hide_replies = self.config.hide_replies;
        self.update_navbar();
        let ghost before = self.pages;
        self.pages.set_client(&self.mastodon);
        let ghost handed = self.pages;
        let active = self.nav.active;
        proof {
            assert(self.nav.pages@.len() > 0);
        }
        let effects = self.on_nav_select(active);
        proof {
            lemma_hand_again(before, self.mastodon, handed, self.nav.pages@[0], self.pages);
        }
        effects
    }

    /// Switch to the saved account at `index`, resetting per-account state.
    pub fn switch_account(&mut self, index: usize) -> (effects: Vec<Effect>)
        ensures
            account_switched(*old(self), index, *final(self), effects@),
    {
        if index >= self.sessions.sessions.len() {
            return Vec::new();
        }
        self.sessions.active = index;
        let session = &self.sessions.sessions[index];
        self.mastodon = Client::new(session.base_url.clone(), Some(session.token.clone()));
        let mut effects = self.reset_for_account();
        effects.push(Effect::PersistSessions(None));
        let mut info = session_info(&self.mastodon);
        let ghost added = info@;
        effects.append(&mut info);
        assert(effects@.skip(2) =~= added);
        effects
    }

    /// Remove the saved account at `index`. If it was active, switch to the
    /// account that becomes active, or to a logged-out client.
    pub fn remove_account(&mut self, index: usize) -> (effects: Vec<Effect>)
        ensures
            account_removed(*old(self), index, *final(self), effects@),
    {
        let was_active = index == self.sessions.active;
        self.sessions.remove(index);
        let mut effects = Vec::new();
        effects.push(Effect::PersistSessions(None));
        if was_active {
            self.mastodon = match self.sessions.active_session() {
                Some(session) => Client::new(session.base_url.clone(), Some(session.token.clone())),
                None => Client::new(self.instance_url(), None),
            };
            let mut reset = self.reset_for_account();
            effects.append(&mut reset);
            assert(effects@ =~= seq![
                Effect::PersistSessions(None),
                Effect::UpdateTitle(Some(self.nav.pages@[0])),
            ]);
        } else {
            assert(effects@ =~= seq![Effect::PersistSessions(None)]);
        }
        effects
    }

    /// Open or close the context drawer on `page`: the same page toggles
    /// the drawer, another page replaces it and opens the drawer (loading
    /// the relationship when it is a profile and the user is logged in).
    pub fn toggle_context_page(&mut self, page: ContextPage) -> (effects: Vec<Effect>)
        ensures
            context_toggled(*old(self), page, *final(self), effects@),
    {
        let mut effects = Vec::new();
        if self.context_page.same_as(&page) {
            self.show_context = !self.show_context;
        } else {
            if let ContextPage::Account(account) = &page {
                if self.mastodon.is_authenticated() {
                    effects.push(
                        Effect::Request(self.mastodon.copy(), Request::Relationship(account.id.clone())),
                    );
                }
            }
            self.context_page = page;
            self.show_context = true;
        }
        effects
    }

    /// Queue a dialog; the compose dialog also seeds the editor.
    pub fn open_dialog(&mut self, dialog: Dialog) -> (effects: Vec<Effect>)
        ensures
            dialog_opened(*old(self), dialog, *final(self), effects@),
    {
        let mut effects = Vec::new();
        if let Dialog::Compose(state) = &dialog {
            let text = match &state.text {
                Some(t) => t.clone(),
                None => String::new(),
            };
            self.editor_text = text.clone();
            effects.push(Effect::SetEditorText(text));
        }
        self.dialog_pages.push(dialog);
        effects
    }

    /// Save the instance address as the configured server.
    fn instance_edit(&mut self) -> (effects: Vec<Effect>)
        ensures
            server_saved(*old(self), *final(self), effects@),
    {
        let mut effects = Vec::new();
        if self.has_config_store {
            self.config.server = self.instance.clone();
            effects.push(Effect::SaveConfig(ConfigChange::Server(self.instance.clone())));
        }
        effects
    }

    /// Register the application with the instance.
    fn register_client(&self) -> (effects: Vec<Effect>)
        ensures
            effects@.len() == 1,
            effects@[0] matches Effect::Request(client, Request::RegisterApp)
                && client.base_url@ == instance_url(self.instance@) && client.token is None,
    {
        let mut effects = Vec::new();
        effects.push(Effect::Request(Client::new(self.instance_url(), None), Request::RegisterApp));
        effects
    }

    /// Exchange the authorization code for an access token, when an
    /// application registration is pending.
    fn complete_registration(&mut self) -> (effects: Vec<Effect>)
        ensures
            registration_completed(*old(self), *final(self), effects@),
    {
        let mut effects = Vec::new();
        let registration = self.registration.take();
        if let Some(registration) = registration {
            let client = Client::new(self.instance_url(), None);
            effects.push(
                Effect::Request(
                    client,
                    Request::FetchAccessToken {
                        client_id: registration.client_id,
                        client_secret: registration.client_secret,
                        code: self.code.clone(),
                    },
                ),
            );
        }
        effects
    }

    /// Carry out the top dialog and close it.
    pub fn complete_dialog(&mut self) -> (effects: Vec<Effect>)
        ensures
            dialog_completed(*old(self), *final(self), effects@),
    {
        if self.dialog_pages.len() == 0 {
            return Vec::new();
        }
        let dialog = self.dialog_pages.remove(0);
        assert(self.dialog_pages@ =~= old(self).dialog_pages@.drop_first());
        let mut effects = Vec::new();
        match dialog {
            Dialog::Compose(state) => {
                let spoiler_text = state.spoiler();
                effects.push(
                    Effect::Request(
                        self.mastodon.copy(),
                        Request::PostStatus {
                            text: self.editor_text.clone(),
                            in_reply_to_id: state.in_reply_to_id,
                            spoiler_text,
                            visibility: state.visibility,
                        },
                    ),
                );
            },
            Dialog::DeleteStatus(id) => {
                effects.push(Effect::Request(self.mastodon.copy(), Request::DeleteStatus(id)));
            },
            Dialog::SwitchInstance(instance) => {
                self.instance = instance;
                effects = self.instance_edit();
                self.mastodon = Client::new(self.instance_url(), None);
            },
            Dialog::Login(instance) => {
                self.instance = instance;
                effects = self.instance_edit();
                let ghost saved = effects@;
                assert(!self.has_config_store ==> saved =~= Seq::<Effect>::empty());
                let ghost before = self.dialog_pages@;
                let mut opened = self.open_dialog(Dialog::Code(String::new()));
                effects.append(&mut opened);
                let mut register = self.register_client();
                effects.append(&mut register);
                assert(self.dialog_pages@.drop_last() =~= before);
                assert(effects@.take(saved.len() as int) =~= saved);
            },
            Dialog::Code(code) => {
                self.code = code;
                effects = self.complete_registration();
            },
            Dialog::Logout => {
                let active = self.sessions.active;
                effects = self.remove_account(active);
            },
            Dialog::Image(_, _) => {},
        }
        effects
    }
}

impl Nav {
    pub open spec fn active_page_spec(&self) -> Option<Page> {
        if self.active < self.pages@.len() {
            Some(self.pages@[self.active as int])
        } else {
            None
        }
    }
}

/// Downloads for the URLs not cached yet, in order.
pub open spec fn image_fetches(urls: Seq<String>, handles: Map<Seq<char>, ImageData>) -> Seq<Effect>
    decreases urls.len(),
{
    if urls.len() == 0 {
        Seq::empty()
    } else {
        image_fetches(urls.drop_last(), handles) + if handles.dom().contains(urls.last()@) {
            Seq::<Effect>::empty()
        } else {
            seq![Effect::FetchImage(urls.last())]
        }
    }
}

/// The session saved for a client that just logged in: its instance and
/// its token (empty when it has none).
pub open spec fn is_session_of(session: Session, client: Client) -> bool {
    &&& session.base_url == client.base_url
    &&& match client.token {
        Some(t) => session.token == t,
        None => session.token@ == Seq::<char>::empty(),
    }
}

impl AppModel {
    /// Downloads for the URLs whose images are not cached yet.
    fn fetch_missing(&self, urls: Vec<String>) -> (effects: Vec<Effect>)
        ensures
            effects@ == image_fetches(urls@, self.cache.handles@),
    {
        let mut urls = urls;
        let ghost all = urls@;
        let mut effects: Vec<Effect> = Vec::new();
        let ghost mut taken: int = 0;
        while urls.len() > 0
            invariant
                0 <= taken <= all.len(),
                urls@ == all.skip(taken),
                effects@ == image_fetches(all.take(taken), self.cache.handles@),
            decreases urls@.len(),
        {
            let url = urls.remove(0);
            proof {
                assert(all.skip(taken + 1) =~= all.skip(taken).drop_first());
                assert(all.take(taken + 1).drop_last() =~= all.take(taken));
                assert(all.take(taken + 1).last() == url);
            }
            if !self.cache.handles.contains_key(url.as_str()) {
                effects.push(Effect::FetchImage(url));
            }
            proof {
                taken = taken + 1;
            }
            assert(effects@ =~= image_fetches(all.take(taken), self.cache.handles@));
        }
        assert(all.take(taken) =~= all);
        effects
    }
}


impl AppModel {
    /// Handle a message: update the state and return what the application
    /// layer must carry out.
    #[verifier::rlimit(100)]
    #[verifier::spinoff_prover]
    pub fn update(&mut self, message: Message) -> (effects: Vec<Effect>)
        requires
            message matches Message::Dialog(DialogAction::Update(_)) ==> old(self).dialog_pages@.len() > 0,
        ensures
            match message {
                Message::Home(m) => {
                    &&& *final(self) == (AppModel {
                        pages: Pages { home: final(self).pages.home, ..old(self).pages },
                        ..*old(self)
                    })
                    &&& timeline::stepped(old(self).pages.home, m, final(self).pages.home, effects@)
                },
                Message::Notifications(m) => {
                    &&& *final(self) == (AppModel {
                        pages: Pages { notifications: final(self).pages.notifications, ..old(self).pages },
                        ..*old(self)
                    })
                    &&& notifications::stepped(old(self).pages.notifications, m, final(self).pages.notifications, effects@)
                },
                Message::Explore(m) => {
                    &&& *final(self) == (AppModel {
                        pages: Pages { explore: final(self).pages.explore, ..old(self).pages },
                        ..*old(self)
                    })
                    &&& timeline::stepped(old(self).pages.explore, m, final(self).pages.explore, effects@)
                },
                Message::Local(m) => {
                    &&& *final(self) == (AppModel {
                        pages: Pages { local: final(self).pages.local, ..old(self).pages },
                        ..*old(self)
                    })
                    &&& timeline::stepped(old(self).pages.local, m, final(self).pages.local, effects@)
                },
                Message::Federated(m) => {
                    &&& *final(self) == (AppModel {
                        pages: Pages { federated: final(self).pages.federated, ..old(self).pages },
                        ..*old(self)
                    })
                    &&& timeline::stepped(old(self).pages.federated, m, final(self).pages.federated, effects@)
                },
                Message::Favorites(m) => {
                    &&& *final(self) == (AppModel {
                        pages: Pages { favorites: final(self).pages.favorites, ..old(self).pages },
                        ..*old(self)
                    })
                    &&& timeline::stepped(old(self).pages.favorites, m, final(self).pages.favorites, effects@)
                },
                Message::Bookmarks(m) => {
                    &&& *final(self) == (AppModel {
                        pages: Pages { bookmarks: final(self).pages.bookmarks, ..old(self).pages },
                        ..*old(self)
                    })
                    &&& timeline::stepped(old(self).pages.bookmarks, m, final(self).pages.bookmarks, effects@)
                },
                Message::Hashtags(m) => {
                    &&& *final(self) == (AppModel {
                        pages: Pages { hashtags: final(self).pages.hashtags, ..old(self).pages },
                        ..*old(self)
                    })
                    &&& hashtags::stepped(old(self).pages.hashtags, m, final(self).pages.hashtags, effects@)
                },
                Message::Lists(m) => {
                    &&& *final(self) == (AppModel {
                        pages: Pages { lists: final(self).pages.lists, ..old(self).pages },
                        ..*old(self)
                    })
                    &&& lists::stepped(old(self).pages.lists, m, final(self).pages.lists, effects@)
                },
                Message::Search(m) => {
                    &&& *final(self) == (AppModel {
                        pages: Pages { search: final(self).pages.search, ..old(self).pages },
                        ..*old(self)
                    })
                    &&& search::stepped(old(self).pages.search, m, final(self).pages.search, effects@)
                },
                Message::Settings(settings::Message::ToggleHideBoosts(hide)) => {
                    &&& final(self).cache == (Cache { hide_boosts: hide, ..old(self).cache })
                    &&& final(self).config == if old(self).has_config_store {
                        TootConfig { hide_boosts: hide, ..old(self).config }
                    } else {
                        old(self).config
                    }
                    &&& effects@ == if old(self).has_config_store {
                        seq![Effect::SaveConfig(ConfigChange::HideBoosts(hide))]
                    } else {
                        Seq::empty()
                    }
                    &&& *final(self) == (AppModel {
                        cache: final(self).cache,
                        config: final(self).config,
                        ..*old(self)
                    })
                },
                Message::Settings(settings::Message::ToggleHideReplies(hide)) => {
                    &&& final(self).cache == (Cache { hide_replies: hide, ..old(self).cache })
                    &&& final(self).config == if old(self).has_config_store {
                        TootConfig { hide_replies: hide, ..old(self).config }
                    } else {
                        old(self).config
                    }
                    &&& effects@ == if old(self).has_config_store {
                        seq![Effect::SaveConfig(ConfigChange::HideReplies(hide))]
                    } else {
                        Seq::empty()
                    }
                    &&& *final(self) == (AppModel {
                        cache: final(self).cache,
                        config: final(self).config,
                        ..*old(self)
                    })
                },
                Message::Settings(settings::Message::SetFeedDensity(density)) => {
                    &&& final(self).cache == (Cache { feed_density: density, ..old(self).cache })
                    &&& final(self).config == if old(self).has_config_store {
                        TootConfig { feed_density: density, ..old(self).config }
                    } else {
                        old(self).config
                    }
                    &&& effects@ == if old(self).has_config_store {
                        seq![Effect::SaveConfig(ConfigChange::FeedDensity(density))]
                    } else {
                        Seq::empty()
                    }
                    &&& *final(self) == (AppModel {
                        cache: final(self).cache,
                        config: final(self).config,
                        ..*old(self)
                    })
                },
                Message::Settings(settings::Message::SetThemeMode(mode)) => {
                    &&& final(self).config == if old(self).has_config_store {
                        TootConfig { theme_mode: mode, ..old(self).config }
                    } else {
                        old(self).config
                    }
                    &&& effects@ == if old(self).has_config_store {
                        seq![Effect::SaveConfig(ConfigChange::ThemeMode(mode))]
                    } else {
                        Seq::empty()
                    }
                    &&& *final(self) == (AppModel { config: final(self).config, ..*old(self) })
                },
                Message::Settings(settings::Message::SwitchAccount(index)) => account_switched(
                    *old(self),
                    index,
                    *final(self),
                    effects@,
                ),
                Message::Settings(settings::Message::RemoveAccount(index)) => account_removed(
                    *old(self),
                    index,
                    *final(self),
                    effects@,
                ),
                Message::Settings(settings::Message::AddAccount) => dialog_opened(
                    *old(self),
                    Dialog::Login(old(self).instance),
                    *final(self),
                    effects@,
                ),
                Message::Account(accounts::Message::Open(url)) => *final(self) == *old(self)
                    && effects@ == seq![Effect::OpenUrl(url)],
                Message::Account(m) => {
                    &&& *final(self) == *old(self)
                    &&& effects@ == seq![Effect::Request(old(self).mastodon, account_request(m)->0)]
                },
                Message::Status(m) => {
                    &&& *final(self) == *old(self)
                    &&& match status_request(m) {
                        Some(request) => effects@ == seq![Effect::Request(old(self).mastodon, request)],
                        None => effects@.len() == 1 && (effects@[0] matches Effect::Send(routed)
                            && status::routes(m, routed)),
                    }
                },
                Message::CacheHandle(url, handle) => {
                    &&& final(self).cache.handles@ == old(self).cache.handles@.insert(url@, handle)
                    &&& final(self).cache == (Cache { handles: final(self).cache.handles, ..old(self).cache })
                    &&& *final(self) == (AppModel { cache: final(self).cache, ..*old(self) })
                    &&& effects@.len() == 0
                },
                Message::CacheStatus(s) => {
                    &&& final(self).cache.statuses@ == crate::cache::statuses_with(
                        old(self).cache.statuses@,
                        s,
                    )
                    &&& final(self).cache == (Cache {
                        statuses: final(self).cache.statuses,
                        dirty: true,
                        ..old(self).cache
                    })
                    &&& *final(self) == (AppModel { cache: final(self).cache, ..*old(self) })
                    &&& effects@.len() == 0
                },
                Message::CacheNotification(n) => {
                    &&& final(self).cache.notifications@ == old(self).cache.notifications@.insert(
                        n.id@,
                        n,
                    )
                    &&& final(self).cache.statuses@ == match n.status {
                        Some(s) => crate::cache::statuses_with(old(self).cache.statuses@, *s),
                        None => old(self).cache.statuses@,
                    }
                    &&& final(self).cache == (Cache {
                        notifications: final(self).cache.notifications,
                        statuses: final(self).cache.statuses,
                        dirty: true,
                        ..old(self).cache
                    })
                    &&& *final(self) == (AppModel { cache: final(self).cache, ..*old(self) })
                    &&& effects@.len() == 0
                },
                Message::CacheRelationship(r) => {
                    &&& final(self).cache.relationships@ == old(self).cache.relationships@.insert(
                        r.id@,
                        r,
                    )
                    &&& final(self).cache == (Cache {
                        relationships: final(self).cache.relationships,
                        ..old(self).cache
                    })
                    &&& *final(self) == (AppModel { cache: final(self).cache, ..*old(self) })
                    &&& effects@.len() == 0
                },
                Message::Fetch(urls) => *final(self) == *old(self) && effects@ == image_fetches(
                    urls@,
                    old(self).cache.handles@,
                ),
                Message::InstanceEdit => server_saved(*old(self), *final(self), effects@),
                Message::RegisterMastodonClient => {
                    &&& *final(self) == *old(self)
                    &&& effects@.len() == 1
                    &&& effects@[0] matches Effect::Request(client, Request::RegisterApp)
                        && client.base_url@ == instance_url(old(self).instance@) && client.token is None
                },
                Message::StoreRegistration(registration) => {
                    &&& final(self).registration == registration
                    &&& *final(self) == (AppModel { registration: final(self).registration, ..*old(self) })
                    &&& effects@ == match registration {
                        Some(r) => match r.url {
                            Some(url) => seq![Effect::OpenUrl(url)],
                            None => Seq::empty(),
                        },
                        None => Seq::empty(),
                    }
                },
                Message::CompleteRegistration => registration_completed(*old(self), *final(self), effects@),
                Message::StoreMastodonData(client) => {
                    &&& exists|s: Session| is_session_of(s, client) && final(self).sessions@
                        == old(self).sessions@.upsert(s)
                    &&& *final(self) == (AppModel { sessions: final(self).sessions, ..*old(self) })
                    &&& effects@ == seq![Effect::PersistSessions(Some(client))]
                },
                Message::SessionsSaved(activate, result) => match result {
                    Err(err) => {
                        &&& *final(self) == *old(self)
                        &&& effects@.len() == 1
                        &&& effects@[0] matches Effect::Send(Message::Error(text))
                            && text@ == save_failure(err@)
                    },
                    Ok(_) => match activate {
                        Some(client) => {
                            &&& *final(self) == (AppModel {
                                mastodon: client,
                                nav: final(self).nav,
                                pages: final(self).pages,
                                ..*old(self)
                            })
                            &&& final(self).nav.pages@ == if token_usable(client.token) {
                                all_pages()
                            } else {
                                public_pages()
                            }
                            &&& final(self).nav.active == 0
                            &&& handed_all(old(self).pages, client, final(self).pages)
                            &&& effects@.len() == 3
                            &&& effects@[0] == Effect::UpdateTitle(Some(final(self).nav.pages@[0]))
                            &&& is_session_info(effects@.skip(1), client)
                        },
                        None => *final(self) == *old(self) && effects@.len() == 0,
                    },
                },
                Message::UpdateMastodonInstance => {
                    &&& final(self).mastodon.base_url@ == instance_url(old(self).instance@)
                    &&& final(self).mastodon.token is None
                    &&& *final(self) == (AppModel { mastodon: final(self).mastodon, ..*old(self) })
                    &&& effects@.len() == 0
                },
                Message::SetAccount(account) => {
                    &&& final(self).cache == (Cache { me: Some(account), ..old(self).cache })
                    &&& *final(self) == (AppModel { cache: final(self).cache, ..*old(self) })
                    &&& effects@.len() == 0
                },
                Message::SetMaxCharacters(max) => *final(self) == (AppModel {
                    max_characters: max,
                    ..*old(self)
                }) && effects@.len() == 0,
                Message::StatusDeleted(id) => {
                    &&& final(self).cache.statuses@ == old(self).cache.statuses@.remove(id@)
                    &&& final(self).cache == (Cache { statuses: final(self).cache.statuses, ..old(self).cache })
                    &&& *final(self) == (AppModel { cache: final(self).cache, ..*old(self) })
                    &&& effects@.len() == 0
                },
                Message::Open(url) => *final(self) == *old(self) && effects@ == seq![Effect::OpenUrl(url)],
                Message::ToggleContextPage(page) => context_toggled(*old(self), page, *final(self), effects@),
                Message::ToggleContextDrawer => *final(self) == (AppModel {
                    show_context: !old(self).show_context,
                    ..*old(self)
                }) && effects@.len() == 0,
                Message::Dialog(DialogAction::Open(dialog)) => dialog_opened(
                    *old(self),
                    dialog,
                    *final(self),
                    effects@,
                ),
                Message::Dialog(DialogAction::Update(dialog)) => {
                    &&& final(self).dialog_pages@ == old(self).dialog_pages@.update(0, dialog)
                    &&& *final(self) == (AppModel { dialog_pages: final(self).dialog_pages, ..*old(self) })
                    &&& effects@.len() == 0
                },
                Message::Dialog(DialogAction::Close) => {
                    &&& final(self).dialog_pages@ == if old(self).dialog_pages@.len() > 0 {
                        old(self).dialog_pages@.drop_first()
                    } else {
                        old(self).dialog_pages@
                    }
                    &&& *final(self) == (AppModel { dialog_pages: final(self).dialog_pages, ..*old(self) })
                    &&& effects@.len() == 0
                },
                Message::Dialog(DialogAction::Complete) => dialog_completed(*old(self), *final(self), effects@),
                Message::EditorEdited(text) => *final(self) == (AppModel {
                    editor_text: text,
                    ..*old(self)
                }) && effects@.len() == 0,
                Message::UpdateConfig(config) => *final(self) == (AppModel { config, ..*old(self) })
                    && effects@.len() == 0,
                Message::Error(text) => *final(self) == *old(self) && effects@ == seq![
                    Effect::Toast(text),
                ],
                Message::Noop => *final(self) == *old(self) && effects@.len() == 0,
            },
    {
        let mut effects: Vec<Effect> = Vec::new();
        match message {
            Message::Home(m) => effects = self.pages.home.update(m),
            Message::Notifications(m) => effects = self.pages.notifications.update(m),
            Message::Explore(m) => effects = self.pages.explore.update(m),
            Message::Local(m) => effects = self.pages.local.update(m),
            Message::Federated(m) => effects = self.pages.federated.update(m),
            Message::Favorites(m) => effects = self.pages.favorites.update(m),
            Message::Bookmarks(m) => effects = self.pages.bookmarks.update(m),
            Message::Hashtags(m) => effects = self.pages.hashtags.update(m),
            Message::Lists(m) => effects = self.pages.lists.update(m),
            Message::Search(m) => effects = self.pages.search.update(m),
            Message::Settings(m) => match m {
                settings::Message::ToggleHideBoosts(hide) => {
                    self.cache.hide_boosts = hide;
                    if self.has_config_store {
                        self.config.hide_boosts = hide;
                        effects.push(Effect::SaveConfig(ConfigChange::HideBoosts(hide)));
                    }
                },
                settings::Message::ToggleHideReplies(hide) => {
                    self.cache.hide_replies = hide;
                    if self.has_config_store {
                        self.config.hide_replies = hide;
                        effects.push(Effect::SaveConfig(ConfigChange::HideReplies(hide)));
                    }
                },
                settings::Message::SetFeedDensity(density) => {
                    self.cache.feed_density = density;
                    if self.has_config_store {
                        self.config.feed_density = density;
                        effects.push(Effect::SaveConfig(ConfigChange::FeedDensity(density)));
                    }
                },
                settings::Message::SetThemeMode(mode) => {
                    if self.has_config_store {
                        self.config.theme_mode = mode;
                        effects.push(Effect::SaveConfig(ConfigChange::ThemeMode(mode)));
                    }
                },
                settings::Message::SwitchAccount(index) => effects = self.switch_account(index),
                settings::Message::RemoveAccount(index) => effects = self.remove_account(index),
                settings::Message::AddAccount => {
                    effects = self.open_dialog(Dialog::Login(self.instance.clone()));
                },
            },
            Message::Account(m) => match m {
                accounts::Message::Follow(id, following) => {
                    let request = if following {
                        Request::Unfollow(id)
                    } else {
                        Request::Follow(id)
                    };
                    effects.push(Effect::Request(self.mastodon.copy(), request));
                },
                accounts::Message::Mute(id, muting) => {
                    let request = if muting {
                        Request::Unmute(id)
                    } else {
                        Request::Mute(id)
                    };
                    effects.push(Effect::Request(self.mastodon.copy(), request));
                },
                accounts::Message::Block(id, blocking) => {
                    let request = if blocking {
                        Request::Unblock(id)
                    } else {
                        Request::Block(id)
                    };
                    effects.push(Effect::Request(self.mastodon.copy(), request));
                },
                accounts::Message::Open(url) => effects = accounts::update(accounts::Message::Open(url)),
            },
            Message::Status(m) => match m {
                status::Message::Favorite(id, favourited) => {
                    let request = if favourited {
                        Request::Unfavourite(id)
                    } else {
                        Request::Favourite(id)
                    };
                    effects.push(Effect::Request(self.mastodon.copy(), request));
                },
                status::Message::Boost(id, boosted) => {
                    let request = if boosted {
                        Request::Unreblog(id)
                    } else {
                        Request::Reblog(id)
                    };
                    effects.push(Effect::Request(self.mastodon.copy(), request));
                },
                status::Message::Bookmark(id, bookmarked) => {
                    let request = if bookmarked {
                        Request::Unbookmark(id)
                    } else {
                        Request::Bookmark(id)
                    };
                    effects.push(Effect::Request(self.mastodon.copy(), request));
                },
                other => effects.push(Effect::Send(status::update(other))),
            },
            Message::CacheHandle(url, handle) => self.cache.insert_handle(url, handle),
            Message::CacheStatus(s) => self.cache.insert_status(s),
            Message::CacheNotification(n) => self.cache.insert_notification(n),
            Message::CacheRelationship(r) => self.cache.insert_relationship(r),
            Message::Fetch(urls) => effects = self.fetch_missing(urls),
            Message::InstanceEdit => effects = self.instance_edit(),
            Message::RegisterMastodonClient => effects = self.register_client(),
            Message::StoreRegistration(registration) => {
                if let Some(r) = &registration {
                    if let Some(url) = &r.url {
                        effects.push(Effect::OpenUrl(url.clone()));
                    }
                }
                self.registration = registration;
            },
            Message::CompleteRegistration => effects = self.complete_registration(),
            Message::StoreMastodonData(client) => {
                let token = match &client.token {
                    Some(t) => t.clone(),
                    None => String::new(),
                };
                let session = Session { base_url: client.base_url.clone(), token };
                let ghost s = session;
                self.sessions.upsert_active(session);
                effects.push(Effect::PersistSessions(Some(client)));
                assert(is_session_of(s, client));
            },
            Message::SessionsSaved(activate, result) => match result {
                Err(err) => {
                    let text = concat("Couldn't save session: ", err.as_str());
                    effects.push(Effect::Send(Message::Error(text)));
                },
                Ok(()) => {
                    if let Some(client) = activate {
                        self.mastodon = client;
                        self.update_navbar();
                        let ghost before = self.pages;
                        self.pages.set_client(&self.mastodon);
                        let ghost handed = self.pages;
                        let active = self.nav.active;
                        effects = self.on_nav_select(active);
                        proof {
                            lemma_hand_again(before, self.mastodon, handed, self.nav.pages@[0], self.pages);
                        }
                        let mut info = session_info(&self.mastodon);
                        let ghost added = info@;
                        effects.append(&mut info);
                        assert(effects@.skip(1) =~= added);
                    }
                },
            },
            Message::UpdateMastodonInstance => {
                self.mastodon = Client::new(self.instance_url(), None);
            },
            Message::SetAccount(account) => self.cache.me = Some(account),
            Message::SetMaxCharacters(max) => self.max_characters = max,
            Message::StatusDeleted(id) => self.cache.statuses.remove(id.as_str()),
            Message::Open(url) => effects.push(Effect::OpenUrl(url)),
            Message::ToggleContextPage(page) => effects = self.toggle_context_page(page),
            Message::ToggleContextDrawer => self.show_context = !self.show_context,
            Message::Dialog(action) => match action {
                DialogAction::Open(dialog) => effects = self.open_dialog(dialog),
                DialogAction::Update(dialog) => self.dialog_pages.set(0, dialog),
                DialogAction::Close => {
                    if self.dialog_pages.len() > 0 {
                        self.dialog_pages.remove(0);
                        assert(self.dialog_pages@ =~= old(self).dialog_pages@.drop_first());
                    }
                },
                DialogAction::Complete => effects = self.complete_dialog(),
            },
            Message::EditorEdited(text) => self.editor_text = text,
            Message::UpdateConfig(config) => self.config = config,
            Message::Error(text) => effects.push(Effect::Toast(text)),
            Message::Noop => {},
        }
        effects
    }
}

/// The fetch `feed`, if any, under `route`.
pub open spec fn routed_feed(route: Route, feed: Option<Feed>) -> Seq<(Route, Feed)> {
    match feed {
        Some(f) => seq![(route, f)],
        None => Seq::empty(),
    }
}

/// The fetches the active page of `app` needs running, each under the
/// route its results go to.
pub open spec fn active_feeds(app: AppModel) -> Seq<(Route, Feed)> {
    let pages = app.pages;
    match app.nav.active_page_spec() {
        Some(Page::Home) => routed_feed(Route::Home, timeline::feed_of(pages.home)),
        Some(Page::Notifications) => routed_feed(
            Route::Notifications,
            notifications::feed_of(pages.notifications),
        ),
        Some(Page::Search) => routed_feed(
            Route::SearchTimeline,
            timeline::opt_feed_of(pages.search.tag_timeline),
        ),
        Some(Page::Favorites) => routed_feed(Route::Favorites, timeline::feed_of(pages.favorites)),
        Some(Page::Bookmarks) => routed_feed(Route::Bookmarks, timeline::feed_of(pages.bookmarks)),
        Some(Page::Hashtags) => routed_feed(Route::FollowedTags, hashtags::own_feed(pages.hashtags))
            + routed_feed(Route::TagTimeline, timeline::opt_feed_of(pages.hashtags.selected)),
        Some(Page::Lists) => routed_feed(Route::Lists, lists::own_feed(pages.lists)) + routed_feed(
            Route::ListTimeline,
            timeline::opt_feed_of(pages.lists.selected),
        ),
        Some(Page::Explore) => routed_feed(Route::Explore, timeline::feed_of(pages.explore)),
        Some(Page::Local) => routed_feed(Route::Local, timeline::feed_of(pages.local)),
        Some(Page::Federated) => routed_feed(Route::Federated, timeline::feed_of(pages.federated)),
        None => Seq::empty(),
    }
}

impl AppModel {
    /// The fetches the active page needs and, when logged in, the live
    /// stream of the user's events.
    pub fn subscriptions(&self) -> (subs: Subscriptions)
        ensures
            subs.user_events == if token_usable(self.mastodon.token) {
                Some(self.mastodon)
            } else {
                None
            },
            subs.feeds@ == active_feeds(*self),
    {
        let mut feeds: Vec<(Route, Feed)> = Vec::new();
        match self.nav.active_page() {
            Some(Page::Home) => push_feed(&mut feeds, Route::Home, self.pages.home.subscription()),
            Some(Page::Notifications) => push_feed(
                &mut feeds,
                Route::Notifications,
                self.pages.notifications.subscription(),
            ),
            Some(Page::Search) => push_feed(
                &mut feeds,
                Route::SearchTimeline,
                self.pages.search.subscription(),
            ),
            Some(Page::Favorites) => push_feed(
                &mut feeds,
                Route::Favorites,
                self.pages.favorites.subscription(),
            ),
            Some(Page::Bookmarks) => push_feed(
                &mut feeds,
                Route::Bookmarks,
                self.pages.bookmarks.subscription(),
            ),
            Some(Page::Hashtags) => {
                let (tags, timeline) = self.pages.hashtags.subscriptions();
                push_feed(&mut feeds, Route::FollowedTags, tags);
                push_feed(&mut feeds, Route::TagTimeline, timeline);
            },
            Some(Page::Lists) => {
                let (lists, timeline) = self.pages.lists.subscriptions();
                push_feed(&mut feeds, Route::Lists, lists);
                push_feed(&mut feeds, Route::ListTimeline, timeline);
            },
            Some(Page::Explore) => push_feed(&mut feeds, Route::Explore, self.pages.explore.subscription()),
            Some(Page::Local) => push_feed(&mut feeds, Route::Local, self.pages.local.subscription()),
            Some(Page::Federated) => push_feed(
                &mut feeds,
                Route::Federated,
                self.pages.federated.subscription(),
            ),
            None => {},
        }
        let user_events = if self.mastodon.is_authenticated() {
            Some(self.mastodon.copy())
        } else {
            None
        };
        Subscriptions { feeds, user_events }
    }

    /// The status a compose dialog on top answers, when it is cached.
    pub fn reply_preview(&self) -> (target: Option<&Status>)
        ensures
            match target {
                Some(s) => {
                    &&& self.reply_target() is Some
                    &&& self.cache.statuses@.dom().contains(self.reply_target()->0)
                    &&& *s == self.cache.statuses@[self.reply_target()->0]
                },
                None => self.reply_target() is None || !self.cache.statuses@.dom().contains(
                    self.reply_target()->0,
                ),
            },
    {
        if self.dialog_pages.len() == 0 {
            return None;
        }
        match &self.dialog_pages[0] {
            Dialog::Compose(state) => match &state.in_reply_to_id {
                Some(id) => match self.cache.statuses.get(id.as_str()) {
                    Some(s) => Some(&**s),
                    None => None,
                },
                None => None,
            },
            _ => None,
        }
    }
}

impl AppModel {
    /// The id of the status a compose dialog on top answers.
    pub open spec fn reply_target(&self) -> Option<Seq<char>> {
        if self.dialog_pages@.len() > 0 {
            match self.dialog_pages@[0] {
                Dialog::Compose(state) => match state.in_reply_to_id {
                    Some(id) => Some(id@),
                    None => None,
                },
                _ => None,
            }
        } else {
            None
        }
    }
}

fn push_feed(feeds: &mut Vec<(Route, Feed)>, route: Route, feed: Option<Feed>)
    ensures
        final(feeds)@ == old(feeds)@ + routed_feed(route, feed),
{
    if let Some(f) = feed {
        feeds.push((route, f));
    }
    assert(feeds@ =~= old(feeds)@ + routed_feed(route, feed));
}

/// The context page and drawer visibility after toggling `page`.
pub open spec fn toggled(current: ContextPage, shown: bool, page: ContextPage) -> (ContextPage, bool) {
    if same_context(current, page) {
        (current, !shown)
    } else {
        (page, true)
    }
}

proof fn lemma_same_context_reflexive(page: ContextPage)
    ensures
        same_context(page, page),
{
    if let ContextPage::Account(a) = page {
        assert forall|i: int| 0 <= i < a.fields@.len() implies crate::entities::same_field(
            #[trigger] a.fields@[i],
            a.fields@[i],
        ) by {}
    }
}

/// Toggling the page the drawer shows twice leaves the drawer as it was.
pub proof fn toggle_shown_page_twice(current: ContextPage, shown: bool, page: ContextPage)
    requires
        same_context(current, page),
    ensures
        ({
            let once = toggled(current, shown, page);
            toggled(once.0, once.1, page) == (current, shown)
        }),
{
}

/// Toggling another page opens the drawer on it; toggling it again closes
/// the drawer and keeps the page.
pub proof fn toggle_other_page_twice(current: ContextPage, shown: bool, page: ContextPage)
    requires
        !same_context(current, page),
    ensures
        toggled(current, shown, page) == (page, true),
        ({
            let once = toggled(current, shown, page);
            toggled(once.0, once.1, page) == (page, false)
        }),
{
    lemma_same_context_reflexive(page);
}

/// Dialogs are shown in the order they were opened: opening one and then
/// closing the top dialog closes the oldest one, or the new one when it was
/// the only one.
pub proof fn dialogs_first_in_first_out(dialogs: Seq<Dialog>, dialog: Dialog)
    ensures
        dialogs.len() == 0 ==> dialogs.push(dialog).drop_first() == dialogs,
        dialogs.len() > 0 ==> dialogs.push(dialog).drop_first() == dialogs.drop_first().push(dialog),
        dialogs.push(dialog).last() == dialog,
{
    assert(dialogs.len() == 0 ==> dialogs.push(dialog).drop_first() =~= dialogs);
    assert(dialogs.len() > 0 ==> dialogs.push(dialog).drop_first() =~= dialogs.drop_first().push(dialog));
}

/// The request a profile button sends: it undoes the current state
/// (unfollow, unmute, unblock) or sets it; opening a link sends none.
pub open spec fn account_request(m: accounts::Message) -> Option<Request> {
    match m {
        accounts::Message::Follow(id, following) => Some(
            if following {
                Request::Unfollow(id)
            } else {
                Request::Follow(id)
            },
        ),
        accounts::Message::Mute(id, muting) => Some(
            if muting {
                Request::Unmute(id)
            } else {
                Request::Mute(id)
            },
        ),
        accounts::Message::Block(id, blocking) => Some(
            if blocking {
                Request::Unblock(id)
            } else {
                Request::Block(id)
            },
        ),
        accounts::Message::Open(_) => None,
    }
}

/// The request a status toggle sends: it undoes the current state or sets
/// it; other status messages send none.
pub open spec fn status_request(m: status::Message) -> Option<Request> {
    match m {
        status::Message::Favorite(id, on) => Some(
            if on {
                Request::Unfavourite(id)
            } else {
                Request::Favourite(id)
            },
        ),
        status::Message::Boost(id, on) => Some(
            if on {
                Request::Unreblog(id)
            } else {
                Request::Reblog(id)
            },
        ),
        status::Message::Bookmark(id, on) => Some(
            if on {
                Request::Unbookmark(id)
            } else {
                Request::Bookmark(id)
            },
        ),
        _ => None,
    }
}

/// Every toggle acts on the status or account it names and flips its
/// current state: a boost press boosts or unboosts, never favourites or
/// bookmarks; a follow press follows or unfollows, never mutes or blocks.
pub proof fn toggles_flip_their_state(id: String, on: bool)
    ensures
        status_request(status::Message::Favorite(id, on)) == Some(
            if on { Request::Unfavourite(id) } else { Request::Favourite(id) },
        ),
        status_request(status::Message::Boost(id, on)) == Some(
            if on { Request::Unreblog(id) } else { Request::Reblog(id) },
        ),
        status_request(status::Message::Bookmark(id, on)) == Some(
            if on { Request::Unbookmark(id) } else { Request::Bookmark(id) },
        ),
        account_request(accounts::Message::Follow(id, on)) == Some(
            if on { Request::Unfollow(id) } else { Request::Follow(id) },
        ),
        account_request(accounts::Message::Mute(id, on)) == Some(
            if on { Request::Unmute(id) } else { Request::Mute(id) },
        ),
        account_request(accounts::Message::Block(id, on)) == Some(
            if on { Request::Unblock(id) } else { Request::Block(id) },
        ),
        forall|m: status::Message|
            #[trigger] status_request(m) is None <==> !(m is Favorite || m is Boost || m is Bookmark),
{
}

/// A route that delivers a timeline's statuses.
pub open spec fn is_timeline_route(route: Route) -> bool {
    !(route is Notifications || route is FollowedTags || route is Lists)
}

/// Statuses fetched for a timeline reach the page the route names, and no
/// two routes deliver to the same page.
pub proof fn timelines_reach_their_page(m: timeline::Message)
    ensures
        route_timeline_spec(Route::Home, m) == Message::Home(m),
        route_timeline_spec(Route::Explore, m) == Message::Explore(m),
        route_timeline_spec(Route::Local, m) == Message::Local(m),
        route_timeline_spec(Route::Federated, m) == Message::Federated(m),
        route_timeline_spec(Route::Favorites, m) == Message::Favorites(m),
        route_timeline_spec(Route::Bookmarks, m) == Message::Bookmarks(m),
        route_timeline_spec(Route::TagTimeline, m) == Message::Hashtags(hashtags::Message::Timeline(m)),
        route_timeline_spec(Route::ListTimeline, m) == Message::Lists(lists::Message::Timeline(m)),
        route_timeline_spec(Route::SearchTimeline, m) == Message::Search(search::Message::Timeline(m)),
        forall|a: Route, b: Route|
            is_timeline_route(a) && is_timeline_route(b) && a != b ==> #[trigger] route_timeline_spec(a, m)
                != #[trigger] route_timeline_spec(b, m),
{
}

} // verus!
