use toot::app::{
    feed_messages, instance, reply, stream_message, AppModel, ConfigChange, ContextPage, Dialog,
    DialogAction, Effect, Feed, FeedOutcome, HeaderActions, MenuAction, Message, Nav, Page,
    Request, Response, Route, StreamEvent,
};
use toot::client::{Client, Session, Sessions};
use toot::config::{FeedDensity, ThemeMode, TootConfig};
use toot::entities::{
    Account, ImageData, Notification, NotificationType, Registration, Relationship, Status,
    StatusVisibility, Tag, UserList,
};
use toot::features::compose::State;
use toot::features::timeline::{self, TimelineKind};
use toot::features::{accounts, hashtags, lists, notifications, search, settings, status};

fn account(id: &str) -> Account {
    Account {
        id: id.to_string(),
        username: format!("user{id}"),
        acct: format!("user{id}"),
        display_name: format!("User {id}"),
        avatar: format!("https://example.social/a/{id}.png"),
        header: String::new(),
        url: format!("https://example.social/@user{id}"),
        note: String::new(),
        fields: Vec::new(),
        followers_count: 0,
        following_count: 0,
        statuses_count: 0,
        joined: "01 Jan 2020".to_string(),
    }
}

fn status(id: &str, acct: &str) -> Status {
    let mut author = account(id);
    author.acct = acct.to_string();
    Status {
        id: id.to_string(),
        account: author,
        reblog: None,
        in_reply_to_id: None,
        content: "<p>hi</p>".to_string(),
        card: None,
        media_attachments: Vec::new(),
        tags: Vec::new(),
        replies_count: 0,
        reblogs_count: 0,
        favourites_count: 0,
        reblogged: None,
        favourited: None,
        bookmarked: None,
        visibility: StatusVisibility::Public,
    }
}

fn config(server: &str) -> TootConfig {
    TootConfig { server: server.to_string(), ..TootConfig::default() }
}

fn session(url: &str, token: &str) -> Session {
    Session { base_url: url.to_string(), token: token.to_string() }
}

fn no_sessions() -> Sessions {
    Sessions { active: 0, sessions: Vec::new() }
}

fn two_sessions(active: usize) -> Sessions {
    Sessions {
        active,
        sessions: vec![session("https://a.social", "ta"), session("https://b.social", "tb")],
    }
}

fn client(url: &str, token: Option<&str>) -> Client {
    Client::new(url.to_string(), token.map(|t| t.to_string()))
}

#[test]
fn instance_addresses_become_https_urls() {
    assert_eq!(instance(""), "https://mastodon.social");
    assert_eq!(instance("   "), "https://mastodon.social");
    assert_eq!(instance("https://"), "https://mastodon.social");
    assert_eq!(instance("fosstodon.org"), "https://fosstodon.org");
    assert_eq!(instance(" http://fosstodon.org/ "), "https://fosstodon.org");
    assert_eq!(instance("https://https://x.y//"), "https://x.y");
    assert_eq!(instance("https://x.y/path/"), "https://x.y/path");
}

#[test]
fn pages_and_icons() {
    assert_eq!(
        Page::public_variants(),
        vec![Page::Explore, Page::Local, Page::Federated, Page::Search, Page::Hashtags]
    );
    let all = Page::variants();
    assert_eq!(all.len(), 10);
    assert_eq!(all[0], Page::Home);
    for page in Page::public_variants() {
        assert!(all.contains(&page));
    }
    assert_eq!(Page::Home.icon(), "user-home-symbolic");
    assert_eq!(Page::Notifications.icon(), "emblem-important-symbolic");
    assert_eq!(Page::Federated.icon(), "network-workgroup-symbolic");
    assert_eq!(Page::default(), Page::Home);

    let nav = Nav::for_login(false);
    assert_eq!(nav.pages, Page::public_variants());
    assert_eq!(nav.active_page(), Some(Page::Explore));
    let nav = Nav { pages: Vec::new(), active: 0 };
    assert_eq!(nav.active_page(), None);
}

#[test]
fn menu_actions_toggle_context_pages() {
    assert!(matches!(MenuAction::About.message(), Message::ToggleContextPage(ContextPage::About)));
    assert!(matches!(MenuAction::Settings.message(), Message::ToggleContextPage(ContextPage::Settings)));
}

#[test]
fn stream_events_reach_their_pages() {
    let m = stream_message(StreamEvent::Update(status("1", "a"))).unwrap();
    assert!(matches!(m, Message::Home(timeline::Message::PrependStatus(ref s)) if s.id == "1"));
    let n = Notification { id: "n".to_string(), kind: NotificationType::Mention, account: None, status: None };
    let m = stream_message(StreamEvent::Notification(n)).unwrap();
    assert!(matches!(m, Message::Notifications(notifications::Message::PrependNotification(ref n)) if n.id == "n"));
    let m = stream_message(StreamEvent::Delete("1".to_string())).unwrap();
    assert!(matches!(m, Message::Home(timeline::Message::DeleteStatus(ref id)) if id == "1"));
    assert!(stream_message(StreamEvent::Heartbeat).is_none());
    assert!(stream_message(StreamEvent::Conversation).is_none());
    assert!(stream_message(StreamEvent::StatusUpdate(status("1", "a"))).is_none());
}

#[test]
fn failed_requests_name_what_failed() {
    let c = client("https://a.social", Some("t"));
    let m = reply(c.copy(), Request::Follow("1".to_string()), Err("timeout".to_string()));
    assert!(matches!(m, Message::Error(ref t) if t == "Couldn't update follow: timeout"));
    let m = reply(c.copy(), Request::Search("x".to_string()), Err("500".to_string()));
    assert!(matches!(m, Message::Error(ref t) if t == "Search failed: 500"));
    let m = reply(c.copy(), Request::DismissNotifications, Err("e".to_string()));
    assert!(matches!(m, Message::Error(ref t) if t == "Couldn't clear notifications: e"));
    let m = reply(c, Request::RegisterApp, Err("dns".to_string()));
    assert!(matches!(m, Message::Error(ref t) if t == "Couldn't register with server: dns"));
}

#[test]
fn successful_requests_update_the_cache() {
    let c = client("https://a.social", Some("t"));
    let r = Relationship { id: "1".to_string(), following: true, muting: false, blocking: false };
    let m = reply(c.copy(), Request::Follow("1".to_string()), Ok(Response::Relationship(r)));
    assert!(matches!(m, Message::CacheRelationship(ref r) if r.id == "1" && r.following));
    let m = reply(c.copy(), Request::Favourite("5".to_string()), Ok(Response::Status(status("5", "a"))));
    assert!(matches!(m, Message::CacheStatus(ref s) if s.id == "5"));
    let m = reply(c.copy(), Request::Relationship("1".to_string()), Ok(Response::Relationships(Vec::new())));
    assert!(matches!(m, Message::Noop));
    let m = reply(c.copy(), Request::DeleteStatus("5".to_string()), Ok(Response::Done));
    assert!(matches!(m, Message::StatusDeleted(ref id) if id == "5"));
    let tag = Tag { name: "rust".to_string(), url: String::new(), following: None };
    let m = reply(c.copy(), Request::FollowTag("rust".to_string()), Ok(Response::Tag(tag)));
    assert!(matches!(m, Message::Hashtags(hashtags::Message::FollowResult(ref n, true)) if n == "rust"));
    let tag = Tag { name: "rust".to_string(), url: String::new(), following: None };
    let m = reply(c.copy(), Request::UnfollowTag("rust".to_string()), Ok(Response::Tag(tag)));
    assert!(matches!(m, Message::Hashtags(hashtags::Message::FollowResult(ref n, false)) if n == "rust"));
    let m = reply(c.copy(), Request::InstanceInfo, Ok(Response::MaxCharacters(1000)));
    assert!(matches!(m, Message::SetMaxCharacters(1000)));
    let m = reply(c, Request::PostStatus {
        text: "x".to_string(),
        in_reply_to_id: None,
        spoiler_text: None,
        visibility: StatusVisibility::Public,
    }, Ok(Response::Scheduled));
    assert!(matches!(m, Message::Noop));
}

#[test]
fn access_token_becomes_a_client_for_the_same_instance() {
    let c = client("https://a.social", None);
    let request = Request::FetchAccessToken {
        client_id: "id".to_string(),
        client_secret: "secret".to_string(),
        code: "code".to_string(),
    };
    let m = reply(c, request, Ok(Response::AccessToken("tok".to_string())));
    match m {
        Message::StoreMastodonData(client) => {
            assert_eq!(client.base_url, "https://a.social");
            assert_eq!(client.token.as_deref(), Some("tok"));
        }
        _ => panic!("a token completes the login"),
    }
}

#[test]
fn feeds_deliver_to_their_routes() {
    let m = feed_messages(
        Route::Federated,
        &TimelineKind::Federated,
        FeedOutcome::Statuses(Ok(vec![status("1", "local"), status("2", "x@far")])),
    );
    assert_eq!(m.len(), 1);
    assert!(matches!(m[0], Message::Federated(timeline::Message::AppendStatus(ref s)) if s.id == "2"));
    let m = feed_messages(
        Route::TagTimeline,
        &TimelineKind::Tag("rust".to_string()),
        FeedOutcome::Statuses(Ok(vec![status("1", "a")])),
    );
    assert!(matches!(m[0], Message::Hashtags(hashtags::Message::Timeline(_))));
    let m = feed_messages(Route::Home, &TimelineKind::Home, FeedOutcome::Statuses(Err("x".to_string())));
    assert!(m.is_empty());
    let m = feed_messages(Route::Notifications, &TimelineKind::Home, FeedOutcome::Notifications(Err("x".to_string())));
    assert_eq!(m.len(), 1);
    assert!(matches!(m[0], Message::Notifications(notifications::Message::LoadComplete)));
    let m = feed_messages(Route::Lists, &TimelineKind::Home, FeedOutcome::Lists(Ok(vec![UserList {
        id: "1".to_string(),
        title: "t".to_string(),
    }])));
    assert!(matches!(m[0], Message::Lists(lists::Message::SetLists(ref l)) if l.len() == 1));
    let m = feed_messages(Route::FollowedTags, &TimelineKind::Home, FeedOutcome::Tags(Err("x".to_string())));
    assert!(m.is_empty());
}

#[test]
fn start_logged_out_uses_configured_instance() {
    let (app, effects) = AppModel::new(config("fosstodon.org"), no_sessions(), true);
    assert_eq!(app.mastodon.base_url, "https://fosstodon.org");
    assert!(app.mastodon.token.is_none());
    assert_eq!(app.nav.pages, Page::public_variants());
    assert_eq!(app.max_characters, 500);
    assert_eq!(effects.len(), 1);
    assert!(matches!(effects[0], Effect::UpdateTitle(Some(Page::Explore))));
    assert!(matches!(app.header_actions(), HeaderActions::LoggedOut { login: Message::Dialog(DialogAction::Open(Dialog::Login(ref i))) } if i == "fosstodon.org"));
    let subs = app.subscriptions();
    assert!(subs.user_events.is_none());
    assert_eq!(subs.feeds.len(), 1);
    assert!(matches!(subs.feeds[0], (Route::Explore, Feed::Timeline { kind: TimelineKind::Public, .. })));
}

#[test]
fn start_logged_in_loads_account_and_limits() {
    let (app, effects) = AppModel::new(config(""), two_sessions(1), false);
    assert_eq!(app.mastodon.base_url, "https://b.social");
    assert_eq!(app.mastodon.token.as_deref(), Some("tb"));
    assert_eq!(app.nav.pages, Page::variants());
    assert_eq!(effects.len(), 3);
    assert!(matches!(effects[0], Effect::UpdateTitle(Some(Page::Home))));
    assert!(matches!(effects[1], Effect::Request(_, Request::VerifyCredentials)));
    assert!(matches!(effects[2], Effect::Request(_, Request::InstanceInfo)));
    assert!(matches!(app.header_actions(), HeaderActions::LoggedIn { .. }));
    let subs = app.subscriptions();
    assert!(subs.user_events.is_some());
    assert!(matches!(subs.feeds[0], (Route::Home, Feed::Timeline { kind: TimelineKind::Home, .. })));
}

#[test]
fn login_flow() {
    let (mut app, _) = AppModel::new(config(""), no_sessions(), true);
    app.update(Message::Dialog(DialogAction::Open(Dialog::Login("fosstodon.org".to_string()))));
    let effects = app.update(Message::Dialog(DialogAction::Complete));
    assert_eq!(app.instance, "fosstodon.org");
    assert_eq!(app.config.server, "fosstodon.org");
    assert_eq!(effects.len(), 2);
    assert!(matches!(effects[0], Effect::SaveConfig(ConfigChange::Server(ref s)) if s == "fosstodon.org"));
    match &effects[1] {
        Effect::Request(c, Request::RegisterApp) => {
            assert_eq!(c.base_url, "https://fosstodon.org");
            assert!(c.token.is_none());
        }
        _ => panic!("the app registers with the instance"),
    }
    assert_eq!(app.dialog_pages.len(), 1);
    assert!(matches!(app.dialog_pages[0], Dialog::Code(ref c) if c.is_empty()));

    let effects = app.update(Message::StoreRegistration(Some(Registration {
        client_id: "cid".to_string(),
        client_secret: "cs".to_string(),
        url: Some("https://fosstodon.org/oauth".to_string()),
    })));
    assert!(matches!(effects[0], Effect::OpenUrl(ref u) if u == "https://fosstodon.org/oauth"));

    app.update(Message::Dialog(DialogAction::Update(Dialog::Code("abc".to_string()))));
    let effects = app.update(Message::Dialog(DialogAction::Complete));
    assert!(app.dialog_pages.is_empty());
    assert!(app.registration.is_none());
    assert_eq!(app.code, "abc");
    match &effects[0] {
        Effect::Request(c, Request::FetchAccessToken { client_id, client_secret, code }) => {
            assert_eq!(c.base_url, "https://fosstodon.org");
            assert_eq!((client_id.as_str(), client_secret.as_str(), code.as_str()), ("cid", "cs", "abc"));
        }
        _ => panic!("the code is exchanged for a token"),
    }

    let logged_in = client("https://fosstodon.org", Some("tok"));
    let effects = app.update(Message::StoreMastodonData(logged_in.copy()));
    assert_eq!(app.sessions.sessions.len(), 1);
    assert_eq!(app.sessions.sessions[0].token, "tok");
    assert_eq!(app.sessions.active, 0);
    assert!(matches!(effects[0], Effect::PersistSessions(Some(_))));
    assert!(app.mastodon.token.is_none());

    let effects = app.update(Message::SessionsSaved(Some(logged_in), Ok(())));
    assert_eq!(app.mastodon.token.as_deref(), Some("tok"));
    assert_eq!(app.nav.pages, Page::variants());
    assert_eq!(effects.len(), 3);
    assert!(matches!(effects[0], Effect::UpdateTitle(Some(Page::Home))));
    assert!(matches!(effects[1], Effect::Request(_, Request::VerifyCredentials)));
    assert_eq!(app.pages.home.mastodon.token.as_deref(), Some("tok"));
    assert_eq!(app.pages.search.mastodon.token.as_deref(), Some("tok"));
}

#[test]
fn failed_keychain_write_is_reported() {
    let (mut app, _) = AppModel::new(config(""), no_sessions(), true);
    let effects = app.update(Message::SessionsSaved(None, Err("locked".to_string())));
    assert!(matches!(effects[0], Effect::Send(Message::Error(ref t)) if t == "Couldn't save session: locked"));
}

#[test]
fn switching_and_removing_accounts() {
    let (mut app, _) = AppModel::new(config(""), two_sessions(0), true);
    app.update(Message::CacheStatus(status("1", "a")));
    let effects = app.update(Message::Settings(settings::Message::SwitchAccount(1)));
    assert_eq!(app.sessions.active, 1);
    assert_eq!(app.mastodon.base_url, "https://b.social");
    assert!(!app.cache.statuses.contains_key("1"));
    assert_eq!(effects.len(), 4);
    assert!(matches!(effects[1], Effect::PersistSessions(None)));
    assert_eq!(app.pages.notifications.mastodon.base_url, "https://b.social");

    let effects = app.update(Message::Settings(settings::Message::SwitchAccount(7)));
    assert!(effects.is_empty());
    assert_eq!(app.sessions.active, 1);

    let effects = app.update(Message::Settings(settings::Message::RemoveAccount(0)));
    assert_eq!(effects.len(), 1);
    assert_eq!(app.sessions.sessions.len(), 1);
    assert_eq!(app.mastodon.base_url, "https://b.social");

    app.update(Message::Dialog(DialogAction::Open(Dialog::Logout)));
    let effects = app.update(Message::Dialog(DialogAction::Complete));
    assert!(app.sessions.sessions.is_empty());
    assert!(app.mastodon.token.is_none());
    assert_eq!(app.mastodon.base_url, "https://mastodon.social");
    assert_eq!(app.nav.pages, Page::public_variants());
    assert!(matches!(effects[0], Effect::PersistSessions(None)));
    assert!(matches!(effects[1], Effect::UpdateTitle(Some(Page::Explore))));
}

#[test]
fn context_drawer_toggles() {
    let (mut app, _) = AppModel::new(config(""), two_sessions(0), true);
    app.update(Message::ToggleContextPage(ContextPage::About));
    assert!(app.show_context);
    app.update(Message::ToggleContextPage(ContextPage::About));
    assert!(!app.show_context);
    let effects = app.update(Message::ToggleContextPage(ContextPage::Account(account("3"))));
    assert!(app.show_context);
    assert!(matches!(app.context_page, ContextPage::Account(ref a) if a.id == "3"));
    assert!(matches!(effects[0], Effect::Request(_, Request::Relationship(ref id)) if id == "3"));
    app.update(Message::ToggleContextPage(ContextPage::Account(account("3"))));
    assert!(!app.show_context);
    app.update(Message::ToggleContextDrawer);
    assert!(app.show_context);
    app.on_escape();
    assert!(!app.show_context);
}

#[test]
fn escape_closes_the_oldest_dialog_first() {
    let (mut app, _) = AppModel::new(config(""), no_sessions(), true);
    app.update(Message::Dialog(DialogAction::Open(Dialog::DeleteStatus("1".to_string()))));
    app.update(Message::Dialog(DialogAction::Open(Dialog::Logout)));
    app.update(Message::ToggleContextDrawer);
    app.on_escape();
    assert_eq!(app.dialog_pages.len(), 1);
    assert!(matches!(app.dialog_pages[0], Dialog::Logout));
    assert!(app.show_context);
    app.update(Message::Dialog(DialogAction::Close));
    assert!(app.dialog_pages.is_empty());
}

#[test]
fn composing_a_reply() {
    let (mut app, _) = AppModel::new(config(""), two_sessions(0), true);
    app.update(Message::CacheStatus(status("9", "a")));
    let effects = app.update(Message::Status(status::Message::Reply("9".to_string(), "bob".to_string())));
    let routed = match effects.into_iter().next() {
        Some(Effect::Send(m)) => m,
        _ => panic!("a reply is routed"),
    };
    let effects = app.update(routed);
    assert!(matches!(effects[0], Effect::SetEditorText(ref t) if t == "@bob "));
    assert_eq!(app.editor_text, "@bob ");
    assert_eq!(app.reply_preview().unwrap().id, "9");
    app.update(Message::EditorEdited("@bob hello".to_string()));
    let state = match &app.dialog_pages[0] {
        Dialog::Compose(state) => state.copy().with_content_warning(true).with_spoiler_text("cw".to_string()),
        _ => panic!("compose dialog"),
    };
    app.update(Message::Dialog(DialogAction::Update(Dialog::Compose(state))));
    let effects = app.update(Message::Dialog(DialogAction::Complete));
    match &effects[0] {
        Effect::Request(_, Request::PostStatus { text, in_reply_to_id, spoiler_text, visibility }) => {
            assert_eq!(text, "@bob hello");
            assert_eq!(in_reply_to_id.as_deref(), Some("9"));
            assert_eq!(spoiler_text.as_deref(), Some("cw"));
            assert_eq!(*visibility, StatusVisibility::Public);
        }
        _ => panic!("the post is sent"),
    }
    assert!(app.dialog_pages.is_empty());
    assert!(app.reply_preview().is_none());
}

#[test]
fn image_fetches_skip_cached_images() {
    let (mut app, _) = AppModel::new(config(""), no_sessions(), true);
    app.update(Message::CacheHandle("a".to_string(), ImageData { bytes: vec![1, 2] }));
    let effects = app.update(Message::Fetch(vec!["a".to_string(), "b".to_string(), "c".to_string()]));
    assert_eq!(effects.len(), 2);
    assert!(matches!(effects[0], Effect::FetchImage(ref u) if u == "b"));
    assert!(matches!(effects[1], Effect::FetchImage(ref u) if u == "c"));
}

#[test]
fn preferences_are_saved_when_a_store_exists() {
    let (mut app, _) = AppModel::new(config(""), no_sessions(), true);
    let effects = app.update(Message::Settings(settings::Message::ToggleHideBoosts(true)));
    assert!(app.cache.hide_boosts);
    assert!(app.config.hide_boosts);
    assert!(matches!(effects[0], Effect::SaveConfig(ConfigChange::HideBoosts(true))));
    let effects = app.update(Message::Settings(settings::Message::SetFeedDensity(FeedDensity::Compact)));
    assert_eq!(app.cache.feed_density, FeedDensity::Compact);
    assert!(matches!(effects[0], Effect::SaveConfig(ConfigChange::FeedDensity(FeedDensity::Compact))));
    let effects = app.update(Message::Settings(settings::Message::SetThemeMode(ThemeMode::Dark)));
    assert_eq!(app.config.theme_mode, ThemeMode::Dark);
    assert!(matches!(effects[0], Effect::SaveConfig(ConfigChange::ThemeMode(ThemeMode::Dark))));

    let (mut app, _) = AppModel::new(config(""), no_sessions(), false);
    let effects = app.update(Message::Settings(settings::Message::ToggleHideReplies(true)));
    assert!(app.cache.hide_replies);
    assert!(!app.config.hide_replies);
    assert!(effects.is_empty());
}

#[test]
fn account_buttons_send_requests() {
    let (mut app, _) = AppModel::new(config(""), two_sessions(0), true);
    let effects = app.update(Message::Account(accounts::Message::Follow("4".to_string(), true)));
    assert!(matches!(effects[0], Effect::Request(_, Request::Unfollow(ref id)) if id == "4"));
    let effects = app.update(Message::Account(accounts::Message::Mute("4".to_string(), false)));
    assert!(matches!(effects[0], Effect::Request(_, Request::Mute(ref id)) if id == "4"));
    let effects = app.update(Message::Status(status::Message::Boost("8".to_string(), true)));
    assert!(matches!(effects[0], Effect::Request(_, Request::Unreblog(ref id)) if id == "8"));
    let effects = app.update(Message::Status(status::Message::Bookmark("8".to_string(), false)));
    assert!(matches!(effects[0], Effect::Request(_, Request::Bookmark(ref id)) if id == "8"));
}

#[test]
fn navigation_hands_the_client_to_the_page() {
    let (mut app, _) = AppModel::new(config(""), two_sessions(0), true);
    let index = app.nav.pages.iter().position(|p| *p == Page::Lists).unwrap();
    let effects = app.on_nav_select(index);
    assert!(matches!(effects[0], Effect::UpdateTitle(Some(Page::Lists))));
    assert!(matches!(app.update_title(), Effect::UpdateTitle(Some(Page::Lists))));
    let subs = app.subscriptions();
    assert!(matches!(subs.feeds[0], (Route::Lists, Feed::Lists(_))));
}

#[test]
fn small_messages() {
    let (mut app, _) = AppModel::new(config("x.y"), two_sessions(0), true);
    app.update(Message::SetAccount(account("1")));
    assert!(app.cache.is_me("1"));
    app.update(Message::SetMaxCharacters(1000));
    assert_eq!(app.max_characters, 1000);
    app.update(Message::CacheStatus(status("5", "a")));
    app.update(Message::StatusDeleted("5".to_string()));
    assert!(!app.cache.statuses.contains_key("5"));
    let effects = app.update(Message::Error("bad".to_string()));
    assert!(matches!(effects[0], Effect::Toast(ref t) if t == "bad"));
    let effects = app.update(Message::Open("https://x.y".to_string()));
    assert!(matches!(effects[0], Effect::OpenUrl(ref u) if u == "https://x.y"));
    assert!(app.update(Message::Noop).is_empty());
    app.update(Message::UpdateMastodonInstance);
    assert_eq!(app.mastodon.base_url, "https://x.y");
    assert!(app.mastodon.token.is_none());
    assert_eq!(app.instance_url(), "https://x.y");
    let effects = app.update(Message::Search(search::Message::QueryChanged("q".to_string())));
    assert!(effects.is_empty());
    assert_eq!(app.pages.search.query, "q");
    let effects = app.update(Message::Home(timeline::Message::AppendStatus(status("6", "a"))));
    assert_eq!(effects.len(), 2);
    assert_eq!(app.pages.home.statuses, vec!["6".to_string()]);
    let effects = app.update(Message::InstanceEdit);
    assert!(matches!(effects[0], Effect::SaveConfig(ConfigChange::Server(ref s)) if s == "x.y"));
    let effects = app.update(Message::RegisterMastodonClient);
    assert!(matches!(effects[0], Effect::Request(ref c, Request::RegisterApp) if c.base_url == "https://x.y"));
    assert!(app.update(Message::CompleteRegistration).is_empty());
    let state = State::default();
    assert!(!state.is_reply());
}

#[test]
fn instance_ignores_scheme_and_is_idempotent() {
    let bare = instance("fosstodon.org");
    assert_eq!(bare, "https://fosstodon.org");
    assert_eq!(instance("https://fosstodon.org"), bare);
    assert_eq!(instance("http://fosstodon.org"), bare);
    assert_eq!(instance("http://fosstodon.org/"), bare);
    assert_eq!(instance(&bare), bare);
}
