use std::rc::Rc;

use toot::app::{Effect, Feed, Message as AppMessage, Request};
use toot::cache::Cache;
use toot::client::Client;
use toot::entities::{
    Account, Notification, NotificationType, SearchResults, Status, StatusVisibility, Tag,
    UserList,
};
use toot::features::hashtags::{self, Hashtags};
use toot::features::lists::{self, Lists};
use toot::features::notifications::{
    self, action_text, filter_label, filters, follow_request_actions, ItemMessage, Notifications,
};
use toot::features::search::{self, Search};
use toot::features::status;
use toot::features::timeline::{self, remove_id, Timeline, TimelineKind};

fn logged_in() -> Client {
    Client::new("https://example.social".to_string(), Some("token".to_string()))
}

fn logged_out() -> Client {
    Client::new("https://example.social".to_string(), None)
}

fn account(id: &str, acct: &str) -> Account {
    Account {
        id: id.to_string(),
        username: format!("user{id}"),
        acct: acct.to_string(),
        display_name: format!("User {id}"),
        avatar: format!("https://example.social/a/{id}.png"),
        header: String::new(),
        url: format!("https://example.social/@user{id}"),
        note: String::new(),
        fields: Vec::new(),
        followers_count: 0,
        following_count: 0,
        statuses_count: 0,
        joined: "01 Jan 2020".to_string(),
    }
}

fn status(id: &str, acct: &str) -> Status {
    Status {
        id: id.to_string(),
        account: account(id, acct),
        reblog: None,
        in_reply_to_id: None,
        content: "<p>hi</p>".to_string(),
        card: None,
        media_attachments: Vec::new(),
        tags: Vec::new(),
        replies_count: 0,
        reblogs_count: 0,
        favourites_count: 0,
        reblogged: None,
        favourited: None,
        bookmarked: None,
        visibility: StatusVisibility::Public,
    }
}

fn notification(id: &str, kind: NotificationType, with_account: bool) -> Notification {
    Notification {
        id: id.to_string(),
        kind,
        account: if with_account { Some(account("9", "user9")) } else { None },
        status: None,
    }
}

fn ids(list: &[String]) -> Vec<&str> {
    list.iter().map(|s| s.as_str()).collect()
}

#[test]
fn remove_id_drops_every_copy() {
    let list = vec!["a".to_string(), "b".to_string(), "a".to_string(), "c".to_string()];
    assert_eq!(remove_id(&list, "a"), vec!["b".to_string(), "c".to_string()]);
    assert_eq!(remove_id(&list, "z"), list);
}

#[test]
fn timeline_append_prepend_delete() {
    let mut t = Timeline::new(logged_in(), TimelineKind::Home);
    assert!(t.is_authenticated());
    let effects = t.update(timeline::Message::AppendStatus(status("1", "a")));
    assert_eq!(effects.len(), 2);
    assert!(matches!(effects[0], Effect::Send(AppMessage::CacheStatus(ref s)) if s.id == "1"));
    match &effects[1] {
        Effect::Send(AppMessage::Fetch(urls)) => {
            assert!(urls.contains(&"https://example.social/a/1.png".to_string()))
        }
        _ => panic!("the second effect fetches the images"),
    }
    assert_eq!(t.max_id.as_deref(), Some("1"));
    t.update(timeline::Message::AppendStatus(status("2", "a")));
    let effects = t.update(timeline::Message::PrependStatus(status("0", "a")));
    assert_eq!(effects.len(), 1);
    assert_eq!(ids(&t.statuses), vec!["0", "1", "2"]);
    assert_eq!(t.max_id.as_deref(), Some("2"));
    t.update(timeline::Message::DeleteStatus("1".to_string()));
    assert_eq!(ids(&t.statuses), vec!["0", "2"]);
}

#[test]
fn timeline_load_more_and_subscription() {
    let mut t = Timeline::new(logged_out(), TimelineKind::Home);
    assert!(t.subscription().is_none());
    let mut t2 = Timeline::new(logged_out(), TimelineKind::Local);
    match t2.subscription() {
        Some(Feed::Timeline { kind: TimelineKind::Local, max_id: None, .. }) => {}
        _ => panic!("an empty public timeline fetches its first page"),
    }
    t2.update(timeline::Message::AppendStatus(status("5", "a")));
    assert!(t2.subscription().is_none());
    assert!(t2.wants_more(true));
    assert!(!t2.wants_more(false));
    t2.update(timeline::Message::LoadMore(true));
    assert!(t2.loading);
    assert!(!t2.wants_more(true));
    match t2.subscription() {
        Some(Feed::Timeline { max_id: Some(ref id), .. }) => assert_eq!(id, "5"),
        _ => panic!("loading more fetches after the last status"),
    }
    t.update(timeline::Message::SetClient(logged_in()));
    assert!(t.subscription().is_some());
}

#[test]
fn timeline_shows_only_cached_statuses() {
    let mut t = Timeline::new(logged_in(), TimelineKind::Home);
    t.update(timeline::Message::AppendStatus(status("1", "a")));
    t.update(timeline::Message::AppendStatus(status("2", "a")));
    let mut cache = Cache::new();
    cache.insert_status(status("2", "a"));
    assert_eq!(t.displayed_ids(&cache), vec!["2".to_string()]);
}

#[test]
fn federated_fetch_keeps_remote_statuses() {
    let page = vec![status("1", "local"), status("2", "far@away.social"), status("3", "x@y.z")];
    let messages = timeline::fetched(&TimelineKind::Federated, Ok(page));
    assert_eq!(messages.len(), 2);
    assert!(matches!(messages[0], timeline::Message::AppendStatus(ref s) if s.id == "2"));
    assert!(matches!(messages[1], timeline::Message::AppendStatus(ref s) if s.id == "3"));
    let page = vec![status("1", "local"), status("2", "far@away.social")];
    assert_eq!(timeline::fetched(&TimelineKind::Local, Ok(page)).len(), 2);
    assert!(timeline::fetched(&TimelineKind::Home, Err("boom".to_string())).is_empty());
}

#[test]
fn timeline_kinds() {
    assert!(TimelineKind::Home.requires_auth());
    assert!(TimelineKind::Favorites.requires_auth());
    assert!(TimelineKind::Bookmarks.requires_auth());
    assert!(!TimelineKind::Public.requires_auth());
    assert!(!TimelineKind::Tag("rust".to_string()).requires_auth());
    assert!(matches!(TimelineKind::List("7".to_string()).copy(), TimelineKind::List(ref id) if id == "7"));
}

#[test]
fn notification_filters_and_labels() {
    assert_eq!(
        filters(),
        vec![
            None,
            Some(NotificationType::Mention),
            Some(NotificationType::Reblog),
            Some(NotificationType::Favourite),
            Some(NotificationType::Follow),
        ]
    );
    assert_eq!(filter_label(None), "All");
    assert_eq!(filter_label(Some(NotificationType::Mention)), "Mentions");
    assert_eq!(filter_label(Some(NotificationType::Reblog)), "Boosts");
    assert_eq!(filter_label(Some(NotificationType::Favourite)), "Favorites");
    assert_eq!(filter_label(Some(NotificationType::Follow)), "Follows");
    assert_eq!(filter_label(Some(NotificationType::PollVote)), "Other");
}

#[test]
fn notification_headers() {
    assert_eq!(action_text(&notification("1", NotificationType::Mention, true)), "User 9 mentioned you");
    assert_eq!(action_text(&notification("1", NotificationType::Reblog, true)), "User 9 boosted");
    assert_eq!(action_text(&notification("1", NotificationType::Favourite, true)), "User 9 liked");
    assert_eq!(action_text(&notification("1", NotificationType::Follow, true)), "User 9 followed you");
    assert_eq!(
        action_text(&notification("1", NotificationType::FollowRequest, true)),
        "User 9 requested to follow you"
    );
    assert_eq!(action_text(&notification("1", NotificationType::Update, true)), "A post has been edited");
    assert_eq!(action_text(&notification("1", NotificationType::PollExpired, true)), "A poll has expired");
    assert_eq!(action_text(&notification("1", NotificationType::Mention, false)), "Unknown notification type");
}

#[test]
fn follow_requests_offer_accept_and_reject() {
    let request = notification("4", NotificationType::FollowRequest, true);
    let (accept, reject) = follow_request_actions(&request).unwrap();
    assert!(matches!(accept, ItemMessage::AcceptFollowRequest(ref n, ref a) if n == "4" && a == "9"));
    assert!(matches!(reject, ItemMessage::RejectFollowRequest(ref n, ref a) if n == "4" && a == "9"));
    assert!(follow_request_actions(&notification("4", NotificationType::Follow, true)).is_none());
    assert!(follow_request_actions(&notification("4", NotificationType::FollowRequest, false)).is_none());
}

#[test]
fn notifications_fetch_ends_with_load_complete() {
    let messages = notifications::fetched(Ok(vec![
        notification("1", NotificationType::Mention, true),
        notification("2", NotificationType::Follow, true),
    ]));
    assert_eq!(messages.len(), 3);
    assert!(matches!(messages[0], notifications::Message::AppendNotification(ref n) if n.id == "1"));
    assert!(matches!(messages[1], notifications::Message::AppendNotification(ref n) if n.id == "2"));
    assert!(matches!(messages[2], notifications::Message::LoadComplete));
    let messages = notifications::fetched(Err("offline".to_string()));
    assert_eq!(messages.len(), 1);
    assert!(matches!(messages[0], notifications::Message::LoadComplete));
}

#[test]
fn notifications_page_updates() {
    let mut page = Notifications::new(logged_in());
    assert!(page.is_authenticated());
    assert!(matches!(page.subscription(), Some(Feed::Notifications { max_id: None, .. })));
    page.update(notifications::Message::LoadMore(true));
    assert!(page.loading);
    page.update(notifications::Message::LoadComplete);
    assert!(!page.loading);
    page.update(notifications::Message::AppendNotification(notification("1", NotificationType::Mention, true)));
    page.update(notifications::Message::AppendNotification(notification("2", NotificationType::FollowRequest, true)));
    assert!(page.subscription().is_none());
    page.update(notifications::Message::PrependNotification(notification("3", NotificationType::Follow, true)));
    assert_eq!(ids(&page.notifications), vec!["3", "1", "2"]);
    assert_eq!(page.max_id.as_deref(), Some("2"));

    let mut cache = Cache::new();
    cache.insert_notification(notification("1", NotificationType::Mention, true));
    cache.insert_notification(notification("3", NotificationType::Follow, true));
    assert_eq!(page.displayed_ids(&cache), vec!["3".to_string(), "1".to_string()]);
    page.update(notifications::Message::SetFilter(Some(NotificationType::Mention)));
    assert_eq!(page.selected_filter(), Some(1));
    assert_eq!(page.displayed_ids(&cache), vec!["1".to_string()]);
    page.update(notifications::Message::SetFilter(Some(NotificationType::Status)));
    assert_eq!(page.selected_filter(), None);

    let effects = page.update(notifications::Message::Notification(ItemMessage::AcceptFollowRequest(
        "2".to_string(),
        "9".to_string(),
    )));
    assert_eq!(ids(&page.notifications), vec!["3", "1"]);
    assert!(matches!(effects[0], Effect::Request(_, Request::AcceptFollowRequest(ref a)) if a == "9"));

    let effects = page.update(notifications::Message::ClearAll);
    assert!(page.notifications.is_empty());
    assert_eq!(effects.len(), 1);
    assert!(matches!(effects[0], Effect::Request(_, Request::DismissNotifications)));

    let effects = page.update(notifications::Message::Notification(ItemMessage::Status(
        status::Message::OpenLink("https://x.y".to_string()),
    )));
    assert!(matches!(effects[0], Effect::Send(AppMessage::Open(ref u)) if u == "https://x.y"));
}

#[test]
fn notifications_need_a_login() {
    let page = Notifications::new(logged_out());
    assert!(!page.is_authenticated());
    assert!(page.subscription().is_none());
}

fn tag(name: &str) -> Tag {
    Tag { name: name.to_string(), url: format!("https://example.social/tags/{name}"), following: Some(true) }
}

#[test]
fn hashtag_rows_filter_and_follow_state() {
    let mut page = Hashtags::new(logged_in());
    assert!(matches!(page.subscriptions(), (Some(Feed::FollowedTags(_)), None)));
    page.update(hashtags::Message::SetFollowed(vec![tag("Rust"), tag("rustlang"), tag("Go")]));
    assert!(page.loaded);
    assert!(page.subscriptions().0.is_none());
    assert_eq!(page.rows().len(), 3);
    page.update(hashtags::Message::FilterChanged("RUST".to_string()));
    let rows = page.rows();
    assert_eq!(rows.iter().map(|r| r.name.as_str()).collect::<Vec<_>>(), vec!["Rust", "rustlang"]);
    assert!(rows.iter().all(|r| r.following));

    let effects = page.update(hashtags::Message::ToggleFollow("Rust".to_string(), true));
    assert!(matches!(effects[0], Effect::Request(_, Request::UnfollowTag(ref n)) if n == "Rust"));
    page.update(hashtags::Message::FollowResult("Rust".to_string(), false));
    page.update(hashtags::Message::FollowResult("Rust".to_string(), false));
    assert_eq!(page.unfollowed, vec!["Rust".to_string()]);
    assert!(page.is_unfollowed("Rust"));
    assert!(!page.rows()[0].following);
    page.update(hashtags::Message::FollowResult("Rust".to_string(), true));
    assert!(!page.is_unfollowed("Rust"));

    page.update(hashtags::Message::FollowResult("Go".to_string(), false));
    page.update(hashtags::Message::Refresh);
    assert!(!page.loaded);
    assert!(page.unfollowed.is_empty());
}

#[test]
fn hashtag_selection_opens_a_tag_timeline() {
    let mut page = Hashtags::new(logged_in());
    page.update(hashtags::Message::Select("rust".to_string()));
    let selected = page.selected.as_ref().unwrap();
    assert!(matches!(selected.kind, TimelineKind::Tag(ref n) if n == "rust"));
    match page.subscriptions().1 {
        Some(Feed::Timeline { kind: TimelineKind::Tag(ref n), .. }) => assert_eq!(n, "rust"),
        _ => panic!("the selected tag's timeline is fetched"),
    }
    page.update(hashtags::Message::Timeline(timeline::Message::AppendStatus(status("1", "a"))));
    assert_eq!(ids(&page.selected.as_ref().unwrap().statuses), vec!["1"]);
    page.update(hashtags::Message::SetClient(logged_out()));
    assert!(page.selected.as_ref().unwrap().mastodon.token.is_none());
    page.update(hashtags::Message::Deselect);
    assert!(page.selected.is_none());
    assert!(page.update(hashtags::Message::Timeline(timeline::Message::LoadMore(true))).is_empty());
}

#[test]
fn lists_page() {
    let mut page = Lists::new(logged_in());
    assert!(page.is_authenticated());
    assert!(matches!(page.subscriptions(), (Some(Feed::Lists(_)), None)));
    page.update(lists::Message::SetLists(vec![UserList { id: "1".to_string(), title: "Friends".to_string() }]));
    assert!(page.loaded);
    assert_eq!(page.lists[0].title, "Friends");
    assert!(page.subscriptions().0.is_none());
    page.update(lists::Message::Select("1".to_string()));
    assert!(matches!(page.selected.as_ref().unwrap().kind, TimelineKind::List(ref id) if id == "1"));
    assert!(page.subscriptions().1.is_some());
    let logged_out_page = Lists::new(logged_out());
    assert!(logged_out_page.subscriptions().0.is_none());
}

#[test]
fn search_submits_trimmed_query() {
    let mut page = Search::new(logged_in());
    assert!(page.update(search::Message::Submit).is_empty());
    page.update(search::Message::QueryChanged("   ".to_string()));
    assert!(page.update(search::Message::Submit).is_empty());
    page.update(search::Message::QueryChanged("  rust lang ".to_string()));
    let effects = page.update(search::Message::Submit);
    assert_eq!(effects.len(), 1);
    assert!(matches!(effects[0], Effect::Request(_, Request::Search(ref q)) if q == "rust lang"));
    assert_eq!(page.query, "  rust lang ");

    page.update(search::Message::SetResults(SearchResults {
        accounts: Vec::new(),
        statuses: vec![status("1", "a")],
        hashtags: vec![tag("rust")],
    }));
    assert_eq!(page.results.as_ref().unwrap().statuses.len(), 1);

    let effects = page.update(search::Message::OpenAccount(account("3", "c")));
    assert!(matches!(
        effects[0],
        Effect::Send(AppMessage::ToggleContextPage(toot::app::ContextPage::Account(ref a))) if a.id == "3"
    ));

    assert!(page.subscription().is_none());
    page.update(search::Message::SelectTag("rust".to_string()));
    assert!(matches!(page.subscription(), Some(Feed::Timeline { kind: TimelineKind::Tag(_), .. })));
}

#[test]
fn boost_in_timeline_fetches_images_of_both_statuses() {
    let mut t = Timeline::new(logged_in(), TimelineKind::Home);
    let mut boost = status("b", "a");
    boost.reblog = Some(Rc::new(status("o", "far@away")));
    let effects = t.update(timeline::Message::AppendStatus(boost));
    match &effects[1] {
        Effect::Send(AppMessage::Fetch(urls)) => {
            assert!(urls.contains(&"https://example.social/a/b.png".to_string()));
            assert!(urls.contains(&"https://example.social/a/o.png".to_string()));
        }
        _ => panic!("images of both statuses are fetched"),
    }
}

#[test]
fn search_results_show_only_non_empty_sections() {
    let mut page = Search::new(logged_in());
    assert!(search::results_rows(&page).is_none());
    page.update(search::Message::SetResults(SearchResults {
        accounts: vec![account("3", "carol@far.social")],
        statuses: Vec::new(),
        hashtags: vec![tag("rust")],
    }));
    let rows = search::results_rows(&page).unwrap();
    let accounts = rows.accounts.unwrap();
    assert_eq!(accounts.len(), 1);
    assert_eq!(accounts[0].name, "User 3");
    assert_eq!(accounts[0].handle, "@carol@far.social");
    assert!(matches!(accounts[0].open, search::Message::OpenAccount(ref a) if a.id == "3"));
    let tags = rows.hashtags.unwrap();
    assert_eq!(tags[0].label, "#rust");
    assert!(matches!(tags[0].select, search::Message::SelectTag(ref n) if n == "rust"));
    assert!(!rows.shows_statuses);

    page.update(search::Message::SetResults(SearchResults {
        accounts: Vec::new(),
        statuses: vec![status("1", "a")],
        hashtags: Vec::new(),
    }));
    let rows = search::results_rows(&page).unwrap();
    assert!(rows.accounts.is_none());
    assert!(rows.hashtags.is_none());
    assert!(rows.shows_statuses);
}
