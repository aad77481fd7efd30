use std::rc::Rc;

use toot::cache::{extract_notification_images, extract_status_images, Cache};
use toot::config::FeedDensity;
use toot::entities::{
    Account, Attachment, AttachmentType, Card, ImageData, Notification, NotificationType,
    Relationship, Status, StatusVisibility,
};
use toot::store::KeyedStore;

fn account(id: &str, avatar: &str, header: &str) -> Account {
    Account {
        id: id.to_string(),
        username: format!("user{id}"),
        acct: format!("user{id}"),
        display_name: format!("User {id}"),
        avatar: avatar.to_string(),
        header: header.to_string(),
        url: format!("https://example.social/@user{id}"),
        note: String::new(),
        fields: Vec::new(),
        followers_count: 0,
        following_count: 0,
        statuses_count: 0,
        joined: "01 Jan 2020".to_string(),
    }
}

fn status(id: &str, author: Account) -> Status {
    Status {
        id: id.to_string(),
        account: author,
        reblog: None,
        in_reply_to_id: None,
        content: "<p>hello</p>".to_string(),
        card: None,
        media_attachments: Vec::new(),
        tags: Vec::new(),
        replies_count: 0,
        reblogs_count: 0,
        favourites_count: 0,
        reblogged: None,
        favourited: None,
        bookmarked: None,
        visibility: StatusVisibility::Public,
    }
}

#[test]
fn store_insert_get_replace_remove() {
    let mut store: KeyedStore<u32> = KeyedStore::new();
    assert!(store.get("a").is_none());
    store.insert("a".to_string(), Rc::new(1));
    store.insert("b".to_string(), Rc::new(2));
    store.insert("a".to_string(), Rc::new(3));
    assert_eq!(**store.get("a").unwrap(), 3);
    assert_eq!(**store.get("b").unwrap(), 2);
    assert!(store.contains_key("b"));
    store.remove("a");
    assert!(!store.contains_key("a"));
    assert!(store.contains_key("b"));
    store.remove("zzz");
    assert!(store.contains_key("b"));
    store.clear();
    assert!(!store.contains_key("b"));
}

#[test]
fn insert_status_caches_boost_and_boosted() {
    let mut cache = Cache::new();
    let boosted = status("orig", account("2", "", ""));
    let mut boost = status("boost", account("1", "", ""));
    boost.reblog = Some(Rc::new(boosted));
    cache.insert_status(boost);
    assert!(cache.dirty);
    assert!(cache.statuses.get("boost").unwrap().reblog.is_some());
    assert_eq!(cache.statuses.get("orig").unwrap().account.id, "2");
}

#[test]
fn insert_notification_caches_its_status() {
    let mut cache = Cache::new();
    let notification = Notification {
        id: "n1".to_string(),
        kind: NotificationType::Mention,
        account: Some(account("3", "", "")),
        status: Some(Rc::new(status("s1", account("3", "", "")))),
    };
    cache.insert_notification(notification);
    assert!(cache.notifications.contains_key("n1"));
    assert!(cache.statuses.contains_key("s1"));
    assert!(cache.dirty);
}

#[test]
fn clear_forgets_content_but_keeps_preferences() {
    let mut cache = Cache::new();
    cache.hide_boosts = true;
    cache.feed_density = FeedDensity::Compact;
    cache.insert_status(status("s1", account("1", "", "")));
    cache.insert_handle("https://img".to_string(), ImageData { bytes: vec![1, 2, 3] });
    cache.insert_relationship(Relationship { id: "1".to_string(), following: true, muting: false, blocking: false });
    cache.me = Some(account("1", "", ""));
    cache.clear();
    assert!(!cache.statuses.contains_key("s1"));
    assert!(!cache.handles.contains_key("https://img"));
    assert!(!cache.relationships.contains_key("1"));
    assert!(cache.me.is_none());
    assert!(!cache.dirty);
    assert!(cache.hide_boosts);
    assert_eq!(cache.feed_density, FeedDensity::Compact);
}

#[test]
fn visibility_follows_filters() {
    let mut cache = Cache::new();
    let mut reply = status("r", account("1", "", ""));
    reply.in_reply_to_id = Some("x".to_string());
    let mut boost = status("b", account("1", "", ""));
    boost.reblog = Some(Rc::new(status("o", account("2", "", ""))));
    let plain = status("p", account("1", "", ""));
    assert!(cache.is_visible(&reply) && cache.is_visible(&boost) && cache.is_visible(&plain));
    cache.hide_boosts = true;
    assert!(!cache.is_visible(&boost));
    assert!(cache.is_visible(&reply));
    cache.hide_replies = true;
    assert!(!cache.is_visible(&reply));
    assert!(cache.is_visible(&plain));
}

#[test]
fn is_me_compares_account_ids() {
    let mut cache = Cache::new();
    assert!(!cache.is_me("1"));
    cache.me = Some(account("1", "", ""));
    assert!(cache.is_me("1"));
    assert!(!cache.is_me("2"));
}

#[test]
fn status_images_in_display_order() {
    let mut boosted = status("o", account("2", "ava2", ""));
    boosted.card = Some(Card {
        url: "https://link".to_string(),
        title: "t".to_string(),
        description: "d".to_string(),
        image: Some("card2".to_string()),
    });
    boosted.media_attachments = vec![
        Attachment { kind: AttachmentType::Image, url: "full2".to_string(), preview_url: Some("prev2".to_string()) },
        Attachment { kind: AttachmentType::Video, url: "vid".to_string(), preview_url: None },
    ];
    let mut boost = status("b", account("1", "ava1", "head1"));
    boost.reblog = Some(Rc::new(boosted));
    boost.media_attachments = vec![Attachment {
        kind: AttachmentType::Gifv,
        url: "full1".to_string(),
        preview_url: Some("prev1".to_string()),
    }];
    assert_eq!(
        extract_status_images(&boost),
        vec!["ava1", "head1", "ava2", "card2", "prev2", "prev1"]
    );
}

#[test]
fn notification_images_in_display_order() {
    let mut s = status("s", account("2", "ava2", "head2"));
    s.card = Some(Card { url: "u".to_string(), title: "t".to_string(), description: "d".to_string(), image: None });
    let notification = Notification {
        id: "n".to_string(),
        kind: NotificationType::Favourite,
        account: Some(account("1", "", "head1")),
        status: Some(Rc::new(s)),
    };
    assert_eq!(extract_notification_images(&notification), vec!["head1", "ava2", "head2"]);
    let bare = Notification { id: "n".to_string(), kind: NotificationType::Follow, account: None, status: None };
    assert!(extract_notification_images(&bare).is_empty());
}
