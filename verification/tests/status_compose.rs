use std::rc::Rc;

use toot::app::{ContextPage, Dialog, DialogAction, Message as AppMessage};
use toot::cache::Cache;
use toot::config::FeedDensity;
use toot::entities::{
    Account, Attachment, AttachmentType, Card, Field, Relationship, Status, StatusVisibility, Tag,
};
use toot::features::accounts::{self, bio, profile_actions, profile_fields, relationship_actions};
use toot::features::compose::{can_post, remaining, visibilities, visibility_label, State};
use toot::features::settings::{self, account_rows};
use toot::features::status::{
    self, actions, avatar_size, boost_banner, content, display_name, displayed, handle_label, is_compact,
    media_action, shows_card, shows_media, shows_tags, tag_label, StatusOptions,
};
use toot::client::Session;

fn account(id: &str) -> Account {
    Account {
        id: id.to_string(),
        username: format!("user{id}"),
        acct: format!("user{id}"),
        display_name: format!("User {id}"),
        avatar: format!("https://example.social/a/{id}.png"),
        header: format!("https://example.social/h/{id}.png"),
        url: format!("https://example.social/@user{id}"),
        note: String::new(),
        fields: Vec::new(),
        followers_count: 0,
        following_count: 0,
        statuses_count: 0,
        joined: "01 Jan 2020".to_string(),
    }
}

fn status(id: &str, author: Account) -> Status {
    Status {
        id: id.to_string(),
        account: author,
        reblog: None,
        in_reply_to_id: None,
        content: "<p>hello</p>".to_string(),
        card: None,
        media_attachments: Vec::new(),
        tags: Vec::new(),
        replies_count: 3,
        reblogs_count: 4,
        favourites_count: 5,
        reblogged: None,
        favourited: None,
        bookmarked: None,
        visibility: StatusVisibility::Public,
    }
}

#[test]
fn compose_default_is_blank_public_post() {
    let state = State::default();
    assert!(state.in_reply_to_id.is_none());
    assert!(state.text.is_none());
    assert!(!state.content_warning);
    assert_eq!(state.spoiler_text, "");
    assert_eq!(state.visibility, StatusVisibility::Public);
    assert!(!state.is_reply());
    assert_eq!(state.selected_visibility(), Some(0));
    assert_eq!(state.spoiler(), None);
}

#[test]
fn compose_reply_mentions_author() {
    let state = State::reply("42".to_string(), "alice".to_string());
    assert_eq!(state.in_reply_to_id.as_deref(), Some("42"));
    assert_eq!(state.text.as_deref(), Some("@alice "));
    assert!(state.is_reply());
    assert_eq!(state.visibility, StatusVisibility::Public);
}

#[test]
fn compose_edits() {
    let state = State::default().with_visibility(2);
    assert_eq!(state.visibility, StatusVisibility::Private);
    assert_eq!(state.selected_visibility(), Some(2));
    let state = state.with_content_warning(true).with_spoiler_text("spoilers".to_string());
    assert_eq!(state.spoiler(), Some("spoilers".to_string()));
    let state = state.with_content_warning(false);
    assert_eq!(state.spoiler(), None);
    assert_eq!(state.spoiler_text, "spoilers");
    let mut local = State::default();
    local.visibility = StatusVisibility::Local;
    assert_eq!(local.selected_visibility(), None);
}

#[test]
fn compose_visibility_picker() {
    assert_eq!(
        visibilities(),
        vec![
            StatusVisibility::Public,
            StatusVisibility::Unlisted,
            StatusVisibility::Private,
            StatusVisibility::Direct,
        ]
    );
    assert_eq!(visibility_label(StatusVisibility::Public), "Public");
    assert_eq!(visibility_label(StatusVisibility::Unlisted), "Unlisted");
    assert_eq!(visibility_label(StatusVisibility::Private), "Followers only");
    assert_eq!(visibility_label(StatusVisibility::Direct), "Direct");
    assert_eq!(visibility_label(StatusVisibility::Local), "Local");
}

#[test]
fn compose_character_counter() {
    assert_eq!(remaining(500, ""), 500);
    assert_eq!(remaining(500, "héllo"), 495);
    assert_eq!(remaining(3, "abcde"), -2);
    assert!(can_post(500, "hi"));
    assert!(!can_post(500, "   "));
    assert!(!can_post(500, ""));
    assert!(can_post(2, "ab"));
    assert!(!can_post(2, "abc"));
}

#[test]
fn status_options() {
    let all = StatusOptions::all();
    assert!(all.media && all.tags && all.actions && all.expand);
    let none = StatusOptions::none();
    assert!(!none.media && !none.tags && !none.actions && !none.expand);
    let some = StatusOptions::new(true, false, true, false);
    assert!(some.media && !some.tags && some.actions && !some.expand);
}

#[test]
fn status_messages_route_to_the_application() {
    let routed = status::update(status::Message::ExpandStatus("9".to_string()));
    assert!(matches!(routed, AppMessage::ToggleContextPage(ContextPage::Status(ref id)) if id == "9"));

    let routed = status::update(status::Message::OpenAccount(account("1")));
    assert!(matches!(routed, AppMessage::ToggleContextPage(ContextPage::Account(ref a)) if a.id == "1"));

    let routed = status::update(status::Message::Reply("9".to_string(), "bob".to_string()));
    match routed {
        AppMessage::Dialog(DialogAction::Open(Dialog::Compose(state))) => {
            assert_eq!(state.in_reply_to_id.as_deref(), Some("9"));
            assert_eq!(state.text.as_deref(), Some("@bob "));
        }
        _ => panic!("a reply opens the compose dialog"),
    }

    let routed = status::update(status::Message::Favorite("9".to_string(), true));
    assert!(matches!(routed, AppMessage::Status(status::Message::Favorite(ref id, true)) if id == "9"));

    let routed = status::update(status::Message::OpenLink("https://x.y".to_string()));
    assert!(matches!(routed, AppMessage::Open(ref url) if url == "https://x.y"));

    let routed = status::update(status::Message::ViewImage("p".to_string(), "o".to_string()));
    assert!(matches!(
        routed,
        AppMessage::Dialog(DialogAction::Open(Dialog::Image(ref p, ref o))) if p == "p" && o == "o"
    ));

    let routed = status::update(status::Message::Delete("9".to_string()));
    assert!(matches!(
        routed,
        AppMessage::Dialog(DialogAction::Open(Dialog::DeleteStatus(ref id))) if id == "9"
    ));
}

#[test]
fn boosts_show_the_cached_boosted_status() {
    let mut cache = Cache::new();
    let boosted = status("orig", account("2"));
    let mut boost = status("boost", account("1"));
    boost.reblog = Some(Rc::new(boosted));
    assert_eq!(displayed(&boost, &cache).id, "orig");
    let mut updated = status("orig", account("2"));
    updated.favourites_count = 99;
    cache.insert_status(updated);
    assert_eq!(displayed(&boost, &cache).favourites_count, 99);
    let plain = status("plain", account("3"));
    assert_eq!(displayed(&plain, &cache).id, "plain");
    assert_eq!(boost_banner(&boost).as_deref(), Some("User 1 boosted"));
    assert_eq!(boost_banner(&plain), None);
}

#[test]
fn density_decides_what_is_shown() {
    assert_eq!(avatar_size(FeedDensity::Full), 50);
    assert_eq!(avatar_size(FeedDensity::Compact), 36);
    assert_eq!(avatar_size(FeedDensity::TextOnly), 36);
    assert!(is_compact(FeedDensity::Compact));
    assert!(!is_compact(FeedDensity::Full));

    let mut s = status("1", account("1"));
    assert!(!shows_card(&s, FeedDensity::Full));
    s.card = Some(Card {
        url: "https://x.y".to_string(),
        title: "t".to_string(),
        description: "d".to_string(),
        image: None,
    });
    assert!(shows_card(&s, FeedDensity::Full));
    assert!(shows_card(&s, FeedDensity::Compact));
    assert!(!shows_card(&s, FeedDensity::TextOnly));

    assert!(!shows_media(&s, StatusOptions::all(), FeedDensity::Full));
    s.media_attachments.push(Attachment {
        kind: AttachmentType::Image,
        url: "https://x.y/o.png".to_string(),
        preview_url: Some("https://x.y/p.png".to_string()),
    });
    assert!(shows_media(&s, StatusOptions::all(), FeedDensity::Full));
    assert!(!shows_media(&s, StatusOptions::none(), FeedDensity::Full));
    assert!(!shows_media(&s, StatusOptions::all(), FeedDensity::TextOnly));

    assert!(!shows_tags(&s, StatusOptions::all(), FeedDensity::Full));
    s.tags.push(Tag { name: "rust".to_string(), url: String::new(), following: None });
    assert!(shows_tags(&s, StatusOptions::all(), FeedDensity::Full));
    assert!(shows_tags(&s, StatusOptions::all(), FeedDensity::Compact));
    assert!(!shows_tags(&s, StatusOptions::all(), FeedDensity::TextOnly));
    assert!(!shows_tags(&s, StatusOptions::none(), FeedDensity::Full));
}

#[test]
fn media_press_opens_overlay_or_browser() {
    let image = Attachment {
        kind: AttachmentType::Image,
        url: "https://x.y/o.png".to_string(),
        preview_url: Some("https://x.y/p.png".to_string()),
    };
    assert!(matches!(
        media_action(&image),
        status::Message::ViewImage(ref p, ref o) if p == "https://x.y/p.png" && o == "https://x.y/o.png"
    ));
    let gif_without_preview = Attachment {
        kind: AttachmentType::Gifv,
        url: "https://x.y/g.mp4".to_string(),
        preview_url: None,
    };
    assert!(matches!(
        media_action(&gif_without_preview),
        status::Message::OpenLink(ref u) if u == "https://x.y/g.mp4"
    ));
    let video = Attachment {
        kind: AttachmentType::Video,
        url: "https://x.y/v.mp4".to_string(),
        preview_url: Some("https://x.y/v.png".to_string()),
    };
    assert!(matches!(
        media_action(&video),
        status::Message::OpenLink(ref u) if u == "https://x.y/v.mp4"
    ));
}

#[test]
fn action_row_reflects_server_state() {
    let mut cache = Cache::new();
    let mut s = status("7", account("1"));
    s.reblogged = Some(true);
    s.favourited = Some(false);
    assert!(actions(&s, StatusOptions::none(), &cache).is_none());
    let row = actions(&s, StatusOptions::all(), &cache).unwrap();
    assert!(matches!(row.reply, status::Message::Reply(ref id, ref user) if id == "7" && user == "user1"));
    assert_eq!((row.replies_count, row.reblogs_count, row.favourites_count), (3, 4, 5));
    assert!(row.boost.active);
    assert!(matches!(row.boost.on_press, Some(status::Message::Boost(ref id, true)) if id == "7"));
    assert!(!row.favourite.active);
    assert!(matches!(row.favourite.on_press, Some(status::Message::Favorite(ref id, false)) if id == "7"));
    assert!(!row.bookmark.active);
    assert!(row.bookmark.on_press.is_none());
    assert!(row.delete.is_none());

    cache.me = Some(account("1"));
    let row = actions(&s, StatusOptions::all(), &cache).unwrap();
    assert!(matches!(row.delete, Some(status::Message::Delete(ref id)) if id == "7"));
}

#[test]
fn status_text_and_labels() {
    let s = status("7", account("1"));
    let (text, expand) = content(&s, StatusOptions::all());
    let text = text.unwrap();
    assert!(text.contains("hello"));
    assert!(!text.contains("<p>"));
    assert!(matches!(expand, Some(status::Message::ExpandStatus(ref id)) if id == "7"));
    let (_, expand) = content(&s, StatusOptions::none());
    assert!(expand.is_none());
    assert_eq!(tag_label("rust"), "#rust");
    assert_eq!(handle_label("alice"), "@alice");
}

#[test]
fn account_open_goes_to_browser() {
    let effects = accounts::update(accounts::Message::Open("https://x.y/@a".to_string()));
    assert_eq!(effects.len(), 1);
    assert!(matches!(effects[0], toot::app::Effect::OpenUrl(ref u) if u == "https://x.y/@a"));
    let effects = accounts::update(accounts::Message::Follow("1".to_string(), false));
    assert!(effects.is_empty());
}

#[test]
fn relationship_buttons() {
    let a = account("5");
    let unknown = relationship_actions(&a, None);
    assert!(!unknown.following && !unknown.muting && !unknown.blocking);
    assert_eq!(unknown.follow_label, "Follow");
    assert_eq!(unknown.mute_label, "Mute");
    assert_eq!(unknown.block_label, "Block");
    assert!(matches!(unknown.follow, accounts::Message::Follow(ref id, false) if id == "5"));

    let r = Relationship { id: "5".to_string(), following: true, muting: true, blocking: false };
    let known = relationship_actions(&a, Some(&r));
    assert_eq!(known.follow_label, "Unfollow");
    assert_eq!(known.mute_label, "Unmute");
    assert_eq!(known.block_label, "Block");
    assert!(matches!(known.mute, accounts::Message::Mute(ref id, true) if id == "5"));
    assert!(matches!(known.block, accounts::Message::Block(ref id, false) if id == "5"));
}

#[test]
fn profile_buttons_use_cached_relationship_and_hide_on_own_profile() {
    let mut cache = Cache::new();
    let a = account("5");
    let actions = profile_actions(&a, &cache).unwrap();
    assert!(!actions.following);
    cache.insert_relationship(Relationship {
        id: "5".to_string(),
        following: true,
        muting: false,
        blocking: true,
    });
    let actions = profile_actions(&a, &cache).unwrap();
    assert!(actions.following && actions.blocking);
    assert_eq!(actions.block_label, "Unblock");
    cache.me = Some(account("5"));
    assert!(profile_actions(&a, &cache).is_none());
}

#[test]
fn profile_bio_and_fields() {
    let mut a = account("5");
    assert!(bio(&a).is_none());
    a.note = "<p>Rustacean</p>".to_string();
    let text = bio(&a).unwrap().unwrap();
    assert!(text.contains("Rustacean"));
    assert!(!text.contains("<p>"));

    a.fields.push(Field { name: "website".to_string(), value: "<a href=\"https://r.s\">r.s</a>".to_string() });
    a.fields.push(Field { name: "PRONOUNS".to_string(), value: "they/them".to_string() });
    let fields = profile_fields(&a).unwrap();
    assert_eq!(fields.len(), 2);
    assert_eq!(fields[0].name, "Website");
    assert!(fields[0].value.contains("r.s"));
    assert!(matches!(fields[0].open, accounts::Message::Open(ref v) if *v == fields[0].value));
    assert_eq!(fields[1].name, "Pronouns");
    assert!(fields[1].value.contains("they/them"));
}

#[test]
fn settings_account_rows() {
    let sessions = vec![
        Session { base_url: "https://a.social".to_string(), token: "t1".to_string() },
        Session { base_url: "https://b.social".to_string(), token: "t2".to_string() },
        Session { base_url: "https://c.social".to_string(), token: "t3".to_string() },
    ];
    let rows = account_rows(&sessions, 1);
    assert_eq!(rows.len(), 3);
    assert_eq!(rows[0].base_url, "https://a.social");
    assert!(matches!(rows[0].switch, Some(settings::Message::SwitchAccount(0))));
    assert!(rows[1].switch.is_none());
    assert!(matches!(rows[2].switch, Some(settings::Message::SwitchAccount(2))));
    assert!(matches!(rows[2].remove, settings::Message::RemoveAccount(2)));
    assert!(account_rows(&Vec::new(), 0).is_empty());
}

#[test]
fn display_name_is_shown_only_when_set() {
    let mut a = account("1");
    assert_eq!(display_name(&a).map(String::as_str), Some("User 1"));
    a.display_name = String::new();
    assert!(display_name(&a).is_none());
}
