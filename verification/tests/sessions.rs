use toot::client::{Client, Session, Sessions};

fn session(url: &str, token: &str) -> Session {
    Session { base_url: url.to_string(), token: token.to_string() }
}

fn urls(sessions: &Sessions) -> Vec<String> {
    sessions.sessions.iter().map(|s| s.base_url.clone()).collect()
}

#[test]
fn upsert_adds_new_instance_and_activates_it() {
    let mut sessions = Sessions::default();
    sessions.upsert_active(session("https://a.social", "t1"));
    sessions.upsert_active(session("https://b.social", "t2"));
    assert_eq!(urls(&sessions), vec!["https://a.social", "https://b.social"]);
    assert_eq!(sessions.active, 1);
    assert_eq!(sessions.active_session().unwrap().token, "t2");
}

#[test]
fn upsert_replaces_same_instance() {
    let mut sessions = Sessions::default();
    sessions.upsert_active(session("https://a.social", "t1"));
    sessions.upsert_active(session("https://b.social", "t2"));
    sessions.upsert_active(session("https://a.social", "t3"));
    assert_eq!(urls(&sessions), vec!["https://a.social", "https://b.social"]);
    assert_eq!(sessions.active, 0);
    assert_eq!(sessions.active_session().unwrap().token, "t3");
}

#[test]
fn upsert_twice_is_upsert_once() {
    let mut once = Sessions::default();
    once.upsert_active(session("https://a.social", "t1"));
    once.upsert_active(session("https://b.social", "t2"));
    let mut twice = once.clone();
    once.upsert_active(session("https://a.social", "t9"));
    twice.upsert_active(session("https://a.social", "t9"));
    twice.upsert_active(session("https://a.social", "t9"));
    assert_eq!(urls(&once), urls(&twice));
    assert_eq!(once.active, twice.active);
}

#[test]
fn remove_active_last_activates_previous() {
    let mut sessions = Sessions { active: 2, sessions: vec![session("a", "1"), session("b", "2"), session("c", "3")] };
    sessions.remove(2);
    assert_eq!(urls(&sessions), vec!["a", "b"]);
    assert_eq!(sessions.active, 1);
}

#[test]
fn remove_active_middle_activates_previous() {
    let mut sessions = Sessions { active: 1, sessions: vec![session("a", "1"), session("b", "2"), session("c", "3")] };
    sessions.remove(1);
    assert_eq!(urls(&sessions), vec!["a", "c"]);
    assert_eq!(sessions.active, 0);
    assert_eq!(sessions.active_session().unwrap().base_url, "a");
}

#[test]
fn remove_active_first_activates_new_first() {
    let mut sessions = Sessions { active: 0, sessions: vec![session("a", "1"), session("b", "2"), session("c", "3")] };
    sessions.remove(0);
    assert_eq!(urls(&sessions), vec!["b", "c"]);
    assert_eq!(sessions.active, 0);
    assert_eq!(sessions.active_session().unwrap().base_url, "b");
}

#[test]
fn remove_later_session_keeps_active() {
    let mut sessions = Sessions { active: 0, sessions: vec![session("a", "1"), session("b", "2")] };
    sessions.remove(1);
    assert_eq!(sessions.active_session().unwrap().base_url, "a");
}

#[test]
fn remove_out_of_range_changes_nothing() {
    let mut sessions = Sessions { active: 0, sessions: vec![session("a", "1")] };
    sessions.remove(5);
    assert_eq!(urls(&sessions), vec!["a"]);
    assert_eq!(sessions.active, 0);
}

#[test]
fn remove_last_session_resets_active() {
    let mut sessions = Sessions { active: 0, sessions: vec![session("a", "1")] };
    sessions.remove(0);
    assert!(sessions.sessions.is_empty());
    assert_eq!(sessions.active, 0);
    assert!(sessions.active_session().is_none());
}

#[test]
fn active_session_out_of_range_is_none() {
    let sessions = Sessions { active: 3, sessions: vec![session("a", "1")] };
    assert!(sessions.active_session().is_none());
}

#[test]
fn payload_prefers_full_list_then_single_session() {
    let full = Sessions { active: 1, sessions: vec![session("a", "1"), session("b", "2")] };
    let parsed = Sessions::from_payload(Some(full), Some(session("z", "9"))).unwrap();
    assert_eq!(parsed.active, 1);
    assert_eq!(urls(&parsed), vec!["a", "b"]);
    let legacy = Sessions::from_payload(None, Some(session("z", "9"))).unwrap();
    assert_eq!(legacy.active, 0);
    assert_eq!(urls(&legacy), vec!["z"]);
    assert!(Sessions::from_payload(None, None).is_none());
}

#[test]
fn client_authentication_needs_non_empty_token() {
    assert!(!Client::new("https://a".to_string(), None).is_authenticated());
    assert!(!Client::new("https://a".to_string(), Some(String::new())).is_authenticated());
    assert!(Client::new("https://a".to_string(), Some("t".to_string())).is_authenticated());
}

#[test]
fn clients_compare_by_url_and_token() {
    let a = Client::new("https://a".to_string(), Some("t".to_string()));
    let b = Client::new("https://a".to_string(), Some("t".to_string()));
    let c = Client::new("https://a".to_string(), None);
    assert!(a == b);
    assert!(a != c);
}

#[test]
fn remove_earlier_session_keeps_same_session_active() {
    let mut sessions = Sessions {
        active: 2,
        sessions: vec![session("a", "1"), session("b", "2"), session("c", "3"), session("d", "4")],
    };
    sessions.remove(0);
    assert_eq!(urls(&sessions), vec!["b", "c", "d"]);
    assert_eq!(sessions.active, 1);
    assert_eq!(sessions.active_session().unwrap().base_url, "c");
}

#[test]
fn remove_with_stale_active_still_activates_a_session() {
    let mut sessions = Sessions { active: 5, sessions: vec![session("a", "1"), session("b", "2")] };
    sessions.remove(0);
    assert_eq!(urls(&sessions), vec!["b"]);
    assert_eq!(sessions.active, 0);
}

#[test]
fn client_description_redacts_the_token() {
    let client = Client::new("https://a.social".to_string(), Some("secret-token".to_string()));
    let text = client.debug_text();
    assert_eq!(text, "Client { base_url: \"https://a.social\", token: Some(\"<redacted>\") }");
    assert!(!text.contains("secret-token"));
    let other = Client::new("https://a.social".to_string(), Some("another".to_string()));
    assert_eq!(other.debug_text(), text);
    let anonymous = Client::new("https://a.social".to_string(), None);
    assert_eq!(anonymous.debug_text(), "Client { base_url: \"https://a.social\", token: None }");
}
