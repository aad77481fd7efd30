use toot::config::{FeedDensity, ThemeMode, TootConfig};
use toot::persistence::account_slug;
use toot::text::{
    contains_char, contains_str, is_blank, owned, starts_with, trim, trim_end_matches_char,
    trim_start_matches,
};

#[test]
fn theme_modes_and_labels() {
    assert_eq!(ThemeMode::all(), vec![ThemeMode::Light, ThemeMode::Dark, ThemeMode::System]);
    assert_eq!(ThemeMode::Light.label(), "Light");
    assert_eq!(ThemeMode::Dark.label(), "Dark");
    assert_eq!(ThemeMode::System.label(), "System");
    for (i, mode) in ThemeMode::all().into_iter().enumerate() {
        assert_eq!(mode.position(), i);
    }
    assert_eq!(ThemeMode::default(), ThemeMode::System);
}

#[test]
fn feed_densities_and_labels() {
    assert_eq!(
        FeedDensity::all(),
        vec![FeedDensity::TextOnly, FeedDensity::Compact, FeedDensity::Full]
    );
    assert_eq!(FeedDensity::TextOnly.label(), "Text only");
    assert_eq!(FeedDensity::Compact.label(), "Compact");
    assert_eq!(FeedDensity::Full.label(), "Full");
    for (i, density) in FeedDensity::all().into_iter().enumerate() {
        assert_eq!(density.position(), i);
    }
    assert_eq!(FeedDensity::default(), FeedDensity::Full);
}

#[test]
fn default_config() {
    let config = TootConfig::default();
    assert_eq!(config.server, "");
    assert!(!config.hide_boosts);
    assert!(!config.hide_replies);
    assert_eq!(config.feed_density, FeedDensity::Full);
    assert_eq!(config.theme_mode, ThemeMode::System);
}

#[test]
fn config_from_store() {
    let read = TootConfig {
        server: "https://fosstodon.org".to_string(),
        hide_boosts: true,
        hide_replies: false,
        feed_density: FeedDensity::Compact,
        theme_mode: ThemeMode::Dark,
    };
    let config = TootConfig::config(Some(Ok(read.clone())));
    assert_eq!(config.server, "https://fosstodon.org");
    assert!(config.hide_boosts);
    assert_eq!(config.feed_density, FeedDensity::Compact);
    assert_eq!(config.theme_mode, ThemeMode::Dark);

    let mut partial = read;
    partial.server = "https://partial.example".to_string();
    let config = TootConfig::config(Some(Err(partial)));
    assert_eq!(config.server, "https://partial.example");

    let config = TootConfig::config(None);
    assert_eq!(config.server, "");
    assert_eq!(config.theme_mode, ThemeMode::System);
}

#[test]
fn prefix_and_substring_tests() {
    assert!(starts_with("https://x", "https://"));
    assert!(!starts_with("http", "https://"));
    assert!(starts_with("abc", ""));
    assert!(contains_str("hello world", "o w"));
    assert!(contains_str("abc", ""));
    assert!(!contains_str("abc", "abcd"));
    assert!(!contains_str("abc", "ac"));
    assert!(contains_char("user@host", '@'));
    assert!(!contains_char("user", '@'));
}

#[test]
fn trimming() {
    assert_eq!(trim_start_matches("https://https://a", "https://"), "a");
    assert_eq!(trim_start_matches("abc", ""), "abc");
    assert_eq!(trim_end_matches_char("a///", '/'), "a");
    assert_eq!(trim_end_matches_char("///", '/'), "");
    assert_eq!(trim("  \t hi there \n"), "hi there");
    assert_eq!(trim("   "), "");
    assert_eq!(trim("\u{3000}x\u{2003}"), "x");
    assert!(is_blank(" \n\t"));
    assert!(is_blank(""));
    assert!(!is_blank(" a "));
}

#[test]
fn string_building() {
    assert_eq!(owned("abc"), "abc".to_string());
    assert_eq!(owned(""), String::new());
}

#[test]
fn unicode_letters_and_spaces() {
    assert_eq!(account_slug("https://ñandú.es/ü"), "ñandú_es_ü");
    assert_eq!(account_slug("https://a.b/7!"), "a_b_7_");
    assert_eq!(trim("\u{2003}\u{3000}é\u{00A0}"), "é");
    assert!(is_blank("\u{3000}\u{2003}"));
}

#[test]
fn slugs_hold_no_separators() {
    assert_eq!(account_slug("a/b"), "a_b");
    assert_eq!(account_slug("https://x.y:8080/~me"), "x_y_8080__me");
    assert!(account_slug("http://a.b/c?d=e#f").chars().all(|c| c.is_alphanumeric() || c == '_'));
}
