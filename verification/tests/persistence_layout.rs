use std::hash::BuildHasher;

use toot::persistence::{
    account_dir, account_slug, bounded_len, cache_root, image_cache_path, lower_hex,
    prune_prefixed, prune_scoped_snapshots, snapshot_path, CacheFile, APP_ID, MAX_NOTIFICATIONS,
    MAX_SCOPED_FILES, MAX_STATUSES,
};

fn dir() -> Option<Vec<String>> {
    Some(vec!["home".to_string(), "me".to_string(), ".cache".to_string()])
}

#[test]
fn slug_strips_scheme_and_replaces_symbols() {
    assert_eq!(account_slug("https://mastodon.social"), "mastodon_social");
    assert_eq!(account_slug("http://example.com:8080/path"), "example_com_8080_path");
    assert_eq!(account_slug("https://https://x.y"), "x_y");
    assert_eq!(account_slug("https://ñandú.es"), "ñandú_es");
    assert_eq!(account_slug(""), "");
}

#[test]
fn cache_paths() {
    assert_eq!(cache_root(None), None);
    assert_eq!(
        cache_root(dir()).unwrap(),
        vec!["home", "me", ".cache", APP_ID]
    );
    assert_eq!(
        account_dir(dir(), "https://mastodon.social").unwrap(),
        vec!["home", "me", ".cache", "dev.edfloreshz.Toot", "mastodon_social"]
    );
    assert_eq!(
        snapshot_path(dir(), "https://mastodon.social", "tag-rust").unwrap(),
        vec!["home", "me", ".cache", "dev.edfloreshz.Toot", "mastodon_social", "tag-rust.json"]
    );
    assert_eq!(snapshot_path(None, "https://a", "home"), None);
}

#[test]
fn hex_formats_like_std() {
    for n in [0u64, 1, 9, 10, 15, 16, 255, 256, 0xdead_beef, u64::MAX] {
        assert_eq!(lower_hex(n), format!("{n:x}"));
    }
}

#[test]
fn image_path_is_hash_of_url() {
    let url = "https://files.example/a.png";
    let expected = std::hash::BuildHasherDefault::<std::collections::hash_map::DefaultHasher>::default()
        .hash_one(url);
    let path = image_cache_path(dir(), url).unwrap();
    assert_eq!(path[3], APP_ID);
    assert_eq!(path[4], "images");
    assert_eq!(path[5], format!("{expected:x}"));
    assert_ne!(path[5], url);
    assert_eq!(image_cache_path(None, url), None);
}

#[test]
fn bounded_snapshot_lengths() {
    assert_eq!(bounded_len(10, MAX_STATUSES), 10);
    assert_eq!(bounded_len(350, MAX_STATUSES), 200);
    assert_eq!(bounded_len(100, MAX_NOTIFICATIONS), 100);
    assert_eq!(bounded_len(0, 0), 0);
}

fn file(name: &str, modified: u128) -> CacheFile {
    CacheFile { name: name.to_string(), modified }
}

#[test]
fn prune_keeps_newest_five_per_prefix() {
    let files = vec![
        file("tag-a.json", 50),
        file("tag-b.json", 10),
        file("home.json", 1),
        file("tag-c.json", 30),
        file("tag-d.json", 30),
        file("tag-e.json", 70),
        file("tag-f.json", 20),
        file("tag-g.json", 5),
        file("list-1.json", 3),
    ];
    assert_eq!(prune_prefixed(&files, "tag-"), vec!["tag-g.json", "tag-b.json"]);
    assert_eq!(prune_prefixed(&files, "list-"), Vec::<String>::new());
    assert_eq!(prune_scoped_snapshots(&files), vec!["tag-g.json", "tag-b.json"]);
    assert_eq!(MAX_SCOPED_FILES, 5);
}

#[test]
fn prune_orders_equal_times_stably() {
    let files: Vec<CacheFile> = (0..8).map(|i| file(&format!("list-{i}.json"), 7)).collect();
    assert_eq!(prune_prefixed(&files, "list-"), vec!["list-0.json", "list-1.json", "list-2.json"]);
}
