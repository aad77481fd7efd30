//! Layout of the on-disk cache: where account snapshots and downloaded
//! images live, how many items a snapshot keeps, and which per-hashtag or
//! per-list snapshot files are pruned.
//!
//! Paths are sequences of components below the user's cache directory.

use vstd::prelude::*;
use vstd::string::*;
use crate::text::{
    alphanumeric, ascii_alphanumeric, concat, has_prefix, is_alphanumeric, owned, push_char, starts_with, strip_prefix_all,
    trim_start_matches,
};

verus! {

broadcast use vstd::seq_lib::group_seq_properties;

/// Application id; names the cache directory.
pub const APP_ID: &'static str = "dev.edfloreshz.Toot";

/// Cap on how many statuses a feed snapshot keeps.
pub const MAX_STATUSES: usize = 200;

/// Cap on how many notifications a snapshot keeps.
pub const MAX_NOTIFICATIONS: usize = 100;

/// Cap on how many distinct hashtag/list snapshot files are kept.
pub const MAX_SCOPED_FILES: usize = 5;

/// The character an account's slug keeps for `c`.
pub open spec fn slug_char(c: char) -> char {
    if alphanumeric(c) {
        c
    } else {
        '_'
    }
}

/// `base_url` without its scheme, every character that is not alphanumeric
/// replaced by `_`.
pub open spec fn slug_spec(base_url: Seq<char>) -> Seq<char> {
    strip_prefix_all(strip_prefix_all(base_url, "https://"@), "http://"@).map_values(
        |c: char| slug_char(c),
    )
}

/// Sanitize an account's base URL into a file-system-safe directory name.
pub fn account_slug(base_url: &str) -> (slug: String)
    ensures
        slug@ == slug_spec(base_url@),
{
    let rest = trim_start_matches(trim_start_matches(base_url, "https://"), "http://");
    let n = rest.unicode_len();
    let mut slug = String::new();
    let mut i: usize = 0;
    while i < n
        invariant
            n == rest@.len(),
            i <= n,
            slug@ == rest@.take(i as int).map_values(|c: char| slug_char(c)),
        decreases n - i,
    {
        let c = rest.get_char(i);
        if is_alphanumeric(c) {
            push_char(&mut slug, c);
        } else {
            push_char(&mut slug, '_');
        }
        assert(rest@.take(i + 1) =~= rest@.take(i as int).push(c));
        i += 1;
    }
    assert(rest@.take(n as int) =~= rest@);
    slug
}

/// An account's slug holds only alphanumeric characters and `_`; of ASCII
/// it holds only letters, digits and `_`, so no `/`, `.`, `:` or other
/// separator, and it is a safe directory name.
pub proof fn slug_is_file_safe(base_url: Seq<char>)
    ensures
        forall|i: int|
            0 <= i < slug_spec(base_url).len() ==> alphanumeric(#[trigger] slug_spec(base_url)[i])
                || slug_spec(base_url)[i] == '_',
        forall|i: int|
            0 <= i < slug_spec(base_url).len() && (slug_spec(base_url)[i] as u32) < 0x80
                ==> ascii_alphanumeric(#[trigger] slug_spec(base_url)[i]) || slug_spec(base_url)[i]
                == '_',
{
}

/// The application's directory inside the user's cache directory.
pub fn cache_root(cache_dir: Option<Vec<String>>) -> (root: Option<Vec<String>>)
    ensures
        match cache_dir {
            Some(dir) => root is Some && root->0.deep_view() == dir.deep_view().push(APP_ID@),
            None => root is None,
        },
{
    match cache_dir {
        Some(mut dir) => {
            let ghost before = dir.deep_view();
            dir.push(owned(APP_ID));
            assert(dir.deep_view() =~= before.push(APP_ID@));
            Some(dir)
        },
        None => None,
    }
}

/// The cache directory of one account.
pub fn account_dir(cache_dir: Option<Vec<String>>, base_url: &str) -> (dir: Option<Vec<String>>)
    ensures
        match cache_dir {
            Some(d) => dir is Some && dir->0.deep_view() == d.deep_view().push(APP_ID@).push(
                slug_spec(base_url@),
            ),
            None => dir is None,
        },
{
    match cache_root(cache_dir) {
        Some(mut root) => {
            let ghost before = root.deep_view();
            root.push(account_slug(base_url));
            assert(root.deep_view() =~= before.push(slug_spec(base_url@)));
            Some(root)
        },
        None => None,
    }
}

/// Path of a named feed snapshot within an account's cache directory.
pub fn snapshot_path(cache_dir: Option<Vec<String>>, base_url: &str, slug: &str) -> (path: Option<
    Vec<String>,
>)
    ensures
        match cache_dir {
            Some(d) => path is Some && path->0.deep_view() == d.deep_view().push(APP_ID@).push(
                slug_spec(base_url@),
            ).push(slug@ + ".json"@),
            None => path is None,
        },
{
    match account_dir(cache_dir, base_url) {
        Some(mut dir) => {
            let ghost before = dir.deep_view();
            dir.push(concat(slug, ".json"));
            assert(dir.deep_view() =~= before.push(slug@ + ".json"@));
            Some(dir)
        },
        None => None,
    }
}

/// What std's `DefaultHasher` (as made by `DefaultHasher::new`) yields
/// after hashing the string.
pub uninterp spec fn default_hash(s: Seq<char>) -> u64;

/// Calls `BuildHasher::hash_one` on a default `BuildHasherDefault` of
/// `std::collections::hash_map::DefaultHasher`, which hashes the string with
/// a fresh `DefaultHasher::new()`; the result is the named [`default_hash`]
/// of the string.
#[verifier::external_body]
fn hash_str(s: &str) -> (h: u64)
    ensures
        h == default_hash(s@),
{
    std::hash::BuildHasher::hash_one(
        &std::hash::BuildHasherDefault::<std::collections::hash_map::DefaultHasher>::default(),
        s,
    )
}

/// Lower-case hexadecimal digit for `d < 16`.
pub open spec fn hex_digit(d: nat) -> char {
    if d < 10 {
        (('0' as nat) + d) as char
    } else {
        (('a' as nat) + (d - 10)) as char
    }
}

/// Value of a lower-case hexadecimal digit.
pub open spec fn hex_digit_value(c: char) -> nat {
    if '0' <= c && c <= '9' {
        (c as nat - '0' as nat) as nat
    } else {
        (c as nat - 'a' as nat + 10) as nat
    }
}

/// `n` in lower-case hexadecimal without leading zeros, as `{:x}` formats
/// it.
pub open spec fn hex_spec(n: nat) -> Seq<char>
    decreases n,
{
    if n < 16 {
        seq![hex_digit(n)]
    } else {
        hex_spec(n / 16).push(hex_digit(n % 16))
    }
}

/// The number a sequence of lower-case hexadecimal digits spells.
pub open spec fn hex_value(s: Seq<char>) -> nat
    decreases s.len(),
{
    if s.len() == 0 {
        0
    } else {
        hex_value(s.drop_last()) * 16 + hex_digit_value(s.last())
    }
}

/// Format `n` as lower-case hexadecimal.
pub fn lower_hex(n: u64) -> (s: String)
    ensures
        s@ == hex_spec(n as nat),
{
    let mut digits: Vec<char> = Vec::new();
    let mut rest = n;
    while rest >= 16
        invariant
            hex_spec(n as nat) == hex_spec(rest as nat) + digits@.reverse(),
        decreases rest,
    {
        let d = (rest % 16) as u32;
        let c = if d < 10 {
            char_from(48 + d)
        } else {
            char_from(97 + d - 10)
        };
        proof {
            assert(hex_spec(rest as nat) == hex_spec((rest / 16) as nat).push(c));
            assert(digits@.push(c).reverse() =~= seq![c] + digits@.reverse());
        }
        digits.push(c);
        rest = rest / 16;
    }
    let d = rest as u32;
    let first = if d < 10 {
        char_from(48 + d)
    } else {
        char_from(97 + d - 10)
    };
    let mut s = String::new();
    push_char(&mut s, first);
    assert(s@ == hex_spec(rest as nat));
    let mut i = digits.len();
    while i > 0
        invariant
            i <= digits@.len(),
            s@ == hex_spec(rest as nat) + digits@.subrange(i as int, digits@.len() as int).reverse(),
            hex_spec(n as nat) == hex_spec(rest as nat) + digits@.reverse(),
        decreases i,
    {
        i -= 1;
        proof {
            let tail = digits@.subrange(i as int, digits@.len() as int);
            assert(tail =~= seq![digits@[i as int]] + digits@.subrange(i + 1, digits@.len() as int));
            assert(tail.reverse() =~= digits@.subrange(i + 1, digits@.len() as int).reverse().push(
                digits@[i as int],
            ));
        }
        push_char(&mut s, digits[i]);
    }
    assert(digits@.subrange(0, digits@.len() as int) =~= digits@);
    s
}

/// The character with code point `code`, for codes of ASCII digits and
/// lower-case letters.
fn char_from(code: u32) -> (c: char)
    requires
        (48 <= code < 58) || (97 <= code < 103),
    ensures
        c as nat == code as nat,
{
    let mut c = '0';
    let mut k: u32 = 48;
    if code >= 97 {
        c = 'a';
        k = 97;
    }
    while k < code
        invariant
            c as nat == k as nat,
            (48 <= k <= code < 58) || (97 <= k <= code < 103),
        decreases code - k,
    {
        c = next_char(c);
        k += 1;
    }
    c
}

/// The character after `c`, for ASCII digits and lower-case letters.
fn next_char(c: char) -> (d: char)
    requires
        ('0' <= c && c < '9') || ('a' <= c && c < 'f'),
    ensures
        d as nat == c as nat + 1,
{
    match c {
        '0' => '1',
        '1' => '2',
        '2' => '3',
        '3' => '4',
        '4' => '5',
        '5' => '6',
        '6' => '7',
        '7' => '8',
        '8' => '9',
        'a' => 'b',
        'b' => 'c',
        'c' => 'd',
        'd' => 'e',
        _ => 'f',
    }
}

/// Reading the hexadecimal form back gives the number.
pub proof fn hex_round_trip(n: nat)
    ensures
        hex_value(hex_spec(n)) == n,
    decreases n,
{
    let s = hex_spec(n);
    if n < 16 {
        lemma_hex_digit(n);
        assert(s.drop_last() =~= Seq::<char>::empty());
        assert(hex_value(s) == hex_value(s.drop_last()) * 16 + hex_digit_value(s.last()));
    } else {
        hex_round_trip(n / 16);
        lemma_hex_digit(n % 16);
        assert(s.drop_last() =~= hex_spec(n / 16));
        assert(s.last() == hex_digit(n % 16));
        assert(hex_value(s) == hex_value(s.drop_last()) * 16 + hex_digit_value(s.last()));
        assert(n == (n / 16) * 16 + n % 16) by (nonlinear_arith);
    }
}

proof fn lemma_hex_digit(d: nat)
    requires
        d < 16,
    ensures
        hex_digit_value(hex_digit(d)) == d,
{
}

/// Content-addressed location of a downloaded image, shared across accounts.
pub fn image_cache_path(cache_dir: Option<Vec<String>>, url: &str) -> (path: Option<Vec<String>>)
    ensures
        match cache_dir {
            Some(d) => path is Some && path->0.deep_view() == d.deep_view().push(APP_ID@).push(
                "images"@,
            ).push(hex_spec(default_hash(url@) as nat)),
            None => path is None,
        },
{
    let hashed = hash_str(url);
    match cache_root(cache_dir) {
        Some(mut root) => {
            let ghost before = root.deep_view();
            root.push(owned("images"));
            root.push(lower_hex(hashed));
            assert(root.deep_view() =~= before.push("images"@).push(hex_spec(hashed as nat)));
            Some(root)
        },
        None => None,
    }
}

/// How many of `len` items a snapshot capped at `max_items` keeps (the
/// front, newest, ones).
pub fn bounded_len(len: usize, max_items: usize) -> (kept: usize)
    ensures
        kept == if len < max_items {
            len
        } else {
            max_items
        },
{
    if len < max_items {
        len
    } else {
        max_items
    }
}

/// A file in an account's cache directory, with its modification time.
#[derive(Debug)]
pub struct CacheFile {
    pub name: String,
    pub modified: u128,
}

/// Insert `f` into a time-ordered sequence after every file that is not
/// newer than it.
pub open spec fn insert_by_time(sorted: Seq<CacheFile>, f: CacheFile) -> Seq<CacheFile>
    decreases sorted.len(),
{
    if sorted.len() == 0 {
        seq![f]
    } else if sorted.last().modified <= f.modified {
        sorted.push(f)
    } else {
        insert_by_time(sorted.drop_last(), f).push(sorted.last())
    }
}

/// Files ordered oldest first; files with equal times keep their order.
pub open spec fn sort_by_time(files: Seq<CacheFile>) -> Seq<CacheFile>
    decreases files.len(),
{
    if files.len() == 0 {
        files
    } else {
        insert_by_time(sort_by_time(files.drop_last()), files.last())
    }
}

pub open spec fn ordered_by_time(files: Seq<CacheFile>) -> bool {
    forall|i: int, j: int| 0 <= i <= j < files.len() ==> #[trigger] files[i].modified <= #[trigger] files[j].modified
}

pub open spec fn name_has_prefix(prefix: Seq<char>) -> spec_fn(CacheFile) -> bool {
    |f: CacheFile| has_prefix(f.name@, prefix)
}

/// Names of the files to delete so that at most [`MAX_SCOPED_FILES`] files
/// whose names start with `prefix` remain: the oldest ones.
pub open spec fn prune_spec(files: Seq<CacheFile>, prefix: Seq<char>) -> Seq<Seq<char>> {
    let matching = files.filter(name_has_prefix(prefix));
    if matching.len() <= MAX_SCOPED_FILES {
        Seq::empty()
    } else {
        sort_by_time(matching).take(matching.len() - MAX_SCOPED_FILES).map_values(
            |f: CacheFile| f.name@,
        )
    }
}

/// Position at which `insert_by_time` puts a file of time `t`: after every
/// file that is not newer.
#[verifier::rlimit(40)]
proof fn lemma_insert_at(sorted: Seq<CacheFile>, f: CacheFile, j: int)
    requires
        0 <= j <= sorted.len(),
        forall|k: int| j <= k < sorted.len() ==> #[trigger] sorted[k].modified > f.modified,
        j > 0 ==> sorted[j - 1].modified <= f.modified,
    ensures
        insert_by_time(sorted, f) == sorted.insert(j, f),
    decreases sorted.len(),
{
    if sorted.len() == 0 {
        assert(sorted.insert(j, f) =~= seq![f]);
    } else if sorted.last().modified <= f.modified {
        assert(j == sorted.len());
        assert(sorted.insert(j, f) =~= sorted.push(f));
    } else {
        assert(j < sorted.len());
        let rest = sorted.drop_last();
        lemma_insert_at(rest, f, j);
        let lhs = sorted.insert(j, f);
        let rhs = rest.insert(j, f).push(sorted.last());
        assert(lhs.len() == rhs.len());
        assert forall|k: int| 0 <= k < lhs.len() implies lhs[k] == rhs[k] by {
            if k < j {
            } else if k == j {
            } else if k < lhs.len() - 1 {
            } else {
            }
        }
        assert(lhs =~= rhs);
    }
}

/// Names of the files starting with `prefix` to delete so that at most
/// [`MAX_SCOPED_FILES`] of them remain; the oldest go first.
pub fn prune_prefixed(files: &Vec<CacheFile>, prefix: &str) -> (doomed: Vec<String>)
    ensures
        doomed.deep_view() == prune_spec(files@, prefix@),
{
    let mut sorted: Vec<&CacheFile> = Vec::new();
    let mut count: usize = 0;
    let mut i: usize = 0;
    while i < files.len()
        invariant
            i <= files@.len(),
            count == files@.take(i as int).filter(name_has_prefix(prefix@)).len(),
            sorted@.map_values(|f: &CacheFile| *f) == sort_by_time(files@.take(i as int).filter(name_has_prefix(prefix@))),
            count <= i,
        decreases files@.len() - i,
    {
        let f = &files[i];
        proof {
            assert(files@.take(i + 1) =~= files@.take(i as int).push(files@[i as int]));
            files@.take(i as int).lemma_filter_push(files@[i as int], name_has_prefix(prefix@));
            assert(files@.take(i as int).filter(name_has_prefix(prefix@)).push(*f).drop_last() =~= files@.take(
                i as int,
            ).filter(name_has_prefix(prefix@)));
        }
        let keep = starts_with(f.name.as_str(), prefix);
        assert(keep == has_prefix(f.name@, prefix@));
        assert(name_has_prefix(prefix@)(*f) == has_prefix(f.name@, prefix@));
        if keep {
            let ghost before = sorted@.map_values(|g: &CacheFile| *g);
            let mut j = sorted.len();
            while j > 0 && sorted[j - 1].modified > f.modified
                invariant
                    j <= sorted@.len(),
                    forall|k: int| j <= k < sorted@.len() ==> #[trigger] sorted@[k].modified > f.modified,
                decreases j,
            {
                j -= 1;
            }
            proof {
                assert(before.len() == sorted@.len());
                assert forall|k: int| j <= k < before.len() implies #[trigger] before[k].modified
                    > f.modified by {
                    assert(before[k] == *sorted@[k]);
                }
                if j > 0 {
                    assert(before[j - 1] == *sorted@[j - 1]);
                }
                lemma_insert_at(before, *f, j as int);
            }
            sorted.insert(j, f);
            count += 1;
            proof {
                assert(sorted@.map_values(|g: &CacheFile| *g) =~= before.insert(j as int, *f));
                assert(files@.take(i + 1).filter(name_has_prefix(prefix@)) == files@.take(i as int).filter(name_has_prefix(prefix@)).push(*f));
                assert(sort_by_time(files@.take(i + 1).filter(name_has_prefix(prefix@))) == insert_by_time(before, *f));
            }
        } else {
            assert(files@.take(i + 1).filter(name_has_prefix(prefix@)) == files@.take(i as int).filter(name_has_prefix(prefix@)));
        }
        i += 1;
    }
    assert(files@.take(files@.len() as int) =~= files@);
    proof {
        sort_by_time_orders(files@.filter(name_has_prefix(prefix@)));
    }
    let mut doomed: Vec<String> = Vec::new();
    if count <= MAX_SCOPED_FILES {
        assert(doomed.deep_view() =~= prune_spec(files@, prefix@));
        return doomed;
    }
    let excess = count - MAX_SCOPED_FILES;
    let ghost order = sorted@.map_values(|g: &CacheFile| *g);
    let mut k: usize = 0;
    while k < excess
        invariant
            excess <= sorted@.len(),
            k <= excess,
            order == sorted@.map_values(|g: &CacheFile| *g),
            doomed.deep_view() == order.take(k as int).map_values(|f: CacheFile| f.name@),
        decreases excess - k,
    {
        doomed.push(sorted[k].name.clone());
        proof {
            assert(order.take(k + 1) =~= order.take(k as int).push(order[k as int]));
            assert(doomed.deep_view() =~= order.take(k as int).map_values(|f: CacheFile| f.name@).push(order[k as int].name@));
        }
        k += 1;
    }
    doomed
}

/// Names of the hashtag and list snapshot files to delete so that at most
/// [`MAX_SCOPED_FILES`] of each kind remain.
pub fn prune_scoped_snapshots(files: &Vec<CacheFile>) -> (doomed: Vec<String>)
    ensures
        doomed.deep_view() == prune_spec(files@, "tag-"@) + prune_spec(files@, "list-"@),
{
    let mut doomed = prune_prefixed(files, "tag-");
    let mut lists = prune_prefixed(files, "list-");
    let ghost a = doomed.deep_view();
    let ghost b = lists.deep_view();
    doomed.append(&mut lists);
    assert(doomed.deep_view() =~= a + b);
    doomed
}

/// Inserting by time keeps a sequence ordered and adds exactly the file.
proof fn lemma_insert_by_time(sorted: Seq<CacheFile>, f: CacheFile)
    requires
        ordered_by_time(sorted),
    ensures
        ordered_by_time(insert_by_time(sorted, f)),
        insert_by_time(sorted, f).to_multiset() == sorted.to_multiset().insert(f),
        insert_by_time(sorted, f).len() == sorted.len() + 1,
    decreases sorted.len(),
{
    broadcast use vstd::seq_lib::group_to_multiset_ensures;

    if sorted.len() == 0 {
        assert(seq![f] =~= Seq::<CacheFile>::empty().push(f));
    } else if sorted.last().modified <= f.modified {
    } else {
        let rest = sorted.drop_last();
        lemma_insert_by_time(rest, f);
        let ins = insert_by_time(rest, f);
        assert(sorted =~= rest.push(sorted.last()));
        assert forall|k: int| 0 <= k < ins.len() implies #[trigger] ins[k].modified
            <= sorted.last().modified by {
            assert(ins.to_multiset().count(ins[k]) > 0);
            if ins[k] != f {
                assert(rest.to_multiset().count(ins[k]) > 0);
                let m = choose|m: int| 0 <= m < rest.len() && rest[m] == ins[k];
                assert(sorted[m] == rest[m]);
            }
        }
    }
}

/// Sorting by time orders the files and keeps exactly the same files.
pub proof fn sort_by_time_orders(files: Seq<CacheFile>)
    ensures
        ordered_by_time(sort_by_time(files)),
        sort_by_time(files).to_multiset() == files.to_multiset(),
        sort_by_time(files).len() == files.len(),
    decreases files.len(),
{
    broadcast use vstd::seq_lib::group_to_multiset_ensures;

    if files.len() > 0 {
        sort_by_time_orders(files.drop_last());
        lemma_insert_by_time(sort_by_time(files.drop_last()), files.last());
        assert(files =~= files.drop_last().push(files.last()));
    }
}

/// Pruning leaves at most [`MAX_SCOPED_FILES`] files of a kind, and never
/// deletes a file newer than one it keeps.
pub proof fn prune_keeps_newest(files: Seq<CacheFile>, prefix: Seq<char>)
    ensures
        ({
            let matching = files.filter(name_has_prefix(prefix));
            let sorted = sort_by_time(matching);
            let doomed = prune_spec(files, prefix);
            &&& matching.len() - doomed.len() == if matching.len() < MAX_SCOPED_FILES {
                matching.len() as int
            } else {
                MAX_SCOPED_FILES as int
            }
            &&& sorted.to_multiset() == matching.to_multiset()
            &&& doomed == sorted.take(doomed.len() as int).map_values(|f: CacheFile| f.name@)
            &&& forall|i: int, j: int|
                0 <= i < doomed.len() <= j < sorted.len() ==> #[trigger] sorted[i].modified
                    <= #[trigger] sorted[j].modified
        }),
{
    let matching = files.filter(name_has_prefix(prefix));
    sort_by_time_orders(matching);
}

} // verus!
