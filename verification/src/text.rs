//! Character and string helpers shared by the rest of the library.

use vstd::prelude::*;
use vstd::string::*;

verus! {

/// An ASCII letter or digit.
pub open spec fn ascii_alphanumeric(c: char) -> bool {
    let n = c as u32;
    ||| 0x30 <= n <= 0x39
    ||| 0x41 <= n <= 0x5A
    ||| 0x61 <= n <= 0x7A
}

/// What `char::is_alphanumeric` answers for a character beyond ASCII
/// (Unicode `Alphabetic` or `Numeric`).
pub uninterp spec fn non_ascii_alphanumeric(c: char) -> bool;

/// What `char::is_alphanumeric` answers for a character (Unicode
/// `Alphabetic` or `Numeric`): within ASCII, exactly the letters and digits.
pub open spec fn alphanumeric(c: char) -> bool {
    if (c as u32) < 0x80 {
        ascii_alphanumeric(c)
    } else {
        non_ascii_alphanumeric(c)
    }
}

/// The Unicode `White_Space` property, which `char::is_whitespace` answers:
/// tab through carriage return, space, next line, no-break space, ogham
/// space mark, the spaces from en quad to hair space, line and paragraph
/// separators, narrow no-break space, medium mathematical space and
/// ideographic space.
pub open spec fn whitespace(c: char) -> bool {
    let n = c as u32;
    ||| 0x09 <= n <= 0x0D
    ||| n == 0x20
    ||| n == 0x85
    ||| n == 0xA0
    ||| n == 0x1680
    ||| 0x2000 <= n <= 0x200A
    ||| n == 0x2028
    ||| n == 0x2029
    ||| n == 0x202F
    ||| n == 0x205F
    ||| n == 0x3000
}

/// What `str::to_lowercase` returns for a string.
pub uninterp spec fn lowercase(s: Seq<char>) -> Seq<char>;

/// Calls `char::is_alphanumeric`: within ASCII it answers for the letters
/// and digits, beyond it the result is the named [`non_ascii_alphanumeric`]
/// of the character.
#[verifier::external_body]
pub(crate) fn is_alphanumeric(c: char) -> (res: bool)
    ensures
        (c as u32) < 0x80 ==> res == ascii_alphanumeric(c),
        (c as u32) >= 0x80 ==> res == non_ascii_alphanumeric(c),
{
    c.is_alphanumeric()
}

/// Whether the character has the Unicode `White_Space` property
/// ([`whitespace`]), as `char::is_whitespace` answers.
pub fn is_whitespace(c: char) -> (res: bool)
    ensures
        res == whitespace(c),
{
    let n = c as u32;
    (0x09 <= n && n <= 0x0D) || n == 0x20 || n == 0x85 || n == 0xA0 || n == 0x1680 || (0x2000
        <= n && n <= 0x200A) || n == 0x2028 || n == 0x2029 || n == 0x202F || n == 0x205F || n
        == 0x3000
}

/// Calls `str::to_lowercase`; the result is the named [`lowercase`] of the
/// string.
#[verifier::external_body]
pub(crate) fn to_lowercase(s: &str) -> (res: String)
    ensures
        res@ == lowercase(s@),
{
    s.to_lowercase()
}

/// Whether the two strings hold the same characters.
pub fn str_eq(a: &str, b: &str) -> (res: bool)
    ensures
        res == (a@ == b@),
{
    let n = a.unicode_len();
    if n != b.unicode_len() {
        return false;
    }
    let mut i: usize = 0;
    while i < n
        invariant
            n == a@.len(),
            n == b@.len(),
            i <= n,
            forall|j: int| 0 <= j < i ==> a@[j] == b@[j],
        decreases n - i,
    {
        if a.get_char(i) != b.get_char(i) {
            return false;
        }
        i += 1;
    }
    assert(a@ =~= b@);
    true
}

/// Calls `String::push`, which appends one character.
#[verifier::external_body]
pub(crate) fn push_char(s: &mut String, c: char)
    ensures
        final(s)@ == old(s)@.push(c),
{
    s.push(c)
}

/// `p` is a prefix of `s`.
pub open spec fn has_prefix(s: Seq<char>, p: Seq<char>) -> bool {
    p.len() <= s.len() && s.take(p.len() as int) == p
}

/// `sub` occurs somewhere in `s` as a contiguous run.
pub open spec fn has_substring(s: Seq<char>, sub: Seq<char>) -> bool {
    exists|i: int| 0 <= i <= s.len() - sub.len() && #[trigger] s.subrange(i, i + sub.len()) == sub
}

/// `s` with every leading repetition of a non-empty `p` removed, as
/// `str::trim_start_matches` does with a string pattern.
pub open spec fn strip_prefix_all(s: Seq<char>, p: Seq<char>) -> Seq<char>
    decreases s.len(),
{
    if p.len() > 0 && has_prefix(s, p) {
        strip_prefix_all(s.skip(p.len() as int), p)
    } else {
        s
    }
}

/// `s` with every trailing `c` removed, as `str::trim_end_matches` does
/// with a character pattern.
pub open spec fn strip_suffix_char(s: Seq<char>, c: char) -> Seq<char>
    decreases s.len(),
{
    if s.len() > 0 && s.last() == c {
        strip_suffix_char(s.drop_last(), c)
    } else {
        s
    }
}

/// `s` with leading white space removed.
pub open spec fn trim_start_spec(s: Seq<char>) -> Seq<char>
    decreases s.len(),
{
    if s.len() > 0 && whitespace(s[0]) {
        trim_start_spec(s.drop_first())
    } else {
        s
    }
}

/// `s` with trailing white space removed.
pub open spec fn trim_end_spec(s: Seq<char>) -> Seq<char>
    decreases s.len(),
{
    if s.len() > 0 && whitespace(s.last()) {
        trim_end_spec(s.drop_last())
    } else {
        s
    }
}

/// `s` with leading and trailing white space removed, as `str::trim` does.
pub open spec fn trim_spec(s: Seq<char>) -> Seq<char> {
    trim_end_spec(trim_start_spec(s))
}

/// Every character of `s` is white space (so `s` trims to nothing).
pub open spec fn is_blank_spec(s: Seq<char>) -> bool {
    forall|i: int| 0 <= i < s.len() ==> whitespace(#[trigger] s[i])
}

/// Whether `p` is a prefix of `s`.
pub fn starts_with(s: &str, p: &str) -> (res: bool)
    ensures
        res == has_prefix(s@, p@),
{
    let n = s.unicode_len();
    let m = p.unicode_len();
    if m > n {
        return false;
    }
    let mut i: usize = 0;
    while i < m
        invariant
            n == s@.len(),
            m == p@.len(),
            m <= n,
            i <= m,
            forall|j: int| 0 <= j < i ==> s@[j] == p@[j],
        decreases m - i,
    {
        if s.get_char(i) != p.get_char(i) {
            assert(s@.take(m as int)[i as int] != p@[i as int]);
            return false;
        }
        i += 1;
    }
    assert(s@.take(m as int) =~= p@);
    true
}

/// Whether `sub` occurs in `s`.
pub fn contains_str(s: &str, sub: &str) -> (res: bool)
    ensures
        res == has_substring(s@, sub@),
{
    let n = s.unicode_len();
    let m = sub.unicode_len();
    if m > n {
        assert forall|i: int| 0 <= i <= s@.len() - sub@.len() implies #[trigger] s@.subrange(
            i,
            i + sub@.len(),
        ) != sub@ by {}
        return false;
    }
    if m == 0 {
        assert(s@.subrange(0int, 0int + sub@.len()) =~= sub@);
        return true;
    }
    let mut start: usize = 0;
    while start <= n - m
        invariant
            n == s@.len(),
            m == sub@.len(),
            0 < m <= n,
            forall|k: int| 0 <= k < start ==> #[trigger] s@.subrange(k, k + m) != sub@,
        decreases n - m + 1 - start,
    {
        let mut j: usize = 0;
        let mut same = true;
        while j < m
            invariant
                n == s@.len(),
                m == sub@.len(),
                m <= n,
                start <= n - m,
                j <= m,
                same ==> forall|q: int| 0 <= q < j ==> s@[start + q] == sub@[q],
                !same ==> s@.subrange(start as int, start + m) != sub@,
            decreases m - j,
        {
            if same && s.get_char(start + j) != sub.get_char(j) {
                assert(s@.subrange(start as int, start + m)[j as int] == s@[start + j]);
                same = false;
            }
            j += 1;
        }
        if same {
            assert(s@.subrange(start as int, start + m) =~= sub@);
            return true;
        }
        start += 1;
    }
    false
}

/// Whether the character `c` occurs in `s`.
pub fn contains_char(s: &str, c: char) -> (res: bool)
    ensures
        res == s@.contains(c),
{
    let n = s.unicode_len();
    let mut i: usize = 0;
    while i < n
        invariant
            n == s@.len(),
            i <= n,
            forall|j: int| 0 <= j < i ==> s@[j] != c,
        decreases n - i,
    {
        if s.get_char(i) == c {
            return true;
        }
        i += 1;
    }
    false
}

/// `s` with every leading repetition of `p` removed
/// (`str::trim_start_matches` with a string pattern).
pub fn trim_start_matches<'a>(s: &'a str, p: &str) -> (res: &'a str)
    ensures
        res@ == strip_prefix_all(s@, p@),
{
    let m = p.unicode_len();
    if m == 0 {
        return s;
    }
    let mut rest = s;
    while starts_with(rest, p)
        invariant
            m == p@.len(),
            m > 0,
            strip_prefix_all(rest@, p@) == strip_prefix_all(s@, p@),
        decreases rest@.len(),
    {
        let n = rest.unicode_len();
        rest = rest.substring_char(m, n);
    }
    rest
}

/// `s` with every trailing `c` removed (`str::trim_end_matches` with a
/// character pattern).
pub fn trim_end_matches_char<'a>(s: &'a str, c: char) -> (res: &'a str)
    ensures
        res@ == strip_suffix_char(s@, c),
{
    let mut end = s.unicode_len();
    assert(s@.take(end as int) =~= s@);
    while end > 0 && s.get_char(end - 1) == c
        invariant
            end <= s@.len(),
            strip_suffix_char(s@.take(end as int), c) == strip_suffix_char(s@, c),
        decreases end,
    {
        assert(s@.take(end as int).drop_last() =~= s@.take(end - 1));
        end -= 1;
    }
    assert(s@.take(s@.len() as int) =~= s@);
    s.substring_char(0, end)
}

/// `s` with leading and trailing white space removed (`str::trim`).
pub fn trim(s: &str) -> (res: &str)
    ensures
        res@ == trim_spec(s@),
{
    let n = s.unicode_len();
    let mut start: usize = 0;
    assert(s@.skip(0) =~= s@);
    while start < n && is_whitespace(s.get_char(start))
        invariant
            n == s@.len(),
            start <= n,
            trim_start_spec(s@.skip(start as int)) == trim_start_spec(s@),
        decreases n - start,
    {
        assert(s@.skip(start as int).drop_first() =~= s@.skip(start + 1));
        start += 1;
    }
    assert(trim_start_spec(s@) == s@.skip(start as int));
    let mut end = n;
    while end > start && is_whitespace(s.get_char(end - 1))
        invariant
            n == s@.len(),
            start <= end <= n,
            trim_end_spec(s@.subrange(start as int, end as int)) == trim_spec(s@),
        decreases end,
    {
        assert(s@.subrange(start as int, end as int).drop_last() =~= s@.subrange(
            start as int,
            end - 1,
        ));
        end -= 1;
    }
    s.substring_char(start, end)
}

/// Whether `s` is empty once white space is trimmed.
pub fn is_blank(s: &str) -> (res: bool)
    ensures
        res == is_blank_spec(s@),
{
    let n = s.unicode_len();
    let mut i: usize = 0;
    while i < n
        invariant
            n == s@.len(),
            i <= n,
            forall|j: int| 0 <= j < i ==> whitespace(#[trigger] s@[j]),
        decreases n - i,
    {
        if !is_whitespace(s.get_char(i)) {
            return false;
        }
        i += 1;
    }
    true
}

/// A fresh `String` holding the characters of `s`.
pub fn owned(s: &str) -> (res: String)
    ensures
        res@ == s@,
{
    String::from_str(s)
}

/// Concatenation of two strings into a new `String`.
pub fn concat(a: &str, b: &str) -> (res: String)
    ensures
        res@ == a@ + b@,
{
    let mut res = String::from_str(a);
    res.append(b);
    res
}

} // verus!
