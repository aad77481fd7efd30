//! Turning server-provided HTML and names into display text.

use vstd::prelude::*;

verus! {

/// Text width that rendered HTML is wrapped to.
pub const TEXT_WIDTH: usize = 700;

/// What `html2text`'s rich configuration renders for an HTML string at a
/// given width, or `None` when rendering fails.
pub uninterp spec fn rendered_html(html: Seq<char>, width: nat) -> Option<Seq<char>>;

/// What the `capitalize` crate's `Capitalize::capitalize` returns: the
/// first character upper-cased (`char::to_uppercase`), the rest lower-cased.
pub uninterp spec fn capitalized(s: Seq<char>) -> Seq<char>;

/// Calls `html2text::config::rich().string_from_read` on the HTML's bytes;
/// the result is the named [`rendered_html`] of the HTML and width.
#[verifier::external_body]
pub(crate) fn render_html(html: &str, width: usize) -> (res: Option<String>)
    ensures
        match res {
            Some(text) => rendered_html(html@, width as nat) == Some(text@),
            None => rendered_html(html@, width as nat) is None,
        },
{
    html2text::config::rich().string_from_read(html.as_bytes(), width).ok()
}

/// Calls `capitalize::Capitalize::capitalize`; the result is the named
/// [`capitalized`] of the string.
#[verifier::external_body]
pub(crate) fn capitalize(s: &str) -> (res: String)
    ensures
        res@ == capitalized(s@),
{
    capitalize::Capitalize::capitalize(&s)
}

} // verus!
