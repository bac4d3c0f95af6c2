//! Minification of the pages and style sheets that are served.
//!
//! HTML is minified by `minify_html` and CSS by `minifier`. What they
//! return is named here and taken on trust.
//!
//! The HTML minifier follows the nesting of a page by recursion. So that no
//! page can exhaust the stack, a page is minified only where it opens no
//! more than [`MAX_MINIFIED_NESTING`] tags, which the pages of this viewer
//! stay below.
use vstd::prelude::*;
use vstd::string::*;
use vstd::utf8::*;

use crate::document::{count_tags, tag_count, utf8_error_text, utf8_text};
use crate::errors::{AppError, AppResult, MinificationError};

verus! {

/// `minify_html::Error`: what the minifier says of a page that it cannot
/// read. It is carried through as it is; nothing is said of what it holds.
#[verifier::external_type_specification]
#[verifier::external_body]
pub struct ExHtmlError(minify_html::Error);

/// The most tags that a page may open and still be minified. The minifier
/// goes down the stack for each tag nested in another, with a large frame
/// for each level, and a page has no more tags nested in one another than
/// it opens. This many levels fit the stack that a thread has by default.
pub const MAX_MINIFIED_NESTING: usize = 32;

/// What is said of a page that opens more tags than a page is minified
/// with
pub const TOO_NESTED: &'static str = "The page holds too many tags to be minified";

/// Whether a page of these characters is one that the minifier is given: it
/// opens no more than [`MAX_MINIFIED_NESTING`] tags.
pub open spec fn is_minifiable(html: Seq<char>) -> bool {
    tag_count(encode_utf8(html)) <= MAX_MINIFIED_NESTING
}

/// The page `html` minified, with scripts and style sheets inside it
/// minified too where `minify_js` and `minify_css` say so; `None` where the
/// minifier cannot read the page.
pub uninterp spec fn minified_html(html: Seq<char>, minify_js: bool, minify_css: bool) -> Option<
    Seq<char>,
>;

/// The style sheet `css` minified, or what the minifier says of a sheet
/// that it cannot read.
pub uninterp spec fn minified_css(css: Seq<char>) -> Result<Seq<char>, Seq<char>>;

/// What a minified style sheet or a failure to minify one is, with each
/// text as the characters it holds.
pub open spec fn css_view(minified: Result<String, &'static str>) -> Result<Seq<char>, Seq<char>> {
    match minified {
        Ok(text) => Ok(text@),
        Err(message) => Err(message@),
    }
}

/// `minify_html::in_place_str` on the text of `html`, and the part of it
/// that the call hands back, as a `String` of its own. Trusted: the text is
/// the one named by [`minified_html`], and the call fails exactly where
/// there is none. The minifier follows the nesting of the page by
/// recursion, one level for each tag that is nested in another, and so runs
/// out of stack on a page that nests deep. A page that opens no more than
/// [`MAX_MINIFIED_NESTING`] tags nests no deeper than that, which the stack
/// of a thread takes; only such a page is let in.
#[verifier::external_body]
fn html_in_place(html: String, minify_js: bool, minify_css: bool) -> (minified: Result<
    String,
    minify_html::Error,
>)
    requires
        is_minifiable(html@),
    ensures
        minified matches Ok(text) ==> minified_html(html@, minify_js, minify_css) == Some(text@),
        minified is Err ==> minified_html(html@, minify_js, minify_css) is None,
{
    let mut html = html;
    let cfg = minify_html::Cfg { minify_js, minify_css };
    minify_html::in_place_str(html.as_mut_str(), &cfg).map(|text| text.to_owned())
}

/// `Debug` of `minify_html::Error`. Nothing is said of the text.
#[verifier::external_body]
fn html_error_text(err: &minify_html::Error) -> (text: String) {
    format!("{:?}", err)
}

/// `minifier::css::minify`, and `Display` of what it gives. Trusted: the
/// result is the one named by [`minified_css`]. The minifier reads the sheet
/// in a loop, with no call that nests as the sheet does.
#[verifier::external_body]
fn css_minified(css: &str) -> (minified: Result<String, &'static str>)
    ensures
        css_view(minified) == minified_css(css@),
{
    minifier::css::minify(css).map(|minified| minified.to_string())
}

/// Minify the page `html`. Scripts and style sheets inside it are left as
/// they are.
///
/// A page that opens more than [`MAX_MINIFIED_NESTING`] tags is not handed
/// to the minifier, and is the error `Minify` that says so.
pub fn minify_html(html: String) -> (minified: AppResult<String>)
    ensures
        if !is_minifiable(html@) {
            minified matches Err(AppError::Minify(MinificationError::Html(said))) && said@
                == TOO_NESTED@
        } else {
            match minified_html(html@, false, false) {
                Some(text) => minified matches Ok(page) && page@ == text,
                None => minified matches Err(AppError::Minify(MinificationError::Html(_))),
            }
        },
{
    if count_tags(html.as_str()) > MAX_MINIFIED_NESTING {
        return Err(AppError::Minify(MinificationError::Html(String::from_str(TOO_NESTED))));
    }
    match html_in_place(html, false, false) {
        Ok(text) => Ok(text),
        Err(err) => Err(AppError::Minify(MinificationError::Html(html_error_text(&err)))),
    }
}

/// The page `webpage` minified, or as it is where it opens more than
/// [`MAX_MINIFIED_NESTING`] tags or the minifier cannot read it.
///
/// Minification can fail, so if it fails, the page is served as it is.
pub fn minified_or_unchanged(webpage: String) -> (page: String)
    ensures
        page@ == if is_minifiable(webpage@) {
            match minified_html(webpage@, false, false) {
                Some(text) => text,
                None => webpage@,
            }
        } else {
            webpage@
        },
{
    // Since minification takes the input, give it a clone.
    match minify_html(webpage.clone()) {
        Ok(html) => html,
        Err(_) => webpage,
    }
}

/// Minify the style sheet whose bytes are `css`. Bytes that are no UTF-8
/// are the error `Utf8`; a sheet that the minifier cannot read is the error
/// `Minify`, with what the minifier said.
pub fn minify_css(css: &[u8]) -> (minified: AppResult<String>)
    ensures
        if !valid_utf8(css@) {
            minified matches Err(AppError::Utf8(_))
        } else {
            match minified_css(decode_utf8(css@)) {
                Ok(text) => minified matches Ok(sheet) && sheet@ == text,
                Err(message) => minified matches Err(
                    AppError::Minify(MinificationError::Css(said)),
                ) && said@ == message,
            }
        },
{
    let css_str = match utf8_text(css) {
        Ok(text) => text,
        Err(err) => {
            return Err(AppError::Utf8(utf8_error_text(&err)));
        },
    };
    proof {
        encode_utf8_decode_utf8(css_str@);
    }
    match css_minified(css_str) {
        Ok(minified) => Ok(minified),
        Err(message) => Err(AppError::Minify(MinificationError::Css(String::from_str(message)))),
    }
}

} // verus!
