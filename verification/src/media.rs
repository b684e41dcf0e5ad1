//! Which links and files are taken for images.
//!
//! Links are read by the `url` crate. What this module says of that crate is
//! believed, not proved: it declares the crate's two types that the library
//! handles, names what each of its functions returns, and wraps each in a
//! function that is stated to return exactly that.

use vstd::prelude::*;
use vstd::slice::slice_index_get;
use vstd::utf8::encode_utf8;
use crate::text::same_text;

verus! {

/// `url::Url`, a parsed absolute URL. Verus sees nothing inside it.
#[verifier::external_type_specification]
#[verifier::external_body]
pub struct ExUrl(url::Url);

/// `url::ParseError`, the reason a text was refused as a URL.
#[verifier::external_type_specification]
#[verifier::external_body]
pub struct ExUrlParseError(url::ParseError);

/// The URL that `url::Url::parse` reads from `text`, or `None` where it
/// refuses the text.
pub uninterp spec fn url_of_text(text: Seq<char>) -> Option<url::Url>;

/// What `url::Url::scheme` returns: the scheme of `url`.
pub uninterp spec fn url_scheme(url: url::Url) -> Seq<char>;

/// What `url::Url::path` returns: the path of `url`.
pub uninterp spec fn url_path(url: url::Url) -> Seq<char>;

/// Calls `url::Url::parse`. It succeeds exactly on the texts for which
/// [`url_of_text`] is defined, and then returns that URL.
#[verifier::external_body]
fn parse_url(text: &str) -> (r: Result<url::Url, url::ParseError>)
    ensures
        r matches Ok(url) ==> url_of_text(text@) == Some(url),
        r is Err <==> url_of_text(text@) is None,
{
    url::Url::parse(text)
}

/// Calls `url::Url::scheme`.
#[verifier::external_body]
fn scheme_of<'a>(url: &'a url::Url) -> (r: &'a str)
    ensures
        r@ == url_scheme(*url),
{
    url.scheme()
}

/// Calls `url::Url::path`.
#[verifier::external_body]
fn path_of<'a>(url: &'a url::Url) -> (r: &'a str)
    ensures
        r@ == url_path(*url),
{
    url.path()
}

/// Whether the string `text` ends with the string `suffix`: the bytes that
/// encode `suffix` stand at the end of the bytes that encode `text`.
pub open spec fn ends_with(text: Seq<char>, suffix: Seq<char>) -> bool {
    let t = encode_utf8(text);
    let s = encode_utf8(suffix);
    s.len() <= t.len() && t.subrange(t.len() - s.len(), t.len() as int) == s
}

/// Whether `name` ends with one of the extensions in `allowed`.
pub open spec fn ends_with_any(name: Seq<char>, allowed: Seq<&str>) -> bool {
    exists|i: int| 0 <= i < allowed.len() && ends_with(name, (#[trigger] allowed[i])@)
}

/// Whether a link with this scheme and path is taken for an image: every
/// `http` link is, and an `https` link whose path ends with an allowed
/// extension.
pub open spec fn is_image_link(scheme: Seq<char>, path: Seq<char>, allowed: Seq<&str>) -> bool {
    scheme == "http"@ || (scheme == "https"@ && ends_with_any(path, allowed))
}

/// Whether the text is taken for a link to an image: it is an absolute URL,
/// and its scheme and path make it one.
pub open spec fn is_image_url_text(text: Seq<char>, allowed: Seq<&str>) -> bool {
    match url_of_text(text) {
        Some(url) => is_image_link(url_scheme(url), url_path(url), allowed),
        None => false,
    }
}

/// Whether the string `text` ends with the string `suffix`.
pub fn has_suffix(text: &str, suffix: &str) -> (r: bool)
    ensures
        r == ends_with(text@, suffix@),
{
    let whole = text.as_bytes();
    let tail = suffix.as_bytes();
    let n: usize = whole.len();
    let m: usize = tail.len();
    if m > n {
        return false;
    }
    let start: usize = n - m;
    let mut i: usize = 0;
    while i < m
        invariant
            i <= m,
            m <= n,
            n == whole@.len(),
            m == tail@.len(),
            start == n - m,
            whole@ == encode_utf8(text@),
            tail@ == encode_utf8(suffix@),
            forall|k: int| 0 <= k < i ==> whole@[start + k] == tail@[k],
        decreases m - i,
    {
        if *slice_index_get(whole, start + i) != *slice_index_get(tail, i) {
            assert(whole@.subrange(n - m, n as int)[i as int] != tail@[i as int]);
            return false;
        }
        i += 1;
    }
    assert(whole@.subrange(n - m, n as int) =~= tail@);
    true
}

/// Whether the file name ends with one of the allowed extensions.
pub fn has_allowed_extension(filename: &str, allowed: &[&str]) -> (r: bool)
    ensures
        r == ends_with_any(filename@, allowed@),
{
    let mut i: usize = 0;
    while i < allowed.len()
        invariant
            i <= allowed@.len(),
            forall|k: int|
                0 <= k < i ==> !ends_with(filename@, (#[trigger] allowed@[k])@),
        decreases allowed@.len() - i,
    {
        if has_suffix(filename, *slice_index_get(allowed, i)) {
            return true;
        }
        i += 1;
    }
    false
}

/// Whether the parsed link is taken for an image.
pub fn is_image_link_of(url: &url::Url, allowed: &[&str]) -> (r: bool)
    ensures
        r == is_image_link(url_scheme(*url), url_path(*url), allowed@),
{
    let scheme = scheme_of(url);
    if same_text(scheme, "http") {
        return true;
    }
    same_text(scheme, "https") && has_allowed_extension(path_of(url), allowed)
}

/// Whether the text is taken for a link to an image.
///
/// The text has to be an absolute URL. A link with the scheme `http` is
/// taken for an image whatever its path; one with the scheme `https` is where
/// its path ends with one of the extensions in `allowed`; no other is.
pub fn is_image_url(url: &str, allowed: &[&str]) -> (r: bool)
    ensures
        r == is_image_url_text(url@, allowed@),
{
    match parse_url(url) {
        Ok(url) => is_image_link_of(&url, allowed),
        Err(_) => false,
    }
}

} // verus!
