//! The web UI's pages, with the daemon's API token and version announced in
//! their `<head>`.
use vstd::prelude::*;

use crate::text::{push_str, replace_all, replace_str, to_owned_string};
use crate::text::{contains_str, ends_with, has_infix, is_suffix, str_eq};

verus! {

/// The two `<meta>` tags that carry the API token and the daemon version.
pub open spec fn meta_tags(token: Seq<char>, version: Seq<char>) -> Seq<char> {
    "<meta name=\"vyoma-api-token\" content=\""@ + token + "\"><meta name=\"vyoma-daemon-version\" content=\""@
        + version + "\">"@
}

/// The page with the meta tags put in front of every `</head>`.
pub fn inject_meta(html: String, token: &str, version: &str) -> (r: String)
    ensures
        r@ == replace_all(html@, "</head>"@, meta_tags(token@, version@) + "</head>"@),
{
    let mut tags = to_owned_string("<meta name=\"vyoma-api-token\" content=\"");
    push_str(&mut tags, token);
    push_str(&mut tags, "\"><meta name=\"vyoma-daemon-version\" content=\"");
    push_str(&mut tags, version);
    push_str(&mut tags, "\">");
    let mut rep = tags;
    push_str(&mut rep, "</head>");
    proof {
        reveal_strlit("</head>");
    }
    replace_str(html.as_str(), "</head>", rep.as_str())
}

/// The number of leading `/` in `s`.
pub open spec fn leading_slashes(s: Seq<char>) -> nat
    decreases s.len(),
{
    if s.len() > 0 && s[0] == '/' {
        1 + leading_slashes(s.drop_first())
    } else {
        0
    }
}

/// The asset a request path names: the path without its leading slashes,
/// or `index.html` when nothing is left.
pub open spec fn asset_path(uri_path: Seq<char>) -> Seq<char> {
    let p = uri_path.skip(leading_slashes(uri_path) as int);
    if p.len() == 0 {
        "index.html"@
    } else {
        p
    }
}

proof fn lemma_leading_slashes(s: Seq<char>, i: int)
    requires
        0 <= i <= s.len(),
        forall|j: int| 0 <= j < i ==> #[trigger] s[j] == '/',
        i == s.len() || s[i] != '/',
    ensures
        leading_slashes(s) == i,
    decreases i,
{
    if i > 0 {
        let t = s.drop_first();
        assert forall|j: int| 0 <= j < i - 1 implies #[trigger] t[j] == '/' by {
            assert(t[j] == s[j + 1]);
        }
        lemma_leading_slashes(t, i - 1);
    }
}

pub fn ui_asset_path(uri_path: &str) -> (r: String)
    ensures
        r@ == asset_path(uri_path@),
{
    let n = uri_path.unicode_len();
    let mut i: usize = 0;
    while i < n && uri_path.get_char(i) == '/'
        invariant
            i <= n,
            n == uri_path@.len(),
            forall|j: int| 0 <= j < i ==> #[trigger] uri_path@[j] == '/',
        decreases n - i,
    {
        i = i + 1;
    }
    proof {
        lemma_leading_slashes(uri_path@, i as int);
    }
    if i == n {
        return to_owned_string("index.html");
    }
    let rest = uri_path.substring_char(i, n);
    assert(rest@ =~= uri_path@.skip(i as int));
    to_owned_string(rest)
}

/// The content type that `mime_guess` guesses from a path's extension
/// (`from_path(..).first_or_octet_stream()`), as text.
pub uninterp spec fn guessed_content_type(path: Seq<char>) -> Seq<char>;

/// Asks `mime_guess` for the content type of an asset path.
#[verifier::external_body]
fn content_type_of(path: &str) -> (t: String)
    ensures
        t@ == guessed_content_type(path@),
{
    let guess = mime_guess::from_path(path).first_or_octet_stream();
    let text: &str = guess.as_ref();
    text.to_string()
}

/// How the UI answers for an asset path.
#[derive(Debug, Clone)]
pub enum UiRoute {
    /// Serve the asset as `content_type`, with the meta tags injected when
    /// `inject`.
    Serve { path: String, content_type: String, inject: bool },
    /// A file that does not exist.
    NotFound,
    /// Any other path is a page of the single-page app: serve
    /// `index.html` as `text/html`, injected when there is a token.
    AppPage { inject: bool },
}

/// Pages get the meta tags, and only when the daemon has an API token.
pub open spec fn is_page(path: Seq<char>) -> bool {
    is_suffix(".html"@, path) || path == "index.html"@
}

pub fn ui_route(path: String, asset_exists: bool, has_token: bool) -> (r: UiRoute)
    ensures
        asset_exists ==> (r matches UiRoute::Serve { path: p, content_type, inject } && p == path && content_type@
            == guessed_content_type(path@) && inject == (is_page(path@) && has_token)),
        !asset_exists && has_infix(path@, "."@) ==> r is NotFound,
        !asset_exists && !has_infix(path@, "."@) ==> (r matches UiRoute::AppPage { inject } && inject == has_token),
{
    if asset_exists {
        let page = ends_with(path.as_str(), ".html") || str_eq(path.as_str(), "index.html");
        let content_type = content_type_of(path.as_str());
        return UiRoute::Serve { path, content_type, inject: page && has_token };
    }
    if contains_str(path.as_str(), ".") {
        UiRoute::NotFound
    } else {
        UiRoute::AppPage { inject: has_token }
    }
}

} // verus!
