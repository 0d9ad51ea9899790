//! Deep-link routing: turning an OS-delivered URI into a navigation
//! against the hosted web application.
//!
//! The router is a pure function of the URI. A `mailto:` link becomes a
//! compose navigation with the recipient percent-encoded; a `nubo://`
//! link becomes a navigation to the same path under the application
//! host; any other scheme is silently ignored. The router validates
//! nothing: a malformed address is forwarded as-is.

use vstd::prelude::*;
use vstd::string::StrSliceExecFns;
use vstd::string::StringExecFns;
use vstd::utf8::is_ascii_chars;

verus! {

/// The scheme that opens the mail composer.
pub open spec fn mailto_scheme() -> Seq<char> {
    "mailto:"@
}

/// The application's own URI scheme.
pub open spec fn app_scheme() -> Seq<char> {
    "nubo://"@
}

/// The hosted application's root, with a trailing slash.
pub open spec fn host_root() -> Seq<char> {
    "https://nubo.email/"@
}

/// The compose page, ready to take a percent-encoded recipient.
pub open spec fn compose_prefix() -> Seq<char> {
    "https://nubo.email/mail/inbox?isComposeOpen=true&to="@
}

/// Whether `p` stands at the front of `u`.
pub open spec fn is_prefixed(u: Seq<char>, p: Seq<char>) -> bool {
    p.len() <= u.len() && u.subrange(0, p.len() as int) == p
}

/// The recipient of a `mailto:` URI: everything between the scheme and
/// the first `?`, or to the end when no query part follows.
pub open spec fn mailto_recipient(u: Seq<char>) -> Seq<char>
    recommends
        is_prefixed(u, mailto_scheme()),
{
    let rest = u.subrange(mailto_scheme().len() as int, u.len() as int);
    match rest.index_of_first('?') {
        Some(i) => rest.subrange(0, i),
        None => rest,
    }
}

/// Where a `mailto:` URI navigates: the compose page, with the
/// recipient percent-encoded.
pub open spec fn mailto_nav_url(u: Seq<char>) -> Seq<char> {
    compose_prefix() + percent_encoded(mailto_recipient(u))
}

/// Where an app-scheme URI navigates: the remainder of the URI taken as
/// a path under the application host.
pub open spec fn app_nav_url(u: Seq<char>) -> Seq<char> {
    host_root() + u.subrange(app_scheme().len() as int, u.len() as int)
}

/// A character the percent encoder passes through unchanged: ASCII
/// alphanumerics and `-`, `_`, `.`, `~`.
pub open spec fn is_unreserved(c: char) -> bool {
    ('0' <= c && c <= '9') || ('A' <= c && c <= 'Z') || ('a' <= c && c <= 'z') || c == '-' || c
        == '_' || c == '.' || c == '~'
}

/// The sixteen uppercase hexadecimal digits, by value.
pub open spec fn hex_digits() -> Seq<char> {
    seq!['0', '1', '2', '3', '4', '5', '6', '7', '8', '9', 'A', 'B', 'C', 'D', 'E', 'F']
}

/// How one ASCII character leaves the percent encoder: unchanged when
/// unreserved, otherwise `%` and two uppercase hex digits of its value.
pub open spec fn encoded_char(c: char) -> Seq<char> {
    if is_unreserved(c) {
        seq![c]
    } else {
        seq!['%', hex_digits()[(c as u32 / 16) as int], hex_digits()[(c as u32 % 16) as int]]
    }
}

/// Percent encoding of an all-ASCII character sequence, character by
/// character.
pub open spec fn ascii_percent_encoding(s: Seq<char>) -> Seq<char>
    decreases s.len(),
{
    if s.len() == 0 {
        Seq::empty()
    } else {
        encoded_char(s[0]) + ascii_percent_encoding(s.drop_first())
    }
}

/// What `urlencoding::encode` returns for a given input; a function of
/// the characters alone.
pub uninterp spec fn percent_encoded(s: Seq<char>) -> Seq<char>;

/// Relies on `urlencoding::encode`: percent-encodes every UTF-8 byte of
/// the input except ASCII alphanumerics and `-`, `_`, `.`, `~` as `%`
/// followed by two uppercase hex digits, so on all-ASCII input the
/// result is exactly one encoded character per input character.
#[verifier::external_body]
fn percent_encode(s: &str) -> (r: String)
    ensures
        r@ == percent_encoded(s@),
        is_ascii_chars(s@) ==> r@ == ascii_percent_encoding(s@),
{
    urlencoding::encode(s).into_owned()
}

/// What the router decided for one incoming URI.
pub enum RouteAction {
    /// Bring the window to the foreground (show, then focus) and
    /// navigate the webview to this URL.
    Navigate { url: String },
    /// Unrecognized scheme: no navigation and no side effect.
    Ignore,
}

/// Whether `p` stands at the front of `s`.
fn has_prefix(s: &str, p: &str) -> (b: bool)
    ensures
        b == is_prefixed(s@, p@),
{
    let n = p.unicode_len();
    let sn = s.unicode_len();
    if sn < n {
        return false;
    }
    let mut i: usize = 0;
    while i < n
        invariant
            i <= n,
            n == p@.len(),
            sn == s@.len(),
            n <= sn,
            forall|j: int| 0 <= j < i ==> s@[j] == p@[j],
        decreases n - i,
    {
        if s.get_char(i) != p.get_char(i) {
            assert(!is_prefixed(s@, p@)) by {
                assert(s@.subrange(0, p@.len() as int)[i as int] == s@[i as int]);
            }
            return false;
        }
        i += 1;
    }
    assert(s@.subrange(0, p@.len() as int) =~= p@);
    true
}

/// The index of the first `?` in `s`, or the character length of `s`
/// when it has none.
fn first_question(s: &str) -> (i: usize)
    ensures
        i <= s@.len(),
        s@.index_of_first('?') == (if i < s@.len() {
            Some(i as int)
        } else {
            None::<int>
        }),
{
    let n = s.unicode_len();
    let mut i: usize = 0;
    while i < n
        invariant
            i <= n,
            n == s@.len(),
            forall|j: int| 0 <= j < i ==> s@[j] != '?',
        decreases n - i,
    {
        if s.get_char(i) == '?' {
            proof {
                s@.index_of_first_ensures('?');
            }
            return i;
        }
        i += 1;
    }
    proof {
        s@.index_of_first_ensures('?');
    }
    n
}

/// Decide what one incoming deep link does. A `mailto:` URI navigates
/// to the compose page with the percent-encoded recipient; a `nubo://`
/// URI navigates to its path under the application host; anything else
/// is ignored. Navigation implies showing and focusing the window
/// first, so a backgrounded instance becomes visible.
pub fn route(uri: &str) -> (r: RouteAction)
    ensures
        is_prefixed(uri@, mailto_scheme()) ==> (r matches RouteAction::Navigate { url } && url@
            == mailto_nav_url(uri@)),
        !is_prefixed(uri@, mailto_scheme()) && is_prefixed(uri@, app_scheme()) ==> (r
            matches RouteAction::Navigate { url } && url@ == app_nav_url(uri@)),
        !is_prefixed(uri@, mailto_scheme()) && !is_prefixed(uri@, app_scheme()) ==> r
            == RouteAction::Ignore,
{
    proof {
        reveal_strlit("mailto:");
        reveal_strlit("nubo://");
    }
    let n = uri.unicode_len();
    if has_prefix(uri, "mailto:") {
        let rest = uri.substring_char(7, n);
        let q = first_question(rest);
        let recipient = rest.substring_char(0, q);
        proof {
            rest@.index_of_first_ensures('?');
            if q >= rest@.len() {
                assert(recipient@ =~= rest@);
            }
            assert(recipient@ == mailto_recipient(uri@));
        }
        let encoded = percent_encode(recipient);
        let url = String::from_str("https://nubo.email/mail/inbox?isComposeOpen=true&to=").concat(
            encoded.as_str(),
        );
        assert(url@ == mailto_nav_url(uri@));
        RouteAction::Navigate { url }
    } else if has_prefix(uri, "nubo://") {
        let path = uri.substring_char(7, n);
        let url = String::from_str("https://nubo.email/").concat(path);
        assert(url@ == app_nav_url(uri@));
        RouteAction::Navigate { url }
    } else {
        RouteAction::Ignore
    }
}

} // verus!
