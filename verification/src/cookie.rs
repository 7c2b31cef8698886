//! The two session cookies, as plain values, and the header text of one.

use vstd::prelude::*;

verus! {

/// Name of the cookie that carries the access token.
pub open spec fn access_cookie_name() -> Seq<char> {
    "access_token"@
}

/// Name of the cookie that carries the refresh token.
pub open spec fn refresh_cookie_name() -> Seq<char> {
    "refresh_token"@
}

/// The path that both cookies are set for.
pub open spec fn cookie_path() -> Seq<char> {
    "/"@
}

/// How long a browser keeps a cookie.
#[derive(Clone, Copy, Debug, PartialEq, Eq, Structural)]
pub enum CookieExpiry {
    /// Until the browser session ends: no explicit expiry.
    Session,
    /// Until the given time, in seconds since the epoch.
    At(usize),
    /// Not at all: the cookie removes the one of its name (empty value,
    /// maximum age zero, expiry in the past).
    Removal,
}

/// A cookie that a response sets.
#[derive(Debug)]
pub struct SessionCookie {
    pub name: String,
    pub value: String,
    pub http_only: bool,
    pub path: String,
    pub expiry: CookieExpiry,
}

/// The mathematical value of a [`SessionCookie`].
pub struct SessionCookieView {
    pub name: Seq<char>,
    pub value: Seq<char>,
    pub http_only: bool,
    pub path: Seq<char>,
    pub expiry: CookieExpiry,
}

impl View for SessionCookie {
    type V = SessionCookieView;

    open spec fn view(&self) -> SessionCookieView {
        SessionCookieView {
            name: self.name@,
            value: self.value@,
            http_only: self.http_only,
            path: self.path@,
            expiry: self.expiry,
        }
    }
}

/// The access-token cookie: HTTP-only, for the whole site, kept for the
/// browser session.
pub open spec fn access_cookie_spec(token: Seq<char>) -> SessionCookieView {
    SessionCookieView {
        name: access_cookie_name(),
        value: token,
        http_only: true,
        path: cookie_path(),
        expiry: CookieExpiry::Session,
    }
}

/// The refresh-token cookie: HTTP-only, for the whole site, kept until
/// `expires_at`.
pub open spec fn refresh_cookie_spec(token: Seq<char>, expires_at: usize) -> SessionCookieView {
    SessionCookieView {
        name: refresh_cookie_name(),
        value: token,
        http_only: true,
        path: cookie_path(),
        expiry: CookieExpiry::At(expires_at),
    }
}

/// The cookie that removes the one named `name`.
pub open spec fn removal_cookie_spec(name: Seq<char>) -> SessionCookieView {
    SessionCookieView {
        name,
        value: Seq::empty(),
        http_only: true,
        path: cookie_path(),
        expiry: CookieExpiry::Removal,
    }
}

/// The `Set-Cookie` header value of a cookie without an explicit expiry.
pub open spec fn set_cookie_text(
    name: Seq<char>,
    value: Seq<char>,
    http_only: bool,
    path: Seq<char>,
) -> Seq<char> {
    name + "="@ + value + (if http_only {
        "; HttpOnly"@
    } else {
        Seq::empty()
    }) + "; Path="@ + path
}

/// Calls `Cookie::build`, sets the HTTP-only flag and the path, and prints
/// the finished cookie.
///
/// Trusted: the text is name, `=` and value, then `; HttpOnly` where the flag
/// is set, then `; Path=` and the path; nothing is encoded or escaped.
#[verifier::external_body]
fn cookie_header(name: &str, value: &str, http_only: bool, path: &str) -> (r: String)
    ensures
        r@ == set_cookie_text(name@, value@, http_only, path@),
{
    actix_web::cookie::Cookie::build(name, value).http_only(http_only).path(
        path,
    ).finish().to_string()
}

/// Makes the access-token cookie for `token`.
pub fn access_token_cookie(token: String) -> (cookie: SessionCookie)
    ensures
        cookie@ == access_cookie_spec(token@),
{
    SessionCookie {
        name: "access_token".to_string(),
        value: token,
        http_only: true,
        path: "/".to_string(),
        expiry: CookieExpiry::Session,
    }
}

/// Makes the refresh-token cookie for `token`, kept until `expires_at`.
pub fn refresh_token_cookie(token: String, expires_at: usize) -> (cookie: SessionCookie)
    ensures
        cookie@ == refresh_cookie_spec(token@, expires_at),
{
    SessionCookie {
        name: "refresh_token".to_string(),
        value: token,
        http_only: true,
        path: "/".to_string(),
        expiry: CookieExpiry::At(expires_at),
    }
}

/// Makes the cookie that removes the one named `name`.
pub fn removal_cookie(name: &str) -> (cookie: SessionCookie)
    ensures
        cookie@ == removal_cookie_spec(name@),
{
    SessionCookie {
        name: name.to_string(),
        value: String::new(),
        http_only: true,
        path: "/".to_string(),
        expiry: CookieExpiry::Removal,
    }
}

/// The `Set-Cookie` header value that carries a fresh access token.
pub fn access_cookie_header(token: &str) -> (header: String)
    ensures
        header@ == set_cookie_text(access_cookie_name(), token@, true, cookie_path()),
{
    cookie_header("access_token", token, true, "/")
}

} // verus!
