//! The session gate: a request is authenticated where it carries the session
//! marker, a cookie with a fixed name and a fixed value.
//!
//! The marker is the same for every user and never expires, so it tells an
//! authenticated request from another one and nothing more.

use vstd::prelude::*;
use crate::text::same_text;

verus! {

/// The name of the cookie that marks a session.
pub const SESSION_COOKIE_NAME: &'static str = "auth";

/// The one value of that cookie that is accepted.
pub const SESSION_COOKIE_VALUE: &'static str = "secret";

/// The path for which the session cookie is set.
pub const SESSION_COOKIE_PATH: &'static str = "/";

/// A cookie that a request carries.
#[derive(Debug, PartialEq, Eq)]
pub struct RequestCookie {
    pub name: String,
    pub value: String,
}

/// To which requests from other sites a browser adds a cookie.
#[derive(Clone, Copy, Debug, PartialEq, Eq, Structural)]
pub enum SameSite {
    /// To none.
    Strict,
    /// To those that follow a link.
    Lax,
    /// To all.
    Unrestricted,
}

/// A cookie that a response asks the browser to keep.
#[derive(Debug, PartialEq, Eq)]
pub struct SetCookie {
    pub name: String,
    pub value: String,
    pub path: String,
    /// Hidden from scripts.
    pub http_only: bool,
    pub same_site: SameSite,
    /// The seconds for which the browser keeps the cookie; without them it
    /// keeps the cookie until it is closed.
    pub max_age: Option<i64>,
}

/// A [`SetCookie`] with its texts as sequences of characters.
pub struct SetCookieView {
    pub name: Seq<char>,
    pub value: Seq<char>,
    pub path: Seq<char>,
    pub http_only: bool,
    pub same_site: SameSite,
    pub max_age: Option<i64>,
}

impl View for SetCookie {
    type V = SetCookieView;

    open spec fn view(&self) -> SetCookieView {
        SetCookieView {
            name: self.name@,
            value: self.value@,
            path: self.path@,
            http_only: self.http_only,
            same_site: self.same_site,
            max_age: self.max_age,
        }
    }
}

/// Whether a cookie is the session marker.
pub open spec fn is_session_marker(cookie: RequestCookie) -> bool {
    cookie.name@ == SESSION_COOKIE_NAME@ && cookie.value@ == SESSION_COOKIE_VALUE@
}

/// Whether the session marker is among the cookies of a request.
pub open spec fn carries_session(cookies: Seq<RequestCookie>) -> bool {
    exists|i: int| 0 <= i < cookies.len() && is_session_marker(#[trigger] cookies[i])
}

/// The cookie that opens a session: the marker, hidden from scripts, for
/// every path, never sent along with a request from another site, and kept
/// until the browser is closed.
pub open spec fn session_cookie_view() -> SetCookieView {
    SetCookieView {
        name: SESSION_COOKIE_NAME@,
        value: SESSION_COOKIE_VALUE@,
        path: SESSION_COOKIE_PATH@,
        http_only: true,
        same_site: SameSite::Strict,
        max_age: None,
    }
}

/// Whether a request with these cookies is authenticated.
pub fn is_authenticated(cookies: &[RequestCookie]) -> (ok: bool)
    ensures
        ok == carries_session(cookies@),
{
    let mut i: usize = 0;
    while i < cookies.len()
        invariant
            i <= cookies@.len(),
            forall|k: int| 0 <= k < i ==> !is_session_marker(#[trigger] cookies@[k]),
        decreases cookies@.len() - i,
    {
        if same_text(cookies[i].name.as_str(), SESSION_COOKIE_NAME) && same_text(
            cookies[i].value.as_str(),
            SESSION_COOKIE_VALUE,
        ) {
            return true;
        }
        i = i + 1;
    }
    false
}

/// Makes the cookie that opens a session.
pub fn session_cookie() -> (cookie: SetCookie)
    ensures
        cookie@ == session_cookie_view(),
{
    SetCookie {
        name: SESSION_COOKIE_NAME.to_owned(),
        value: SESSION_COOKIE_VALUE.to_owned(),
        path: SESSION_COOKIE_PATH.to_owned(),
        http_only: true,
        same_site: SameSite::Strict,
        max_age: None,
    }
}

} // verus!
