//! What the server answers on each of its routes.
//!
//! Each function here decides; none touches the network or the file system.
//! The serving layer hands in what a request held and what a scan found, and
//! sends what comes back.

use vstd::prelude::*;
use crate::credentials::CredentialStore;
use crate::listing::{
    children_of, entries_of, list, listing_of, resolve_path, resolved, DirectoryScan, EntryView,
    ListError,
};
use crate::page::FRONT_END;
use crate::response::{
    plain_response, Body, BodyView, Response, ResponseView, STATUS_INTERNAL_SERVER_ERROR,
    STATUS_NOT_FOUND, STATUS_OK, STATUS_SEE_OTHER, STATUS_UNAUTHORIZED,
};
use crate::session::{
    carries_session, is_authenticated, is_session_marker, session_cookie, session_cookie_view,
    RequestCookie,
};

verus! {

/// What a login with a wrong user name or password is told.
pub const INVALID_CREDENTIALS: &'static str = "Invalid credentials";

/// What a request without a session is told.
pub const UNAUTHORIZED: &'static str = "Unauthorized";

/// What a request for a path that does not exist is told.
pub const DIRECTORY_NOT_FOUND: &'static str = "Directory not found";

/// What a request for a directory that cannot be read is told.
pub const READ_FAILED: &'static str = "Failed to read directory";

/// Where a login leads.
pub const HOME: &'static str = "/";

/// The type of the front-end page.
pub const PAGE_TYPE: &'static str = "text/html";

/// A part of the request's path, empty where the path has no such part.
pub open spec fn given(part: Option<&str>) -> Seq<char> {
    match part {
        Some(text) => text@,
        None => Seq::empty(),
    }
}

/// The answer to a login.
pub open spec fn login_response(
    store: Map<Seq<char>, Seq<char>>,
    username: Seq<char>,
    password: Seq<char>,
) -> ResponseView {
    if store.contains_key(username) && store[username] == password {
        ResponseView {
            status: STATUS_SEE_OTHER,
            content_type: None,
            location: Some(HOME@),
            cookie: Some(session_cookie_view()),
            body: BodyView::Empty,
        }
    } else {
        plain_response(STATUS_UNAUTHORIZED, BodyView::Text(INVALID_CREDENTIALS@))
    }
}

/// The answer that shows the front-end page.
pub open spec fn index_response() -> ResponseView {
    ResponseView {
        status: STATUS_OK,
        content_type: Some(PAGE_TYPE@),
        location: None,
        cookie: None,
        body: BodyView::Text(FRONT_END@),
    }
}

/// The status that goes with a failed listing.
pub open spec fn error_status(error: ListError) -> u16 {
    match error {
        ListError::NotFound => STATUS_NOT_FOUND,
        ListError::ReadError => STATUS_INTERNAL_SERVER_ERROR,
    }
}

/// The message that goes with a failed listing.
pub open spec fn error_message(error: ListError) -> Seq<char> {
    match error {
        ListError::NotFound => DIRECTORY_NOT_FOUND@,
        ListError::ReadError => READ_FAILED@,
    }
}

/// The answer to a request for a listing, by what the scan found.
pub open spec fn listing_response(scan: DirectoryScan) -> ResponseView {
    match listing_of(scan) {
        Ok(entries) => plain_response(STATUS_OK, BodyView::Listing(entries)),
        Err(error) => plain_response(error_status(error), BodyView::Json(error_message(error))),
    }
}

/// What to do with a request for a listing before anything is scanned.
#[derive(Debug, PartialEq, Eq)]
pub enum ListStep {
    /// Send this answer; scan nothing.
    Answer(Response),
    /// Scan this path, then answer with [`answer_listing`].
    Scan(String),
}

/// A [`ListStep`] with its texts as sequences of characters.
pub enum ListStepView {
    Answer(ResponseView),
    Scan(Seq<char>),
}

impl View for ListStep {
    type V = ListStepView;

    open spec fn view(&self) -> ListStepView {
        match self {
            ListStep::Answer(response) => ListStepView::Answer(response@),
            ListStep::Scan(path) => ListStepView::Scan(path@),
        }
    }
}

/// The step for a request for a listing: where a session is asked for and the
/// request has none it is turned away, else its path is scanned.
pub open spec fn listing_step(
    auth_required: bool,
    cookies: Seq<RequestCookie>,
    path: Seq<char>,
) -> ListStepView {
    if auth_required && !carries_session(cookies) {
        ListStepView::Answer(plain_response(STATUS_UNAUTHORIZED, BodyView::Text(UNAUTHORIZED@)))
    } else {
        ListStepView::Scan(resolved(path))
    }
}

/// The status that tells a client of a failed listing.
pub fn status_of(error: ListError) -> (status: u16)
    ensures
        status == error_status(error),
{
    match error {
        ListError::NotFound => STATUS_NOT_FOUND,
        ListError::ReadError => STATUS_INTERNAL_SERVER_ERROR,
    }
}

/// The message that tells a client of a failed listing.
pub fn message_of(error: ListError) -> (message: &'static str)
    ensures
        message@ == error_message(error),
{
    match error {
        ListError::NotFound => DIRECTORY_NOT_FOUND,
        ListError::ReadError => READ_FAILED,
    }
}

/// Answers `GET /login/{username}/{password}`: a user of the store who gives
/// the right password is sent to the front end with the session cookie;
/// anyone else is turned away. A part that the path lacks counts as empty.
pub fn login(store: &CredentialStore, username: Option<&str>, password: Option<&str>) -> (response:
    Response)
    ensures
        response@ == login_response(store@, given(username), given(password)),
{
    proof {
        reveal_strlit("");
        assert(""@ =~= Seq::<char>::empty());
    }
    let name = match username {
        Some(text) => text,
        None => "",
    };
    let word = match password {
        Some(text) => text,
        None => "",
    };
    if store.authenticate(name, word) {
        Response {
            status: STATUS_SEE_OTHER,
            content_type: None,
            location: Some(HOME.to_owned()),
            cookie: Some(session_cookie()),
            body: Body::Empty,
        }
    } else {
        Response::plain(STATUS_UNAUTHORIZED, Body::Text(INVALID_CREDENTIALS.to_owned()))
    }
}

/// Answers `GET /`: the front-end page, the same for every request.
pub fn index() -> (response: Response)
    ensures
        response@ == index_response(),
{
    Response {
        status: STATUS_OK,
        content_type: Some(PAGE_TYPE.to_owned()),
        location: None,
        cookie: None,
        body: Body::Text(FRONT_END.to_owned()),
    }
}

/// Begins to answer `GET /list/{path}`: says whether the request is turned
/// away or which path is to be scanned for it.
pub fn list_directory(auth_required: bool, cookies: &[RequestCookie], path: &str) -> (step:
    ListStep)
    ensures
        step@ == listing_step(auth_required, cookies@, path@),
{
    if auth_required && !is_authenticated(cookies) {
        ListStep::Answer(Response::plain(STATUS_UNAUTHORIZED, Body::Text(UNAUTHORIZED.to_owned())))
    } else {
        ListStep::Scan(resolve_path(path))
    }
}

/// Ends the answer to `GET /list/{path}`: the listing of what was scanned, or
/// the error that tells why there is none.
pub fn answer_listing(scan: &DirectoryScan) -> (response: Response)
    ensures
        response@ == listing_response(*scan),
{
    match list(scan) {
        Ok(entries) => Response::plain(STATUS_OK, Body::Listing(entries)),
        Err(error) => Response::plain(status_of(error), Body::Json(message_of(error).to_owned())),
    }
}

/// The answer of the listing route as a whole, by the cookies of the request
/// and what the scan of its path finds.
pub open spec fn list_route(
    auth_required: bool,
    cookies: Seq<RequestCookie>,
    scan: DirectoryScan,
) -> ResponseView {
    if auth_required && !carries_session(cookies) {
        plain_response(STATUS_UNAUTHORIZED, BodyView::Text(UNAUTHORIZED@))
    } else {
        listing_response(scan)
    }
}

/// The two steps of a listing give the answer of the route: a request that is
/// turned away gets that answer whatever a scan would find, and any other
/// request has its resolved path scanned and gets the answer for what was
/// found.
pub proof fn lemma_steps_give_the_route(
    auth_required: bool,
    cookies: Seq<RequestCookie>,
    path: Seq<char>,
    scan: DirectoryScan,
)
    ensures
        match listing_step(auth_required, cookies, path) {
            ListStepView::Answer(response) => response == list_route(auth_required, cookies, scan),
            ListStepView::Scan(target) => target == resolved(path) && listing_response(scan)
                == list_route(auth_required, cookies, scan),
        },
{
}

/// A path that does not exist is not listed: the lister fails with
/// `NotFound`, and the route answers with the status 404.
pub proof fn lemma_missing_path_is_not_found(cookies: Seq<RequestCookie>, scan: DirectoryScan)
    requires
        scan is Missing,
    ensures
        listing_of(scan) == Err::<Seq<EntryView>, ListError>(ListError::NotFound),
        listing_response(scan).status == 404,
        list_route(false, cookies, scan).status == 404,
        carries_session(cookies) ==> list_route(true, cookies, scan).status == 404,
{
}

/// Where a session is asked for, a request without the session marker is
/// answered with 401 whatever its path holds, and a request with the marker
/// is answered with 200 and the listing wherever its path can be read.
pub proof fn lemma_listing_is_gated(cookies: Seq<RequestCookie>, scan: DirectoryScan)
    ensures
        !carries_session(cookies) ==> list_route(true, cookies, scan).status == 401,
        carries_session(cookies) ==> (children_of(scan) matches Some(children) ==> list_route(
            true,
            cookies,
            scan,
        ) == plain_response(200, BodyView::Listing(entries_of(children)))),
{
}

/// A login opens a session: the cookie that a successful login hands out is
/// the session marker, and a request that brings it back, wherever among its
/// cookies, is authenticated.
pub proof fn lemma_login_opens_session(
    store: Map<Seq<char>, Seq<char>>,
    username: Seq<char>,
    password: Seq<char>,
    cookies: Seq<RequestCookie>,
    i: int,
)
    requires
        0 <= i < cookies.len(),
        login_response(store, username, password).cookie matches Some(issued)
            && cookies[i].name@ == issued.name && cookies[i].value@ == issued.value,
    ensures
        carries_session(cookies),
{
    assert(is_session_marker(cookies[i]));
}

} // verus!
