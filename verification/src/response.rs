//! Answers as plain values: a status, a few headers and a body. The serving
//! layer turns them into what goes over the wire.

use vstd::prelude::*;
use crate::listing::{entry_views, DirectoryEntry, EntryView};
use crate::session::{SetCookie, SetCookieView};

verus! {

/// The request was answered.
pub const STATUS_OK: u16 = 200;

/// The answer is found elsewhere.
pub const STATUS_SEE_OTHER: u16 = 303;

/// The request is not authenticated.
pub const STATUS_UNAUTHORIZED: u16 = 401;

/// Nothing is there.
pub const STATUS_NOT_FOUND: u16 = 404;

/// The server failed.
pub const STATUS_INTERNAL_SERVER_ERROR: u16 = 500;

/// What an answer carries.
#[derive(Debug, PartialEq, Eq)]
pub enum Body {
    /// Nothing.
    Empty,
    /// Text, sent as it is.
    Text(String),
    /// Text, sent as a string of JSON.
    Json(String),
    /// The entries of a directory, sent as an array of JSON.
    Listing(Vec<DirectoryEntry>),
}

/// A [`Body`] with its texts as sequences of characters.
pub enum BodyView {
    Empty,
    Text(Seq<char>),
    Json(Seq<char>),
    Listing(Seq<EntryView>),
}

impl View for Body {
    type V = BodyView;

    open spec fn view(&self) -> BodyView {
        match self {
            Body::Empty => BodyView::Empty,
            Body::Text(text) => BodyView::Text(text@),
            Body::Json(text) => BodyView::Json(text@),
            Body::Listing(entries) => BodyView::Listing(entry_views(entries@)),
        }
    }
}

/// An answer to a request.
#[derive(Debug, PartialEq, Eq)]
pub struct Response {
    pub status: u16,
    /// The type of the body, where the answer names one itself.
    pub content_type: Option<String>,
    /// Where a redirected client goes.
    pub location: Option<String>,
    /// The cookie that the client is asked to keep.
    pub cookie: Option<SetCookie>,
    pub body: Body,
}

/// A [`Response`] with its texts as sequences of characters.
pub struct ResponseView {
    pub status: u16,
    pub content_type: Option<Seq<char>>,
    pub location: Option<Seq<char>>,
    pub cookie: Option<SetCookieView>,
    pub body: BodyView,
}

/// The characters of a text that may be absent.
pub open spec fn text_view(text: Option<String>) -> Option<Seq<char>> {
    match text {
        Some(text) => Some(text@),
        None => None,
    }
}

impl View for Response {
    type V = ResponseView;

    open spec fn view(&self) -> ResponseView {
        ResponseView {
            status: self.status,
            content_type: text_view(self.content_type),
            location: text_view(self.location),
            cookie: match self.cookie {
                Some(cookie) => Some(cookie@),
                None => None,
            },
            body: self.body@,
        }
    }
}

/// An answer that is a status and a body, with no header of its own.
pub open spec fn plain_response(status: u16, body: BodyView) -> ResponseView {
    ResponseView { status, content_type: None, location: None, cookie: None, body }
}

impl Response {
    /// An answer with a status and a body, and no header of its own.
    pub fn plain(status: u16, body: Body) -> (response: Response)
        ensures
            response@ == plain_response(status, body@),
    {
        Response { status, content_type: None, location: None, cookie: None, body }
    }
}

} // verus!
