//! What callers send and what they are answered: the requests, and the
//! responses with their status codes.

use vstd::prelude::*;

verus! {

/// The request was carried out.
pub const OK: u16 = 200;

/// The request was carried out, and something was created.
pub const CREATED: u16 = 201;

/// The request could not be read.
pub const BAD_REQUEST: u16 = 400;

/// What the request asks about does not exist.
pub const NOT_FOUND: u16 = 404;

/// The store failed.
pub const INTERNAL_SERVER_ERROR: u16 = 500;

/// Asks about a book and its reading sessions.
#[derive(Clone, Debug, PartialEq, Eq)]
pub struct BookInfoRequest {
    pub book_id: String,
}

/// Asks about a reading session and its ledger.
#[derive(Clone, Debug, PartialEq, Eq)]
pub struct ReadingInfoRequest {
    pub reading_id: String,
}

/// Asks to start a reading session.
#[derive(Clone, Debug, PartialEq, Eq)]
pub struct StartReadingRequest {
    pub book_id: String,
    pub user_id: String,
    pub total_pages: i32,
}

/// Asks to record an observation of progress. `read_at` is the day on which
/// the reading took place, in the form `YYYY-MM-DD`.
#[derive(Clone, Debug, PartialEq, Eq)]
pub struct TrackProgressRequest {
    pub reading_id: String,
    pub book_id: String,
    pub user_id: String,
    pub progress: i32,
    pub read_at: String,
}

/// What is wrong with a request.
#[derive(Clone, Copy, Debug, PartialEq, Eq, Structural)]
pub enum RequestError {
    /// The identifier of the reading session cannot be read.
    InvalidReadingId,
    /// The identifier of the book cannot be read.
    InvalidBookId,
    /// The identifier of the user cannot be read.
    InvalidUserId,
    /// The date is not a day in the form `YYYY-MM-DD`.
    InvalidDate,
}

impl RequestError {
    /// The text that describes the error.
    pub open spec fn text(self) -> Seq<char> {
        match self {
            RequestError::InvalidReadingId => "Invalid reading ID"@,
            RequestError::InvalidBookId => "Invalid book ID"@,
            RequestError::InvalidUserId => "Invalid user ID"@,
            RequestError::InvalidDate => "Invalid date format"@,
        }
    }

    /// Writes the text that describes the error.
    pub fn to_string(&self) -> (r: String)
        ensures
            r@ == self.text(),
    {
        match self {
            RequestError::InvalidReadingId => "Invalid reading ID".to_owned(),
            RequestError::InvalidBookId => "Invalid book ID".to_owned(),
            RequestError::InvalidUserId => "Invalid user ID".to_owned(),
            RequestError::InvalidDate => "Invalid date format".to_owned(),
        }
    }
}

/// The answer to a request that failed.
#[derive(Clone, Debug, PartialEq, Eq)]
pub struct ErrorResponse {
    pub error: String,
}

/// The answer to a request that changed the store.
#[derive(Clone, Debug, PartialEq, Eq)]
pub struct MessageResponse {
    pub message: String,
}

/// One entry of a ledger, as callers see it.
#[derive(Clone, Debug, PartialEq, Eq)]
pub struct EntryInfo {
    pub id: String,
    pub progress: i32,
    pub mode: String,
    pub read_at: String,
}

/// A reading session as callers see it: its book and its ledger.
#[derive(Clone, Debug, PartialEq, Eq)]
pub struct ReadingInfoResponse {
    pub book_id: String,
    pub entries: Vec<EntryInfo>,
}

/// One reading session of a book, as callers see it.
#[derive(Clone, Debug, PartialEq, Eq)]
pub struct ReadingSummary {
    pub id: String,
    pub total_pages: i32,
    pub progress: i32,
    pub mode: String,
    pub started_at: String,
    pub finished_at: Option<String>,
    pub cancelled_at: Option<String>,
}

/// A book as callers see it: its external catalogue identifier and its
/// reading sessions.
#[derive(Clone, Debug, PartialEq, Eq)]
pub struct BookInfoResponse {
    pub google_books_id: Option<String>,
    pub readings: Vec<ReadingSummary>,
}

/// What a response carries.
#[derive(Clone, Debug, PartialEq, Eq)]
pub enum Body {
    Message(MessageResponse),
    Error(ErrorResponse),
    ReadingInfo(ReadingInfoResponse),
    BookInfo(BookInfoResponse),
}

/// The answer to a request: a status code and a body.
#[derive(Clone, Debug, PartialEq, Eq)]
pub struct Response {
    pub status: u16,
    pub body: Body,
}

/// The text of an optional string.
pub open spec fn text_of(text: Option<String>) -> Option<Seq<char>> {
    match text {
        Some(s) => Some(s@),
        None => None,
    }
}

/// What an `EntryInfo` says.
pub struct EntryInfoView {
    pub id: Seq<char>,
    pub progress: i32,
    pub mode: Seq<char>,
    pub read_at: Seq<char>,
}

/// What a `ReadingInfoResponse` says.
pub struct ReadingInfoView {
    pub book_id: Seq<char>,
    pub entries: Seq<EntryInfoView>,
}

/// What a `ReadingSummary` says.
pub struct ReadingSummaryView {
    pub id: Seq<char>,
    pub total_pages: i32,
    pub progress: i32,
    pub mode: Seq<char>,
    pub started_at: Seq<char>,
    pub finished_at: Option<Seq<char>>,
    pub cancelled_at: Option<Seq<char>>,
}

/// What a `BookInfoResponse` says.
pub struct BookInfoView {
    pub google_books_id: Option<Seq<char>>,
    pub readings: Seq<ReadingSummaryView>,
}

/// What a `Body` says: a message, the text of an error, or what is known
/// of a reading session or of a book.
pub enum BodyView {
    Message(Seq<char>),
    Error(Seq<char>),
    ReadingInfo(ReadingInfoView),
    BookInfo(BookInfoView),
}

/// What a `Response` says.
pub struct ResponseView {
    pub status: int,
    pub body: BodyView,
}

impl View for EntryInfo {
    type V = EntryInfoView;

    open spec fn view(&self) -> EntryInfoView {
        EntryInfoView {
            id: self.id@,
            progress: self.progress,
            mode: self.mode@,
            read_at: self.read_at@,
        }
    }
}

impl View for ReadingInfoResponse {
    type V = ReadingInfoView;

    open spec fn view(&self) -> ReadingInfoView {
        ReadingInfoView {
            book_id: self.book_id@,
            entries: self.entries@.map_values(|e: EntryInfo| e@),
        }
    }
}

impl View for ReadingSummary {
    type V = ReadingSummaryView;

    open spec fn view(&self) -> ReadingSummaryView {
        ReadingSummaryView {
            id: self.id@,
            total_pages: self.total_pages,
            progress: self.progress,
            mode: self.mode@,
            started_at: self.started_at@,
            finished_at: text_of(self.finished_at),
            cancelled_at: text_of(self.cancelled_at),
        }
    }
}

impl View for BookInfoResponse {
    type V = BookInfoView;

    open spec fn view(&self) -> BookInfoView {
        BookInfoView {
            google_books_id: text_of(self.google_books_id),
            readings: self.readings@.map_values(|r: ReadingSummary| r@),
        }
    }
}

impl View for Body {
    type V = BodyView;

    open spec fn view(&self) -> BodyView {
        match self {
            Body::Message(m) => BodyView::Message(m.message@),
            Body::Error(e) => BodyView::Error(e.error@),
            Body::ReadingInfo(info) => BodyView::ReadingInfo(info@),
            Body::BookInfo(info) => BodyView::BookInfo(info@),
        }
    }
}

impl View for Response {
    type V = ResponseView;

    open spec fn view(&self) -> ResponseView {
        ResponseView { status: self.status as int, body: self.body@ }
    }
}

impl ResponseView {
    /// The response that tells of a change with a message.
    pub open spec fn message(status: int, message: Seq<char>) -> ResponseView {
        ResponseView { status, body: BodyView::Message(message) }
    }

    /// The response that tells of a failure.
    pub open spec fn error(status: int, error: Seq<char>) -> ResponseView {
        ResponseView { status, body: BodyView::Error(error) }
    }

    /// The response that tells what is wrong with a request.
    pub open spec fn bad_request(error: RequestError) -> ResponseView {
        ResponseView::error(BAD_REQUEST as int, error.text())
    }

    /// The response that tells of a failure of the store: what was being
    /// done, followed by what the store said.
    pub open spec fn failure(doing: Seq<char>, detail: Seq<char>) -> ResponseView {
        ResponseView::error(INTERNAL_SERVER_ERROR as int, doing + detail)
    }

    /// The entries that the response lists; none where it is not about a
    /// reading session.
    pub open spec fn entries(self) -> Seq<EntryInfoView> {
        match self.body {
            BodyView::ReadingInfo(info) => info.entries,
            _ => Seq::empty(),
        }
    }

    /// The reading sessions that the response lists; none where it is not
    /// about a book.
    pub open spec fn readings(self) -> Seq<ReadingSummaryView> {
        match self.body {
            BodyView::BookInfo(info) => info.readings,
            _ => Seq::empty(),
        }
    }
}

/// Calls `format!` to write one text after the other. The contract claims
/// that the result is the two texts, joined.
#[verifier::external_body]
fn joined(head: &str, tail: &str) -> (r: String)
    ensures
        r@ == head@ + tail@,
{
    format!("{}{}", head, tail)
}

impl Response {
    /// The response that tells of a change with a message.
    pub fn message(status: u16, message: &str) -> (r: Response)
        ensures
            r@ == ResponseView::message(status as int, message@),
    {
        Response { status, body: Body::Message(MessageResponse { message: message.to_owned() }) }
    }

    /// The response that tells of a failure.
    pub fn error(status: u16, error: &str) -> (r: Response)
        ensures
            r@ == ResponseView::error(status as int, error@),
    {
        Response { status, body: Body::Error(ErrorResponse { error: error.to_owned() }) }
    }

    /// The response that tells what is wrong with a request.
    pub fn bad_request(error: RequestError) -> (r: Response)
        ensures
            r@ == ResponseView::bad_request(error),
    {
        Response { status: BAD_REQUEST, body: Body::Error(ErrorResponse { error: error.to_string() }) }
    }

    /// The response that tells of a failure of the store: what was being
    /// done, followed by what the store said.
    pub fn failure(doing: &str, detail: &str) -> (r: Response)
        ensures
            r@ == ResponseView::failure(doing@, detail@),
    {
        Response {
            status: INTERNAL_SERVER_ERROR,
            body: Body::Error(ErrorResponse { error: joined(doing, detail) }),
        }
    }
}

} // verus!
