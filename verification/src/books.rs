//! Books: asking about one and its reading sessions.

use vstd::prelude::*;
use crate::calendar::CalendarDate;
use crate::ident::Id;
use crate::models::{Book, Reading};
use crate::store::{Store, StoreState};
use crate::types::{
    text_of, Body, BodyView, BookInfoRequest, BookInfoResponse, BookInfoView, ReadingSummary,
    ReadingSummaryView, RequestError, Response, ResponseView, NOT_FOUND, OK,
};

verus! {

/// The text of an optional date.
pub open spec fn date_text(date: Option<CalendarDate>) -> Option<Seq<char>> {
    match date {
        Some(date) => Some(date.text()),
        None => None,
    }
}

/// A reading session as the callers who ask about its book see it:
/// identifier and dates as text, the mode by its name.
pub open spec fn reading_summary(reading: Reading) -> ReadingSummaryView {
    ReadingSummaryView {
        id: reading.id.text(),
        total_pages: reading.total_pages,
        progress: reading.progress,
        mode: reading.mode.label(),
        started_at: reading.started_at.text(),
        finished_at: date_text(reading.finished_at),
        cancelled_at: date_text(reading.cancelled_at),
    }
}

/// The answer to a question about a book, given the book, if it was found,
/// and its sessions: the external catalogue identifier of the book and the
/// sessions in their order, or that there is no such book.
pub open spec fn found_book_reply(found: Option<Book>, sessions: Seq<Reading>) -> ResponseView {
    match found {
        Some(book) => ResponseView {
            status: OK as int,
            body: BodyView::BookInfo(
                BookInfoView {
                    google_books_id: text_of(book.google_books_id),
                    readings: sessions.map_values(|r: Reading| reading_summary(r)),
                },
            ),
        },
        None => ResponseView::error(NOT_FOUND as int, "Book not found."@),
    }
}

/// The answer to a question about the book `book`: its external catalogue
/// identifier and its sessions, whoever reads, in the order in which they
/// were started, or that there is no such book, or that the identifier
/// could not be read, for which `None` stands.
pub open spec fn book_info_reply(state: StoreState, book: Option<Id>) -> ResponseView {
    match book {
        None => ResponseView::bad_request(RequestError::InvalidBookId),
        Some(id) => found_book_reply(
            if state.has_book(id) {
                Some(state.book(id))
            } else {
                None
            },
            state.readings_of(id),
        ),
    }
}

fn write_date(date: &Option<CalendarDate>) -> (r: Option<String>)
    ensures
        text_of(r) == date_text(*date),
{
    match date {
        Some(date) => Some(date.to_string()),
        None => None,
    }
}

impl ReadingSummary {
    /// A reading session as the callers who ask about its book see it.
    pub fn of(reading: &Reading) -> (r: ReadingSummary)
        ensures
            r@ == reading_summary(*reading),
    {
        ReadingSummary {
            id: reading.id.to_string(),
            total_pages: reading.total_pages,
            progress: reading.progress,
            mode: reading.mode.to_string(),
            started_at: reading.started_at.to_string(),
            finished_at: write_date(&reading.finished_at),
            cancelled_at: write_date(&reading.cancelled_at),
        }
    }
}

/// Answers a question about a book, given the book, if it was found, and
/// its sessions.
pub fn found_book(found: Option<&Book>, sessions: &Vec<Reading>) -> (r: Response)
    ensures
        r@ == found_book_reply(
            match found {
                Some(book) => Some(*book),
                None => None,
            },
            sessions@,
        ),
{
    let mut readings: Vec<ReadingSummary> = Vec::new();
    let mut i: usize = 0;
    while i < sessions.len()
        invariant
            i <= sessions.len(),
            readings.len() == i,
            forall|j: int| 0 <= j < i ==> (#[trigger] readings[j])@ == reading_summary(sessions[j]),
        decreases sessions.len() - i,
    {
        readings.push(ReadingSummary::of(&sessions[i]));
        i += 1;
    }
    match found {
        Some(book) => {
            let google_books_id = match &book.google_books_id {
                Some(text) => Some(text.clone()),
                None => None,
            };
            let info = BookInfoResponse { google_books_id, readings };
            assert(info@.readings =~= sessions@.map_values(|r: Reading| reading_summary(r)));
            Response { status: OK, body: Body::BookInfo(info) }
        },
        None => Response::error(NOT_FOUND, "Book not found."),
    }
}

/// Answers a question about the book `book`, where `None` stands for an
/// identifier that could not be read.
pub fn book_info(store: &Store, book: Option<Id>) -> (r: Response)
    requires
        store.wf(),
    ensures
        r@ == book_info_reply(store@, book),
{
    match book {
        None => Response::bad_request(RequestError::InvalidBookId),
        Some(id) => {
            let sessions = store.readings_of(id);
            found_book(store.find_book(id), &sessions)
        },
    }
}

/// Answers a question about a book: its external catalogue identifier and
/// all its reading sessions, or that the identifier cannot be read, or that
/// there is no such book.
pub fn get_book_info(store: &Store, payload: &BookInfoRequest) -> (r: Response)
    requires
        store.wf(),
    ensures
        r@ == book_info_reply(store@, Id::parsed(payload.book_id@)),
{
    book_info(store, Id::parse(payload.book_id.as_str()))
}

} // verus!
