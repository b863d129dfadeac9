//! Reading sessions: starting one, recording progress in one, and asking
//! about one.

use vstd::prelude::*;
use crate::calendar::{CalendarDate, Timestamp};
use crate::ident::Id;
use crate::models::{Reading, ReadingEntry, ReadingMode};
use crate::store::{Operation, StorageError, Store, StoreState};
use crate::types::{
    Body, BodyView, EntryInfo, EntryInfoView, ReadingInfoRequest, ReadingInfoResponse,
    ReadingInfoView, RequestError, Response, ResponseView, StartReadingRequest,
    TrackProgressRequest, CREATED, NOT_FOUND, OK,
};

verus! {

/// The text of what the store said, where it failed.
pub open spec fn said(error: Option<StorageError>) -> Option<Seq<char>> {
    match error {
        Some(error) => Some(error.text()),
        None => None,
    }
}

/// The session that a request asks to start: nothing read yet, measured in
/// pages, neither finished nor cancelled, started on the day `today`. Or
/// what is wrong with the request: the first of its identifiers that could
/// not be read, for which `None` stands.
pub open spec fn requested_session(
    book: Option<Id>,
    user: Option<Id>,
    total_pages: i32,
    id: Id,
    today: CalendarDate,
    now: Timestamp,
) -> Result<Reading, RequestError> {
    if book is None {
        Err(RequestError::InvalidBookId)
    } else if user is None {
        Err(RequestError::InvalidUserId)
    } else {
        Ok(Reading::started(id, book->0, user->0, total_pages, today, now))
    }
}

/// The entry that a request asks to record: the observation of `progress`
/// on the day `read_at`, measured in pages. Or what is wrong with the
/// request: the first of its identifiers that could not be read, or else
/// the date, for which `None` stands.
pub open spec fn requested_entry(
    reading: Option<Id>,
    book: Option<Id>,
    user: Option<Id>,
    progress: i32,
    read_at: Option<CalendarDate>,
    id: Id,
    now: Timestamp,
) -> Result<ReadingEntry, RequestError> {
    if reading is None {
        Err(RequestError::InvalidReadingId)
    } else if book is None {
        Err(RequestError::InvalidBookId)
    } else if user is None {
        Err(RequestError::InvalidUserId)
    } else if read_at is None {
        Err(RequestError::InvalidDate)
    } else {
        Ok(ReadingEntry::observed(id, reading->0, book->0, user->0, progress, read_at->0, now))
    }
}

/// The answer to a request to start a session that the store was asked to
/// carry out, where `failure` is what the store said if it failed.
pub open spec fn started_reply(failure: Option<Seq<char>>) -> ResponseView {
    match failure {
        None => ResponseView::message(CREATED as int, "Reading session started successfully."@),
        Some(detail) => ResponseView::failure(
            "Error while starting the reading session: "@,
            detail,
        ),
    }
}

/// The answer to a request to record progress that the store was asked to
/// carry out, where `failure` is what the store said if it failed.
pub open spec fn tracked_reply(failure: Option<Seq<char>>) -> ResponseView {
    match failure {
        None => ResponseView::message(CREATED as int, "Progress tracked successfully."@),
        Some(detail) => ResponseView::failure("Error while tracking progress: "@, detail),
    }
}

/// An entry of the ledger as callers see it: identifier and date as text,
/// the mode by its name.
pub open spec fn entry_info(entry: ReadingEntry) -> EntryInfoView {
    EntryInfoView {
        id: entry.id.text(),
        progress: entry.progress,
        mode: entry.mode.label(),
        read_at: entry.read_at.text(),
    }
}

/// The answer to a question about a session, given the session, if it was
/// found, and its ledger: the book of the session and the entries in the
/// order of the ledger, or that there is no such session.
pub open spec fn found_reading_reply(
    found: Option<Reading>,
    ledger: Seq<ReadingEntry>,
) -> ResponseView {
    match found {
        Some(reading) => ResponseView {
            status: OK as int,
            body: BodyView::ReadingInfo(
                ReadingInfoView {
                    book_id: reading.book.text(),
                    entries: ledger.map_values(|e: ReadingEntry| entry_info(e)),
                },
            ),
        },
        None => ResponseView::error(NOT_FOUND as int, "Reading not found."@),
    }
}

/// The answer to a question about the session `reading`: its book and its
/// ledger in the order of appending, or that there is no such session, or
/// that the identifier could not be read, for which `None` stands.
pub open spec fn reading_info_reply(state: StoreState, reading: Option<Id>) -> ResponseView {
    match reading {
        None => ResponseView::bad_request(RequestError::InvalidReadingId),
        Some(id) => found_reading_reply(
            if state.has_reading(id) {
                Some(state.reading(id))
            } else {
                None
            },
            state.entries_of(id),
        ),
    }
}

/// The store after a request to start a session: with the new session,
/// where the request could be read and the store accepted the session, and
/// unchanged otherwise.
pub open spec fn start_state(
    state: StoreState,
    book: Option<Id>,
    user: Option<Id>,
    total_pages: i32,
    id: Id,
    today: CalendarDate,
    now: Timestamp,
) -> StoreState {
    match requested_session(book, user, total_pages, id, today, now) {
        Ok(reading) => state.after(Operation::InsertReading(reading)),
        Err(_) => state,
    }
}

/// The answer to a request to start a session.
pub open spec fn start_reply(
    state: StoreState,
    book: Option<Id>,
    user: Option<Id>,
    total_pages: i32,
    id: Id,
    today: CalendarDate,
    now: Timestamp,
) -> ResponseView {
    match requested_session(book, user, total_pages, id, today, now) {
        Ok(reading) => started_reply(said(state.reading_error(reading))),
        Err(error) => ResponseView::bad_request(error),
    }
}

/// The store after a request to record progress: with the observation
/// recorded, where the request could be read and the store accepted both
/// statements, and unchanged otherwise.
pub open spec fn track_state(
    state: StoreState,
    reading: Option<Id>,
    book: Option<Id>,
    user: Option<Id>,
    progress: i32,
    read_at: Option<CalendarDate>,
    id: Id,
    now: Timestamp,
) -> StoreState {
    match requested_entry(reading, book, user, progress, read_at, id, now) {
        Ok(entry) => state.after(Operation::Record(entry)),
        Err(_) => state,
    }
}

/// The answer to a request to record progress.
pub open spec fn track_reply(
    state: StoreState,
    reading: Option<Id>,
    book: Option<Id>,
    user: Option<Id>,
    progress: i32,
    read_at: Option<CalendarDate>,
    id: Id,
    now: Timestamp,
) -> ResponseView {
    match requested_entry(reading, book, user, progress, read_at, id, now) {
        Ok(entry) => tracked_reply(said(state.record_error(entry))),
        Err(error) => ResponseView::bad_request(error),
    }
}

/// The session that a request asks to start, or what is wrong with the
/// request. `None` stands for an identifier that could not be read. The
/// total of pages is taken as it comes, positive or not.
pub fn new_session(
    book: Option<Id>,
    user: Option<Id>,
    total_pages: i32,
    id: Id,
    today: CalendarDate,
    now: Timestamp,
) -> (r: Result<Reading, RequestError>)
    ensures
        r == requested_session(book, user, total_pages, id, today, now),
{
    let book = match book {
        Some(book) => book,
        None => {
            return Err(RequestError::InvalidBookId);
        },
    };
    let user = match user {
        Some(user) => user,
        None => {
            return Err(RequestError::InvalidUserId);
        },
    };
    Ok(
        Reading {
            id,
            book,
            user,
            total_pages,
            progress: 0,
            mode: ReadingMode::Pages,
            started_at: today,
            finished_at: None,
            cancelled_at: None,
            created_at: now,
            updated_at: now,
        },
    )
}

/// The entry that a request asks to record, or what is wrong with the
/// request. `None` stands for an identifier or a date that could not be
/// read. Book and user are those of the request, whatever the session says,
/// and the progress is taken as it comes, within the total of pages or not.
pub fn new_entry(
    reading: Option<Id>,
    book: Option<Id>,
    user: Option<Id>,
    progress: i32,
    read_at: Option<CalendarDate>,
    id: Id,
    now: Timestamp,
) -> (r: Result<ReadingEntry, RequestError>)
    ensures
        r == requested_entry(reading, book, user, progress, read_at, id, now),
{
    let reading = match reading {
        Some(reading) => reading,
        None => {
            return Err(RequestError::InvalidReadingId);
        },
    };
    let book = match book {
        Some(book) => book,
        None => {
            return Err(RequestError::InvalidBookId);
        },
    };
    let user = match user {
        Some(user) => user,
        None => {
            return Err(RequestError::InvalidUserId);
        },
    };
    let read_at = match read_at {
        Some(read_at) => read_at,
        None => {
            return Err(RequestError::InvalidDate);
        },
    };
    Ok(
        ReadingEntry {
            id,
            reading,
            book,
            user,
            progress,
            mode: ReadingMode::Pages,
            read_at,
            created_at: now,
            updated_at: now,
        },
    )
}

/// Answers a request to start a session that the store was asked to carry
/// out, where `failure` is what the store said if it failed.
pub fn session_started(failure: Option<&str>) -> (r: Response)
    ensures
        r@ == started_reply(
            match failure {
                Some(detail) => Some(detail@),
                None => None,
            },
        ),
{
    match failure {
        None => Response::message(CREATED, "Reading session started successfully."),
        Some(detail) => Response::failure("Error while starting the reading session: ", detail),
    }
}

/// Answers a request to record progress that the store was asked to carry
/// out, where `failure` is what the store said if it failed.
pub fn progress_tracked(failure: Option<&str>) -> (r: Response)
    ensures
        r@ == tracked_reply(
            match failure {
                Some(detail) => Some(detail@),
                None => None,
            },
        ),
{
    match failure {
        None => Response::message(CREATED, "Progress tracked successfully."),
        Some(detail) => Response::failure("Error while tracking progress: ", detail),
    }
}

impl EntryInfo {
    /// An entry of the ledger as callers see it.
    pub fn of(entry: &ReadingEntry) -> (r: EntryInfo)
        ensures
            r@ == entry_info(*entry),
    {
        EntryInfo {
            id: entry.id.to_string(),
            progress: entry.progress,
            mode: entry.mode.to_string(),
            read_at: entry.read_at.to_string(),
        }
    }
}

/// Answers a question about a session, given the session, if it was found,
/// and its ledger.
pub fn found_reading(found: Option<Reading>, ledger: &Vec<ReadingEntry>) -> (r: Response)
    ensures
        r@ == found_reading_reply(found, ledger@),
{
    let mut entries: Vec<EntryInfo> = Vec::new();
    let mut i: usize = 0;
    while i < ledger.len()
        invariant
            i <= ledger.len(),
            entries.len() == i,
            forall|j: int| 0 <= j < i ==> (#[trigger] entries[j])@ == entry_info(ledger[j]),
        decreases ledger.len() - i,
    {
        entries.push(EntryInfo::of(&ledger[i]));
        i += 1;
    }
    match found {
        Some(reading) => {
            let info = ReadingInfoResponse { book_id: reading.book.to_string(), entries };
            assert(info@.entries =~= ledger@.map_values(|e: ReadingEntry| entry_info(e)));
            Response { status: OK, body: Body::ReadingInfo(info) }
        },
        None => Response::error(NOT_FOUND, "Reading not found."),
    }
}

/// Answers a question about the session `reading`, where `None` stands for
/// an identifier that could not be read.
pub fn reading_info(store: &Store, reading: Option<Id>) -> (r: Response)
    requires
        store.wf(),
    ensures
        r@ == reading_info_reply(store@, reading),
{
    match reading {
        None => Response::bad_request(RequestError::InvalidReadingId),
        Some(id) => {
            let ledger = store.entries_of(id);
            found_reading(store.find_reading(id), &ledger)
        },
    }
}

/// Answers a question about a reading session: its book and its ledger in
/// the order of appending, or that the identifier cannot be read, or that
/// there is no such session.
pub fn get_reading_info(store: &Store, payload: &ReadingInfoRequest) -> (r: Response)
    requires
        store.wf(),
    ensures
        r@ == reading_info_reply(store@, Id::parsed(payload.reading_id@)),
{
    reading_info(store, Id::parse(payload.reading_id.as_str()))
}

/// Starts a reading session of the book `book` for the user `user`, with
/// nothing read yet, under the identifier `id`, on the day `today`, at the
/// instant `now`. `None` stands for an identifier that could not be read.
pub fn start_reading(
    store: &mut Store,
    book: Option<Id>,
    user: Option<Id>,
    total_pages: i32,
    id: Id,
    today: CalendarDate,
    now: Timestamp,
) -> (r: Response)
    requires
        old(store).wf(),
    ensures
        final(store).wf(),
        final(store)@ == start_state(old(store)@, book, user, total_pages, id, today, now),
        r@ == start_reply(old(store)@, book, user, total_pages, id, today, now),
{
    let reading = match new_session(book, user, total_pages, id, today, now) {
        Ok(reading) => reading,
        Err(error) => {
            return Response::bad_request(error);
        },
    };
    match store.insert_reading(reading) {
        Ok(()) => session_started(None),
        Err(error) => session_started(Some(error.to_string().as_str())),
    }
}

/// Starts a reading session for a book and a user, under a fresh random
/// identifier, today. The session has nothing read yet. Nothing is created
/// where an identifier cannot be read or the store fails.
pub fn start_reading_session(store: &mut Store, payload: &StartReadingRequest) -> (r: Response)
    requires
        old(store).wf(),
    ensures
        final(store).wf(),
        exists|id: Id, today: CalendarDate, now: Timestamp|
            {
                &&& id.is_random()
                &&& final(store)@ == start_state(
                    old(store)@,
                    Id::parsed(payload.book_id@),
                    Id::parsed(payload.user_id@),
                    payload.total_pages,
                    id,
                    today,
                    now,
                )
                &&& r@ == #[trigger] start_reply(
                    old(store)@,
                    Id::parsed(payload.book_id@),
                    Id::parsed(payload.user_id@),
                    payload.total_pages,
                    id,
                    today,
                    now,
                )
            },
{
    let book = Id::parse(payload.book_id.as_str());
    let user = Id::parse(payload.user_id.as_str());
    let id = Id::random();
    let today = CalendarDate::today();
    let now = Timestamp::now();
    start_reading(store, book, user, payload.total_pages, id, today, now)
}

/// Records that the session `reading` was at `progress` on the day
/// `read_at`, in an entry with the identifier `id` written at `now`: the
/// entry is appended to the ledger and the progress cursor of the session is
/// overwritten, both or neither. `None` stands for an identifier or a date
/// that could not be read.
pub fn record_observation(
    store: &mut Store,
    reading: Option<Id>,
    book: Option<Id>,
    user: Option<Id>,
    progress: i32,
    read_at: Option<CalendarDate>,
    id: Id,
    now: Timestamp,
) -> (r: Response)
    requires
        old(store).wf(),
    ensures
        final(store).wf(),
        final(store)@ == track_state(old(store)@, reading, book, user, progress, read_at, id, now),
        r@ == track_reply(old(store)@, reading, book, user, progress, read_at, id, now),
{
    let entry = match new_entry(reading, book, user, progress, read_at, id, now) {
        Ok(entry) => entry,
        Err(error) => {
            return Response::bad_request(error);
        },
    };
    match store.record_progress(entry) {
        Ok(()) => progress_tracked(None),
        Err(error) => progress_tracked(Some(error.to_string().as_str())),
    }
}

/// Records an observation of progress in a reading session, in an entry
/// with a fresh random identifier. Nothing is recorded where an identifier
/// or the date cannot be read, or the store fails at either statement.
pub fn track_progress(store: &mut Store, payload: &TrackProgressRequest) -> (r: Response)
    requires
        old(store).wf(),
    ensures
        final(store).wf(),
        exists|id: Id, now: Timestamp|
            {
                &&& id.is_random()
                &&& final(store)@ == track_state(
                    old(store)@,
                    Id::parsed(payload.reading_id@),
                    Id::parsed(payload.book_id@),
                    Id::parsed(payload.user_id@),
                    payload.progress,
                    CalendarDate::parsed(payload.read_at@),
                    id,
                    now,
                )
                &&& r@ == #[trigger] track_reply(
                    old(store)@,
                    Id::parsed(payload.reading_id@),
                    Id::parsed(payload.book_id@),
                    Id::parsed(payload.user_id@),
                    payload.progress,
                    CalendarDate::parsed(payload.read_at@),
                    id,
                    now,
                )
            },
{
    let reading = Id::parse(payload.reading_id.as_str());
    let book = Id::parse(payload.book_id.as_str());
    let user = Id::parse(payload.user_id.as_str());
    let read_at = CalendarDate::parse(payload.read_at.as_str());
    let id = Id::random();
    let now = Timestamp::now();
    record_observation(store, reading, book, user, payload.progress, read_at, id, now)
}

} // verus!
