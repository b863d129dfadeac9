//! The rows that the tracker keeps: books, reading sessions and the entries
//! of the progress ledger.

use vstd::prelude::*;
use crate::calendar::{CalendarDate, Timestamp};
use crate::ident::Id;

verus! {

/// The unit in which progress is measured.
#[derive(Clone, Copy, Debug, PartialEq, Eq, Structural)]
pub enum ReadingMode {
    Pages,
    Percentage,
}

impl ReadingMode {
    /// The lower-case name of the mode.
    pub open spec fn label(self) -> Seq<char> {
        match self {
            ReadingMode::Pages => "pages"@,
            ReadingMode::Percentage => "percentage"@,
        }
    }

    /// Writes the mode as its lower-case name.
    pub fn to_string(&self) -> (r: String)
        ensures
            r@ == self.label(),
    {
        match self {
            ReadingMode::Pages => "pages".to_owned(),
            ReadingMode::Percentage => "percentage".to_owned(),
        }
    }
}

/// A book of the catalogue. The tracker reads its identifier and its
/// external catalogue identifier, and carries the rest.
#[derive(Clone, Debug, PartialEq, Eq)]
pub struct Book {
    pub id: Id,
    pub user: Id,
    pub shelf: Id,
    pub title: Option<String>,
    pub author: Option<String>,
    pub isbn13: Option<String>,
    pub isbn10: Option<String>,
    pub google_books_id: Option<String>,
    pub added_at: Timestamp,
}

/// One attempt of one user at reading one book, with a running progress
/// cursor.
#[derive(Clone, Copy, Debug, PartialEq, Eq)]
pub struct Reading {
    pub id: Id,
    pub book: Id,
    pub user: Id,
    pub total_pages: i32,
    pub progress: i32,
    pub mode: ReadingMode,
    pub started_at: CalendarDate,
    pub finished_at: Option<CalendarDate>,
    pub cancelled_at: Option<CalendarDate>,
    pub created_at: Timestamp,
    pub updated_at: Timestamp,
}

impl Reading {
    /// A session is finished or cancelled, never both.
    pub open spec fn wf(self) -> bool {
        !(self.finished_at is Some && self.cancelled_at is Some)
    }

    /// The session as it is when it starts: nothing read yet, measured in
    /// pages, neither finished nor cancelled.
    pub open spec fn started(
        id: Id,
        book: Id,
        user: Id,
        total_pages: i32,
        today: CalendarDate,
        now: Timestamp,
    ) -> Reading {
        Reading {
            id,
            book,
            user,
            total_pages,
            progress: 0,
            mode: ReadingMode::Pages,
            started_at: today,
            finished_at: None,
            cancelled_at: None,
            created_at: now,
            updated_at: now,
        }
    }

    /// This session with its progress cursor moved to `progress`.
    pub open spec fn at(self, progress: i32) -> Reading {
        Reading { progress, ..self }
    }
}

/// One observation of progress in a session: a record of the ledger, which
/// is never changed once it is written.
#[derive(Clone, Copy, Debug, PartialEq, Eq)]
pub struct ReadingEntry {
    pub id: Id,
    pub reading: Id,
    pub book: Id,
    pub user: Id,
    pub progress: i32,
    pub mode: ReadingMode,
    pub read_at: CalendarDate,
    pub created_at: Timestamp,
    pub updated_at: Timestamp,
}

impl ReadingEntry {
    /// The entry that records `progress` in a session on the day `read_at`:
    /// measured in pages, written at `now`.
    pub open spec fn observed(
        id: Id,
        reading: Id,
        book: Id,
        user: Id,
        progress: i32,
        read_at: CalendarDate,
        now: Timestamp,
    ) -> ReadingEntry {
        ReadingEntry {
            id,
            reading,
            book,
            user,
            progress,
            mode: ReadingMode::Pages,
            read_at,
            created_at: now,
            updated_at: now,
        }
    }
}

} // verus!
