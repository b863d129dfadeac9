//! What holds of the store and of the answers, whatever is asked of them and
//! in whatever order.

use vstd::prelude::*;
use crate::books::{book_info_reply, reading_summary};
use crate::ident::Id;
use crate::models::{Reading, ReadingEntry};
use crate::readings::{entry_info, reading_info_reply};
use crate::calendar::{CalendarDate, Timestamp};
use crate::readings::{start_reply, start_state, track_reply, track_state};
use crate::store::{
    in_reading, latest_progress, lemma_inserted_wf, lemma_recorded_wf, of_book, Operation,
    StoreState,
};
use crate::types::{ResponseView, BAD_REQUEST, CREATED, NOT_FOUND, OK};

verus! {

/// The empty store is well formed.
pub proof fn lemma_empty_wf()
    ensures
        StoreState::empty().wf(),
{
}

/// Every operation keeps the store well formed, whether the store accepts
/// it or not.
pub proof fn lemma_after_wf(state: StoreState, op: Operation)
    requires
        state.wf(),
    ensures
        state.after(op).wf(),
{
    let after = state.after(op);
    match op {
        Operation::InsertBook(book) => {
            if state.book_error(book) is None {
                assert(after.readings == state.readings);
                assert(after.entries == state.entries);
                assert forall|i: int| 0 <= i < after.entries.len() implies after.has_reading(
                    (#[trigger] after.entries[i]).reading,
                ) by {
                    assert(state.has_reading(state.entries[i].reading));
                }
                assert forall|i: int| 0 <= i < after.readings.len() implies after.cursor_agrees(
                    #[trigger] after.readings[i],
                ) by {
                    assert(state.cursor_agrees(state.readings[i]));
                }
            }
        },
        Operation::InsertReading(reading) => {
            if state.reading_error(reading) is None {
                lemma_inserted_wf(state, reading);
            }
        },
        Operation::Record(entry) => {
            if state.record_error(entry) is None {
                lemma_recorded_wf(state, entry);
            }
        },
        Operation::SetFault(fault) => {
            assert forall|i: int| 0 <= i < after.entries.len() implies after.has_reading(
                (#[trigger] after.entries[i]).reading,
            ) by {
                assert(state.has_reading(state.entries[i].reading));
            }
            assert forall|i: int| 0 <= i < after.readings.len() implies after.cursor_agrees(
                #[trigger] after.readings[i],
            ) by {
                assert(state.cursor_agrees(state.readings[i]));
            }
        },
    }
}

/// Every sequence of operations keeps the store well formed.
pub proof fn lemma_after_all_wf(state: StoreState, ops: Seq<Operation>)
    requires
        state.wf(),
    ensures
        state.after_all(ops).wf(),
    decreases ops.len(),
{
    if ops.len() > 0 {
        lemma_after_all_wf(state, ops.drop_last());
        lemma_after_wf(state.after_all(ops.drop_last()), ops.last());
    }
}

/// A request to start a session does to the store what one operation does,
/// or nothing.
pub proof fn lemma_start_is_an_operation(
    state: StoreState,
    book: Option<Id>,
    user: Option<Id>,
    total_pages: i32,
    id: Id,
    today: CalendarDate,
    now: Timestamp,
)
    ensures
        exists|ops: Seq<Operation>|
            ops.len() <= 1 && start_state(state, book, user, total_pages, id, today, now)
                == #[trigger] state.after_all(ops),
{
    let reading = Reading::started(id, book->0, user->0, total_pages, today, now);
    let ops = if book is Some && user is Some {
        seq![Operation::InsertReading(reading)]
    } else {
        Seq::empty()
    };
    if ops.len() > 0 {
        assert(state.after_all(ops.drop_last()) == state);
        assert(ops.last() == Operation::InsertReading(reading));
    }
    assert(start_state(state, book, user, total_pages, id, today, now) == state.after_all(ops));
}

/// A request to record progress does to the store what one operation does,
/// or nothing.
pub proof fn lemma_track_is_an_operation(
    state: StoreState,
    reading: Option<Id>,
    book: Option<Id>,
    user: Option<Id>,
    progress: i32,
    read_at: Option<CalendarDate>,
    id: Id,
    now: Timestamp,
)
    ensures
        exists|ops: Seq<Operation>|
            ops.len() <= 1 && track_state(state, reading, book, user, progress, read_at, id, now)
                == #[trigger] state.after_all(ops),
{
    let entry = ReadingEntry::observed(id, reading->0, book->0, user->0, progress, read_at->0, now);
    let ops = if reading is Some && book is Some && user is Some && read_at is Some {
        seq![Operation::Record(entry)]
    } else {
        Seq::empty()
    };
    if ops.len() > 0 {
        assert(state.after_all(ops.drop_last()) == state);
        assert(ops.last() == Operation::Record(entry));
    }
    assert(track_state(state, reading, book, user, progress, read_at, id, now) == state.after_all(
        ops,
    ));
}

/// Recording is all or nothing: where the statement that overwrites the
/// progress cursor fails after the entry was appended to the ledger, the
/// entry is taken off again. The store is as it was before, and the ledger
/// does not hold the entry.
pub proof fn lemma_failed_update_rolls_back(state: StoreState, entry: ReadingEntry)
    requires
        state.entry_error(entry) is None,
        state.with_entry(entry).progress_error() is Some,
    ensures
        state.record_error(entry) is Some,
        state.after(Operation::Record(entry)) == state,
        !state.after(Operation::Record(entry)).has_entry(entry.id),
{
}

/// Recording is all or nothing: whichever statement fails, the store is as
/// it was before.
pub proof fn lemma_failed_record_changes_nothing(state: StoreState, entry: ReadingEntry)
    requires
        state.record_error(entry) is Some,
    ensures
        state.after(Operation::Record(entry)) == state,
{
}

/// No operation removes a session or an entry, or changes an entry: after
/// it the ledger is the ledger as it was, with at most one entry more at its
/// end, and every session is where it was and as it was but for its
/// progress. Only recording moves a progress cursor.
pub proof fn lemma_after_keeps_rows(state: StoreState, op: Operation)
    ensures
        state.entries.is_prefix_of(state.after(op).entries),
        state.readings.len() <= state.after(op).readings.len(),
        forall|i: int|
            0 <= i < state.readings.len() ==> #[trigger] state.after(op).readings[i]
                == state.readings[i].at(state.after(op).readings[i].progress),
        !(op is Record) ==> state.readings.is_prefix_of(state.after(op).readings),
{
}

/// The ledger is immutable: whatever is done to the store, every entry that
/// the ledger holds stays where it is and as it is. No session disappears,
/// and nothing of a session changes but its progress: its book, its user,
/// its total of pages, its mode and its dates are fixed when it starts.
pub proof fn lemma_ledger_only_grows(state: StoreState, ops: Seq<Operation>)
    ensures
        state.entries.is_prefix_of(state.after_all(ops).entries),
        forall|i: int|
            0 <= i < state.entries.len() ==> #[trigger] state.after_all(ops).entries[i]
                == state.entries[i],
        state.readings.len() <= state.after_all(ops).readings.len(),
        forall|i: int|
            0 <= i < state.readings.len() ==> #[trigger] state.after_all(ops).readings[i]
                == state.readings[i].at(state.after_all(ops).readings[i].progress),
        forall|id: Id| state.has_reading(id) ==> #[trigger] state.after_all(ops).has_reading(id),
    decreases ops.len(),
{
    let after = state.after_all(ops);
    if ops.len() > 0 {
        let before = state.after_all(ops.drop_last());
        lemma_ledger_only_grows(state, ops.drop_last());
        lemma_after_keeps_rows(before, ops.last());
    }
    assert forall|id: Id| state.has_reading(id) implies #[trigger] after.has_reading(id) by {
        let k = choose|k: int|
            0 <= k < state.readings.len() && (#[trigger] state.readings[k]).id == id;
        assert(after.readings[k].id == id);
    }
}

/// Filtering keeps a prefix a prefix.
proof fn lemma_filter_prefix<A>(a: Seq<A>, b: Seq<A>, pred: spec_fn(A) -> bool)
    requires
        a.is_prefix_of(b),
    ensures
        a.filter(pred).is_prefix_of(b.filter(pred)),
{
    let rest = b.subrange(a.len() as int, b.len() as int);
    assert(b =~= a + rest);
    Seq::filter_distributes_over_add(a, rest, pred);
}

/// The ledger of each session is immutable: whatever is done to the store,
/// the entries that a session has stay, in their order and as they are, and
/// new ones come after them.
pub proof fn lemma_session_ledger_only_grows(
    state: StoreState,
    ops: Seq<Operation>,
    reading: Id,
)
    ensures
        state.entries_of(reading).is_prefix_of(state.after_all(ops).entries_of(reading)),
{
    lemma_ledger_only_grows(state, ops);
    lemma_filter_prefix(state.entries, state.after_all(ops).entries, in_reading(reading));
}

/// An entry is never answered differently on a later question: whatever
/// is done to the store in between, a question about a session that exists
/// is answered with the entries that it was answered with before, in their
/// order and as they were, and the new ones after them.
pub proof fn lemma_answers_keep_entries(state: StoreState, ops: Seq<Operation>, reading: Id)
    requires
        state.has_reading(reading),
    ensures
        reading_info_reply(state, Some(reading)).status == OK,
        reading_info_reply(state.after_all(ops), Some(reading)).status == OK,
        reading_info_reply(state, Some(reading)).entries().is_prefix_of(
            reading_info_reply(state.after_all(ops), Some(reading)).entries(),
        ),
{
    lemma_ledger_only_grows(state, ops);
    lemma_session_ledger_only_grows(state, ops, reading);
    let after = state.after_all(ops);
    assert(after.has_reading(reading));
    let earlier = state.entries_of(reading);
    let later = after.entries_of(reading);
    let f = |e: ReadingEntry| entry_info(e);
    assert(earlier.map_values(f) =~= later.map_values(f).subrange(0, earlier.len() as int));
}

/// Where the ledger holds entries of a session, the progress that it names
/// for the session is that of the last of them.
pub proof fn lemma_latest_is_last(entries: Seq<ReadingEntry>, reading: Id)
    ensures
        latest_progress(entries, reading) == if entries.filter(in_reading(reading)).len() == 0 {
            None
        } else {
            Some(entries.filter(in_reading(reading)).last().progress)
        },
    decreases entries.len(),
{
    reveal(Seq::filter);
    if entries.len() > 0 {
        lemma_latest_is_last(entries.drop_last(), reading);
    }
}

/// The ledger and the progress cursors never diverge: in a well formed
/// store, the cursor of every session that has entries is the progress of
/// the entry that was appended last for it.
pub proof fn lemma_cursor_is_last_entry(state: StoreState, reading: Id)
    requires
        state.wf(),
        state.has_reading(reading),
        state.entries_of(reading).len() > 0,
    ensures
        state.reading(reading).progress == state.entries_of(reading).last().progress,
{
    lemma_latest_is_last(state.entries, reading);
    let k = choose|k: int|
        0 <= k < state.readings.len() && (#[trigger] state.readings[k]).id == reading;
    assert(state.cursor_agrees(state.readings[k]));
}

/// After an observation is recorded, the session holds the progress that
/// was observed, the ledger of the session ends with the entry, the rest of
/// the ledger is as it was, and nothing else of the session has changed.
pub proof fn lemma_recorded_progress_is_kept(state: StoreState, entry: ReadingEntry)
    requires
        state.wf(),
        state.record_error(entry) is None,
    ensures
        state.has_reading(entry.reading),
        state.recorded(entry).has_reading(entry.reading),
        state.recorded(entry).reading(entry.reading) == state.reading(entry.reading).at(
            entry.progress,
        ),
        state.recorded(entry).reading(entry.reading).progress == entry.progress,
        state.recorded(entry).entries_of(entry.reading) == state.entries_of(entry.reading).push(
            entry,
        ),
{
    let after = state.recorded(entry);
    lemma_recorded_wf(state, entry);
    let k = choose|k: int|
        0 <= k < state.readings.len() && (#[trigger] state.readings[k]).id == entry.reading;
    assert(after.readings[k].id == entry.reading);
    let c = choose|c: int|
        0 <= c < after.readings.len() && (#[trigger] after.readings[c]).id == entry.reading;
    assert(after.readings[c].id == entry.reading);
    assert(c == k) by {
        if c < k {
            assert(after.readings[c].id != after.readings[k].id);
        } else if k < c {
            assert(after.readings[k].id != after.readings[c].id);
        }
    }
    state.entries.lemma_filter_push(entry, in_reading(entry.reading));
}

/// After an observation is recorded, the next questions observe it: the
/// answer about the session ends with the entry, and the answer about the
/// book of the session, where the catalogue holds that book, lists the
/// session with the progress that was observed.
pub proof fn lemma_recorded_progress_is_observed(state: StoreState, entry: ReadingEntry)
    requires
        state.wf(),
        state.record_error(entry) is None,
    ensures
        ({
            let after = state.after(Operation::Record(entry));
            let session = after.reading(entry.reading);
            let about_session = reading_info_reply(after, Some(entry.reading));
            let about_book = book_info_reply(after, Some(session.book));
            &&& session.id == entry.reading
            &&& session.progress == entry.progress
            &&& about_session.status == OK
            &&& about_session.entries().len() > 0
            &&& about_session.entries().last() == entry_info(entry)
            &&& about_session.entries().last().progress == entry.progress
            &&& after.has_book(session.book) ==> {
                &&& about_book.status == OK
                &&& about_book.readings().contains(reading_summary(session))
                &&& reading_summary(session).progress == entry.progress
            }
        }),
{
    let after = state.recorded(entry);
    lemma_recorded_progress_is_kept(state, entry);
    let session = after.reading(entry.reading);
    let c = choose|c: int|
        0 <= c < after.readings.len() && (#[trigger] after.readings[c]).id == entry.reading;
    assert(after.readings[c].id == entry.reading);
    let ledger = after.entries_of(entry.reading);
    let f = |e: ReadingEntry| entry_info(e);
    assert(ledger.map_values(f).last() == entry_info(entry));
    if after.has_book(session.book) {
        let sessions = after.readings_of(session.book);
        after.readings.lemma_filter_contains(of_book(session.book), c);
        let j = choose|j: int| 0 <= j < sessions.len() && sessions[j] == session;
        let g = |r: Reading| reading_summary(r);
        assert(sessions.map_values(g)[j] == reading_summary(session));
    }
}

/// A request to record progress that is not answered with Created has
/// changed nothing: neither where an identifier or the date could not be
/// read, nor where the store failed at either statement. Where the date
/// could not be read the request is refused as a bad one.
pub proof fn lemma_refused_tracking_changes_nothing(
    state: StoreState,
    reading: Option<Id>,
    book: Option<Id>,
    user: Option<Id>,
    progress: i32,
    read_at: Option<CalendarDate>,
    id: Id,
    now: Timestamp,
)
    ensures
        track_reply(state, reading, book, user, progress, read_at, id, now).status != CREATED
            ==> track_state(state, reading, book, user, progress, read_at, id, now) == state,
        read_at is None ==> track_reply(
            state,
            reading,
            book,
            user,
            progress,
            read_at,
            id,
            now,
        ).status == BAD_REQUEST,
{
}

/// A request to start a session that is not answered with Created has
/// changed nothing.
pub proof fn lemma_refused_start_changes_nothing(
    state: StoreState,
    book: Option<Id>,
    user: Option<Id>,
    total_pages: i32,
    id: Id,
    today: CalendarDate,
    now: Timestamp,
)
    ensures
        start_reply(state, book, user, total_pages, id, today, now).status != CREATED
            ==> start_state(state, book, user, total_pages, id, today, now) == state,
{
}

/// After a request to record progress is answered with Created, the next
/// questions observe the progress: the session holds it, the answer about
/// the session ends with an entry that shows it, and the answer about the
/// book of the session, where the catalogue holds that book, lists the
/// session with it.
pub proof fn lemma_tracked_progress_is_observed(
    state: StoreState,
    reading: Option<Id>,
    book: Option<Id>,
    user: Option<Id>,
    progress: i32,
    read_at: Option<CalendarDate>,
    id: Id,
    now: Timestamp,
)
    requires
        state.wf(),
        track_reply(state, reading, book, user, progress, read_at, id, now).status == CREATED,
    ensures
        ({
            let after = track_state(state, reading, book, user, progress, read_at, id, now);
            let session = after.reading(reading->0);
            let about_session = reading_info_reply(after, reading);
            let about_book = book_info_reply(after, Some(session.book));
            &&& reading is Some
            &&& after.wf()
            &&& session.progress == progress
            &&& about_session.status == OK
            &&& about_session.entries().len() == reading_info_reply(state, reading).entries().len()
                + 1
            &&& about_session.entries().last().progress == progress
            &&& about_session.entries().last().read_at == read_at->0.text()
            &&& after.has_book(session.book) ==> {
                &&& about_book.status == OK
                &&& about_book.readings().contains(reading_summary(session))
                &&& reading_summary(session).progress == progress
            }
        }),
{
    let entry = ReadingEntry::observed(id, reading->0, book->0, user->0, progress, read_at->0, now);
    lemma_recorded_wf(state, entry);
    lemma_recorded_progress_is_kept(state, entry);
    lemma_recorded_progress_is_observed(state, entry);
}

/// The last write wins: of two observations recorded one after the other in
/// the same session, the session holds the progress of the second, be it
/// greater or smaller than that of the first, and whatever their dates.
pub proof fn lemma_last_write_wins(state: StoreState, first: ReadingEntry, second: ReadingEntry)
    requires
        state.wf(),
        first.reading == second.reading,
        state.record_error(first) is None,
        state.after(Operation::Record(first)).record_error(second) is None,
    ensures
        state.after(Operation::Record(first)).after(Operation::Record(second)).reading(
            second.reading,
        ).progress == second.progress,
        state.after(Operation::Record(first)).after(Operation::Record(second)).entries_of(
            second.reading,
        ) == state.entries_of(second.reading).push(first).push(second),
{
    lemma_recorded_wf(state, first);
    lemma_recorded_progress_is_kept(state, first);
    lemma_recorded_progress_is_kept(state.recorded(first), second);
}

/// A session that does not exist has no entries, and a question about it is
/// answered with Not Found and nothing else.
pub proof fn lemma_absent_reading_not_found(state: StoreState, reading: Id)
    requires
        state.wf(),
        !state.has_reading(reading),
    ensures
        state.entries_of(reading).len() == 0,
        reading_info_reply(state, Some(reading)) == ResponseView::error(
            NOT_FOUND as int,
            "Reading not found."@,
        ),
{
    assert forall|i: int| 0 <= i < state.entries.len() implies !in_reading(reading)(
        #[trigger] state.entries[i],
    ) by {
        assert(state.has_reading(state.entries[i].reading));
    }
    state.entries.lemma_all_neg_filter_empty(in_reading(reading));
}

/// A question about a book that the catalogue does not hold is answered
/// with Not Found and nothing else, whatever sessions refer to the book.
pub proof fn lemma_absent_book_not_found(state: StoreState, book: Id)
    requires
        !state.has_book(book),
    ensures
        book_info_reply(state, Some(book)) == ResponseView::error(
            NOT_FOUND as int,
            "Book not found."@,
        ),
{
}

/// A session that was inserted is found as it was inserted, with an empty
/// ledger, and the ledger is as it was.
pub proof fn lemma_started_session_is_empty(state: StoreState, reading: Reading)
    requires
        state.wf(),
        state.reading_error(reading) is None,
    ensures
        state.after(Operation::InsertReading(reading)).has_reading(reading.id),
        state.after(Operation::InsertReading(reading)).reading(reading.id) == reading,
        state.after(Operation::InsertReading(reading)).entries_of(reading.id).len() == 0,
        state.after(Operation::InsertReading(reading)).entries == state.entries,
{
    let after = state.with_reading(reading);
    lemma_after_wf(state, Operation::InsertReading(reading));
    let n = state.readings.len() as int;
    assert(after.readings[n].id == reading.id);
    let c = choose|c: int|
        0 <= c < after.readings.len() && (#[trigger] after.readings[c]).id == reading.id;
    assert(c == n) by {
        if c < n {
            assert(after.readings[c].id != after.readings[n].id);
        }
    }
    assert forall|i: int| 0 <= i < state.entries.len() implies !in_reading(reading.id)(
        #[trigger] state.entries[i],
    ) by {
        assert(state.has_reading(state.entries[i].reading));
    }
    state.entries.lemma_all_neg_filter_empty(in_reading(reading.id));
}

} // verus!
