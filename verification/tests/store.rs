use reading_tracker::calendar::{CalendarDate, Timestamp};
use reading_tracker::ident::Id;
use reading_tracker::models::{Book, Reading, ReadingEntry, ReadingMode};
use reading_tracker::store::{
    statements_to_record, statements_to_start, Statement, Step, StorageError, Store,
};

fn id(value: u128) -> Id {
    Id { value }
}

fn date(year: i32, month: u32, day: u32) -> CalendarDate {
    CalendarDate::new(year, month, day).unwrap()
}

fn book(value: u128, google_books_id: Option<&str>) -> Book {
    Book {
        id: id(value),
        user: id(900),
        shelf: id(901),
        title: Some("Middlemarch".to_string()),
        author: Some("George Eliot".to_string()),
        isbn13: None,
        isbn10: None,
        google_books_id: google_books_id.map(|s| s.to_string()),
        added_at: Timestamp { micros: 7 },
    }
}

fn session(value: u128, book: u128, user: u128) -> Reading {
    Reading {
        id: id(value),
        book: id(book),
        user: id(user),
        total_pages: 300,
        progress: 0,
        mode: ReadingMode::Pages,
        started_at: date(2024, 1, 1),
        finished_at: None,
        cancelled_at: None,
        created_at: Timestamp { micros: 1 },
        updated_at: Timestamp { micros: 1 },
    }
}

fn entry(value: u128, reading: u128, progress: i32, read_at: CalendarDate) -> ReadingEntry {
    ReadingEntry {
        id: id(value),
        reading: id(reading),
        book: id(10),
        user: id(20),
        progress,
        mode: ReadingMode::Pages,
        read_at,
        created_at: Timestamp { micros: 2 },
        updated_at: Timestamp { micros: 2 },
    }
}

fn store_with_session() -> Store {
    let mut store = Store::new();
    assert_eq!(store.insert_book(book(10, Some("gb-10"))), Ok(()));
    assert_eq!(store.insert_reading(session(1, 10, 20)), Ok(()));
    store
}

#[test]
fn a_new_store_holds_nothing() {
    let store = Store::new();
    assert_eq!(store.find_book(id(10)), None);
    assert_eq!(store.find_reading(id(1)), None);
    assert!(store.entries_of(id(1)).is_empty());
    assert!(store.readings_of(id(10)).is_empty());
}

#[test]
fn an_inserted_book_is_found() {
    let mut store = Store::new();
    assert_eq!(store.insert_book(book(10, Some("gb-10"))), Ok(()));
    assert_eq!(store.insert_book(book(11, None)), Ok(()));
    assert_eq!(store.find_book(id(10)), Some(&book(10, Some("gb-10"))));
    assert_eq!(store.find_book(id(11)), Some(&book(11, None)));
    assert_eq!(store.find_book(id(12)), None);
}

#[test]
fn a_second_book_with_the_same_identifier_is_refused() {
    let mut store = Store::new();
    assert_eq!(store.insert_book(book(10, Some("first"))), Ok(()));
    assert_eq!(store.insert_book(book(10, Some("second"))), Err(StorageError::DuplicateKey));
    assert_eq!(store.find_book(id(10)), Some(&book(10, Some("first"))));
}

#[test]
fn an_inserted_session_is_found_with_an_empty_ledger() {
    let store = store_with_session();
    assert_eq!(store.find_reading(id(1)), Some(session(1, 10, 20)));
    assert!(store.entries_of(id(1)).is_empty());
    assert_eq!(store.readings_of(id(10)), vec![session(1, 10, 20)]);
}

#[test]
fn a_second_session_with_the_same_identifier_is_refused() {
    let mut store = store_with_session();
    let mut other = session(1, 11, 21);
    other.total_pages = 5;
    assert_eq!(store.insert_reading(other), Err(StorageError::DuplicateKey));
    assert_eq!(store.find_reading(id(1)), Some(session(1, 10, 20)));
    assert!(store.readings_of(id(11)).is_empty());
}

#[test]
fn a_session_both_finished_and_cancelled_is_refused() {
    let mut store = Store::new();
    let mut both = session(1, 10, 20);
    both.finished_at = Some(date(2024, 2, 1));
    both.cancelled_at = Some(date(2024, 2, 2));
    assert_eq!(store.insert_reading(both), Err(StorageError::CheckViolation));
    assert_eq!(store.find_reading(id(1)), None);

    let mut finished = session(1, 10, 20);
    finished.finished_at = Some(date(2024, 2, 1));
    assert_eq!(store.insert_reading(finished), Ok(()));
    let mut cancelled = session(2, 10, 20);
    cancelled.cancelled_at = Some(date(2024, 2, 2));
    assert_eq!(store.insert_reading(cancelled), Ok(()));
    assert_eq!(store.readings_of(id(10)), vec![finished, cancelled]);
}

#[test]
fn a_broken_rule_is_reported_before_a_taken_identifier() {
    let mut store = store_with_session();
    let mut both = session(1, 10, 20);
    both.finished_at = Some(date(2024, 2, 1));
    both.cancelled_at = Some(date(2024, 2, 2));
    assert_eq!(store.insert_reading(both), Err(StorageError::CheckViolation));
    assert_eq!(store.find_reading(id(1)), Some(session(1, 10, 20)));
}

#[test]
fn a_failing_insert_of_a_session_inserts_nothing() {
    let mut store = Store::new();
    store.set_fault(Some(Step::InsertReading));
    assert_eq!(store.insert_reading(session(1, 10, 20)), Err(StorageError::Unavailable));
    assert_eq!(store.find_reading(id(1)), None);
    store.set_fault(None);
    assert_eq!(store.insert_reading(session(1, 10, 20)), Ok(()));
    assert_eq!(store.find_reading(id(1)), Some(session(1, 10, 20)));
}

#[test]
fn recording_appends_the_entry_and_moves_the_cursor() {
    let mut store = store_with_session();
    let first = entry(100, 1, 42, date(2024, 1, 5));
    assert_eq!(store.record_progress(first), Ok(()));
    assert_eq!(store.entries_of(id(1)), vec![first]);
    assert_eq!(store.find_reading(id(1)).unwrap().progress, 42);

    let mut expected = session(1, 10, 20);
    expected.progress = 42;
    assert_eq!(store.find_reading(id(1)), Some(expected));
}

#[test]
fn recording_overwrites_the_cursor_without_bounds() {
    let mut store = store_with_session();
    assert_eq!(store.record_progress(entry(100, 1, 250, date(2024, 1, 5))), Ok(()));
    assert_eq!(store.record_progress(entry(101, 1, 17, date(2024, 1, 6))), Ok(()));
    assert_eq!(store.find_reading(id(1)).unwrap().progress, 17);
    assert_eq!(store.record_progress(entry(102, 1, 5000, date(2024, 1, 7))), Ok(()));
    assert_eq!(store.find_reading(id(1)).unwrap().progress, 5000);
    assert_eq!(store.record_progress(entry(103, 1, -3, date(2024, 1, 8))), Ok(()));
    assert_eq!(store.find_reading(id(1)).unwrap().progress, -3);
    assert_eq!(store.find_reading(id(1)).unwrap().total_pages, 300);
    assert_eq!(store.entries_of(id(1)).len(), 4);
}

#[test]
fn the_last_write_wins_whatever_the_dates() {
    let mut store = store_with_session();
    let later_day = entry(100, 1, 100, date(2024, 3, 1));
    let earlier_day = entry(101, 1, 30, date(2024, 1, 1));
    assert_eq!(store.record_progress(later_day), Ok(()));
    assert_eq!(store.record_progress(earlier_day), Ok(()));
    assert_eq!(store.find_reading(id(1)).unwrap().progress, 30);
    assert_eq!(store.entries_of(id(1)), vec![later_day, earlier_day]);
}

#[test]
fn recording_touches_no_other_session() {
    let mut store = store_with_session();
    assert_eq!(store.insert_reading(session(2, 10, 21)), Ok(()));
    assert_eq!(store.insert_reading(session(3, 11, 20)), Ok(()));
    assert_eq!(store.record_progress(entry(100, 2, 42, date(2024, 1, 5))), Ok(()));
    assert_eq!(store.find_reading(id(1)), Some(session(1, 10, 20)));
    assert_eq!(store.find_reading(id(3)), Some(session(3, 11, 20)));
    assert_eq!(store.find_reading(id(2)).unwrap().progress, 42);
    assert!(store.entries_of(id(1)).is_empty());
    assert!(store.entries_of(id(3)).is_empty());
    assert_eq!(store.entries_of(id(2)).len(), 1);
}

#[test]
fn each_session_has_its_own_ledger_in_the_order_of_appending() {
    let mut store = store_with_session();
    assert_eq!(store.insert_reading(session(2, 10, 21)), Ok(()));
    let a = entry(100, 1, 10, date(2024, 1, 5));
    let b = entry(101, 2, 20, date(2024, 1, 5));
    let c = entry(102, 1, 30, date(2024, 1, 4));
    let d = entry(103, 2, 40, date(2024, 1, 3));
    for e in [a, b, c, d] {
        assert_eq!(store.record_progress(e), Ok(()));
    }
    assert_eq!(store.entries_of(id(1)), vec![a, c]);
    assert_eq!(store.entries_of(id(2)), vec![b, d]);
    assert_eq!(store.find_reading(id(1)).unwrap().progress, 30);
    assert_eq!(store.find_reading(id(2)).unwrap().progress, 40);
}

#[test]
fn an_entry_for_a_session_that_does_not_exist_is_refused() {
    let mut store = store_with_session();
    assert_eq!(
        store.record_progress(entry(100, 99, 42, date(2024, 1, 5))),
        Err(StorageError::MissingReading)
    );
    assert!(store.entries_of(id(99)).is_empty());
    assert_eq!(store.find_reading(id(1)), Some(session(1, 10, 20)));
}

#[test]
fn a_second_entry_with_the_same_identifier_is_refused() {
    let mut store = store_with_session();
    let first = entry(100, 1, 42, date(2024, 1, 5));
    assert_eq!(store.record_progress(first), Ok(()));
    assert_eq!(
        store.record_progress(entry(100, 1, 77, date(2024, 1, 6))),
        Err(StorageError::DuplicateKey)
    );
    assert_eq!(store.entries_of(id(1)), vec![first]);
    assert_eq!(store.find_reading(id(1)).unwrap().progress, 42);
}

#[test]
fn a_failing_update_takes_the_entry_off_the_ledger_again() {
    let mut store = store_with_session();
    let first = entry(100, 1, 42, date(2024, 1, 5));
    assert_eq!(store.record_progress(first), Ok(()));

    store.set_fault(Some(Step::UpdateProgress));
    assert_eq!(
        store.record_progress(entry(101, 1, 100, date(2024, 1, 6))),
        Err(StorageError::Unavailable)
    );
    assert_eq!(store.entries_of(id(1)), vec![first]);
    assert_eq!(store.find_reading(id(1)).unwrap().progress, 42);

    store.set_fault(None);
    let second = entry(101, 1, 100, date(2024, 1, 6));
    assert_eq!(store.record_progress(second), Ok(()));
    assert_eq!(store.entries_of(id(1)), vec![first, second]);
    assert_eq!(store.find_reading(id(1)).unwrap().progress, 100);
}

#[test]
fn a_failing_update_on_an_empty_ledger_leaves_it_empty() {
    let mut store = store_with_session();
    store.set_fault(Some(Step::UpdateProgress));
    assert_eq!(
        store.record_progress(entry(100, 1, 42, date(2024, 1, 5))),
        Err(StorageError::Unavailable)
    );
    assert!(store.entries_of(id(1)).is_empty());
    assert_eq!(store.find_reading(id(1)), Some(session(1, 10, 20)));
}

#[test]
fn a_failing_insert_of_an_entry_changes_nothing() {
    let mut store = store_with_session();
    store.set_fault(Some(Step::InsertEntry));
    assert_eq!(
        store.record_progress(entry(100, 1, 42, date(2024, 1, 5))),
        Err(StorageError::Unavailable)
    );
    assert!(store.entries_of(id(1)).is_empty());
    assert_eq!(store.find_reading(id(1)), Some(session(1, 10, 20)));
}

#[test]
fn a_fault_at_one_statement_does_not_touch_the_others() {
    let mut store = Store::new();
    store.set_fault(Some(Step::InsertEntry));
    assert_eq!(store.insert_reading(session(1, 10, 20)), Ok(()));
    store.set_fault(Some(Step::InsertReading));
    assert_eq!(store.record_progress(entry(100, 1, 42, date(2024, 1, 5))), Ok(()));
    assert_eq!(store.insert_book(book(10, None)), Ok(()));
    assert_eq!(store.find_reading(id(1)).unwrap().progress, 42);
}

#[test]
fn the_unavailable_engine_is_reported_before_any_constraint() {
    let mut store = store_with_session();
    store.set_fault(Some(Step::InsertEntry));
    assert_eq!(
        store.record_progress(entry(100, 99, 42, date(2024, 1, 5))),
        Err(StorageError::Unavailable)
    );
    store.set_fault(Some(Step::UpdateProgress));
    assert_eq!(
        store.record_progress(entry(100, 99, 42, date(2024, 1, 5))),
        Err(StorageError::MissingReading)
    );
    store.set_fault(Some(Step::InsertReading));
    assert_eq!(store.insert_reading(session(1, 10, 20)), Err(StorageError::Unavailable));
}

#[test]
fn a_duplicate_entry_is_reported_before_a_missing_session() {
    let mut store = store_with_session();
    assert_eq!(store.record_progress(entry(100, 1, 42, date(2024, 1, 5))), Ok(()));
    assert_eq!(
        store.record_progress(entry(100, 99, 42, date(2024, 1, 5))),
        Err(StorageError::DuplicateKey)
    );
}

#[test]
fn entries_stay_as_they_were_written() {
    let mut store = store_with_session();
    let first = entry(100, 1, 42, date(2024, 1, 5));
    assert_eq!(store.record_progress(first), Ok(()));
    let before = store.entries_of(id(1));

    assert_eq!(store.insert_book(book(11, None)), Ok(()));
    assert_eq!(store.insert_reading(session(2, 11, 20)), Ok(()));
    assert_eq!(store.record_progress(entry(101, 2, 9, date(2024, 1, 6))), Ok(()));
    assert_eq!(store.record_progress(entry(102, 1, 99, date(2024, 1, 7))), Ok(()));
    store.set_fault(Some(Step::UpdateProgress));
    assert!(store.record_progress(entry(103, 1, 120, date(2024, 1, 8))).is_err());
    store.set_fault(None);
    assert!(store.record_progress(entry(100, 1, 1, date(2024, 1, 9))).is_err());

    let after = store.entries_of(id(1));
    assert_eq!(after.len(), 2);
    assert_eq!(after[..before.len()], before[..]);
    assert_eq!(after[0], first);
}

#[test]
fn sessions_of_a_book_are_those_of_every_user() {
    let mut store = store_with_session();
    assert_eq!(store.insert_reading(session(2, 11, 20)), Ok(()));
    assert_eq!(store.insert_reading(session(3, 10, 21)), Ok(()));
    assert_eq!(store.readings_of(id(10)), vec![session(1, 10, 20), session(3, 10, 21)]);
    assert_eq!(store.readings_of(id(11)), vec![session(2, 11, 20)]);
    assert!(store.readings_of(id(12)).is_empty());
}

#[test]
fn a_session_may_read_a_book_that_the_catalogue_does_not_hold() {
    let mut store = Store::new();
    assert_eq!(store.insert_reading(session(1, 77, 20)), Ok(()));
    assert_eq!(store.find_book(id(77)), None);
    assert_eq!(store.readings_of(id(77)), vec![session(1, 77, 20)]);
}

#[test]
fn errors_are_described() {
    assert_eq!(
        StorageError::DuplicateKey.to_string(),
        "duplicate key value violates unique constraint"
    );
    assert_eq!(StorageError::MissingReading.to_string(), "insert violates foreign key constraint");
    assert_eq!(StorageError::CheckViolation.to_string(), "new row violates check constraint");
    assert_eq!(StorageError::Unavailable.to_string(), "storage engine unavailable");
}

#[test]
fn modes_are_written_by_their_names() {
    assert_eq!(ReadingMode::Pages.to_string(), "pages");
    assert_eq!(ReadingMode::Percentage.to_string(), "percentage");
}

#[test]
fn recording_is_two_statements_in_order() {
    let observed = entry(100, 1, 42, date(2024, 1, 5));
    assert_eq!(
        statements_to_record(observed),
        vec![
            Statement::InsertEntry(observed),
            Statement::UpdateProgress { reading: id(1), progress: 42 },
        ]
    );
}

#[test]
fn starting_is_one_statement() {
    let started = session(1, 10, 20);
    assert_eq!(statements_to_start(started), vec![Statement::InsertReading(started)]);
}

#[test]
fn a_failing_update_leaves_every_session_and_ledger_as_it_was() {
    let mut store = store_with_session();
    assert_eq!(store.insert_reading(session(2, 10, 21)), Ok(()));
    assert_eq!(store.insert_reading(session(3, 11, 22)), Ok(()));
    assert_eq!(store.record_progress(entry(100, 1, 10, date(2024, 1, 5))), Ok(()));
    assert_eq!(store.record_progress(entry(101, 2, 20, date(2024, 1, 5))), Ok(()));
    let sessions: Vec<Reading> = (1..4).map(|n| store.find_reading(id(n)).unwrap()).collect();
    let ledgers: Vec<Vec<ReadingEntry>> = (1..4).map(|n| store.entries_of(id(n))).collect();

    store.set_fault(Some(Step::UpdateProgress));
    for n in 1..4 {
        assert_eq!(
            store.record_progress(entry(200 + n, n, 99, date(2024, 1, 6))),
            Err(StorageError::Unavailable)
        );
    }
    store.set_fault(None);

    let after: Vec<Reading> = (1..4).map(|n| store.find_reading(id(n)).unwrap()).collect();
    assert_eq!(after, sessions);
    let after: Vec<Vec<ReadingEntry>> = (1..4).map(|n| store.entries_of(id(n))).collect();
    assert_eq!(after, ledgers);
    assert_eq!(store.record_progress(entry(201, 1, 99, date(2024, 1, 6))), Ok(()));
}
