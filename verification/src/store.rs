//! The store: the catalogue of books, the reading sessions and the progress
//! ledger, with the one transaction that appends to the ledger and moves a
//! session's progress cursor together.

use vstd::prelude::*;
use crate::ident::Id;
use crate::models::{Book, Reading, ReadingEntry};

verus! {

/// A kind of statement that writes to the store.
#[derive(Clone, Copy, Debug, PartialEq, Eq, Structural)]
pub enum Step {
    /// A new session is inserted.
    InsertReading,
    /// A new entry is appended to the ledger.
    InsertEntry,
    /// The progress cursor of a session is overwritten.
    UpdateProgress,
}

/// A statement that writes to the store, with what it writes.
#[derive(Clone, Copy, Debug, PartialEq, Eq)]
pub enum Statement {
    /// Insert this session.
    InsertReading(Reading),
    /// Append this entry to the ledger.
    InsertEntry(ReadingEntry),
    /// Overwrite the progress cursor of the session `reading` by `progress`.
    UpdateProgress { reading: Id, progress: i32 },
}

/// Why the store refused a statement.
#[derive(Clone, Copy, Debug, PartialEq, Eq, Structural)]
pub enum StorageError {
    /// A row with the same identifier exists already.
    DuplicateKey,
    /// The entry refers to a session that does not exist.
    MissingReading,
    /// The session is marked both finished and cancelled.
    CheckViolation,
    /// The storage engine did not carry the statement out.
    Unavailable,
}

impl StorageError {
    /// The text that describes the error.
    pub open spec fn text(self) -> Seq<char> {
        match self {
            StorageError::DuplicateKey => "duplicate key value violates unique constraint"@,
            StorageError::MissingReading => "insert violates foreign key constraint"@,
            StorageError::CheckViolation => "new row violates check constraint"@,
            StorageError::Unavailable => "storage engine unavailable"@,
        }
    }

    /// Writes the text that describes the error.
    pub fn to_string(&self) -> (r: String)
        ensures
            r@ == self.text(),
    {
        match self {
            StorageError::DuplicateKey => "duplicate key value violates unique constraint".to_owned(),
            StorageError::MissingReading => "insert violates foreign key constraint".to_owned(),
            StorageError::CheckViolation => "new row violates check constraint".to_owned(),
            StorageError::Unavailable => "storage engine unavailable".to_owned(),
        }
    }
}

/// An operation that may change the store.
pub enum Operation {
    /// A book is added to the catalogue.
    InsertBook(Book),
    /// A session is inserted.
    InsertReading(Reading),
    /// An observation of progress is recorded.
    Record(ReadingEntry),
    /// The storage engine is made to fail at a statement, or not at all.
    SetFault(Option<Step>),
}

/// The result of a statement that fails with `error`, if there is one.
pub open spec fn outcome(error: Option<StorageError>) -> Result<(), StorageError> {
    match error {
        Some(e) => Err(e),
        None => Ok(()),
    }
}

/// The statements that start a session: the one that inserts it.
pub open spec fn starting(reading: Reading) -> Seq<Statement> {
    seq![Statement::InsertReading(reading)]
}

/// The statements that record an observation, in the order in which they
/// are carried out: the entry is appended to the ledger, then the progress
/// cursor of its session is overwritten by its progress.
pub open spec fn recording(entry: ReadingEntry) -> Seq<Statement> {
    seq![
        Statement::InsertEntry(entry),
        Statement::UpdateProgress { reading: entry.reading, progress: entry.progress },
    ]
}

/// The entries that belong to the session `reading`.
pub open spec fn in_reading(reading: Id) -> spec_fn(ReadingEntry) -> bool {
    |e: ReadingEntry| e.reading == reading
}

/// The sessions that read the book `book`.
pub open spec fn of_book(book: Id) -> spec_fn(Reading) -> bool {
    |r: Reading| r.book == book
}

/// The progress of the entry that was appended last for the session
/// `reading`, if the ledger holds any for it.
pub open spec fn latest_progress(entries: Seq<ReadingEntry>, reading: Id) -> Option<i32>
    decreases entries.len(),
{
    if entries.len() == 0 {
        None
    } else if entries.last().reading == reading {
        Some(entries.last().progress)
    } else {
        latest_progress(entries.drop_last(), reading)
    }
}

/// What the store holds: the rows of each table in the order in which they
/// were inserted, and the statement at which the storage engine is made to
/// fail, if any.
#[verifier::ext_equal]
pub struct StoreState {
    pub books: Seq<Book>,
    pub readings: Seq<Reading>,
    pub entries: Seq<ReadingEntry>,
    pub fault: Option<Step>,
}

impl StoreState {
    /// The store that holds nothing and does not fail.
    pub open spec fn empty() -> StoreState {
        StoreState { books: Seq::empty(), readings: Seq::empty(), entries: Seq::empty(), fault: None }
    }

    /// Whether the catalogue holds a book with the identifier `id`.
    pub open spec fn has_book(self, id: Id) -> bool {
        exists|i: int| 0 <= i < self.books.len() && (#[trigger] self.books[i]).id == id
    }

    /// Whether there is a session with the identifier `id`.
    pub open spec fn has_reading(self, id: Id) -> bool {
        exists|i: int| 0 <= i < self.readings.len() && (#[trigger] self.readings[i]).id == id
    }

    /// Whether the ledger holds an entry with the identifier `id`.
    pub open spec fn has_entry(self, id: Id) -> bool {
        exists|i: int| 0 <= i < self.entries.len() && (#[trigger] self.entries[i]).id == id
    }

    /// The book with the identifier `id`, where there is one.
    pub open spec fn book(self, id: Id) -> Book {
        self.books[choose|i: int| 0 <= i < self.books.len() && (#[trigger] self.books[i]).id == id]
    }

    /// The session with the identifier `id`, where there is one.
    pub open spec fn reading(self, id: Id) -> Reading {
        self.readings[choose|i: int|
            0 <= i < self.readings.len() && (#[trigger] self.readings[i]).id == id]
    }

    /// The ledger of one session: its entries, in the order in which they
    /// were appended.
    pub open spec fn entries_of(self, reading: Id) -> Seq<ReadingEntry> {
        self.entries.filter(in_reading(reading))
    }

    /// The sessions of one book, whoever reads, in the order in which they
    /// were started.
    pub open spec fn readings_of(self, book: Id) -> Seq<Reading> {
        self.readings.filter(of_book(book))
    }

    /// The progress cursor of a session agrees with the ledger: where the
    /// ledger holds entries of the session, the cursor is the progress of
    /// the one appended last.
    pub open spec fn cursor_agrees(self, reading: Reading) -> bool {
        latest_progress(self.entries, reading.id) matches Some(progress) ==> reading.progress
            == progress
    }

    /// No two rows of a table share an identifier.
    pub open spec fn keys_distinct(self) -> bool {
        &&& forall|i: int, j: int|
            0 <= i < j < self.books.len() ==> (#[trigger] self.books[i]).id != (
            #[trigger] self.books[j]).id
        &&& forall|i: int, j: int|
            0 <= i < j < self.readings.len() ==> (#[trigger] self.readings[i]).id != (
            #[trigger] self.readings[j]).id
        &&& forall|i: int, j: int|
            0 <= i < j < self.entries.len() ==> (#[trigger] self.entries[i]).id != (
            #[trigger] self.entries[j]).id
    }

    /// Every entry of the ledger belongs to a session that exists.
    pub open spec fn entries_refer(self) -> bool {
        forall|i: int|
            0 <= i < self.entries.len() ==> self.has_reading((#[trigger] self.entries[i]).reading)
    }

    /// What holds of the store between any two operations: identifiers are
    /// keys, sessions are well formed, the ledger refers to sessions that
    /// exist, and every progress cursor agrees with the ledger.
    pub open spec fn wf(self) -> bool {
        &&& self.keys_distinct()
        &&& self.entries_refer()
        &&& forall|i: int| 0 <= i < self.readings.len() ==> (#[trigger] self.readings[i]).wf()
        &&& forall|i: int|
            0 <= i < self.readings.len() ==> self.cursor_agrees(#[trigger] self.readings[i])
    }

    /// This store with the storage engine made to fail at `fault`.
    pub open spec fn with_fault(self, fault: Option<Step>) -> StoreState {
        StoreState { fault, ..self }
    }

    /// This store with `book` added to the catalogue.
    pub open spec fn with_book(self, book: Book) -> StoreState {
        StoreState { books: self.books.push(book), ..self }
    }

    /// This store with the session `reading` inserted.
    pub open spec fn with_reading(self, reading: Reading) -> StoreState {
        StoreState { readings: self.readings.push(reading), ..self }
    }

    /// This store with `entry` appended to the ledger.
    pub open spec fn with_entry(self, entry: ReadingEntry) -> StoreState {
        StoreState { entries: self.entries.push(entry), ..self }
    }

    /// This store with the progress cursor of the session `reading`
    /// overwritten by `progress`.
    pub open spec fn with_progress(self, reading: Id, progress: i32) -> StoreState {
        StoreState {
            readings: self.readings.map_values(
                |r: Reading|
                    if r.id == reading {
                        r.at(progress)
                    } else {
                        r
                    },
            ),
            ..self
        }
    }

    /// Why a book cannot be inserted, if it cannot.
    pub open spec fn book_error(self, book: Book) -> Option<StorageError> {
        if self.has_book(book.id) {
            Some(StorageError::DuplicateKey)
        } else {
            None
        }
    }

    /// Why a session cannot be inserted, if it cannot: the engine fails,
    /// or else the session is marked both finished and cancelled, or else
    /// its identifier is taken.
    pub open spec fn reading_error(self, reading: Reading) -> Option<StorageError> {
        if self.fault == Some(Step::InsertReading) {
            Some(StorageError::Unavailable)
        } else if !reading.wf() {
            Some(StorageError::CheckViolation)
        } else if self.has_reading(reading.id) {
            Some(StorageError::DuplicateKey)
        } else {
            None
        }
    }

    /// Why an entry cannot be appended to the ledger, if it cannot: the
    /// engine fails, or else its identifier is taken, or else its session
    /// does not exist.
    pub open spec fn entry_error(self, entry: ReadingEntry) -> Option<StorageError> {
        if self.fault == Some(Step::InsertEntry) {
            Some(StorageError::Unavailable)
        } else if self.has_entry(entry.id) {
            Some(StorageError::DuplicateKey)
        } else if !self.has_reading(entry.reading) {
            Some(StorageError::MissingReading)
        } else {
            None
        }
    }

    /// Why a progress cursor cannot be overwritten, if it cannot: the
    /// engine fails.
    pub open spec fn progress_error(self) -> Option<StorageError> {
        if self.fault == Some(Step::UpdateProgress) {
            Some(StorageError::Unavailable)
        } else {
            None
        }
    }

    /// Why a statement cannot be carried out, if it cannot.
    pub open spec fn statement_error(self, statement: Statement) -> Option<StorageError> {
        match statement {
            Statement::InsertReading(reading) => self.reading_error(reading),
            Statement::InsertEntry(entry) => self.entry_error(entry),
            Statement::UpdateProgress { reading, progress } => self.progress_error(),
        }
    }

    /// The store after a statement is carried out.
    pub open spec fn executed(self, statement: Statement) -> StoreState {
        match statement {
            Statement::InsertReading(reading) => self.with_reading(reading),
            Statement::InsertEntry(entry) => self.with_entry(entry),
            Statement::UpdateProgress { reading, progress } => self.with_progress(
                reading,
                progress,
            ),
        }
    }

    /// Why a sequence of statements cannot be carried out, if it cannot:
    /// the error of the first statement that fails, where each statement
    /// meets the store as the statements before it have left it.
    pub open spec fn run_error(self, statements: Seq<Statement>) -> Option<StorageError>
        decreases statements.len(),
    {
        if statements.len() == 0 {
            None
        } else if self.statement_error(statements.first()) is Some {
            self.statement_error(statements.first())
        } else {
            self.executed(statements.first()).run_error(statements.drop_first())
        }
    }

    /// The store after a sequence of statements is carried out, the first
    /// of them first.
    pub open spec fn ran(self, statements: Seq<Statement>) -> StoreState
        decreases statements.len(),
    {
        if statements.len() == 0 {
            self
        } else {
            self.executed(statements.first()).ran(statements.drop_first())
        }
    }

    /// Why an observation cannot be recorded, if it cannot: the error of
    /// the first of its two statements that fails.
    pub open spec fn record_error(self, entry: ReadingEntry) -> Option<StorageError> {
        if self.entry_error(entry) is Some {
            self.entry_error(entry)
        } else {
            self.with_entry(entry).progress_error()
        }
    }

    /// The store after an observation is recorded: the entry is appended to
    /// the ledger, and the cursor of its session is overwritten by its
    /// progress.
    pub open spec fn recorded(self, entry: ReadingEntry) -> StoreState {
        self.with_entry(entry).with_progress(entry.reading, entry.progress)
    }

    /// The store after an operation: changed as the operation asks where
    /// the store accepts it, and unchanged where it fails.
    pub open spec fn after(self, op: Operation) -> StoreState {
        match op {
            Operation::InsertBook(book) => if self.book_error(book) is None {
                self.with_book(book)
            } else {
                self
            },
            Operation::InsertReading(reading) => if self.reading_error(reading) is None {
                self.with_reading(reading)
            } else {
                self
            },
            Operation::Record(entry) => if self.record_error(entry) is None {
                self.recorded(entry)
            } else {
                self
            },
            Operation::SetFault(fault) => self.with_fault(fault),
        }
    }

    /// The store after a sequence of operations, the first of them first.
    pub open spec fn after_all(self, ops: Seq<Operation>) -> StoreState
        decreases ops.len(),
    {
        if ops.len() == 0 {
            self
        } else {
            self.after_all(ops.drop_last()).after(ops.last())
        }
    }
}

/// Where the ledger holds no entry of a session, it names no progress for it.
pub proof fn lemma_no_entries_no_progress(entries: Seq<ReadingEntry>, reading: Id)
    requires
        forall|i: int| 0 <= i < entries.len() ==> (#[trigger] entries[i]).reading != reading,
    ensures
        latest_progress(entries, reading) is None,
    decreases entries.len(),
{
    if entries.len() > 0 {
        lemma_no_entries_no_progress(entries.drop_last(), reading);
    }
}

/// The store, in memory.
pub struct Store {
    books: Vec<Book>,
    readings: Vec<Reading>,
    entries: Vec<ReadingEntry>,
    fault: Option<Step>,
}

impl View for Store {
    type V = StoreState;

    closed spec fn view(&self) -> StoreState {
        StoreState {
            books: self.books@,
            readings: self.readings@,
            entries: self.entries@,
            fault: self.fault,
        }
    }
}

impl Store {
    /// What holds of the store between any two operations.
    pub open spec fn wf(&self) -> bool {
        self@.wf()
    }

    /// A store that holds nothing and does not fail.
    pub fn new() -> (r: Store)
        ensures
            r@ == StoreState::empty(),
            r.wf(),
    {
        Store { books: Vec::new(), readings: Vec::new(), entries: Vec::new(), fault: None }
    }

    /// Makes the storage engine fail at the statement `fault` from now on,
    /// or not at all.
    pub fn set_fault(&mut self, fault: Option<Step>)
        ensures
            final(self)@ == old(self)@.after(Operation::SetFault(fault)),
            old(self).wf() ==> final(self).wf(),
    {
        self.fault = fault;
    }

    fn book_position(&self, id: Id) -> (r: Option<usize>)
        ensures
            r is Some <==> self@.has_book(id),
            r matches Some(i) ==> i < self.books.len() && self.books[i as int].id == id,
    {
        let mut i: usize = 0;
        while i < self.books.len()
            invariant
                i <= self.books.len(),
                forall|j: int| 0 <= j < i ==> (#[trigger] self.books[j]).id != id,
            decreases self.books.len() - i,
        {
            if self.books[i].id == id {
                return Some(i);
            }
            i += 1;
        }
        None
    }

    fn reading_position(&self, id: Id) -> (r: Option<usize>)
        ensures
            r is Some <==> self@.has_reading(id),
            r matches Some(i) ==> i < self.readings.len() && self.readings[i as int].id == id,
    {
        let mut i: usize = 0;
        while i < self.readings.len()
            invariant
                i <= self.readings.len(),
                forall|j: int| 0 <= j < i ==> (#[trigger] self.readings[j]).id != id,
            decreases self.readings.len() - i,
        {
            if self.readings[i].id == id {
                return Some(i);
            }
            i += 1;
        }
        None
    }

    fn entry_exists(&self, id: Id) -> (r: bool)
        ensures
            r == self@.has_entry(id),
    {
        let mut i: usize = 0;
        while i < self.entries.len()
            invariant
                i <= self.entries.len(),
                forall|j: int| 0 <= j < i ==> (#[trigger] self.entries[j]).id != id,
            decreases self.entries.len() - i,
        {
            if self.entries[i].id == id {
                return true;
            }
            i += 1;
        }
        false
    }

    /// The book with the identifier `id`, if the catalogue holds it.
    pub fn find_book(&self, id: Id) -> (r: Option<&Book>)
        requires
            self.wf(),
        ensures
            r is Some <==> self@.has_book(id),
            r matches Some(book) ==> *book == self@.book(id) && book.id == id,
    {
        match self.book_position(id) {
            Some(i) => Some(&self.books[i]),
            None => None,
        }
    }

    /// The session with the identifier `id`, if there is one.
    pub fn find_reading(&self, id: Id) -> (r: Option<Reading>)
        requires
            self.wf(),
        ensures
            r is Some <==> self@.has_reading(id),
            r matches Some(reading) ==> reading == self@.reading(id) && reading.id == id,
    {
        match self.reading_position(id) {
            Some(i) => Some(self.readings[i]),
            None => None,
        }
    }

    /// The ledger of the session `reading`: its entries, in the order in
    /// which they were appended.
    pub fn entries_of(&self, reading: Id) -> (r: Vec<ReadingEntry>)
        ensures
            r@ == self@.entries_of(reading),
    {
        let mut found: Vec<ReadingEntry> = Vec::new();
        let mut i: usize = 0;
        while i < self.entries.len()
            invariant
                i <= self.entries.len(),
                found@ == self.entries@.take(i as int).filter(in_reading(reading)),
            decreases self.entries.len() - i,
        {
            proof {
                self.entries@.take(i as int).lemma_filter_push(
                    self.entries@[i as int],
                    in_reading(reading),
                );
                assert(self.entries@.take(i as int + 1) == self.entries@.take(i as int).push(
                    self.entries@[i as int],
                ));
            }
            if self.entries[i].reading == reading {
                found.push(self.entries[i]);
            }
            i += 1;
        }
        assert(self.entries@.take(i as int) == self.entries@);
        found
    }

    /// The sessions of the book `book`, whoever reads, in the order in
    /// which they were started.
    pub fn readings_of(&self, book: Id) -> (r: Vec<Reading>)
        ensures
            r@ == self@.readings_of(book),
    {
        let mut found: Vec<Reading> = Vec::new();
        let mut i: usize = 0;
        while i < self.readings.len()
            invariant
                i <= self.readings.len(),
                found@ == self.readings@.take(i as int).filter(of_book(book)),
            decreases self.readings.len() - i,
        {
            proof {
                self.readings@.take(i as int).lemma_filter_push(
                    self.readings@[i as int],
                    of_book(book),
                );
                assert(self.readings@.take(i as int + 1) == self.readings@.take(i as int).push(
                    self.readings@[i as int],
                ));
            }
            if self.readings[i].book == book {
                found.push(self.readings[i]);
            }
            i += 1;
        }
        assert(self.readings@.take(i as int) == self.readings@);
        found
    }

    /// Adds a book to the catalogue, unless one has its identifier.
    pub fn insert_book(&mut self, book: Book) -> (r: Result<(), StorageError>)
        requires
            old(self).wf(),
        ensures
            final(self).wf(),
            r == outcome(old(self)@.book_error(book)),
            final(self)@ == old(self)@.after(Operation::InsertBook(book)),
    {
        if self.book_position(book.id).is_some() {
            return Err(StorageError::DuplicateKey);
        }
        self.books.push(book);
        proof {
            assert(self@.readings == old(self)@.readings);
            assert forall|i: int| 0 <= i < self@.entries.len() implies self@.has_reading(
                (#[trigger] self@.entries[i]).reading,
            ) by {
                assert(old(self)@.has_reading(old(self)@.entries[i].reading));
            }
        }
        Ok(())
    }

    /// Inserts a session: the statement that starts one.
    fn insert_session(&mut self, reading: Reading) -> (r: Result<(), StorageError>)
        ensures
            r == outcome(old(self)@.reading_error(reading)),
            r is Ok ==> final(self)@ == old(self)@.with_reading(reading),
            r is Err ==> final(self)@ == old(self)@,
    {
        if let Some(Step::InsertReading) = self.fault {
            return Err(StorageError::Unavailable);
        }
        if reading.finished_at.is_some() && reading.cancelled_at.is_some() {
            return Err(StorageError::CheckViolation);
        }
        if self.reading_position(reading.id).is_some() {
            return Err(StorageError::DuplicateKey);
        }
        self.readings.push(reading);
        Ok(())
    }

    /// Appends an entry to the ledger: the first statement that records an
    /// observation.
    fn insert_entry(&mut self, entry: ReadingEntry) -> (r: Result<(), StorageError>)
        ensures
            r == outcome(old(self)@.entry_error(entry)),
            r is Ok ==> final(self)@ == old(self)@.with_entry(entry),
            r is Err ==> final(self)@ == old(self)@,
    {
        if let Some(Step::InsertEntry) = self.fault {
            return Err(StorageError::Unavailable);
        }
        if self.entry_exists(entry.id) {
            return Err(StorageError::DuplicateKey);
        }
        if self.reading_position(entry.reading).is_none() {
            return Err(StorageError::MissingReading);
        }
        self.entries.push(entry);
        Ok(())
    }

    /// Overwrites the progress cursor of a session: the second statement
    /// that records an observation.
    fn update_progress(&mut self, reading: Id, progress: i32) -> (r: Result<(), StorageError>)
        ensures
            r == outcome(old(self)@.progress_error()),
            r is Ok ==> final(self)@ == old(self)@.with_progress(reading, progress),
            r is Err ==> final(self)@ == old(self)@,
    {
        if let Some(Step::UpdateProgress) = self.fault {
            return Err(StorageError::Unavailable);
        }
        let n = self.readings.len();
        let mut i: usize = 0;
        while i < n
            invariant
                i <= n,
                n == self.readings.len(),
                n == old(self).readings.len(),
                self.books == old(self).books,
                self.entries == old(self).entries,
                self.fault == old(self).fault,
                forall|j: int|
                    0 <= j < i ==> self.readings[j] == (if old(self).readings[j].id == reading {
                        old(self).readings[j].at(progress)
                    } else {
                        old(self).readings[j]
                    }),
                forall|j: int| i <= j < n ==> self.readings[j] == old(self).readings[j],
            decreases n - i,
        {
            if self.readings[i].id == reading {
                self.readings[i].progress = progress;
            }
            i += 1;
        }
        assert(self@.readings =~= old(self)@.with_progress(reading, progress).readings);
        Ok(())
    }

    /// Carries one statement out, or fails and changes nothing.
    fn execute(&mut self, statement: Statement) -> (r: Result<(), StorageError>)
        ensures
            r == outcome(old(self)@.statement_error(statement)),
            r is Ok ==> final(self)@ == old(self)@.executed(statement),
            r is Err ==> final(self)@ == old(self)@,
    {
        match statement {
            Statement::InsertReading(reading) => self.insert_session(reading),
            Statement::InsertEntry(entry) => self.insert_entry(entry),
            Statement::UpdateProgress { reading, progress } => self.update_progress(
                reading,
                progress,
            ),
        }
    }

    /// The sessions as they are now, to put them back where a transaction
    /// fails.
    fn saved_readings(&self) -> (r: Vec<Reading>)
        ensures
            r@ == self.readings@,
    {
        let mut saved: Vec<Reading> = Vec::new();
        let mut i: usize = 0;
        while i < self.readings.len()
            invariant
                i <= self.readings.len(),
                saved@ == self.readings@.take(i as int),
            decreases self.readings.len() - i,
        {
            saved.push(self.readings[i]);
            assert(self.readings@.take(i as int + 1) == self.readings@.take(i as int).push(
                self.readings@[i as int],
            ));
            i += 1;
        }
        assert(self.readings@.take(i as int) == self.readings@);
        saved
    }

    /// Carries a sequence of statements out, all or nothing: where one of
    /// them fails, what those before it have written is taken back, and the
    /// store is left as it was.
    fn transaction(&mut self, statements: &Vec<Statement>) -> (r: Result<(), StorageError>)
        ensures
            r == outcome(old(self)@.run_error(statements@)),
            r is Ok ==> final(self)@ == old(self)@.ran(statements@),
            r is Err ==> final(self)@ == old(self)@,
    {
        let readings_before = self.saved_readings();
        let entries_before = self.entries.len();
        let mut i: usize = 0;
        assert(statements@.skip(0) == statements@);
        while i < statements.len()
            invariant
                i <= statements.len(),
                readings_before@ == old(self).readings@,
                entries_before == old(self).entries.len(),
                self.books@ == old(self).books@,
                self.fault == old(self).fault,
                old(self).entries@.is_prefix_of(self.entries@),
                old(self)@.run_error(statements@) == self@.run_error(statements@.skip(i as int)),
                old(self)@.ran(statements@) == self@.ran(statements@.skip(i as int)),
            decreases statements.len() - i,
        {
            proof {
                let rest = statements@.skip(i as int);
                assert(rest.first() == statements@[i as int]);
                assert(rest.drop_first() == statements@.skip(i as int + 1));
            }
            if let Err(error) = self.execute(statements[i]) {
                self.readings = readings_before;
                self.entries.truncate(entries_before);
                assert(self@.entries =~= old(self)@.entries);
                return Err(error);
            }
            i += 1;
        }
        Ok(())
    }

    /// Inserts a session, unless it is marked both finished and cancelled
    /// or a session has its identifier.
    pub fn insert_reading(&mut self, reading: Reading) -> (r: Result<(), StorageError>)
        requires
            old(self).wf(),
        ensures
            final(self).wf(),
            r == outcome(old(self)@.reading_error(reading)),
            final(self)@ == old(self)@.after(Operation::InsertReading(reading)),
    {
        let statements = statements_to_start(reading);
        proof {
            lemma_starting_runs(old(self)@, reading);
            if old(self)@.reading_error(reading) is None {
                lemma_inserted_wf(old(self)@, reading);
            }
        }
        self.transaction(&statements)
    }

    /// Records an observation of progress, all or nothing: appends the
    /// entry to the ledger and overwrites the progress cursor of its
    /// session. Where either statement fails the ledger is put back as it
    /// was, and the store is left unchanged.
    pub fn record_progress(&mut self, entry: ReadingEntry) -> (r: Result<(), StorageError>)
        requires
            old(self).wf(),
        ensures
            final(self).wf(),
            r == outcome(old(self)@.record_error(entry)),
            final(self)@ == old(self)@.after(Operation::Record(entry)),
            r is Err ==> final(self)@ == old(self)@,
    {
        let statements = statements_to_record(entry);
        proof {
            lemma_recording_runs(old(self)@, entry);
            if old(self)@.record_error(entry) is None {
                lemma_recorded_wf(old(self)@, entry);
            }
        }
        self.transaction(&statements)
    }
}

/// The statements that start a session.
pub fn statements_to_start(reading: Reading) -> (r: Vec<Statement>)
    ensures
        r@ == starting(reading),
{
    let mut statements: Vec<Statement> = Vec::new();
    statements.push(Statement::InsertReading(reading));
    assert(statements@ =~= starting(reading));
    statements
}

/// The statements that record an observation, in the order in which they
/// are to be carried out, all or nothing.
pub fn statements_to_record(entry: ReadingEntry) -> (r: Vec<Statement>)
    ensures
        r@ == recording(entry),
{
    let mut statements: Vec<Statement> = Vec::new();
    statements.push(Statement::InsertEntry(entry));
    statements.push(Statement::UpdateProgress { reading: entry.reading, progress: entry.progress });
    assert(statements@ =~= recording(entry));
    statements
}

/// Starting a session is carrying its one statement out.
pub proof fn lemma_starting_runs(state: StoreState, reading: Reading)
    ensures
        state.run_error(starting(reading)) == state.reading_error(reading),
        state.ran(starting(reading)) == state.with_reading(reading),
{
    let statements = starting(reading);
    assert(statements.first() == Statement::InsertReading(reading));
    assert(statements.drop_first().len() == 0);
    assert(state.with_reading(reading).run_error(statements.drop_first()) is None);
    assert(state.with_reading(reading).ran(statements.drop_first()) == state.with_reading(reading));
}

/// Recording an observation is carrying its two statements out, one after
/// the other.
pub proof fn lemma_recording_runs(state: StoreState, entry: ReadingEntry)
    ensures
        state.run_error(recording(entry)) == state.record_error(entry),
        state.ran(recording(entry)) == state.recorded(entry),
{
    let statements = recording(entry);
    let update = Statement::UpdateProgress { reading: entry.reading, progress: entry.progress };
    let rest = statements.drop_first();
    assert(statements.first() == Statement::InsertEntry(entry));
    assert(rest.first() == update);
    assert(rest.drop_first().len() == 0);
    let appended = state.with_entry(entry);
    assert(appended.executed(update).run_error(rest.drop_first()) is None);
    assert(appended.executed(update).ran(rest.drop_first()) == appended.executed(update));
    assert(appended.run_error(rest) == appended.progress_error());
    assert(appended.ran(rest) == appended.with_progress(entry.reading, entry.progress));
}

/// Inserting a session that the store accepts keeps the store well formed.
pub proof fn lemma_inserted_wf(state: StoreState, reading: Reading)
    requires
        state.wf(),
        state.reading_error(reading) is None,
    ensures
        state.with_reading(reading).wf(),
{
    let after = state.with_reading(reading);
    assert forall|i: int| 0 <= i < after.entries.len() implies after.has_reading(
        (#[trigger] after.entries[i]).reading,
    ) by {
        assert(state.has_reading(state.entries[i].reading));
        let k = choose|k: int|
            0 <= k < state.readings.len() && (#[trigger] state.readings[k]).id
                == state.entries[i].reading;
        assert(after.readings[k].id == after.entries[i].reading);
    }
    assert forall|i: int| 0 <= i < after.entries.len() implies (#[trigger] after.entries[i]).reading
        != reading.id by {
        assert(state.has_reading(state.entries[i].reading));
    }
    lemma_no_entries_no_progress(after.entries, reading.id);
    assert forall|i: int| 0 <= i < after.readings.len() implies after.cursor_agrees(
        #[trigger] after.readings[i],
    ) by {
        if i < state.readings.len() {
            assert(state.cursor_agrees(state.readings[i]));
        }
    }
}

/// Recording an observation that the store accepts keeps the store well
/// formed.
pub proof fn lemma_recorded_wf(state: StoreState, entry: ReadingEntry)
    requires
        state.wf(),
        state.record_error(entry) is None,
    ensures
        state.recorded(entry).wf(),
{
    let after = state.recorded(entry);
    assert(after.readings.len() == state.readings.len());
    assert forall|i: int| 0 <= i < after.readings.len() implies (#[trigger] after.readings[i]).id
        == state.readings[i].id && after.readings[i].wf() by {
        assert(state.readings[i].wf());
    }
    assert forall|i: int| 0 <= i < after.entries.len() implies after.has_reading(
        (#[trigger] after.entries[i]).reading,
    ) by {
        let wanted = after.entries[i].reading;
        if i < state.entries.len() {
            assert(state.has_reading(state.entries[i].reading));
        }
        assert(state.has_reading(wanted));
        let k = choose|k: int|
            0 <= k < state.readings.len() && (#[trigger] state.readings[k]).id == wanted;
        assert(after.readings[k].id == wanted);
    }
    assert(after.entries.drop_last() =~= state.entries);
    assert forall|i: int| 0 <= i < after.readings.len() implies after.cursor_agrees(
        #[trigger] after.readings[i],
    ) by {
        assert(state.cursor_agrees(state.readings[i]));
    }
    assert(after.keys_distinct()) by {
        assert forall|i: int, j: int| 0 <= i < j < after.entries.len() implies (
        #[trigger] after.entries[i]).id != (#[trigger] after.entries[j]).id by {
            if j == state.entries.len() {
                assert(state.entries[i].id != entry.id);
            }
        }
    }
}

} // verus!
