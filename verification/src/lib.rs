//! A reading tracker: reading sessions, their append-only progress ledger,
//! and the requests that start a session, record progress and query both.

pub mod books;
pub mod calendar;
pub mod guarantees;
pub mod ident;
pub mod models;
pub mod readings;
pub mod store;
pub mod types;
