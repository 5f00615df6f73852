//! A personal task-tracking library: todo items with priority, status and
//! optional due dates, persisted in a local SQLite file.
//!
//! The crate verifies the persistence and query core: the entity model with
//! its integer encodings, the dynamic filter/sort query construction, the
//! derived statistics, the multi-format due-date parser with its calendar
//! arithmetic, and the database-file recovery protocol.

pub mod calendar;
pub mod dates;
pub mod error;
pub mod models;
pub mod recovery;
pub mod repository;
pub mod service;
pub mod store;
pub mod text;

pub use error::Result;
pub use error::TaskyError;
