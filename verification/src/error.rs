//! Error kinds of the task-tracking core.
//!
//! Validation errors are raised before any store mutation; store-level
//! failures propagate wrapped and unmodified.

use vstd::prelude::*;

verus! {

/// The error type of the underlying SQLite driver, carried through opaquely.
#[verifier::external_type_specification]
#[verifier::external_body]
pub struct ExRusqliteError(rusqlite::Error);

/// Every failure the library reports.
#[derive(Debug)]
pub enum TaskyError {
    /// A failure of the embedded store, wrapped unmodified.
    Database(rusqlite::Error),
    /// A lookup by id found no row.
    TodoNotFound { id: i64 },
    /// A priority name that is none of the accepted spellings.
    InvalidPriority { priority: String },
    /// A status name that is none of the accepted spellings.
    InvalidStatus { status: String },
    /// A date string that matches none of the accepted formats.
    InvalidDateFormat { date: String },
    /// A sort key that names no sortable column.
    InvalidSortBy { sort_by: String },
    /// A title that is empty or whitespace-only after trimming.
    EmptyTitle,
    /// Any other rejected input, with a human-readable message.
    InvalidInput { message: String },
    /// A stored timestamp column whose text is not a valid encoding: a
    /// lower-level date-parse failure, wrapped with the offending text.
    InvalidStoredTimestamp { text: String },
}

/// The failures the store layer reports: driver errors and corrupt stored
/// timestamps. Validation never produces these, and lookups by a missing id
/// never hide behind them.
pub open spec fn store_failure(e: TaskyError) -> bool {
    ||| e matches TaskyError::Database(_)
    ||| e matches TaskyError::InvalidStoredTimestamp { text: _ }
}

pub type Result<T> = core::result::Result<T, TaskyError>;

} // verus!
