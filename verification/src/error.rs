//! The library's error type, its status codes and its messages.

use vstd::prelude::*;
use crate::text::{push_signed, signed_decimal, debug_str, spec_debug_str};

verus! {

/// Everything that can go wrong in the library. The database and file errors
/// carry the message of the failure that the application observed.
#[derive(Debug, Clone, PartialEq, Eq)]
pub enum EdmsError {
    UnknownError,
    InvalidJson(String),
    SqliteError(String),
    SqliteFileNotFound,
    SqliteFileLocked,
    SqliteConsistencyFailed,
    SqliteInitializationFailed,
    QueryExecutionFailed(i32),
    IoError(String),
}

pub type EdmsResult<T> = Result<T, EdmsError>;

/// The status code of an outcome: `0` for success, the code carried by a
/// failed query, `-1` for any other failure.
pub open spec fn outcome_code<T>(result: EdmsResult<T>) -> int {
    match result {
        Ok(_) => 0,
        Err(EdmsError::QueryExecutionFailed(code)) => code as int,
        Err(_) => -1,
    }
}

/// Maps an outcome to its status code (see [`outcome_code`]).
pub fn result_to_code<T>(result: EdmsResult<T>) -> (code: i32)
    ensures
        code as int == outcome_code(result),
{
    match result {
        Ok(_) => 0,
        Err(EdmsError::QueryExecutionFailed(code)) => code,
        Err(_) => -1,
    }
}

/// The human-readable message of an error.
pub open spec fn error_text(e: EdmsError) -> Seq<char> {
    match e {
        EdmsError::UnknownError => "Unknown error occurred"@,
        EdmsError::InvalidJson(m) => "Invalid JSON format: "@ + m@,
        EdmsError::SqliteError(m) => "SQLite error: "@ + m@,
        EdmsError::SqliteFileNotFound => "SQLite file not found"@,
        EdmsError::SqliteFileLocked => "SQLite file locked"@,
        EdmsError::SqliteConsistencyFailed => "SQLite consistency check failed"@,
        EdmsError::SqliteInitializationFailed => "SQLite initialization failed"@,
        EdmsError::QueryExecutionFailed(code) =>
            "Query execution failed (code: "@ + signed_decimal(code as int) + ")"@,
        EdmsError::IoError(m) => "IO error: "@ + m@,
    }
}

/// The `Debug` text of an error: the variant's name, followed by its field in
/// parentheses when it has one.
pub open spec fn error_debug_text(e: EdmsError) -> Seq<char> {
    match e {
        EdmsError::UnknownError => "UnknownError"@,
        EdmsError::InvalidJson(m) => "InvalidJson("@ + spec_debug_str(m@) + ")"@,
        EdmsError::SqliteError(m) => "SqliteError("@ + spec_debug_str(m@) + ")"@,
        EdmsError::SqliteFileNotFound => "SqliteFileNotFound"@,
        EdmsError::SqliteFileLocked => "SqliteFileLocked"@,
        EdmsError::SqliteConsistencyFailed => "SqliteConsistencyFailed"@,
        EdmsError::SqliteInitializationFailed => "SqliteInitializationFailed"@,
        EdmsError::QueryExecutionFailed(code) => "QueryExecutionFailed("@ + signed_decimal(code as int) + ")"@,
        EdmsError::IoError(m) => "IoError("@ + spec_debug_str(m@) + ")"@,
    }
}

impl EdmsError {
    /// The `Debug` text of this error (see [`error_debug_text`]).
    pub fn debug_text(&self) -> (s: String)
        ensures
            s@ == error_debug_text(*self),
    {
        match self {
            EdmsError::UnknownError => String::from_str("UnknownError"),
            EdmsError::InvalidJson(m) => String::from_str("InvalidJson(").concat(debug_str(m.as_str()).as_str()).concat(")"),
            EdmsError::SqliteError(m) => String::from_str("SqliteError(").concat(debug_str(m.as_str()).as_str()).concat(")"),
            EdmsError::SqliteFileNotFound => String::from_str("SqliteFileNotFound"),
            EdmsError::SqliteFileLocked => String::from_str("SqliteFileLocked"),
            EdmsError::SqliteConsistencyFailed => String::from_str("SqliteConsistencyFailed"),
            EdmsError::SqliteInitializationFailed => String::from_str("SqliteInitializationFailed"),
            EdmsError::QueryExecutionFailed(code) => {
                let mut s = String::from_str("QueryExecutionFailed(");
                push_signed(&mut s, *code as i64);
                s.append(")");
                s
            },
            EdmsError::IoError(m) => String::from_str("IoError(").concat(debug_str(m.as_str()).as_str()).concat(")"),
        }
    }

    /// The message of this error (see [`error_text`]).
    pub fn message(&self) -> (s: String)
        ensures
            s@ == error_text(*self),
    {
        match self {
            EdmsError::UnknownError => String::from_str("Unknown error occurred"),
            EdmsError::InvalidJson(m) => String::from_str("Invalid JSON format: ").concat(m.as_str()),
            EdmsError::SqliteError(m) => String::from_str("SQLite error: ").concat(m.as_str()),
            EdmsError::SqliteFileNotFound => String::from_str("SQLite file not found"),
            EdmsError::SqliteFileLocked => String::from_str("SQLite file locked"),
            EdmsError::SqliteConsistencyFailed => String::from_str("SQLite consistency check failed"),
            EdmsError::SqliteInitializationFailed => String::from_str("SQLite initialization failed"),
            EdmsError::QueryExecutionFailed(code) => {
                let mut s = String::from_str("Query execution failed (code: ");
                push_signed(&mut s, *code as i64);
                s.append(")");
                s
            },
            EdmsError::IoError(m) => String::from_str("IO error: ").concat(m.as_str()),
        }
    }
}

} // verus!
