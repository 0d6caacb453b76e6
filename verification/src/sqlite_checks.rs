//! Health checks of the database file and the status codes they report:
//! `0` for success, `-1` for failure, `100 + id` for a failed numbered query.

use vstd::prelude::*;
use crate::error::{EdmsError, EdmsResult, outcome_code};
use crate::text::{occurs_in, contains_str};

verus! {

/// The file must exist.
pub fn check_sqlite_exists(file_exists: bool) -> (r: EdmsResult<()>)
    ensures
        file_exists ==> r is Ok,
        !file_exists ==> r == Err::<(), EdmsError>(EdmsError::SqliteFileNotFound),
{
    if file_exists { Ok(()) } else { Err(EdmsError::SqliteFileNotFound) }
}

/// `0` when the file exists, `-1` otherwise.
pub fn check_sqlite_exists_code(file_exists: bool) -> (code: i32)
    ensures
        code == (if file_exists { 0i32 } else { -1i32 }),
{
    match check_sqlite_exists(file_exists) {
        Ok(_) => 0,
        Err(_) => -1,
    }
}

/// The error for a failed attempt to take the write lock: `SqliteFileLocked`
/// when the database's message mentions `locked`, the database error otherwise.
pub fn lock_probe_error(message: String) -> (e: EdmsError)
    ensures
        occurs_in(message@, "locked"@) ==> e == EdmsError::SqliteFileLocked,
        !occurs_in(message@, "locked"@) ==> e == EdmsError::SqliteError(message),
{
    if contains_str(message.as_str(), "locked") {
        EdmsError::SqliteFileLocked
    } else {
        EdmsError::SqliteError(message)
    }
}

/// `0` when the lock check succeeded, `-1` otherwise.
pub fn check_sqlite_lock_code(outcome: &EdmsResult<()>) -> (code: i32)
    ensures
        code == (if outcome is Ok { 0i32 } else { -1i32 }),
{
    match outcome {
        Ok(_) => 0,
        Err(_) => -1,
    }
}

/// The verdict of the integrity check: only `ok` passes.
pub fn consistency_verdict(result: String) -> (r: EdmsResult<String>)
    ensures
        result@ == "ok"@ ==> r == Ok::<String, EdmsError>(result),
        result@ != "ok"@ ==> r == Err::<String, EdmsError>(EdmsError::SqliteConsistencyFailed),
{
    if crate::text::str_equals(result.as_str(), "ok") {
        Ok(result)
    } else {
        Err(EdmsError::SqliteConsistencyFailed)
    }
}

/// `0` when the consistency check passed, `-1` otherwise.
pub fn check_sqlite_consistency_code(outcome: &EdmsResult<String>) -> (code: i32)
    ensures
        code == (if outcome is Ok { 0i32 } else { -1i32 }),
{
    match outcome {
        Ok(_) => 0,
        Err(_) => -1,
    }
}

/// The error of a failed numbered query: `QueryExecutionFailed(100 + id)`.
pub fn query_failure(query_id: i32) -> (e: EdmsError)
    requires
        query_id <= i32::MAX - 100,
    ensures
        e == EdmsError::QueryExecutionFailed((100 + query_id) as i32),
{
    EdmsError::QueryExecutionFailed(100 + query_id)
}

/// The code of a numbered query's outcome: `0`, the query's failure code, or
/// `-1`.
pub fn execute_sqlite_query_code(outcome: EdmsResult<usize>) -> (code: i32)
    ensures
        code as int == outcome_code(outcome),
{
    crate::error::result_to_code(outcome)
}

/// `0` when the schema was initialised, `-1` otherwise.
pub fn initialize_sqlite_schema_code<T>(outcome: &EdmsResult<T>) -> (code: i32)
    ensures
        code == (if outcome is Ok { 0i32 } else { -1i32 }),
{
    match outcome {
        Ok(_) => 0,
        Err(_) => -1,
    }
}

/// A failed numbered query reports `100 + id`, so its code tells the query
/// apart from the generic failure `-1` and from success `0`.
pub proof fn law_query_code_identifies_query(query_id: i32)
    requires
        0 <= query_id <= i32::MAX - 100,
    ensures
        outcome_code(Err::<usize, EdmsError>(EdmsError::QueryExecutionFailed((100 + query_id) as i32))) == 100 + query_id,
        outcome_code(Err::<usize, EdmsError>(EdmsError::QueryExecutionFailed((100 + query_id) as i32))) >= 100,
{
}

} // verus!
