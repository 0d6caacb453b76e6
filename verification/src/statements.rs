//! The statements behind each stored operation on endpoints, request and
//! response metadata, history and bookmarks, and the reading of their results.

use vstd::prelude::*;
use crate::error::{EdmsError, EdmsResult};
use crate::queries::{QueryMap, query_text};
use crate::sql::{SqlStatement, SqlStatementView, SqlValue, SqlValueView, first_or_zero, first_count, opt_text_param, opt_text_view, opt_int_param, opt_int_view, opt_str_view, statement0, statement1, statement2, statement3, statement4, statement5, text_param};

verus! {

/// The bookmark folder that holds the active workspace.
pub const ACTIVE_FOLDER: &'static str = "__active__";
/// The bookmark folder that keeps the workspace replaced by the last collection load.
pub const SESSION_BACKUP_FOLDER: &'static str = "__session_backup__";

/// A stored endpoint.
#[derive(Debug, Clone, PartialEq, Eq)]
pub struct EndpointDto {
    pub endpoint_id: String,
    pub endpoint_str: String,
    pub annotation: Option<String>,
}

/// A row of the history table.
#[derive(Debug, Clone, PartialEq, Eq)]
pub struct HistoryEntry {
    pub id: i64,
    pub endpoint_id: String,
    pub action: String,
    pub details: Option<String>,
    pub timestamp: String,
}

pub open spec fn opt_string_view(o: Option<String>) -> Option<Seq<char>> {
    match o {
        Some(s) => Some(s@),
        None => None,
    }
}

pub fn copy_opt_string(o: &Option<String>) -> (r: Option<String>)
    ensures
        r == *o,
{
    match o {
        Some(s) => Some(s.clone()),
        None => None,
    }
}

impl EndpointDto {
    /// A copy of this endpoint.
    pub fn duplicate(&self) -> (r: EndpointDto)
        ensures
            r == *self,
    {
        EndpointDto {
            endpoint_id: self.endpoint_id.clone(),
            endpoint_str: self.endpoint_str.clone(),
            annotation: copy_opt_string(&self.annotation),
        }
    }
}

/// The statement for a catalogue query, or `UnknownError` when the catalogue
/// has no such query.
pub open spec fn keyed_view(sql: Option<Seq<char>>, params: Seq<SqlValueView>) -> Option<SqlStatementView> {
    match sql {
        Some(q) => Some(SqlStatementView { sql: q, params }),
        None => None,
    }
}

/// The result of a keyed statement builder matches [`keyed_view`].
pub open spec fn keyed_result(r: EdmsResult<SqlStatement>, expected: Option<SqlStatementView>) -> bool {
    match expected {
        Some(v) => r is Ok && r->Ok_0@ == v,
        None => r == Err::<SqlStatement, EdmsError>(EdmsError::UnknownError),
    }
}

/// Builds the statement for a catalogue query text, if the catalogue had it.
pub fn keyed_statement(sql: Option<&str>, params: Vec<SqlValue>) -> (r: EdmsResult<SqlStatement>)
    ensures
        keyed_result(r, keyed_view(opt_str_view(sql), params@.map_values(|p: SqlValue| p@))),
{
    match sql {
        Some(q) => Ok(SqlStatement { sql: String::from_str(q), params }),
        None => Err(EdmsError::UnknownError),
    }
}

/// `E1`: insert an endpoint (id, address, annotation).
pub fn insert_endpoint_statement(queries: &QueryMap, ep: &EndpointDto) -> (r: EdmsResult<SqlStatement>)
    ensures
        keyed_result(r, keyed_view(query_text(queries.endpoints@, "E1"@), seq![
            SqlValueView::Text(ep.endpoint_id@),
            SqlValueView::Text(ep.endpoint_str@),
            opt_text_view(opt_string_view(ep.annotation)),
        ])),
{
    let q = queries.get_endpoint_query("E1");
    let a = match &ep.annotation {
        Some(s) => opt_text_param(Some(s.as_str())),
        None => opt_text_param(None),
    };
    let s = statement3("", text_param(ep.endpoint_id.as_str()), text_param(ep.endpoint_str.as_str()), a);
    keyed_statement(q, s.params)
}

/// `E3`: list every endpoint.
pub fn list_endpoints_statement(queries: &QueryMap) -> (r: EdmsResult<SqlStatement>)
    ensures
        keyed_result(r, keyed_view(query_text(queries.endpoints@, "E3"@), Seq::empty())),
{
    let q = queries.get_endpoint_query("E3");
    let params: Vec<SqlValue> = Vec::new();
    assert(params@.map_values(|p: SqlValue| p@) =~= Seq::<SqlValueView>::empty());
    keyed_statement(q, params)
}

/// `E2`: look an endpoint up by id.
pub fn get_endpoint_statement(queries: &QueryMap, endpoint_id: &str) -> (r: EdmsResult<SqlStatement>)
    ensures
        keyed_result(r, keyed_view(query_text(queries.endpoints@, "E2"@), seq![SqlValueView::Text(endpoint_id@)])),
{
    let q = queries.get_endpoint_query("E2");
    let s = statement1("", text_param(endpoint_id));
    keyed_statement(q, s.params)
}

/// `E4`: set the annotation of an endpoint.
pub fn update_annotation_statement(queries: &QueryMap, endpoint_id: &str, annotation: &str) -> (r: EdmsResult<SqlStatement>)
    ensures
        keyed_result(r, keyed_view(query_text(queries.endpoints@, "E4"@), seq![
            SqlValueView::Text(annotation@),
            SqlValueView::Text(endpoint_id@),
        ])),
{
    let q = queries.get_endpoint_query("E4");
    let s = statement2("", text_param(annotation), text_param(endpoint_id));
    keyed_statement(q, s.params)
}

/// `E5`: delete an endpoint.
pub fn delete_endpoint_statement(queries: &QueryMap, endpoint_id: &str) -> (r: EdmsResult<SqlStatement>)
    ensures
        keyed_result(r, keyed_view(query_text(queries.endpoints@, "E5"@), seq![SqlValueView::Text(endpoint_id@)])),
{
    let q = queries.get_endpoint_query("E5");
    let s = statement1("", text_param(endpoint_id));
    keyed_statement(q, s.params)
}

/// `R6`: the highest request number of an endpoint.
pub fn next_request_number_statement(queries: &QueryMap, endpoint_id: &str) -> (r: EdmsResult<SqlStatement>)
    ensures
        keyed_result(r, keyed_view(query_text(queries.requests@, "R6"@), seq![SqlValueView::Text(endpoint_id@)])),
{
    let q = queries.get_request_query("R6");
    let s = statement1("", text_param(endpoint_id));
    keyed_statement(q, s.params)
}

/// `R1`: record a request (endpoint, number, file, method).
pub fn insert_request_metadata_statement(
    queries: &QueryMap,
    endpoint_id: &str,
    request_number: i32,
    file_path: &str,
    method: &str,
) -> (r: EdmsResult<SqlStatement>)
    ensures
        keyed_result(r, keyed_view(query_text(queries.requests@, "R1"@), seq![
            SqlValueView::Text(endpoint_id@),
            SqlValueView::Integer(request_number as int),
            SqlValueView::Text(file_path@),
            SqlValueView::Text(method@),
        ])),
{
    let q = queries.get_request_query("R1");
    let s = statement4("", text_param(endpoint_id), SqlValue::Integer(request_number as i64), text_param(file_path), text_param(method));
    keyed_statement(q, s.params)
}

/// `RES1`: record a response (endpoint, number, file, status, time).
pub fn insert_response_metadata_statement(
    queries: &QueryMap,
    endpoint_id: &str,
    request_number: i32,
    file_path: &str,
    status_code: i32,
    response_time_ms: Option<i32>,
) -> (r: EdmsResult<SqlStatement>)
    ensures
        keyed_result(r, keyed_view(query_text(queries.responses@, "RES1"@), seq![
            SqlValueView::Text(endpoint_id@),
            SqlValueView::Integer(request_number as int),
            SqlValueView::Text(file_path@),
            SqlValueView::Integer(status_code as int),
            opt_int_view(response_time_ms),
        ])),
{
    let q = queries.get_response_query("RES1");
    let s = statement5("", text_param(endpoint_id), SqlValue::Integer(request_number as i64), text_param(file_path),
        SqlValue::Integer(status_code as i64), opt_int_param(response_time_ms));
    keyed_statement(q, s.params)
}

/// The number of history rows.
pub fn history_count_statement() -> (s: SqlStatement)
    ensures
        s@ == (SqlStatementView { sql: "SELECT COUNT(*) FROM history"@, params: Seq::empty() }),
{
    statement0("SELECT COUNT(*) FROM history")
}

/// Delete all history.
pub fn clear_history_statement() -> (s: SqlStatement)
    ensures
        s@ == (SqlStatementView { sql: "DELETE FROM history"@, params: Seq::empty() }),
{
    statement0("DELETE FROM history")
}

/// Record a history entry.
pub fn insert_history_statement(endpoint_id: &str, action: &str, details: Option<&str>) -> (s: SqlStatement)
    ensures
        s@ == (SqlStatementView {
            sql: "INSERT INTO history (endpoint_id, action, details) VALUES (?, ?, ?)"@,
            params: seq![
                SqlValueView::Text(endpoint_id@),
                SqlValueView::Text(action@),
                opt_text_view(opt_str_view(details)),
            ],
        }),
{
    statement3("INSERT INTO history (endpoint_id, action, details) VALUES (?, ?, ?)",
        text_param(endpoint_id), text_param(action), opt_text_param(details))
}

/// The endpoint ids of the history, most recent first.
pub fn list_history_endpoint_ids_statement() -> (s: SqlStatement)
    ensures
        s@ == (SqlStatementView { sql: "SELECT endpoint_id FROM history ORDER BY timestamp DESC"@, params: Seq::empty() }),
{
    statement0("SELECT endpoint_id FROM history ORDER BY timestamp DESC")
}

/// The full history rows, most recent first.
pub fn list_history_statement() -> (s: SqlStatement)
    ensures
        s@ == (SqlStatementView {
            sql: "SELECT id, endpoint_id, action, details, timestamp FROM history ORDER BY timestamp DESC"@,
            params: Seq::empty(),
        }),
{
    statement0("SELECT id, endpoint_id, action, details, timestamp FROM history ORDER BY timestamp DESC")
}

pub open spec fn count_in_folder_view(folder: Seq<char>) -> SqlStatementView {
    SqlStatementView {
        sql: "SELECT COUNT(*) FROM bookmarks WHERE folder = ?"@,
        params: seq![SqlValueView::Text(folder)],
    }
}

pub open spec fn count_id_in_folder_view(folder: Seq<char>, endpoint_id: Seq<char>) -> SqlStatementView {
    SqlStatementView {
        sql: "SELECT COUNT(*) FROM bookmarks WHERE folder = ? AND endpoint_id = ?"@,
        params: seq![SqlValueView::Text(folder), SqlValueView::Text(endpoint_id)],
    }
}

pub open spec fn clear_folder_view(folder: Seq<char>) -> SqlStatementView {
    SqlStatementView {
        sql: "DELETE FROM bookmarks WHERE folder = ?"@,
        params: seq![SqlValueView::Text(folder)],
    }
}

pub open spec fn list_folder_view(folder: Seq<char>) -> SqlStatementView {
    SqlStatementView {
        sql: "SELECT endpoint_id FROM bookmarks WHERE folder = ? ORDER BY timestamp DESC"@,
        params: seq![SqlValueView::Text(folder)],
    }
}

pub open spec fn insert_bookmark_view(endpoint_id: Seq<char>, folder: Seq<char>, notes: Option<Seq<char>>) -> SqlStatementView {
    SqlStatementView {
        sql: "INSERT INTO bookmarks (endpoint_id, folder, notes) VALUES (?, ?, ?)"@,
        params: seq![SqlValueView::Text(endpoint_id), SqlValueView::Text(folder), opt_text_view(notes)],
    }
}

pub open spec fn copy_bookmark_view(endpoint_id: Seq<char>, folder: Seq<char>) -> SqlStatementView {
    SqlStatementView {
        sql: "INSERT INTO bookmarks (endpoint_id, folder, notes) VALUES (?, ?, NULL)"@,
        params: seq![SqlValueView::Text(endpoint_id), SqlValueView::Text(folder)],
    }
}

pub open spec fn delete_id_in_folder_view(folder: Seq<char>, endpoint_id: Seq<char>) -> SqlStatementView {
    SqlStatementView {
        sql: "DELETE FROM bookmarks WHERE folder = ? AND endpoint_id = ?"@,
        params: seq![SqlValueView::Text(folder), SqlValueView::Text(endpoint_id)],
    }
}

/// The number of bookmarks in a folder.
pub fn count_in_folder_statement(folder: &str) -> (s: SqlStatement)
    ensures
        s@ == count_in_folder_view(folder@),
{
    statement1("SELECT COUNT(*) FROM bookmarks WHERE folder = ?", text_param(folder))
}

/// The number of bookmarks of one endpoint in a folder.
pub fn count_id_in_folder_statement(folder: &str, endpoint_id: &str) -> (s: SqlStatement)
    ensures
        s@ == count_id_in_folder_view(folder@, endpoint_id@),
{
    statement2("SELECT COUNT(*) FROM bookmarks WHERE folder = ? AND endpoint_id = ?", text_param(folder), text_param(endpoint_id))
}

/// Delete every bookmark of a folder.
pub fn clear_folder_statement(folder: &str) -> (s: SqlStatement)
    ensures
        s@ == clear_folder_view(folder@),
{
    statement1("DELETE FROM bookmarks WHERE folder = ?", text_param(folder))
}

/// The endpoint ids bookmarked in a folder, most recent first.
pub fn list_folder_statement(folder: &str) -> (s: SqlStatement)
    ensures
        s@ == list_folder_view(folder@),
{
    statement1("SELECT endpoint_id FROM bookmarks WHERE folder = ? ORDER BY timestamp DESC", text_param(folder))
}

/// Bookmark an endpoint in a folder, with notes.
pub fn insert_bookmark_statement(endpoint_id: &str, folder: &str, notes: Option<&str>) -> (s: SqlStatement)
    ensures
        s@ == insert_bookmark_view(endpoint_id@, folder@, opt_str_view(notes)),
{
    statement3("INSERT INTO bookmarks (endpoint_id, folder, notes) VALUES (?, ?, ?)", text_param(endpoint_id), text_param(folder), opt_text_param(notes))
}

/// Bookmark an endpoint in a folder, without notes.
pub fn copy_bookmark_statement(endpoint_id: &str, folder: &str) -> (s: SqlStatement)
    ensures
        s@ == copy_bookmark_view(endpoint_id@, folder@),
{
    statement2("INSERT INTO bookmarks (endpoint_id, folder, notes) VALUES (?, ?, NULL)", text_param(endpoint_id), text_param(folder))
}

/// Remove the bookmarks of one endpoint from a folder.
pub fn delete_id_in_folder_statement(folder: &str, endpoint_id: &str) -> (s: SqlStatement)
    ensures
        s@ == delete_id_in_folder_view(folder@, endpoint_id@),
{
    statement2("DELETE FROM bookmarks WHERE folder = ? AND endpoint_id = ?", text_param(folder), text_param(endpoint_id))
}

/// The number of active bookmarks.
pub fn bookmarks_count_active_statement() -> (s: SqlStatement)
    ensures
        s@ == count_in_folder_view(ACTIVE_FOLDER@),
{
    count_in_folder_statement(ACTIVE_FOLDER)
}

/// Empty the active workspace.
pub fn clear_bookmarks_active_statement() -> (s: SqlStatement)
    ensures
        s@ == clear_folder_view(ACTIVE_FOLDER@),
{
    clear_folder_statement(ACTIVE_FOLDER)
}

/// The endpoint ids of the active workspace, most recent first.
pub fn list_bookmarked_endpoints_active_statement() -> (s: SqlStatement)
    ensures
        s@ == list_folder_view(ACTIVE_FOLDER@),
{
    list_folder_statement(ACTIVE_FOLDER)
}

/// Remove an endpoint from the active workspace.
pub fn delete_bookmark_active_statement(endpoint_id: &str) -> (s: SqlStatement)
    ensures
        s@ == delete_id_in_folder_view(ACTIVE_FOLDER@, endpoint_id@),
{
    delete_id_in_folder_statement(ACTIVE_FOLDER, endpoint_id)
}

/// Empty the session backup.
pub fn clear_session_backup_statement() -> (s: SqlStatement)
    ensures
        s@ == clear_folder_view(SESSION_BACKUP_FOLDER@),
{
    clear_folder_statement(SESSION_BACKUP_FOLDER)
}

/// A count read from a one-column `COUNT(*)` result: the first row, `0` when
/// there is none, converted with `as usize`.
pub fn count_from_rows(rows: &Vec<i64>) -> (c: usize)
    ensures
        c == first_or_zero(rows@) as usize,
{
    first_count(rows) as usize
}

/// The number that follows the highest request number, or `1` when the
/// endpoint has no request yet.
pub open spec fn next_number_after(rows: Seq<Option<i32>>) -> int {
    if rows.len() > 0 && rows[0] is Some { rows[0]->Some_0 + 1 } else { 1 }
}

/// The next request number from the result of `R6` (see [`next_number_after`]).
pub fn next_number_from_rows(rows: &Vec<Option<i32>>) -> (n: i32)
    requires
        !(rows@.len() > 0 && rows@[0] == Some(i32::MAX)),
    ensures
        n as int == next_number_after(rows@),
{
    if rows.len() > 0 {
        match rows[0] {
            Some(max) => max + 1,
            None => 1,
        }
    } else {
        1
    }
}

/// The first endpoint of a lookup result, if any.
pub fn first_endpoint(rows: Vec<EndpointDto>) -> (r: Option<EndpointDto>)
    ensures
        r == (if rows@.len() > 0 { Some(rows@[0]) } else { None }),
{
    if rows.len() > 0 {
        Some(rows[0].duplicate())
    } else {
        None
    }
}

/// The names of all tables, in order.
pub fn list_tables_statement() -> (s: SqlStatement)
    ensures
        s@ == (SqlStatementView { sql: "SELECT name FROM sqlite_master WHERE type='table' ORDER BY name"@, params: Seq::empty() }),
{
    statement0("SELECT name FROM sqlite_master WHERE type='table' ORDER BY name")
}

/// The table named `table_name`, if it exists.
pub fn table_exists_statement(table_name: &str) -> (s: SqlStatement)
    ensures
        s@ == (SqlStatementView {
            sql: "SELECT name FROM sqlite_master WHERE type='table' AND name = ?"@,
            params: seq![SqlValueView::Text(table_name@)],
        }),
{
    statement1("SELECT name FROM sqlite_master WHERE type='table' AND name = ?", text_param(table_name))
}

/// A table exists when its lookup returns a row.
pub fn table_exists_from_rows(rows: &Vec<String>) -> (b: bool)
    ensures
        b == (rows@.len() > 0),
{
    rows.len() > 0
}

} // verus!
