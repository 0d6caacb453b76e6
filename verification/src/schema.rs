//! The database schema: the statements that create the tables and indexes,
//! each safe to run against a database that already has them.

use vstd::prelude::*;
use crate::text::{starts_with, occurs_in};

verus! {

/// The schema statements, in the order they are run.
pub open spec fn schema_sql() -> Seq<Seq<char>> {
    seq![
        "CREATE TABLE IF NOT EXISTS endpoints (\n            id INTEGER PRIMARY KEY AUTOINCREMENT,\n            endpoint_id TEXT UNIQUE NOT NULL,\n            endpoint_str TEXT NOT NULL,\n            annotation TEXT,\n            created_at TIMESTAMP DEFAULT CURRENT_TIMESTAMP,\n            updated_at TIMESTAMP DEFAULT CURRENT_TIMESTAMP\n        )"@,
        "CREATE INDEX IF NOT EXISTS idx_endpoints_id ON endpoints(endpoint_id)"@,
        "CREATE INDEX IF NOT EXISTS idx_endpoints_str ON endpoints(endpoint_str)"@,
        "CREATE TABLE IF NOT EXISTS request_metadata (\n            id INTEGER PRIMARY KEY AUTOINCREMENT,\n            endpoint_id TEXT NOT NULL,\n            request_number INTEGER NOT NULL,\n            file_path TEXT NOT NULL,\n            method TEXT,\n            timestamp TIMESTAMP DEFAULT CURRENT_TIMESTAMP\n        )"@,
        "CREATE INDEX IF NOT EXISTS idx_request_endpoint ON request_metadata(endpoint_id)"@,
        "CREATE INDEX IF NOT EXISTS idx_request_timestamp ON request_metadata(timestamp)"@,
        "CREATE INDEX IF NOT EXISTS idx_request_method ON request_metadata(method)"@,
        "CREATE TABLE IF NOT EXISTS response_metadata (\n            id INTEGER PRIMARY KEY AUTOINCREMENT,\n            endpoint_id TEXT NOT NULL,\n            request_number INTEGER NOT NULL,\n            file_path TEXT NOT NULL,\n            status_code INTEGER,\n            exit_code INTEGER,\n            response_time_ms INTEGER,\n            timestamp TIMESTAMP DEFAULT CURRENT_TIMESTAMP\n        )"@,
        "CREATE INDEX IF NOT EXISTS idx_response_endpoint ON response_metadata(endpoint_id)"@,
        "CREATE INDEX IF NOT EXISTS idx_response_status ON response_metadata(status_code)"@,
        "CREATE INDEX IF NOT EXISTS idx_response_timestamp ON response_metadata(timestamp)"@,
        "CREATE TABLE IF NOT EXISTS metadata (\n            endpoint_id TEXT PRIMARY KEY,\n            request_count INTEGER DEFAULT 0,\n            response_count INTEGER DEFAULT 0,\n            data_size_bytes INTEGER DEFAULT 0,\n            last_tested TIMESTAMP,\n            avg_response_time_ms INTEGER\n        )"@,
        "CREATE TABLE IF NOT EXISTS tags (\n            id INTEGER PRIMARY KEY AUTOINCREMENT,\n            endpoint_id TEXT NOT NULL,\n            tag TEXT NOT NULL,\n            created_at TIMESTAMP DEFAULT CURRENT_TIMESTAMP,\n            UNIQUE(endpoint_id, tag)\n        )"@,
        "CREATE INDEX IF NOT EXISTS idx_tags_endpoint ON tags(endpoint_id)"@,
        "CREATE INDEX IF NOT EXISTS idx_tags_tag ON tags(tag)"@,
        "CREATE TABLE IF NOT EXISTS bookmarks (\n            id INTEGER PRIMARY KEY AUTOINCREMENT,\n            endpoint_id TEXT NOT NULL,\n            folder TEXT,\n            notes TEXT,\n            timestamp TIMESTAMP DEFAULT CURRENT_TIMESTAMP\n        )"@,
        "CREATE INDEX IF NOT EXISTS idx_bookmarks_endpoint ON bookmarks(endpoint_id)"@,
        "CREATE INDEX IF NOT EXISTS idx_bookmarks_folder ON bookmarks(folder)"@,
        "CREATE TABLE IF NOT EXISTS history (\n            id INTEGER PRIMARY KEY AUTOINCREMENT,\n            endpoint_id TEXT NOT NULL,\n            action TEXT NOT NULL,\n            details TEXT,\n            timestamp TIMESTAMP DEFAULT CURRENT_TIMESTAMP\n        )"@,
        "CREATE INDEX IF NOT EXISTS idx_history_endpoint ON history(endpoint_id)"@,
        "CREATE INDEX IF NOT EXISTS idx_history_timestamp ON history(timestamp)"@,
        "CREATE INDEX IF NOT EXISTS idx_history_action ON history(action)"@,
    ]
}

/// The schema statements, in the order they are run (see [`schema_sql`]).
pub fn schema_statements() -> (r: Vec<&'static str>)
    ensures
        r@.len() == schema_sql().len(),
        forall|i: int| 0 <= i < r@.len() ==> #[trigger] r@[i]@ == schema_sql()[i],
{
    let mut r: Vec<&'static str> = Vec::new();
    r.push("CREATE TABLE IF NOT EXISTS endpoints (\n            id INTEGER PRIMARY KEY AUTOINCREMENT,\n            endpoint_id TEXT UNIQUE NOT NULL,\n            endpoint_str TEXT NOT NULL,\n            annotation TEXT,\n            created_at TIMESTAMP DEFAULT CURRENT_TIMESTAMP,\n            updated_at TIMESTAMP DEFAULT CURRENT_TIMESTAMP\n        )");
    r.push("CREATE INDEX IF NOT EXISTS idx_endpoints_id ON endpoints(endpoint_id)");
    r.push("CREATE INDEX IF NOT EXISTS idx_endpoints_str ON endpoints(endpoint_str)");
    r.push("CREATE TABLE IF NOT EXISTS request_metadata (\n            id INTEGER PRIMARY KEY AUTOINCREMENT,\n            endpoint_id TEXT NOT NULL,\n            request_number INTEGER NOT NULL,\n            file_path TEXT NOT NULL,\n            method TEXT,\n            timestamp TIMESTAMP DEFAULT CURRENT_TIMESTAMP\n        )");
    r.push("CREATE INDEX IF NOT EXISTS idx_request_endpoint ON request_metadata(endpoint_id)");
    r.push("CREATE INDEX IF NOT EXISTS idx_request_timestamp ON request_metadata(timestamp)");
    r.push("CREATE INDEX IF NOT EXISTS idx_request_method ON request_metadata(method)");
    r.push("CREATE TABLE IF NOT EXISTS response_metadata (\n            id INTEGER PRIMARY KEY AUTOINCREMENT,\n            endpoint_id TEXT NOT NULL,\n            request_number INTEGER NOT NULL,\n            file_path TEXT NOT NULL,\n            status_code INTEGER,\n            exit_code INTEGER,\n            response_time_ms INTEGER,\n            timestamp TIMESTAMP DEFAULT CURRENT_TIMESTAMP\n        )");
    r.push("CREATE INDEX IF NOT EXISTS idx_response_endpoint ON response_metadata(endpoint_id)");
    r.push("CREATE INDEX IF NOT EXISTS idx_response_status ON response_metadata(status_code)");
    r.push("CREATE INDEX IF NOT EXISTS idx_response_timestamp ON response_metadata(timestamp)");
    r.push("CREATE TABLE IF NOT EXISTS metadata (\n            endpoint_id TEXT PRIMARY KEY,\n            request_count INTEGER DEFAULT 0,\n            response_count INTEGER DEFAULT 0,\n            data_size_bytes INTEGER DEFAULT 0,\n            last_tested TIMESTAMP,\n            avg_response_time_ms INTEGER\n        )");
    r.push("CREATE TABLE IF NOT EXISTS tags (\n            id INTEGER PRIMARY KEY AUTOINCREMENT,\n            endpoint_id TEXT NOT NULL,\n            tag TEXT NOT NULL,\n            created_at TIMESTAMP DEFAULT CURRENT_TIMESTAMP,\n            UNIQUE(endpoint_id, tag)\n        )");
    r.push("CREATE INDEX IF NOT EXISTS idx_tags_endpoint ON tags(endpoint_id)");
    r.push("CREATE INDEX IF NOT EXISTS idx_tags_tag ON tags(tag)");
    r.push("CREATE TABLE IF NOT EXISTS bookmarks (\n            id INTEGER PRIMARY KEY AUTOINCREMENT,\n            endpoint_id TEXT NOT NULL,\n            folder TEXT,\n            notes TEXT,\n            timestamp TIMESTAMP DEFAULT CURRENT_TIMESTAMP\n        )");
    r.push("CREATE INDEX IF NOT EXISTS idx_bookmarks_endpoint ON bookmarks(endpoint_id)");
    r.push("CREATE INDEX IF NOT EXISTS idx_bookmarks_folder ON bookmarks(folder)");
    r.push("CREATE TABLE IF NOT EXISTS history (\n            id INTEGER PRIMARY KEY AUTOINCREMENT,\n            endpoint_id TEXT NOT NULL,\n            action TEXT NOT NULL,\n            details TEXT,\n            timestamp TIMESTAMP DEFAULT CURRENT_TIMESTAMP\n        )");
    r.push("CREATE INDEX IF NOT EXISTS idx_history_endpoint ON history(endpoint_id)");
    r.push("CREATE INDEX IF NOT EXISTS idx_history_timestamp ON history(timestamp)");
    r.push("CREATE INDEX IF NOT EXISTS idx_history_action ON history(action)");
    r
}

/// A statement that creates a table or an index only when it does not exist.
pub open spec fn creates_if_missing(s: Seq<char>) -> bool {
    starts_with(s, "CREATE TABLE IF NOT EXISTS "@) || starts_with(s, "CREATE INDEX IF NOT EXISTS "@)
}

/// Initialising the schema is idempotent: every statement creates its table
/// or index only if it is missing, so running the schema on an initialised
/// database changes nothing and does not fail on existing objects.
pub proof fn law_schema_idempotent()
    ensures
        forall|i: int| 0 <= i < schema_sql().len() ==> creates_if_missing(#[trigger] schema_sql()[i]),
{
    reveal_strlit("CREATE TABLE IF NOT EXISTS ");
    reveal_strlit("CREATE INDEX IF NOT EXISTS ");
    reveal_strlit("CREATE TABLE IF NOT EXISTS endpoints (\n            id INTEGER PRIMARY KEY AUTOINCREMENT,\n            endpoint_id TEXT UNIQUE NOT NULL,\n            endpoint_str TEXT NOT NULL,\n            annotation TEXT,\n            created_at TIMESTAMP DEFAULT CURRENT_TIMESTAMP,\n            updated_at TIMESTAMP DEFAULT CURRENT_TIMESTAMP\n        )");
    reveal_strlit("CREATE INDEX IF NOT EXISTS idx_endpoints_id ON endpoints(endpoint_id)");
    reveal_strlit("CREATE INDEX IF NOT EXISTS idx_endpoints_str ON endpoints(endpoint_str)");
    reveal_strlit("CREATE TABLE IF NOT EXISTS request_metadata (\n            id INTEGER PRIMARY KEY AUTOINCREMENT,\n            endpoint_id TEXT NOT NULL,\n            request_number INTEGER NOT NULL,\n            file_path TEXT NOT NULL,\n            method TEXT,\n            timestamp TIMESTAMP DEFAULT CURRENT_TIMESTAMP\n        )");
    reveal_strlit("CREATE INDEX IF NOT EXISTS idx_request_endpoint ON request_metadata(endpoint_id)");
    reveal_strlit("CREATE INDEX IF NOT EXISTS idx_request_timestamp ON request_metadata(timestamp)");
    reveal_strlit("CREATE INDEX IF NOT EXISTS idx_request_method ON request_metadata(method)");
    reveal_strlit("CREATE TABLE IF NOT EXISTS response_metadata (\n            id INTEGER PRIMARY KEY AUTOINCREMENT,\n            endpoint_id TEXT NOT NULL,\n            request_number INTEGER NOT NULL,\n            file_path TEXT NOT NULL,\n            status_code INTEGER,\n            exit_code INTEGER,\n            response_time_ms INTEGER,\n            timestamp TIMESTAMP DEFAULT CURRENT_TIMESTAMP\n        )");
    reveal_strlit("CREATE INDEX IF NOT EXISTS idx_response_endpoint ON response_metadata(endpoint_id)");
    reveal_strlit("CREATE INDEX IF NOT EXISTS idx_response_status ON response_metadata(status_code)");
    reveal_strlit("CREATE INDEX IF NOT EXISTS idx_response_timestamp ON response_metadata(timestamp)");
    reveal_strlit("CREATE TABLE IF NOT EXISTS metadata (\n            endpoint_id TEXT PRIMARY KEY,\n            request_count INTEGER DEFAULT 0,\n            response_count INTEGER DEFAULT 0,\n            data_size_bytes INTEGER DEFAULT 0,\n            last_tested TIMESTAMP,\n            avg_response_time_ms INTEGER\n        )");
    reveal_strlit("CREATE TABLE IF NOT EXISTS tags (\n            id INTEGER PRIMARY KEY AUTOINCREMENT,\n            endpoint_id TEXT NOT NULL,\n            tag TEXT NOT NULL,\n            created_at TIMESTAMP DEFAULT CURRENT_TIMESTAMP,\n            UNIQUE(endpoint_id, tag)\n        )");
    reveal_strlit("CREATE INDEX IF NOT EXISTS idx_tags_endpoint ON tags(endpoint_id)");
    reveal_strlit("CREATE INDEX IF NOT EXISTS idx_tags_tag ON tags(tag)");
    reveal_strlit("CREATE TABLE IF NOT EXISTS bookmarks (\n            id INTEGER PRIMARY KEY AUTOINCREMENT,\n            endpoint_id TEXT NOT NULL,\n            folder TEXT,\n            notes TEXT,\n            timestamp TIMESTAMP DEFAULT CURRENT_TIMESTAMP\n        )");
    reveal_strlit("CREATE INDEX IF NOT EXISTS idx_bookmarks_endpoint ON bookmarks(endpoint_id)");
    reveal_strlit("CREATE INDEX IF NOT EXISTS idx_bookmarks_folder ON bookmarks(folder)");
    reveal_strlit("CREATE TABLE IF NOT EXISTS history (\n            id INTEGER PRIMARY KEY AUTOINCREMENT,\n            endpoint_id TEXT NOT NULL,\n            action TEXT NOT NULL,\n            details TEXT,\n            timestamp TIMESTAMP DEFAULT CURRENT_TIMESTAMP\n        )");
    reveal_strlit("CREATE INDEX IF NOT EXISTS idx_history_endpoint ON history(endpoint_id)");
    reveal_strlit("CREATE INDEX IF NOT EXISTS idx_history_timestamp ON history(timestamp)");
    reveal_strlit("CREATE INDEX IF NOT EXISTS idx_history_action ON history(action)");
    assert forall|i: int| 0 <= i < schema_sql().len() implies creates_if_missing(#[trigger] schema_sql()[i]) by {
        let s = schema_sql()[i];
        assert(s.subrange(0, 27) =~= "CREATE TABLE IF NOT EXISTS "@ || s.subrange(0, 27) =~= "CREATE INDEX IF NOT EXISTS "@);
    }
}

/// The schema keeps endpoint ids unique: the statement that creates the
/// endpoints table declares `endpoint_id` as `UNIQUE NOT NULL`, so a second
/// endpoint with an id already stored is refused, and each endpoint id names
/// one endpoint (what the lookups rely on, see `endpoint_ids_unique`).
pub proof fn law_schema_endpoint_ids_unique()
    ensures
        exists|i: int| 0 <= i < schema_sql().len()
            && starts_with(#[trigger] schema_sql()[i], "CREATE TABLE IF NOT EXISTS endpoints ("@)
            && occurs_in(schema_sql()[i], "endpoint_id TEXT UNIQUE NOT NULL"@),
{
    reveal_strlit("CREATE TABLE IF NOT EXISTS endpoints (");
    reveal_strlit("endpoint_id TEXT UNIQUE NOT NULL");
    reveal_strlit("CREATE TABLE IF NOT EXISTS endpoints (\n            id INTEGER PRIMARY KEY AUTOINCREMENT,\n            endpoint_id TEXT UNIQUE NOT NULL,\n            endpoint_str TEXT NOT NULL,\n            annotation TEXT,\n            created_at TIMESTAMP DEFAULT CURRENT_TIMESTAMP,\n            updated_at TIMESTAMP DEFAULT CURRENT_TIMESTAMP\n        )");
    let s = schema_sql()[0];
    assert(s.subrange(0, 38) =~= "CREATE TABLE IF NOT EXISTS endpoints ("@);
    let needle = "endpoint_id TEXT UNIQUE NOT NULL"@;
    assert(s.subrange(101int, 101int + needle.len()) =~= needle);
    assert(occurs_in(s, "endpoint_id TEXT UNIQUE NOT NULL"@));
}

} // verus!
