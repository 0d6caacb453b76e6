use edms::config::{check_endpoint_capacity, AppConfig, LimitsConfig, ServerConfig};
use edms::error::{result_to_code, EdmsError, EdmsResult};
use edms::sqlite_checks::{
    check_sqlite_consistency_code, check_sqlite_exists, check_sqlite_exists_code, check_sqlite_lock_code,
    consistency_verdict, execute_sqlite_query_code, initialize_sqlite_schema_code, lock_probe_error, query_failure,
};

#[test]
fn status_codes_of_outcomes() {
    assert_eq!(result_to_code::<usize>(Ok(3)), 0);
    assert_eq!(result_to_code::<()>(Err(EdmsError::QueryExecutionFailed(105))), 105);
    assert_eq!(result_to_code::<()>(Err(EdmsError::UnknownError)), -1);
    assert_eq!(result_to_code::<()>(Err(EdmsError::SqliteFileLocked)), -1);
}

#[test]
fn error_messages() {
    assert_eq!(EdmsError::UnknownError.message(), "Unknown error occurred");
    assert_eq!(EdmsError::InvalidJson("eof".into()).message(), "Invalid JSON format: eof");
    assert_eq!(EdmsError::SqliteError("no such table".into()).message(), "SQLite error: no such table");
    assert_eq!(EdmsError::SqliteFileNotFound.message(), "SQLite file not found");
    assert_eq!(EdmsError::SqliteFileLocked.message(), "SQLite file locked");
    assert_eq!(EdmsError::SqliteConsistencyFailed.message(), "SQLite consistency check failed");
    assert_eq!(EdmsError::SqliteInitializationFailed.message(), "SQLite initialization failed");
    assert_eq!(EdmsError::QueryExecutionFailed(103).message(), "Query execution failed (code: 103)");
    assert_eq!(EdmsError::QueryExecutionFailed(-7).message(), "Query execution failed (code: -7)");
    assert_eq!(EdmsError::IoError("denied".into()).message(), "IO error: denied");
}

#[test]
fn sqlite_checks() {
    assert_eq!(check_sqlite_exists(true), Ok(()));
    assert_eq!(check_sqlite_exists(false), Err(EdmsError::SqliteFileNotFound));
    assert_eq!(check_sqlite_exists_code(true), 0);
    assert_eq!(check_sqlite_exists_code(false), -1);
    assert_eq!(lock_probe_error("database is locked".into()), EdmsError::SqliteFileLocked);
    assert_eq!(lock_probe_error("disk I/O error".into()), EdmsError::SqliteError("disk I/O error".into()));
    assert_eq!(check_sqlite_lock_code(&Ok(())), 0);
    assert_eq!(check_sqlite_lock_code(&Err(EdmsError::SqliteFileLocked)), -1);
    assert_eq!(consistency_verdict("ok".into()), Ok("ok".to_string()));
    assert_eq!(consistency_verdict("*** in database main ***".into()), Err(EdmsError::SqliteConsistencyFailed));
    let passed: EdmsResult<String> = Ok("ok".into());
    assert_eq!(check_sqlite_consistency_code(&passed), 0);
    assert_eq!(check_sqlite_consistency_code(&Err(EdmsError::SqliteConsistencyFailed)), -1);
    assert_eq!(query_failure(4), EdmsError::QueryExecutionFailed(104));
    assert_eq!(execute_sqlite_query_code(Err(query_failure(4))), 104);
    assert_eq!(execute_sqlite_query_code(Ok(2)), 0);
    assert_eq!(execute_sqlite_query_code(Err(EdmsError::UnknownError)), -1);
    assert_eq!(initialize_sqlite_schema_code::<()>(&Ok(())), 0);
    assert_eq!(initialize_sqlite_schema_code::<()>(&Err(EdmsError::SqliteError("x".into()))), -1);
}

#[test]
fn config_defaults_and_capacity() {
    let d = AppConfig::default();
    assert_eq!(d.server.host, "0.0.0.0");
    assert_eq!(d.server.port, 3000);
    assert_eq!(d.limits.max_endpoints, 1000);
    assert_eq!(d.limits.max_requests_per_minute, 100);
    assert_eq!(d.limits.max_response_size_bytes, 10 * 1024 * 1024);
    let custom = AppConfig {
        server: ServerConfig { host: "127.0.0.1".into(), port: 8080 },
        limits: LimitsConfig { max_endpoints: 2, max_requests_per_minute: 5, max_response_size_bytes: 10 },
    };
    assert_eq!(AppConfig::from_file_or_default(Some(custom.clone())), custom);
    assert_eq!(AppConfig::from_file_or_default(None), AppConfig::default());
    assert_eq!(check_endpoint_capacity(&custom.limits, 2), Ok(()));
    assert_eq!(
        check_endpoint_capacity(&custom.limits, 3),
        Err("Configured max_endpoints=2 but server defines 3 endpoints".to_string())
    );
}

#[test]
fn debug_text_matches_derived_debug() {
    let all = vec![
        EdmsError::UnknownError,
        EdmsError::InvalidJson("expected value at line 1 \"x\"\n".into()),
        EdmsError::SqliteError("no such table: h\u{0}".into()),
        EdmsError::SqliteFileNotFound,
        EdmsError::SqliteFileLocked,
        EdmsError::SqliteConsistencyFailed,
        EdmsError::SqliteInitializationFailed,
        EdmsError::QueryExecutionFailed(-12),
        EdmsError::QueryExecutionFailed(107),
        EdmsError::IoError("it's gone".into()),
    ];
    for e in all {
        assert_eq!(e.debug_text(), format!("{e:?}"));
    }
}
