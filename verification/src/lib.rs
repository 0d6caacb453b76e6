//! Endpoint data management: the decisions, statements and text formats of a
//! collaborative API-testing service, with the database, network and process
//! plumbing left to the embedding application.

pub mod text;
pub mod error;
pub mod sql;
pub mod queries;
pub mod statements;
pub mod procedures;
pub mod paths;
pub mod events;
pub mod timer;
pub mod test_run;
pub mod lookup;
pub mod callback;
pub mod worker;
pub mod json;
pub mod config;
pub mod sqlite_checks;
pub mod handlers;
pub mod schema;
pub mod names;
pub mod bookmark_table;
