//! The catalogue of named SQL queries, grouped by table family, as loaded from
//! the application's query file.

use vstd::prelude::*;
use vstd::hash_map::StringHashMap;
use crate::sql::opt_str_view;

verus! {

/// One named query: a help text and the SQL.
#[derive(Debug, Clone, PartialEq, Eq)]
pub struct QueryConfig {
    pub help: String,
    pub query: String,
}

/// The query catalogue: for each table family, the queries by key.
pub struct QueryMap {
    pub endpoints: StringHashMap<QueryConfig>,
    pub requests: StringHashMap<QueryConfig>,
    pub responses: StringHashMap<QueryConfig>,
    pub tags: StringHashMap<QueryConfig>,
}

/// The SQL text stored under `key` in one family, if any.
pub open spec fn query_text(family: Map<Seq<char>, QueryConfig>, key: Seq<char>) -> Option<Seq<char>> {
    if family.contains_key(key) { Some(family[key].query@) } else { None }
}

fn lookup<'a>(family: &'a StringHashMap<QueryConfig>, key: &str) -> (r: Option<&'a str>)
    ensures
        opt_str_view(r) == query_text(family@, key@),
{
    match family.get(key) {
        Some(c) => Some(c.query.as_str()),
        None => None,
    }
}

impl QueryMap {
    /// An empty catalogue.
    pub fn new() -> (m: QueryMap)
        ensures
            m.endpoints@ == Map::<Seq<char>, QueryConfig>::empty(),
            m.requests@ == Map::<Seq<char>, QueryConfig>::empty(),
            m.responses@ == Map::<Seq<char>, QueryConfig>::empty(),
            m.tags@ == Map::<Seq<char>, QueryConfig>::empty(),
    {
        QueryMap {
            endpoints: StringHashMap::new(),
            requests: StringHashMap::new(),
            responses: StringHashMap::new(),
            tags: StringHashMap::new(),
        }
    }

    /// The SQL of the endpoint query `key`.
    pub fn get_endpoint_query(&self, key: &str) -> (r: Option<&str>)
        ensures
            opt_str_view(r) == query_text(self.endpoints@, key@),
    {
        lookup(&self.endpoints, key)
    }

    /// The SQL of the request query `key`.
    pub fn get_request_query(&self, key: &str) -> (r: Option<&str>)
        ensures
            opt_str_view(r) == query_text(self.requests@, key@),
    {
        lookup(&self.requests, key)
    }

    /// The SQL of the response query `key`.
    pub fn get_response_query(&self, key: &str) -> (r: Option<&str>)
        ensures
            opt_str_view(r) == query_text(self.responses@, key@),
    {
        lookup(&self.responses, key)
    }

    /// The SQL of the tag query `key`.
    pub fn get_tag_query(&self, key: &str) -> (r: Option<&str>)
        ensures
            opt_str_view(r) == query_text(self.tags@, key@),
    {
        lookup(&self.tags, key)
    }
}

} // verus!
