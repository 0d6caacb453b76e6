//! How the service reads the fields of its requests and what it answers,
//! independent of the transport.

use vstd::prelude::*;
use crate::error::EdmsResult;
use crate::events::ServerEvent;
use crate::json::{spec_json_accepts, spec_json_str_field, json_str_field};
use crate::text::{trimmed, trim_str};

verus! {

/// A history entry to record.
pub struct HistoryInput {
    pub endpoint_id: String,
    pub action: String,
    pub details: Option<String>,
}

/// The view of an optional string slice, `default` when absent.
pub open spec fn str_or(o: Option<&str>, default: Seq<char>) -> Seq<char> {
    match o {
        Some(s) => s@,
        None => default,
    }
}

fn owned(o: Option<&str>) -> (r: Option<String>)
    ensures
        r is Some <==> o is Some,
        r is Some ==> r->Some_0@ == o->Some_0@,
{
    match o {
        Some(s) => Some(String::from_str(s)),
        None => None,
    }
}

/// The history entry of a save request: the endpoint id defaults to empty,
/// the action to `test`, and the details are optional.
pub fn history_input(endpoint_id: Option<&str>, action: Option<&str>, details: Option<&str>) -> (h: HistoryInput)
    ensures
        h.endpoint_id@ == str_or(endpoint_id, Seq::empty()),
        h.action@ == str_or(action, "test"@),
        h.details is Some <==> details is Some,
        h.details is Some ==> h.details->Some_0@ == details->Some_0@,
{
    proof { reveal_strlit(""); }
    HistoryInput {
        endpoint_id: String::from_str(match endpoint_id { Some(e) => e, None => "" }),
        action: String::from_str(match action { Some(a) => a, None => "test" }),
        details: owned(details),
    }
}

/// The bookmark of a save request: the endpoint id defaults to empty, the
/// notes are optional.
pub fn bookmark_input(endpoint_id: Option<&str>, notes: Option<&str>) -> (r: (String, Option<String>))
    ensures
        r.0@ == str_or(endpoint_id, Seq::empty()),
        r.1 is Some <==> notes is Some,
        r.1 is Some ==> r.1->Some_0@ == notes->Some_0@,
{
    proof { reveal_strlit(""); }
    (String::from_str(match endpoint_id { Some(e) => e, None => "" }), owned(notes))
}

/// A string field that may be absent, empty when it is.
pub open spec fn field_or_empty(f: Option<Seq<char>>) -> Seq<char> {
    match f {
        Some(v) => v,
        None => Seq::empty(),
    }
}

/// The view of an optional owned string.
pub open spec fn opt_view(o: Option<String>) -> Option<Seq<char>> {
    match o {
        Some(s) => Some(s@),
        None => None,
    }
}

/// The endpoint id of a bookmark message once it has been parsed: `parsed`
/// is `None` when the message is not JSON, and otherwise holds its
/// `endpoint_id` field (`None` when that is missing or not a string). A JSON
/// message gives the field, or empty; any other message gives itself without
/// surrounding whitespace.
pub fn endpoint_id_from_parsed(text: &str, parsed: Option<Option<String>>) -> (id: String)
    ensures
        parsed is Some ==> id@ == field_or_empty(opt_view(parsed->Some_0)),
        parsed is None ==> id@ == trimmed(text@),
{
    match parsed {
        Some(Some(f)) => f,
        Some(None) => String::new(),
        None => String::from_str(trim_str(text)),
    }
}

/// The endpoint id carried by a bookmark message: the `endpoint_id` field
/// when the message is a JSON document (empty when the field is missing or
/// not a string), otherwise the message itself without surrounding
/// whitespace.
pub fn endpoint_id_from_message(text: &str) -> (id: String)
    ensures
        spec_json_accepts(text@) ==> id@ == field_or_empty(spec_json_str_field(text@, "endpoint_id"@)),
        !spec_json_accepts(text@) ==> id@ == trimmed(text@),
{
    let parsed = json_str_field(text, "endpoint_id");
    endpoint_id_from_parsed(text, parsed)
}

/// The greeting for `name`: `Hello, {name}!`.
pub fn hello_message(name: &str) -> (s: String)
    ensures
        s@ == "Hello, "@ + name@ + "!"@,
{
    let mut s = String::from_str("Hello, ");
    s.append(name);
    s.append("!");
    s
}

/// A count that could not be read is shown as `0`.
pub open spec fn shown_count(r: EdmsResult<usize>) -> usize {
    match r {
        Ok(n) => n,
        Err(_) => 0,
    }
}

/// A count as the dashboard and the update events show it (see
/// [`shown_count`]).
pub fn count_or_zero(r: &EdmsResult<usize>) -> (n: usize)
    ensures
        n == shown_count(*r),
{
    match r {
        Ok(n) => *n,
        Err(_) => 0,
    }
}

/// The dashboard's numbers of endpoints, active bookmarks and history
/// entries, each `0` when it could not be read.
pub fn dashboard_counts(endpoints: &EdmsResult<usize>, bookmarks: &EdmsResult<usize>, history: &EdmsResult<usize>) -> (c: (usize, usize, usize))
    ensures
        c == (shown_count(*endpoints), shown_count(*bookmarks), shown_count(*history)),
{
    (count_or_zero(endpoints), count_or_zero(bookmarks), count_or_zero(history))
}

/// The events that announce a loaded collection, in order: the load, then
/// the new size of the active workspace (its count, shown as `0` when it
/// could not be read).
pub fn collection_load_events(collection: &str, moved_to_backup: bool, active_count: &EdmsResult<usize>) -> (v: Vec<ServerEvent>)
    ensures
        v@.len() == 2,
        v@[0] matches ServerEvent::CollectionLoaded { collection: c, moved_to_backup: m }
            && c@ == collection@ && m == moved_to_backup,
        v@[1] == (ServerEvent::BookmarksUpdated { count: shown_count(*active_count) }),
{
    let mut v: Vec<ServerEvent> = Vec::new();
    v.push(ServerEvent::CollectionLoaded { collection: String::from_str(collection), moved_to_backup });
    v.push(ServerEvent::BookmarksUpdated { count: count_or_zero(active_count) });
    v
}

} // verus!
