use edms::error::EdmsError;
use edms::lookup::{endpoints_for_ids_statement, export_markdown, order_by_ids, EachLookup, LookupStep};
use edms::queries::{QueryConfig, QueryMap};
use edms::schema::schema_statements;
use edms::sql::{SqlStatement, SqlValue};
use edms::statements::{
    count_from_rows, first_endpoint, get_endpoint_statement, history_count_statement, insert_endpoint_statement,
    insert_history_statement, insert_response_metadata_statement, list_endpoints_statement, next_number_from_rows,
    table_exists_from_rows, table_exists_statement, EndpointDto,
};

fn cfg(q: &str) -> QueryConfig {
    QueryConfig { help: "h".into(), query: q.into() }
}

fn catalogue() -> QueryMap {
    let mut q = QueryMap::new();
    q.endpoints.insert("E1".into(), cfg("INSERT INTO endpoints (endpoint_id, endpoint_str, annotation) VALUES (?, ?, ?)"));
    q.endpoints.insert("E2".into(), cfg("SELECT id, endpoint_id, endpoint_str, annotation FROM endpoints WHERE endpoint_id = ?"));
    q.responses.insert("RES1".into(), cfg("INSERT INTO response_metadata VALUES (?, ?, ?, ?, ?)"));
    q.tags.insert("T1".into(), cfg("INSERT INTO tags (endpoint_id, tag) VALUES (?, ?)"));
    q
}

fn ep(id: &str, s: &str, a: Option<&str>) -> EndpointDto {
    EndpointDto { endpoint_id: id.into(), endpoint_str: s.into(), annotation: a.map(|x| x.to_string()) }
}

#[test]
fn catalogue_lookups() {
    let q = catalogue();
    assert_eq!(q.get_endpoint_query("E2"), Some("SELECT id, endpoint_id, endpoint_str, annotation FROM endpoints WHERE endpoint_id = ?"));
    assert_eq!(q.get_endpoint_query("E9"), None);
    assert_eq!(q.get_request_query("R1"), None);
    assert_eq!(q.get_response_query("RES1"), Some("INSERT INTO response_metadata VALUES (?, ?, ?, ?, ?)"));
    assert_eq!(q.get_tag_query("T1"), Some("INSERT INTO tags (endpoint_id, tag) VALUES (?, ?)"));
}

#[test]
fn keyed_statements_take_their_parameters_in_order() {
    let q = catalogue();
    let st = insert_endpoint_statement(&q, &ep("e1", "http://x", None)).unwrap();
    assert_eq!(st.params, vec![SqlValue::Text("e1".into()), SqlValue::Text("http://x".into()), SqlValue::Null]);
    assert_eq!(get_endpoint_statement(&q, "e1").unwrap().params, vec![SqlValue::Text("e1".into())]);
    assert_eq!(list_endpoints_statement(&q), Err(EdmsError::UnknownError));
    let r = insert_response_metadata_statement(&q, "e1", 3, "f.json", 200, None).unwrap();
    assert_eq!(r.params[3], SqlValue::Integer(200));
    assert_eq!(r.params[4], SqlValue::Null);
    let h = insert_history_statement("e1", "test", Some("d"));
    assert_eq!(h.sql, "INSERT INTO history (endpoint_id, action, details) VALUES (?, ?, ?)");
    assert_eq!(h.params[2], SqlValue::Text("d".into()));
    assert_eq!(history_count_statement().params.len(), 0);
    assert_eq!(table_exists_statement("tags").params, vec![SqlValue::Text("tags".into())]);
}

#[test]
fn reading_results() {
    assert_eq!(count_from_rows(&vec![5]), 5);
    assert_eq!(count_from_rows(&vec![]), 0);
    assert_eq!(count_from_rows(&vec![-1]), usize::MAX);
    assert_eq!(next_number_from_rows(&vec![Some(41)]), 42);
    assert_eq!(next_number_from_rows(&vec![None]), 1);
    assert_eq!(next_number_from_rows(&vec![]), 1);
    assert_eq!(first_endpoint(vec![ep("a", "x", None), ep("b", "y", None)]), Some(ep("a", "x", None)));
    assert_eq!(first_endpoint(vec![]), None);
    assert!(table_exists_from_rows(&vec!["tags".into()]));
    assert!(!table_exists_from_rows(&vec![]));
}

#[test]
fn batch_lookup_statement_has_one_placeholder_per_id() {
    assert!(endpoints_for_ids_statement(&vec![]).is_none());
    let st: SqlStatement = endpoints_for_ids_statement(&vec!["a".into(), "b".into(), "c".into()]).unwrap();
    assert_eq!(st.sql, "SELECT id, endpoint_id, endpoint_str, annotation FROM endpoints WHERE endpoint_id IN (?, ?, ?)");
    assert_eq!(st.params, vec![SqlValue::Text("a".into()), SqlValue::Text("b".into()), SqlValue::Text("c".into())]);
    let one = endpoints_for_ids_statement(&vec!["z".into()]).unwrap();
    assert_eq!(one.sql, "SELECT id, endpoint_id, endpoint_str, annotation FROM endpoints WHERE endpoint_id IN (?)");
}

#[test]
fn batch_lookup_keeps_the_order_of_the_ids() {
    let rows = vec![ep("a", "1", None), ep("b", "2", None), ep("a", "dup", None)];
    let ids: Vec<String> = vec!["b".into(), "missing".into(), "a".into(), "b".into()];
    assert_eq!(order_by_ids(&rows, &ids), vec![ep("b", "2", None), ep("a", "1", None), ep("b", "2", None)]);
    assert_eq!(order_by_ids(&rows, &vec![]), vec![]);
}

#[test]
fn markdown_export() {
    let md = export_markdown("coll", "out.md", &vec![ep("a", "http://a", Some("note")), ep("b", "http://b", None)]);
    assert_eq!(
        md,
        "# Export: coll\n\nGenerated as `out.md`\n\n- **a**: `http://a` \u{2014} note\n- **b**: `http://b`\n"
    );
    assert_eq!(export_markdown("c", "f", &vec![]), "# Export: c\n\nGenerated as `f`\n\n");
}

#[test]
fn one_by_one_lookup() {
    let q = catalogue();
    let (mut m, step) = EachLookup::begin(&q, vec!["a".into(), "b".into()]);
    let st = match step {
        LookupStep::Find(st) => st,
        LookupStep::Done(_) => panic!("expected a lookup"),
    };
    assert_eq!(st.params, vec![SqlValue::Text("a".into())]);
    let step = m.resume(Ok(vec![ep("a", "1", None)]));
    assert!(matches!(step, LookupStep::Find(ref s) if s.params == vec![SqlValue::Text("b".into())]));
    match m.resume(Ok(vec![])) {
        LookupStep::Done(Ok(v)) => assert_eq!(v, vec![ep("a", "1", None)]),
        _ => panic!("expected the result"),
    }
    let (_, empty) = EachLookup::begin(&q, vec![]);
    assert!(matches!(empty, LookupStep::Done(Ok(ref v)) if v.is_empty()));
    let (_, missing) = EachLookup::begin(&QueryMap::new(), vec!["a".into()]);
    assert!(matches!(missing, LookupStep::Done(Err(EdmsError::UnknownError))));
}

#[test]
fn schema_is_idempotent_text() {
    let s = schema_statements();
    assert_eq!(s.len(), 22);
    for st in &s {
        assert!(st.starts_with("CREATE TABLE IF NOT EXISTS ") || st.starts_with("CREATE INDEX IF NOT EXISTS "));
    }
    assert!(s[0].starts_with("CREATE TABLE IF NOT EXISTS endpoints ("));
    assert_eq!(s[21], "CREATE INDEX IF NOT EXISTS idx_history_action ON history(action)");
}

#[test]
fn batch_and_one_by_one_lookups_agree() {
    let table = vec![ep("a", "1", None), ep("b", "2", Some("n")), ep("c", "3", None)];
    let ids: Vec<String> = vec!["c".into(), "missing".into(), "a".into()];
    // The batch query's rows, in an order of the database's choosing.
    let batch = vec![ep("a", "1", None), ep("c", "3", None)];
    let batched = order_by_ids(&batch, &ids);
    let (mut m, mut step) = EachLookup::begin(&catalogue(), ids.clone());
    let each = loop {
        match step {
            LookupStep::Find(st) => {
                let id = match &st.params[0] {
                    SqlValue::Text(t) => t.clone(),
                    _ => panic!("expected a text parameter"),
                };
                let rows: Vec<EndpointDto> = table.iter().filter(|e| e.endpoint_id == id).cloned().collect();
                step = m.resume(Ok(rows));
            }
            LookupStep::Done(r) => break r.unwrap(),
        }
    };
    assert_eq!(batched, each);
    assert_eq!(each, vec![ep("c", "3", None), ep("a", "1", None)]);
}
