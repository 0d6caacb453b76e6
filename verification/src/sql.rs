//! SQL statements handed to the database by the application: the text of the
//! statement and its positional parameters, as plain values.

use vstd::prelude::*;

verus! {

/// A positional parameter of a statement.
#[derive(Debug, Clone, PartialEq, Eq)]
pub enum SqlValue {
    Null,
    Integer(i64),
    Text(String),
}

/// The mathematical value of a parameter.
pub enum SqlValueView {
    Null,
    Integer(int),
    Text(Seq<char>),
}

impl View for SqlValue {
    type V = SqlValueView;

    open spec fn view(&self) -> SqlValueView {
        match self {
            SqlValue::Null => SqlValueView::Null,
            SqlValue::Integer(i) => SqlValueView::Integer(*i as int),
            SqlValue::Text(s) => SqlValueView::Text(s@),
        }
    }
}

/// A statement with its parameters, in the order of the `?` placeholders.
#[derive(Debug, Clone, PartialEq, Eq)]
pub struct SqlStatement {
    pub sql: String,
    pub params: Vec<SqlValue>,
}

pub struct SqlStatementView {
    pub sql: Seq<char>,
    pub params: Seq<SqlValueView>,
}

impl View for SqlStatement {
    type V = SqlStatementView;

    open spec fn view(&self) -> SqlStatementView {
        SqlStatementView { sql: self.sql@, params: self.params@.map_values(|p: SqlValue| p@) }
    }
}

/// The parameter view of an optional text: `NULL` when absent.
pub open spec fn opt_text_view(s: Option<Seq<char>>) -> SqlValueView {
    match s {
        Some(t) => SqlValueView::Text(t),
        None => SqlValueView::Null,
    }
}

/// The view of an optional string slice.
pub open spec fn opt_str_view(s: Option<&str>) -> Option<Seq<char>> {
    match s {
        Some(t) => Some(t@),
        None => None,
    }
}

/// The parameter view of an optional integer: `NULL` when absent.
pub open spec fn opt_int_view(v: Option<i32>) -> SqlValueView {
    match v {
        Some(i) => SqlValueView::Integer(i as int),
        None => SqlValueView::Null,
    }
}

/// A text parameter.
pub fn text_param(s: &str) -> (p: SqlValue)
    ensures
        p@ == SqlValueView::Text(s@),
{
    SqlValue::Text(String::from_str(s))
}

/// An optional text parameter: `NULL` when absent.
pub fn opt_text_param(s: Option<&str>) -> (p: SqlValue)
    ensures
        p@ == opt_text_view(opt_str_view(s)),
{
    match s {
        Some(t) => SqlValue::Text(String::from_str(t)),
        None => SqlValue::Null,
    }
}

/// An optional integer parameter: `NULL` when absent.
pub fn opt_int_param(v: Option<i32>) -> (p: SqlValue)
    ensures
        p@ == opt_int_view(v),
{
    match v {
        Some(i) => SqlValue::Integer(i as i64),
        None => SqlValue::Null,
    }
}

/// A statement with no parameters.
pub fn statement0(sql: &str) -> (s: SqlStatement)
    ensures
        s@.sql == sql@,
        s@.params == Seq::<SqlValueView>::empty(),
{
    let s = SqlStatement { sql: String::from_str(sql), params: Vec::new() };
    assert(s@.params =~= Seq::<SqlValueView>::empty());
    s
}

/// A statement with one parameter.
pub fn statement1(sql: &str, a: SqlValue) -> (s: SqlStatement)
    ensures
        s@.sql == sql@,
        s@.params == seq![a@],
{
    let mut params = Vec::new();
    params.push(a);
    let s = SqlStatement { sql: String::from_str(sql), params };
    assert(s@.params =~= seq![a@]);
    s
}

/// A statement with two parameters.
pub fn statement2(sql: &str, a: SqlValue, b: SqlValue) -> (s: SqlStatement)
    ensures
        s@.sql == sql@,
        s@.params == seq![a@, b@],
{
    let mut params = Vec::new();
    params.push(a);
    params.push(b);
    let s = SqlStatement { sql: String::from_str(sql), params };
    assert(s@.params =~= seq![a@, b@]);
    s
}

/// A statement with three parameters.
pub fn statement3(sql: &str, a: SqlValue, b: SqlValue, c: SqlValue) -> (s: SqlStatement)
    ensures
        s@.sql == sql@,
        s@.params == seq![a@, b@, c@],
{
    let mut params = Vec::new();
    params.push(a);
    params.push(b);
    params.push(c);
    let s = SqlStatement { sql: String::from_str(sql), params };
    assert(s@.params =~= seq![a@, b@, c@]);
    s
}

/// A statement with four parameters.
pub fn statement4(sql: &str, a: SqlValue, b: SqlValue, c: SqlValue, d: SqlValue) -> (s: SqlStatement)
    ensures
        s@.sql == sql@,
        s@.params == seq![a@, b@, c@, d@],
{
    let mut params = Vec::new();
    params.push(a);
    params.push(b);
    params.push(c);
    params.push(d);
    let s = SqlStatement { sql: String::from_str(sql), params };
    assert(s@.params =~= seq![a@, b@, c@, d@]);
    s
}

/// A statement with five parameters.
pub fn statement5(sql: &str, a: SqlValue, b: SqlValue, c: SqlValue, d: SqlValue, e: SqlValue) -> (s: SqlStatement)
    ensures
        s@.sql == sql@,
        s@.params == seq![a@, b@, c@, d@, e@],
{
    let mut params = Vec::new();
    params.push(a);
    params.push(b);
    params.push(c);
    params.push(d);
    params.push(e);
    let s = SqlStatement { sql: String::from_str(sql), params };
    assert(s@.params =~= seq![a@, b@, c@, d@, e@]);
    s
}

/// The first value of a one-column count result, `0` when there is no row.
pub open spec fn first_or_zero(rows: Seq<i64>) -> i64 {
    if rows.len() > 0 { rows[0] } else { 0 }
}

/// The first value of a one-column count result, `0` when there is no row.
pub fn first_count(rows: &Vec<i64>) -> (c: i64)
    ensures
        c == first_or_zero(rows@),
{
    if rows.len() > 0 { rows[0] } else { 0 }
}

/// The first value of a one-column `INTEGER` result, `0` when there is no row.
pub fn first_i32_or_zero(rows: &Vec<i32>) -> (c: i32)
    ensures
        c == (if rows@.len() > 0 { rows@[0] } else { 0i32 }),
{
    if rows.len() > 0 { rows[0] } else { 0 }
}

} // verus!
