//! Resolving lists of endpoint ids to endpoints in one query, keeping the
//! order of the ids, and rendering a collection as a Markdown export.

use vstd::prelude::*;
use crate::sql::{SqlStatement, SqlStatementView, SqlValue, SqlValueView, statement1, text_param};
use crate::error::{EdmsError, EdmsResult};
use crate::queries::{QueryMap, query_text};
use crate::statements::EndpointDto;
use crate::procedures::ids_view;

verus! {

/// `n` placeholders separated by commas: `?, ?, …, ?`.
pub open spec fn placeholders(n: nat) -> Seq<char>
    decreases n,
{
    if n == 0 {
        Seq::empty()
    } else if n == 1 {
        "?"@
    } else {
        placeholders((n - 1) as nat) + ", ?"@
    }
}

/// The batch lookup of the endpoints with the given ids.
pub open spec fn endpoints_in_view(ids: Seq<Seq<char>>) -> SqlStatementView {
    SqlStatementView {
        sql: "SELECT id, endpoint_id, endpoint_str, annotation FROM endpoints WHERE endpoint_id IN ("@
            + placeholders(ids.len()) + ")"@,
        params: ids.map_values(|id: Seq<char>| SqlValueView::Text(id)),
    }
}

/// The statement that looks up all the endpoints with the given ids at once,
/// or none when there is no id.
pub fn endpoints_for_ids_statement(ids: &Vec<String>) -> (r: Option<SqlStatement>)
    ensures
        ids@.len() == 0 ==> r is None,
        ids@.len() > 0 ==> r is Some && r->Some_0@ == endpoints_in_view(ids_view(ids@)),
{
    let n = ids.len();
    if n == 0 {
        return None;
    }
    let mut sql = String::from_str("SELECT id, endpoint_id, endpoint_str, annotation FROM endpoints WHERE endpoint_id IN (");
    let ghost head = sql@;
    let mut params: Vec<SqlValue> = Vec::new();
    let mut i: usize = 0;
    while i < n
        invariant
            n == ids@.len(),
            i <= n,
            sql@ == head + placeholders(i as nat),
            params@.map_values(|p: SqlValue| p@) == ids_view(ids@).subrange(0, i as int).map_values(|id: Seq<char>| SqlValueView::Text(id)),
        decreases n - i,
    {
        if i == 0 {
            sql.append("?");
        } else {
            sql.append(", ?");
        }
        let ghost prev = params@;
        let v = SqlValue::Text(ids[i].clone());
        assert(v@ == SqlValueView::Text(ids_view(ids@)[i as int]));
        params.push(v);
        assert(params@ == prev.push(v));
        assert(params@.map_values(|p: SqlValue| p@) =~= prev.map_values(|p: SqlValue| p@).push(v@));
        assert(ids_view(ids@).subrange(0, i + 1) =~= ids_view(ids@).subrange(0, i as int).push(ids_view(ids@)[i as int]));
        i = i + 1;
        proof {
            if i == 1 {
                assert(placeholders(1) == "?"@);
            }
            assert(params@.map_values(|p: SqlValue| p@) =~= ids_view(ids@).subrange(0, i as int).map_values(|id: Seq<char>| SqlValueView::Text(id)));
        }
    }
    sql.append(")");
    assert(ids_view(ids@).subrange(0, n as int) =~= ids_view(ids@));
    Some(SqlStatement { sql, params })
}

/// The first endpoint with the id `id`, if any.
pub open spec fn first_with_id(eps: Seq<EndpointDto>, id: Seq<char>) -> Option<EndpointDto>
    decreases eps.len(),
{
    if eps.len() == 0 {
        None
    } else if eps[0].endpoint_id@ == id {
        Some(eps[0])
    } else {
        first_with_id(eps.drop_first(), id)
    }
}

/// For each id in order, the first endpoint with that id; ids with no
/// endpoint are skipped.
pub open spec fn ordered_by_ids(eps: Seq<EndpointDto>, ids: Seq<Seq<char>>) -> Seq<EndpointDto>
    decreases ids.len(),
{
    if ids.len() == 0 {
        Seq::empty()
    } else {
        let rest = ordered_by_ids(eps, ids.drop_last());
        match first_with_id(eps, ids.last()) {
            Some(e) => rest.push(e),
            None => rest,
        }
    }
}

fn find_by_id(eps: &Vec<EndpointDto>, id: &String) -> (r: Option<EndpointDto>)
    ensures
        r == first_with_id(eps@, id@),
{
    let n = eps.len();
    let mut j: usize = 0;
    assert(eps@.subrange(0, n as int) =~= eps@);
    while j < n
        invariant
            n == eps@.len(),
            j <= n,
            first_with_id(eps@, id@) == first_with_id(eps@.subrange(j as int, n as int), id@),
        decreases n - j,
    {
        let ghost rest = eps@.subrange(j as int, n as int);
        assert(rest[0] == eps@[j as int]);
        assert(rest.drop_first() =~= eps@.subrange(j + 1, n as int));
        if eps[j].endpoint_id == *id {
            return Some(eps[j].duplicate());
        }
        j = j + 1;
    }
    None
}

/// Arranges the endpoints of a batch lookup in the order of `ids` (see
/// [`ordered_by_ids`]).
pub fn order_by_ids(endpoints: &Vec<EndpointDto>, ids: &Vec<String>) -> (r: Vec<EndpointDto>)
    ensures
        r@ == ordered_by_ids(endpoints@, ids_view(ids@)),
{
    let mut out: Vec<EndpointDto> = Vec::new();
    let n = ids.len();
    let mut i: usize = 0;
    while i < n
        invariant
            n == ids@.len(),
            i <= n,
            out@ == ordered_by_ids(endpoints@, ids_view(ids@).subrange(0, i as int)),
        decreases n - i,
    {
        let found = find_by_id(endpoints, &ids[i]);
        proof {
            let pre = ids_view(ids@).subrange(0, i + 1);
            assert(pre.drop_last() =~= ids_view(ids@).subrange(0, i as int));
            assert(pre.last() == ids@[i as int]@);
        }
        match found {
            Some(ep) => out.push(ep),
            None => {},
        }
        i = i + 1;
    }
    assert(ids_view(ids@).subrange(0, n as int) =~= ids_view(ids@));
    out
}

/// One line of the export: `- **{id}**: `{address}``, then ` — {annotation}`
/// when there is one.
pub open spec fn markdown_line(ep: EndpointDto) -> Seq<char> {
    "- **"@ + ep.endpoint_id@ + "**: `"@ + ep.endpoint_str@ + "`"@
        + match ep.annotation {
            Some(a) => " \u{2014} "@ + a@,
            None => Seq::empty(),
        }
        + "\n"@
}

pub open spec fn markdown_lines(eps: Seq<EndpointDto>) -> Seq<char>
    decreases eps.len(),
{
    if eps.len() == 0 {
        Seq::empty()
    } else {
        markdown_lines(eps.drop_last()) + markdown_line(eps.last())
    }
}

/// The Markdown export of a collection.
pub open spec fn markdown_export(collection: Seq<char>, filename: Seq<char>, eps: Seq<EndpointDto>) -> Seq<char> {
    "# Export: "@ + collection + "\n\n"@ + "Generated as `"@ + filename + "`\n\n"@ + markdown_lines(eps)
}

/// Renders the endpoints of `collection` as the Markdown document served as
/// `filename` (see [`markdown_export`]).
pub fn export_markdown(collection: &str, filename: &str, endpoints: &Vec<EndpointDto>) -> (md: String)
    ensures
        md@ == markdown_export(collection@, filename@, endpoints@),
{
    let mut md = String::from_str("# Export: ");
    md.append(collection);
    md.append("\n\n");
    md.append("Generated as `");
    md.append(filename);
    md.append("`\n\n");
    let ghost head = md@;
    let n = endpoints.len();
    let mut i: usize = 0;
    while i < n
        invariant
            n == endpoints@.len(),
            i <= n,
            md@ == head + markdown_lines(endpoints@.subrange(0, i as int)),
        decreases n - i,
    {
        let ep = &endpoints[i];
        let ghost before = md@;
        md.append("- **");
        md.append(ep.endpoint_id.as_str());
        md.append("**: `");
        md.append(ep.endpoint_str.as_str());
        md.append("`");
        match &ep.annotation {
            Some(a) => {
                md.append(" \u{2014} ");
                md.append(a.as_str());
            },
            None => {},
        }
        md.append("\n");
        proof {
            let pre = endpoints@.subrange(0, i + 1);
            assert(pre.drop_last() =~= endpoints@.subrange(0, i as int));
            assert(pre.last() == endpoints@[i as int]);
            assert(md@ =~= before + markdown_line(endpoints@[i as int]));
        }
        i = i + 1;
    }
    assert(endpoints@.subrange(0, n as int) =~= endpoints@);
    md
}

proof fn lemma_first_with_id(eps: Seq<EndpointDto>, id: Seq<char>)
    ensures
        first_with_id(eps, id) is Some ==> eps.contains(first_with_id(eps, id)->Some_0)
            && first_with_id(eps, id)->Some_0.endpoint_id@ == id,
    decreases eps.len(),
{
    if eps.len() > 0 && eps[0].endpoint_id@ != id {
        lemma_first_with_id(eps.drop_first(), id);
        if first_with_id(eps, id) is Some {
            let e = first_with_id(eps, id)->Some_0;
            let k = choose|k: int| 0 <= k < eps.drop_first().len() && eps.drop_first()[k] == e;
            assert(eps[k + 1] == e);
        }
    } else if eps.len() > 0 {
        assert(eps[0] == eps[0]);
        assert(eps.contains(eps[0]));
    }
}

/// A batch lookup returns only endpoints found by the query, each with a
/// requested id, in the order of the ids and at most one per requested id.
pub proof fn law_lookup_returns_requested(eps: Seq<EndpointDto>, ids: Seq<Seq<char>>)
    ensures
        ordered_by_ids(eps, ids).len() <= ids.len(),
        forall|k: int| 0 <= k < ordered_by_ids(eps, ids).len() ==> {
            &&& eps.contains(#[trigger] ordered_by_ids(eps, ids)[k])
            &&& ids.contains(ordered_by_ids(eps, ids)[k].endpoint_id@)
        },
    decreases ids.len(),
{
    if ids.len() > 0 {
        let rest = ordered_by_ids(eps, ids.drop_last());
        law_lookup_returns_requested(eps, ids.drop_last());
        lemma_first_with_id(eps, ids.last());
        assert forall|k: int| 0 <= k < ordered_by_ids(eps, ids).len() implies {
            &&& eps.contains(#[trigger] ordered_by_ids(eps, ids)[k])
            &&& ids.contains(ordered_by_ids(eps, ids)[k].endpoint_id@)
        } by {
            if k < rest.len() {
                assert(ordered_by_ids(eps, ids)[k] == rest[k]);
                let j = choose|j: int| 0 <= j < ids.drop_last().len() && ids.drop_last()[j] == rest[k].endpoint_id@;
                assert(ids[j] == ids.drop_last()[j]);
            } else {
                assert(ids[ids.len() - 1] == ids.last());
            }
        }
    }
}

/// Looking endpoints up one id at a time.
pub enum LookupStep {
    /// Look up one endpoint (`E2`); the rows are endpoints.
    Find(SqlStatement),
    Done(EdmsResult<Vec<EndpointDto>>),
}

/// Resolves ids one query at a time, keeping for each id the first endpoint
/// found and skipping ids with none.
pub struct EachLookup {
    pub sql: String,
    pub ids: Vec<String>,
    pub next: usize,
    pub found: Vec<EndpointDto>,
    pub finished: bool,
}

pub open spec fn find_view(sql: Seq<char>, id: Seq<char>) -> SqlStatementView {
    SqlStatementView { sql, params: seq![SqlValueView::Text(id)] }
}

pub open spec fn first_row(rows: Seq<EndpointDto>) -> Seq<EndpointDto> {
    if rows.len() > 0 { seq![rows[0]] } else { Seq::empty() }
}

impl EachLookup {
    /// Starts the lookups: nothing to do for no ids; `UnknownError` when the
    /// catalogue has no `E2`; otherwise look up the first id.
    pub fn begin(queries: &QueryMap, ids: Vec<String>) -> (r: (EachLookup, LookupStep))
        ensures
            r.0.ids@ == ids@,
            r.0.found@ == Seq::<EndpointDto>::empty(),
            ids@.len() == 0 ==> r.0.finished && (r.1 matches LookupStep::Done(Ok(v)) && v@.len() == 0),
            ids@.len() > 0 && query_text(queries.endpoints@, "E2"@) is None ==> r.0.finished
                && (r.1 matches LookupStep::Done(Err(e)) && e == EdmsError::UnknownError),
            ids@.len() > 0 && query_text(queries.endpoints@, "E2"@) is Some ==> !r.0.finished && r.0.next == 0
                && r.0.sql@ == query_text(queries.endpoints@, "E2"@)->Some_0
                && (r.1 matches LookupStep::Find(st) && st@ == find_view(r.0.sql@, ids@[0]@)),
    {
        let mut m = EachLookup { sql: String::new(), ids, next: 0, found: Vec::new(), finished: true };
        if m.ids.len() == 0 {
            return (m, LookupStep::Done(Ok(Vec::new())));
        }
        match queries.get_endpoint_query("E2") {
            None => (m, LookupStep::Done(Err(EdmsError::UnknownError))),
            Some(q) => {
                m.sql = String::from_str(q);
                m.finished = false;
                let st = statement1(q, text_param(m.ids[0].as_str()));
                (m, LookupStep::Find(st))
            },
        }
    }

    /// Takes the rows of the last lookup (or its failure) and decides the next
    /// move.
    pub fn resume(&mut self, reply: EdmsResult<Vec<EndpointDto>>) -> (step: LookupStep)
        requires
            !old(self).finished,
            old(self).next < old(self).ids@.len(),
        ensures
            final(self).ids == old(self).ids,
            final(self).sql == old(self).sql,
            final(self).next < final(self).ids@.len(),
            reply is Err ==> final(self).finished && (step matches LookupStep::Done(Err(e)) && e == reply->Err_0),
            reply is Ok ==> {
                &&& final(self).found@ == old(self).found@ + first_row(reply->Ok_0@)
                &&& if old(self).next + 1 < old(self).ids@.len() {
                        &&& !final(self).finished
                        &&& final(self).next == old(self).next + 1
                        &&& step matches LookupStep::Find(st) && st@ == find_view(old(self).sql@, old(self).ids@[old(self).next + 1]@)
                    } else {
                        &&& final(self).finished
                        &&& step matches LookupStep::Done(Ok(v)) && v@ == final(self).found@
                    }
            },
    {
        match reply {
            Err(e) => {
                self.finished = true;
                LookupStep::Done(Err(e))
            },
            Ok(rows) => {
                if rows.len() > 0 {
                    self.found.push(rows[0].duplicate());
                }
                assert(self.found@ =~= old(self).found@ + first_row(rows@));
                let n = self.ids.len();
                if self.next + 1 < n {
                    self.next = self.next + 1;
                    let st = statement1(self.sql.as_str(), text_param(self.ids[self.next].as_str()));
                    LookupStep::Find(st)
                } else {
                    self.finished = true;
                    let mut out: Vec<EndpointDto> = Vec::new();
                    let mut k: usize = 0;
                    while k < self.found.len()
                        invariant
                            k <= self.found@.len(),
                            out@ == self.found@.subrange(0, k as int),
                        decreases self.found@.len() - k,
                    {
                        out.push(self.found[k].duplicate());
                        k = k + 1;
                        assert(out@ =~= self.found@.subrange(0, k as int));
                    }
                    assert(self.found@.subrange(0, k as int) =~= self.found@);
                    LookupStep::Done(Ok(out))
                }
            },
        }
    }
}

/// No two rows of the endpoints table share an endpoint id (the column is
/// unique).
pub open spec fn endpoint_ids_unique(table: Seq<EndpointDto>) -> bool {
    forall|i: int, j: int| 0 <= i < table.len() && 0 <= j < table.len()
        && (#[trigger] table[i]).endpoint_id@ == (#[trigger] table[j]).endpoint_id@ ==> i == j
}

/// What one-by-one lookups collect from their replies, in order: the first
/// row of each.
pub open spec fn found_each(replies: Seq<Seq<EndpointDto>>) -> Seq<EndpointDto>
    decreases replies.len(),
{
    if replies.len() == 0 {
        Seq::empty()
    } else {
        found_each(replies.drop_last()) + first_row(replies.last())
    }
}

proof fn lemma_first_with_id_found(eps: Seq<EndpointDto>, id: Seq<char>, k: int)
    requires
        0 <= k < eps.len(),
        eps[k].endpoint_id@ == id,
    ensures
        first_with_id(eps, id) is Some,
    decreases k,
{
    if eps[0].endpoint_id@ != id {
        assert(eps.drop_first()[k - 1] == eps[k]);
        lemma_first_with_id_found(eps.drop_first(), id, k - 1);
    }
}

proof fn lemma_same_id_same_row(table: Seq<EndpointDto>, a: EndpointDto, b: EndpointDto)
    requires
        endpoint_ids_unique(table),
        table.contains(a),
        table.contains(b),
        a.endpoint_id@ == b.endpoint_id@,
    ensures
        a == b,
{
    let i = choose|i: int| 0 <= i < table.len() && table[i] == a;
    let j = choose|j: int| 0 <= j < table.len() && table[j] == b;
    assert(table[i].endpoint_id@ == table[j].endpoint_id@);
}

/// For one id, what the batch lookup keeps equals what the single lookup
/// keeps.
proof fn lemma_one_id_agrees(table: Seq<EndpointDto>, ids: Seq<Seq<char>>, batch: Seq<EndpointDto>, id: Seq<char>, single: Seq<EndpointDto>)
    requires
        endpoint_ids_unique(table),
        ids.contains(id),
        forall|e: EndpointDto| #[trigger] batch.contains(e) <==> table.contains(e) && ids.contains(e.endpoint_id@),
        forall|e: EndpointDto| #[trigger] single.contains(e) <==> table.contains(e) && e.endpoint_id@ == id,
    ensures
        match first_with_id(batch, id) {
            Some(e) => seq![e],
            None => Seq::<EndpointDto>::empty(),
        } == first_row(single),
{
    lemma_first_with_id(batch, id);
    if single.len() > 0 {
        let r = single[0];
        assert(single.contains(r));
        assert(batch.contains(r));
        let k = choose|k: int| 0 <= k < batch.len() && batch[k] == r;
        lemma_first_with_id_found(batch, id, k);
        let x = first_with_id(batch, id)->Some_0;
        lemma_same_id_same_row(table, x, r);
    } else if first_with_id(batch, id) is Some {
        let x = first_with_id(batch, id)->Some_0;
        assert(single.contains(x));
        let k = choose|k: int| 0 <= k < single.len() && single[k] == x;
        assert(false);
    }
}

/// The batch lookup and the one-by-one lookups agree: with the endpoint ids
/// unique in the table, when the batch query answers the rows whose id is
/// requested (in any order) and the single query for each id answers the rows
/// with that id, both give, for each requested id in order, its endpoint,
/// skipping the ids with none.
pub proof fn law_batch_lookup_agrees_with_each(table: Seq<EndpointDto>, ids: Seq<Seq<char>>, batch: Seq<EndpointDto>, replies: Seq<Seq<EndpointDto>>)
    requires
        endpoint_ids_unique(table),
        forall|e: EndpointDto| #[trigger] batch.contains(e) <==> table.contains(e) && ids.contains(e.endpoint_id@),
        replies.len() == ids.len(),
        forall|k: int, e: EndpointDto| 0 <= k < ids.len() ==>
            (#[trigger] replies[k].contains(e) <==> table.contains(e) && e.endpoint_id@ == ids[k]),
    ensures
        ordered_by_ids(batch, ids) == found_each(replies),
{
    lemma_ordered_prefix(table, ids, batch, ids, replies);
}

/// The batch answer for all the ids, ordered by a prefix of them, gives what
/// the single lookups of that prefix give.
proof fn lemma_ordered_prefix(table: Seq<EndpointDto>, ids: Seq<Seq<char>>, batch: Seq<EndpointDto>, p: Seq<Seq<char>>, q: Seq<Seq<EndpointDto>>)
    requires
        endpoint_ids_unique(table),
        forall|e: EndpointDto| #[trigger] batch.contains(e) <==> table.contains(e) && ids.contains(e.endpoint_id@),
        forall|x: Seq<char>| p.contains(x) ==> #[trigger] ids.contains(x),
        q.len() == p.len(),
        forall|k: int, e: EndpointDto| 0 <= k < p.len() ==>
            (#[trigger] q[k].contains(e) <==> table.contains(e) && e.endpoint_id@ == p[k]),
    ensures
        ordered_by_ids(batch, p) == found_each(q),
    decreases p.len(),
{
    if p.len() > 0 {
        let p2 = p.drop_last();
        let q2 = q.drop_last();
        assert forall|x: Seq<char>| p2.contains(x) implies #[trigger] ids.contains(x) by {
            let j = choose|j: int| 0 <= j < p2.len() && p2[j] == x;
            assert(p[j] == x);
        }
        assert forall|k: int, e: EndpointDto| 0 <= k < p2.len() implies
            (#[trigger] q2[k].contains(e) <==> table.contains(e) && e.endpoint_id@ == p2[k]) by {
            assert(q2[k] == q[k] && p2[k] == p[k]);
        }
        lemma_ordered_prefix(table, ids, batch, p2, q2);
        let id = p.last();
        assert(p[p.len() - 1] == id);
        assert(p.contains(id));
        assert forall|e: EndpointDto| #[trigger] q.last().contains(e) <==> table.contains(e) && e.endpoint_id@ == id by {
            assert(q.last() == q[p.len() - 1]);
        }
        lemma_one_id_agrees(table, ids, batch, id, q.last());
        match first_with_id(batch, id) {
            Some(e) => assert(ordered_by_ids(batch, p) =~= ordered_by_ids(batch, p2) + seq![e]),
            None => assert(ordered_by_ids(batch, p) =~= ordered_by_ids(batch, p2) + Seq::<EndpointDto>::empty()),
        }
    }
}

} // verus!
