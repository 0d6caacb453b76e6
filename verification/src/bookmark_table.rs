//! The bookmarks table as the procedures' statements see it, and what the
//! bookmark procedures (add, save as a collection, load a collection, restore
//! the backup) do to it when a database runs their commands.

use vstd::prelude::*;
use crate::error::EdmsError;
use crate::procedures::{
    DbCommandView, DbReplyView, StepView, InsertActiveView, InsertPhase, insert_next,
    CreateCollectionView, CopyPhase, copy_next, ActiveLoadView, LoadPhase, load_next,
};
use crate::sql::{SqlStatementView, SqlValueView};
use crate::statements::{ACTIVE_FOLDER, SESSION_BACKUP_FOLDER, count_id_in_folder_view, count_in_folder_view, clear_folder_view,
    list_folder_view, insert_bookmark_view, copy_bookmark_view};

verus! {

/// A row of the bookmarks table: the endpoint, the folder, the notes.
pub struct BookmarkRow {
    pub endpoint_id: Seq<char>,
    pub folder: Seq<char>,
    pub notes: Option<Seq<char>>,
}

/// The number of rows of `t` that bookmark `id` in `folder`.
pub open spec fn rows_matching(t: Seq<BookmarkRow>, folder: Seq<char>, id: Seq<char>) -> nat
    decreases t.len(),
{
    if t.len() == 0 {
        0
    } else {
        rows_matching(t.drop_last(), folder, id)
            + (if t.last().folder == folder && t.last().endpoint_id == id { 1nat } else { 0nat })
    }
}

/// No endpoint is bookmarked twice in `folder`.
pub open spec fn folder_unique(t: Seq<BookmarkRow>, folder: Seq<char>) -> bool {
    forall|id: Seq<char>| #[trigger] rows_matching(t, folder, id) <= 1
}

/// The text parameter at `i`, empty when it is not text.
pub open spec fn text_at(st: SqlStatementView, i: int) -> Seq<char> {
    match st.params[i] {
        SqlValueView::Text(s) => s,
        _ => Seq::empty(),
    }
}

/// The optional text parameter at `i`: `None` when it is not text.
pub open spec fn opt_text_at(st: SqlStatementView, i: int) -> Option<Seq<char>> {
    match st.params[i] {
        SqlValueView::Text(s) => Some(s),
        _ => None,
    }
}

/// The number of rows of `t` in `folder`.
pub open spec fn folder_size(t: Seq<BookmarkRow>, folder: Seq<char>) -> nat
    decreases t.len(),
{
    if t.len() == 0 {
        0
    } else {
        folder_size(t.drop_last(), folder) + (if t.last().folder == folder { 1nat } else { 0nat })
    }
}

/// `t` without the rows of `folder`, the others in their order.
pub open spec fn without_folder(t: Seq<BookmarkRow>, folder: Seq<char>) -> Seq<BookmarkRow>
    decreases t.len(),
{
    if t.len() == 0 {
        Seq::empty()
    } else {
        let r = without_folder(t.drop_last(), folder);
        if t.last().folder == folder { r } else { r.push(t.last()) }
    }
}

/// The same listing for every folder.
pub open spec fn list_all(listed: Seq<Seq<char>>) -> spec_fn(Seq<char>) -> Seq<Seq<char>> {
    |f: Seq<char>| listed
}

/// What the table answers to a command of the bookmark procedures, and the
/// table afterwards: a count of the rows of a folder, or of a folder and
/// endpoint; the ids of a folder (`listing` of the folder, in the order the
/// database gives them); one row inserted; or the rows of a folder deleted.
/// Any other command fails and changes nothing.
pub open spec fn table_answer(t: Seq<BookmarkRow>, c: DbCommandView, listing: spec_fn(Seq<char>) -> Seq<Seq<char>>) -> (Seq<BookmarkRow>, DbReplyView) {
    match c {
        DbCommandView::Count(st) =>
            if st == count_id_in_folder_view(text_at(st, 0), text_at(st, 1)) {
                (t, DbReplyView::Counts(seq![rows_matching(t, text_at(st, 0), text_at(st, 1)) as i64]))
            } else if st == count_in_folder_view(text_at(st, 0)) {
                (t, DbReplyView::Counts(seq![folder_size(t, text_at(st, 0)) as i64]))
            } else {
                (t, DbReplyView::Failed(EdmsError::UnknownError))
            },
        DbCommandView::ListIds(st) =>
            if st == list_folder_view(text_at(st, 0)) {
                (t, DbReplyView::Ids(listing(text_at(st, 0))))
            } else {
                (t, DbReplyView::Failed(EdmsError::UnknownError))
            },
        DbCommandView::Execute(st) =>
            if st == insert_bookmark_view(text_at(st, 0), text_at(st, 1), opt_text_at(st, 2)) {
                (t.push(BookmarkRow { endpoint_id: text_at(st, 0), folder: text_at(st, 1), notes: opt_text_at(st, 2) }),
                 DbReplyView::Affected(1))
            } else if st == copy_bookmark_view(text_at(st, 0), text_at(st, 1)) {
                (t.push(BookmarkRow { endpoint_id: text_at(st, 0), folder: text_at(st, 1), notes: None }),
                 DbReplyView::Affected(1))
            } else if st == clear_folder_view(text_at(st, 0)) {
                (without_folder(t, text_at(st, 0)), DbReplyView::Affected(folder_size(t, text_at(st, 0)) as usize))
            } else {
                (t, DbReplyView::Failed(EdmsError::UnknownError))
            },
    }
}

/// The insert run against the table for at most `fuel` commands: the table
/// afterwards and the last step.
pub open spec fn run_insert(s: InsertActiveView, step: StepView<usize>, t: Seq<BookmarkRow>, fuel: nat) -> (Seq<BookmarkRow>, StepView<usize>)
    decreases fuel,
{
    match step {
        StepView::Run(c) =>
            if fuel == 0 {
                (t, step)
            } else {
                let (t2, r) = table_answer(t, c, list_all(Seq::empty()));
                let (s2, step2) = insert_next(s, r);
                run_insert(s2, step2, t2, (fuel - 1) as nat)
            },
        StepView::Done(_) => (t, step),
    }
}

proof fn lemma_rows_push(t: Seq<BookmarkRow>, r: BookmarkRow, folder: Seq<char>, id: Seq<char>)
    ensures
        rows_matching(t.push(r), folder, id) == rows_matching(t, folder, id)
            + (if r.folder == folder && r.endpoint_id == id { 1nat } else { 0nat }),
{
    assert(t.push(r).drop_last() =~= t);
}

proof fn lemma_rows_bounded(t: Seq<BookmarkRow>, folder: Seq<char>, id: Seq<char>)
    ensures
        rows_matching(t, folder, id) <= t.len(),
    decreases t.len(),
{
    if t.len() > 0 {
        lemma_rows_bounded(t.drop_last(), folder, id);
    }
}

/// Bookmarking an endpoint in the active workspace adds its row once: when
/// the endpoint already has an active row the result is `Ok(0)` and the table
/// is unchanged, otherwise the result is `Ok(1)` and the one row
/// `(endpoint_id, active, notes)` is added. No endpoint is bookmarked twice in
/// the workspace afterwards, and no other folder changes.
pub proof fn law_insert_active_table(t: Seq<BookmarkRow>, endpoint_id: Seq<char>, notes: Option<Seq<char>>)
    requires
        folder_unique(t, ACTIVE_FOLDER@),
        t.len() < i64::MAX,
    ensures
        ({
            let s = InsertActiveView { endpoint_id, notes, phase: InsertPhase::Check };
            let first = StepView::<usize>::Run(DbCommandView::Count(count_id_in_folder_view(ACTIVE_FOLDER@, endpoint_id)));
            let (t2, last) = run_insert(s, first, t, 2);
            &&& rows_matching(t, ACTIVE_FOLDER@, endpoint_id) > 0 ==> t2 == t && last == StepView::<usize>::Done(Ok(0usize))
            &&& rows_matching(t, ACTIVE_FOLDER@, endpoint_id) == 0 ==>
                t2 == t.push(BookmarkRow { endpoint_id, folder: ACTIVE_FOLDER@, notes })
                && last == StepView::<usize>::Done(Ok(1usize))
            &&& folder_unique(t2, ACTIVE_FOLDER@)
            &&& forall|f: Seq<char>, id: Seq<char>| f != ACTIVE_FOLDER@ ==>
                #[trigger] rows_matching(t2, f, id) == rows_matching(t, f, id)
        }),
{
    reveal_with_fuel(run_insert, 3);
    let s = InsertActiveView { endpoint_id, notes, phase: InsertPhase::Check };
    let count_st = count_id_in_folder_view(ACTIVE_FOLDER@, endpoint_id);
    assert(count_st.params =~= count_id_in_folder_view(text_at(count_st, 0), text_at(count_st, 1)).params);
    let k = rows_matching(t, ACTIVE_FOLDER@, endpoint_id);
    lemma_rows_bounded(t, ACTIVE_FOLDER@, endpoint_id);
    let (t1, r1) = table_answer(t, DbCommandView::Count(count_st), list_all(Seq::empty()));
    assert(t1 == t && r1 == DbReplyView::Counts(seq![k as i64]));
    let (s1, step1) = insert_next(s, r1);
    if k == 0 {
        let ins = insert_bookmark_view(endpoint_id, ACTIVE_FOLDER@, notes);
        assert(step1 == StepView::<usize>::Run(DbCommandView::Execute(ins)));
        assert(ins.params =~= insert_bookmark_view(text_at(ins, 0), text_at(ins, 1), opt_text_at(ins, 2)).params);
        let row = BookmarkRow { endpoint_id, folder: ACTIVE_FOLDER@, notes };
        let (t2, r2) = table_answer(t1, DbCommandView::Execute(ins), list_all(Seq::empty()));
        assert(t2 == t.push(row) && r2 == DbReplyView::Affected(1));
        assert forall|f: Seq<char>, id: Seq<char>| #[trigger] rows_matching(t2, f, id)
            == rows_matching(t, f, id) + (if f == ACTIVE_FOLDER@ && id == endpoint_id { 1nat } else { 0nat }) by {
            lemma_rows_push(t, row, f, id);
        }
        assert(folder_unique(t2, ACTIVE_FOLDER@));
    }
}

/// The ids of `ids` that have no row in `folder` of `t`, in their order.
pub open spec fn missing_in(t: Seq<BookmarkRow>, folder: Seq<char>, ids: Seq<Seq<char>>) -> Seq<Seq<char>>
    decreases ids.len(),
{
    if ids.len() == 0 {
        Seq::empty()
    } else {
        let m = missing_in(t, folder, ids.drop_last());
        if rows_matching(t, folder, ids.last()) == 0 { m.push(ids.last()) } else { m }
    }
}

/// The rows that bookmark each of `ids` in `folder` without notes, in order.
pub open spec fn copied_rows(ids: Seq<Seq<char>>, folder: Seq<char>) -> Seq<BookmarkRow>
    decreases ids.len(),
{
    if ids.len() == 0 {
        Seq::empty()
    } else {
        copied_rows(ids.drop_last(), folder).push(BookmarkRow { endpoint_id: ids.last(), folder, notes: None })
    }
}

/// The copy run against the table for at most `fuel` commands, the active ids
/// listed as `listed`: the table afterwards and the last step.
pub open spec fn run_copy(s: CreateCollectionView, step: StepView<usize>, t: Seq<BookmarkRow>, listed: Seq<Seq<char>>, fuel: nat) -> (Seq<BookmarkRow>, StepView<usize>)
    decreases fuel,
{
    match step {
        StepView::Run(c) =>
            if fuel == 0 {
                (t, step)
            } else {
                let (t2, r) = table_answer(t, c, list_all(listed));
                let (s2, step2) = copy_next(s, r);
                run_copy(s2, step2, t2, listed, (fuel - 1) as nat)
            },
        StepView::Done(_) => (t, step),
    }
}

proof fn lemma_copied_rows(t: Seq<BookmarkRow>, m: Seq<Seq<char>>, c: Seq<char>, f: Seq<char>, id: Seq<char>)
    ensures
        copied_rows(m, c).len() == m.len(),
        (f != c || !m.contains(id)) ==> rows_matching(t + copied_rows(m, c), f, id) == rows_matching(t, f, id),
        (f == c && m.contains(id)) ==> rows_matching(t + copied_rows(m, c), f, id) >= 1,
        (f == c && m.contains(id) && m.no_duplicates()) ==> rows_matching(t + copied_rows(m, c), f, id) == rows_matching(t, f, id) + 1,
    decreases m.len(),
{
    if m.len() == 0 {
        assert(t + copied_rows(m, c) =~= t);
    } else {
        let p = m.drop_last();
        let row = BookmarkRow { endpoint_id: m.last(), folder: c, notes: None };
        lemma_copied_rows(t, p, c, f, id);
        assert(t + copied_rows(m, c) =~= (t + copied_rows(p, c)).push(row));
        lemma_rows_push(t + copied_rows(p, c), row, f, id);
        if m.contains(id) && m.last() != id {
            let j = choose|j: int| 0 <= j < m.len() && m[j] == id;
            assert(p[j] == id);
        }
        if m.no_duplicates() {
            assert(p.no_duplicates()) by {
                assert forall|a: int, b: int| 0 <= a < p.len() && 0 <= b < p.len() && a != b implies p[a] != p[b] by {
                    assert(m[a] == p[a] && m[b] == p[b]);
                }
            }
            if m.last() == id {
                assert(!p.contains(id)) by {
                    if p.contains(id) {
                        let j = choose|j: int| 0 <= j < p.len() && p[j] == id;
                        assert(m[j] == m[m.len() - 1]);
                    }
                }
            }
        }
        if !m.contains(id) {
            assert(!p.contains(id)) by {
                if p.contains(id) {
                    let j = choose|j: int| 0 <= j < p.len() && p[j] == id;
                    assert(m[j] == id);
                }
            }
            assert(m[m.len() - 1] == m.last());
        }
    }
}

proof fn lemma_missing_in(t: Seq<BookmarkRow>, c: Seq<char>, ids: Seq<Seq<char>>)
    ensures
        missing_in(t, c, ids).len() <= ids.len(),
        forall|x: Seq<char>| #[trigger] missing_in(t, c, ids).contains(x) <==> (ids.contains(x) && rows_matching(t, c, x) == 0),
        ids.no_duplicates() ==> missing_in(t, c, ids).no_duplicates(),
    decreases ids.len(),
{
    if ids.len() > 0 {
        let p = ids.drop_last();
        lemma_missing_in(t, c, p);
        let m = missing_in(t, c, p);
        assert forall|x: Seq<char>| #[trigger] missing_in(t, c, ids).contains(x) <==> (ids.contains(x) && rows_matching(t, c, x) == 0) by {
            if ids.contains(x) && x != ids.last() {
                let j = choose|j: int| 0 <= j < ids.len() && ids[j] == x;
                assert(j < ids.len() - 1);
                assert(p[j] == x);
            }
            if p.contains(x) {
                let j = choose|j: int| 0 <= j < p.len() && p[j] == x;
                assert(ids[j] == x);
            }
            if rows_matching(t, c, ids.last()) == 0 {
                assert(m.push(ids.last())[m.len() as int] == ids.last());
                if m.contains(x) {
                    let j = choose|j: int| 0 <= j < m.len() && m[j] == x;
                    assert(m.push(ids.last())[j] == x);
                }
                if m.push(ids.last()).contains(x) && x != ids.last() {
                    let j = choose|j: int| 0 <= j < m.len() + 1 && m.push(ids.last())[j] == x;
                    assert(m[j] == x);
                }
            }
            assert(ids[ids.len() - 1] == ids.last());
        }
        if ids.no_duplicates() {
            assert(p.no_duplicates()) by {
                assert forall|a: int, b: int| 0 <= a < p.len() && 0 <= b < p.len() && a != b implies p[a] != p[b] by {
                    assert(ids[a] == p[a] && ids[b] == p[b]);
                }
            }
            if rows_matching(t, c, ids.last()) == 0 {
                assert(!p.contains(ids.last())) by {
                    if p.contains(ids.last()) {
                        let j = choose|j: int| 0 <= j < p.len() && p[j] == ids.last();
                        assert(ids[j] == ids[ids.len() - 1]);
                    }
                }
                assert(!m.contains(ids.last()));
                let q = m.push(ids.last());
                assert forall|a: int, b: int| 0 <= a < q.len() && 0 <= b < q.len() && a != b implies q[a] != q[b] by {
                    if a < m.len() && b < m.len() {
                        assert(q[a] == m[a] && q[b] == m[b]);
                    } else if a < m.len() {
                        assert(q[a] == m[a]);
                        assert(m.contains(q[a]));
                    } else {
                        assert(q[b] == m[b]);
                        assert(m.contains(q[b]));
                    }
                }
            }
        }
    }
}

/// The copy from the count query of the `i`-th listed id on: the rows of the ids
/// still missing are added in order, and their number is the result.
proof fn lemma_copy_from(t: Seq<BookmarkRow>, c: Seq<char>, listed: Seq<Seq<char>>, i: int, fuel: nat)
    requires
        listed.no_duplicates(),
        0 <= i < listed.len(),
        listed.len() <= usize::MAX,
        t.len() + listed.len() < i64::MAX,
        fuel >= 2 * (listed.len() - i),
    ensures
        ({
            let m = missing_in(t, c, listed.take(i));
            let s = CreateCollectionView { collection: c, phase: CopyPhase::Check(i as usize), ids: listed, inserted: m.len() as usize };
            let step = StepView::<usize>::Run(DbCommandView::Count(count_id_in_folder_view(c, listed[i])));
            run_copy(s, step, t + copied_rows(m, c), listed, fuel)
                == (t + copied_rows(missing_in(t, c, listed), c), StepView::<usize>::Done(Ok(missing_in(t, c, listed).len() as usize)))
        }),
    decreases listed.len() - i,
{
    let id = listed[i];
    let m = missing_in(t, c, listed.take(i));
    let next = listed.take(i + 1);
    assert(next.drop_last() =~= listed.take(i));
    assert(next.last() == id);
    let m2 = missing_in(t, c, next);
    lemma_missing_in(t, c, listed.take(i));
    assert(!listed.take(i).contains(id)) by {
        if listed.take(i).contains(id) {
            let j = choose|j: int| 0 <= j < i && listed.take(i)[j] == id;
            assert(listed[j] == listed[i]);
        }
    }
    assert(!m.contains(id));
    let ti = t + copied_rows(m, c);
    lemma_copied_rows(t, m, c, c, id);
    lemma_rows_bounded(t, c, id);
    let k = rows_matching(t, c, id);
    assert(rows_matching(ti, c, id) == k);
    let s = CreateCollectionView { collection: c, phase: CopyPhase::Check(i as usize), ids: listed, inserted: m.len() as usize };
    let count_st = count_id_in_folder_view(c, id);
    assert(count_st.params =~= count_id_in_folder_view(text_at(count_st, 0), text_at(count_st, 1)).params);
    let step = StepView::<usize>::Run(DbCommandView::Count(count_st));
    let (t1, r1) = table_answer(ti, DbCommandView::Count(count_st), list_all(listed));
    assert(t1 == ti && r1 == DbReplyView::Counts(seq![k as i64]));
    let (s1, step1) = copy_next(s, r1);
    assert(run_copy(s, step, ti, listed, fuel) == run_copy(s1, step1, t1, listed, (fuel - 1) as nat));
    let (s2, step2, t2, fuel2) = if k == 0 {
        let cp = copy_bookmark_view(id, c);
        assert(step1 == StepView::<usize>::Run(DbCommandView::Execute(cp)));
        assert(cp.params.len() == 2);
        assert(cp != insert_bookmark_view(text_at(cp, 0), text_at(cp, 1), opt_text_at(cp, 2)));
        assert(cp.params =~= copy_bookmark_view(text_at(cp, 0), text_at(cp, 1)).params);
        let row = BookmarkRow { endpoint_id: id, folder: c, notes: None };
        let (tw, rw) = table_answer(t1, DbCommandView::Execute(cp), list_all(listed));
        assert(tw == ti.push(row) && rw == DbReplyView::Affected(1));
        assert(m2 == m.push(id));
        assert(m.push(id).drop_last() =~= m);
        assert(tw =~= t + copied_rows(m2, c));
        let (sw, stepw) = copy_next(s1, rw);
        assert(run_copy(s1, step1, t1, listed, (fuel - 1) as nat) == run_copy(sw, stepw, tw, listed, (fuel - 2) as nat));
        (sw, stepw, tw, (fuel - 2) as nat)
    } else {
        assert(m2 == m);
        (s1, step1, t1, (fuel - 1) as nat)
    };
    assert(run_copy(s, step, ti, listed, fuel) == run_copy(s2, step2, t2, listed, fuel2));
    assert(t2 == t + copied_rows(m2, c));
    lemma_missing_in(t, c, next);
    assert(m2.len() <= i + 1);
    if i + 1 < listed.len() {
        assert(s2 == CreateCollectionView { collection: c, phase: CopyPhase::Check((i + 1) as usize), ids: listed, inserted: m2.len() as usize });
        assert(step2 == StepView::<usize>::Run(DbCommandView::Count(count_id_in_folder_view(c, listed[i + 1]))));
        lemma_copy_from(t, c, listed, i + 1, fuel2);
    } else {
        assert(next =~= listed);
        assert(step2 == StepView::<usize>::Done(Ok(m2.len() as usize)));
    }
}

proof fn lemma_copy_run(t: Seq<BookmarkRow>, collection: Seq<char>, listed: Seq<Seq<char>>)
    requires
        listed.no_duplicates(),
        listed.len() <= usize::MAX,
        t.len() + listed.len() < i64::MAX,
    ensures
        ({
            let start = CreateCollectionView { collection, phase: CopyPhase::List, ids: Seq::empty(), inserted: 0 };
            let first = StepView::<usize>::Run(DbCommandView::ListIds(list_folder_view(ACTIVE_FOLDER@)));
            let added = missing_in(t, collection, listed);
            run_copy(start, first, t, listed, 2 * listed.len() + 1)
                == (t + copied_rows(added, collection), StepView::<usize>::Done(Ok(added.len() as usize)))
        }),
{
    let start = CreateCollectionView { collection, phase: CopyPhase::List, ids: Seq::empty(), inserted: 0 };
    let list_st = list_folder_view(ACTIVE_FOLDER@);
    assert(list_st.params =~= list_folder_view(text_at(list_st, 0)).params);
    let first = StepView::<usize>::Run(DbCommandView::ListIds(list_st));
    let fuel = 2 * listed.len() + 1;
    let (t1, r1) = table_answer(t, DbCommandView::ListIds(list_st), list_all(listed));
    assert(t1 == t && r1 == DbReplyView::Ids(listed));
    let (s1, step1) = copy_next(start, r1);
    assert(run_copy(start, first, t, listed, fuel) == run_copy(s1, step1, t, listed, (fuel - 1) as nat));
    assert(listed.take(0) =~= Seq::<Seq<char>>::empty());
    assert(t + copied_rows(Seq::empty(), collection) =~= t);
    if listed.len() == 0 {
        assert(missing_in(t, collection, listed) =~= Seq::<Seq<char>>::empty());
    } else {
        lemma_copy_from(t, collection, listed, 0, (fuel - 1) as nat);
    }
}

proof fn lemma_nothing_missing(t: Seq<BookmarkRow>, c: Seq<char>, ids: Seq<Seq<char>>)
    requires
        forall|x: Seq<char>| ids.contains(x) ==> #[trigger] rows_matching(t, c, x) > 0,
    ensures
        missing_in(t, c, ids) == Seq::<Seq<char>>::empty(),
{
    lemma_missing_in(t, c, ids);
    let m = missing_in(t, c, ids);
    if m.len() > 0 {
        assert(m.contains(m[0]));
    }
    assert(m =~= Seq::<Seq<char>>::empty());
}

/// Saving the active workspace as a collection copies each active endpoint
/// that the collection lacks, once and without notes, and reports how many it
/// copied: with `listed` the active endpoints in the order the database lists
/// them, the result is `Ok` of the number of active endpoints missing from the
/// collection; afterwards the collection holds what it held and every active
/// endpoint, no other folder changes, and saving again adds nothing and
/// reports `Ok(0)`.
pub proof fn law_create_collection_table(t: Seq<BookmarkRow>, collection: Seq<char>, listed: Seq<Seq<char>>)
    requires
        collection != ACTIVE_FOLDER@,
        listed.no_duplicates(),
        forall|id: Seq<char>| listed.contains(id) <==> #[trigger] rows_matching(t, ACTIVE_FOLDER@, id) > 0,
        listed.len() <= usize::MAX,
        t.len() + 2 * listed.len() < i64::MAX,
    ensures
        ({
            let start = CreateCollectionView { collection, phase: CopyPhase::List, ids: Seq::empty(), inserted: 0 };
            let first = StepView::<usize>::Run(DbCommandView::ListIds(list_folder_view(ACTIVE_FOLDER@)));
            let fuel = 2 * listed.len() + 1;
            let added = missing_in(t, collection, listed);
            let (t2, last) = run_copy(start, first, t, listed, fuel);
            &&& last == StepView::<usize>::Done(Ok(added.len() as usize))
            &&& added.no_duplicates()
            &&& forall|id: Seq<char>| #[trigger] added.contains(id)
                    <==> rows_matching(t, ACTIVE_FOLDER@, id) > 0 && rows_matching(t, collection, id) == 0
            &&& t2 == t + copied_rows(added, collection)
            &&& forall|id: Seq<char>| #[trigger] rows_matching(t2, collection, id) > 0
                    <==> rows_matching(t, collection, id) > 0 || rows_matching(t, ACTIVE_FOLDER@, id) > 0
            &&& forall|f: Seq<char>, id: Seq<char>| f != collection ==>
                    #[trigger] rows_matching(t2, f, id) == rows_matching(t, f, id)
            &&& run_copy(start, first, t2, listed, fuel) == (t2, StepView::<usize>::Done(Ok(0usize)))
        }),
{
    let added = missing_in(t, collection, listed);
    lemma_copy_run(t, collection, listed);
    lemma_missing_in(t, collection, listed);
    let t2 = t + copied_rows(added, collection);
    assert forall|f: Seq<char>, id: Seq<char>| #[trigger] rows_matching(t2, f, id)
        == (if f == collection && added.contains(id) { rows_matching(t2, f, id) } else { rows_matching(t, f, id) })
        && (f == collection && added.contains(id) ==> rows_matching(t2, f, id) >= 1) by {
        lemma_copied_rows(t, added, collection, f, id);
    }
    assert forall|id: Seq<char>| #[trigger] added.contains(id)
        <==> rows_matching(t, ACTIVE_FOLDER@, id) > 0 && rows_matching(t, collection, id) == 0 by {
        assert(listed.contains(id) <==> rows_matching(t, ACTIVE_FOLDER@, id) > 0);
    }
    assert(copied_rows(added, collection).len() == added.len()) by {
        lemma_copied_rows(t, added, collection, collection, Seq::empty());
    }
    assert forall|x: Seq<char>| listed.contains(x) implies #[trigger] rows_matching(t2, collection, x) > 0 by {
        assert(rows_matching(t, ACTIVE_FOLDER@, x) > 0);
    }
    lemma_nothing_missing(t2, collection, listed);
    lemma_copy_run(t2, collection, listed);
    assert(t2 + copied_rows(Seq::empty(), collection) =~= t2);
}

proof fn lemma_folders_differ()
    ensures
        ACTIVE_FOLDER@ != SESSION_BACKUP_FOLDER@,
{
    reveal_strlit("__active__");
    reveal_strlit("__session_backup__");
    assert(ACTIVE_FOLDER@.len() != SESSION_BACKUP_FOLDER@.len());
}

/// One listing for the active workspace, another for every other folder.
pub open spec fn list_two(active: Seq<Seq<char>>, other: Seq<Seq<char>>) -> spec_fn(Seq<char>) -> Seq<Seq<char>> {
    |f: Seq<char>| if f == ACTIVE_FOLDER@ { active } else { other }
}

/// The load run against the table for at most `fuel` commands: the table
/// afterwards and the last step.
pub open spec fn run_load(s: ActiveLoadView, step: StepView<(bool, usize)>, t: Seq<BookmarkRow>,
    listing: spec_fn(Seq<char>) -> Seq<Seq<char>>, fuel: nat) -> (Seq<BookmarkRow>, StepView<(bool, usize)>)
    decreases fuel,
{
    match step {
        StepView::Run(c) =>
            if fuel == 0 {
                (t, step)
            } else {
                let (t2, r) = table_answer(t, c, listing);
                let (s2, step2) = load_next(s, r);
                run_load(s2, step2, t2, listing, (fuel - 1) as nat)
            },
        StepView::Done(_) => (t, step),
    }
}

proof fn lemma_folder_size(t: Seq<BookmarkRow>, f: Seq<char>)
    ensures
        folder_size(t, f) <= t.len(),
        forall|id: Seq<char>| #[trigger] rows_matching(t, f, id) <= folder_size(t, f),
        folder_size(t, f) > 0 ==> exists|id: Seq<char>| #[trigger] rows_matching(t, f, id) > 0,
    decreases t.len(),
{
    if t.len() > 0 {
        lemma_folder_size(t.drop_last(), f);
        assert forall|id: Seq<char>| #[trigger] rows_matching(t, f, id) <= folder_size(t, f) by {
            assert(rows_matching(t.drop_last(), f, id) <= folder_size(t.drop_last(), f));
        }
        if t.last().folder == f {
            assert(rows_matching(t, f, t.last().endpoint_id) > 0);
        } else if folder_size(t, f) > 0 {
            let id = choose|id: Seq<char>| #[trigger] rows_matching(t.drop_last(), f, id) > 0;
            assert(rows_matching(t, f, id) > 0);
        }
    }
}

proof fn lemma_without_folder(t: Seq<BookmarkRow>, f: Seq<char>)
    ensures
        without_folder(t, f).len() <= t.len(),
        forall|g: Seq<char>, id: Seq<char>| #[trigger] rows_matching(without_folder(t, f), g, id)
            == (if g == f { 0nat } else { rows_matching(t, g, id) }),
    decreases t.len(),
{
    if t.len() > 0 {
        let p = t.drop_last();
        lemma_without_folder(p, f);
        assert forall|g: Seq<char>, id: Seq<char>| #[trigger] rows_matching(without_folder(t, f), g, id)
            == (if g == f { 0nat } else { rows_matching(t, g, id) }) by {
            if t.last().folder != f {
                lemma_rows_push(without_folder(p, f), t.last(), g, id);
            }
        }
    }
}

/// The load from the count query of the `i`-th listed source id on: the workspace,
/// emptied before, gets each listed id once, in order.
proof fn lemma_fill_from(tc: Seq<BookmarkRow>, source: Seq<char>, src: Seq<Seq<char>>, moved: bool,
    listing: spec_fn(Seq<char>) -> Seq<Seq<char>>, i: int, fuel: nat)
    requires
        src.no_duplicates(),
        0 <= i < src.len(),
        src.len() <= usize::MAX,
        tc.len() + src.len() < i64::MAX,
        forall|x: Seq<char>| #[trigger] rows_matching(tc, ACTIVE_FOLDER@, x) == 0,
        fuel >= 2 * (src.len() - i),
    ensures
        run_load(ActiveLoadView { source, phase: LoadPhase::FillCheck(i as usize), ids: src, moved, total: i as usize },
            StepView::Run(DbCommandView::Count(count_id_in_folder_view(ACTIVE_FOLDER@, src[i]))),
            tc + copied_rows(src.take(i), ACTIVE_FOLDER@), listing, fuel)
            == (tc + copied_rows(src, ACTIVE_FOLDER@), StepView::<(bool, usize)>::Done(Ok((moved, src.len() as usize)))),
    decreases src.len() - i,
{
    let id = src[i];
    let pre = src.take(i);
    let ti = tc + copied_rows(pre, ACTIVE_FOLDER@);
    assert(!pre.contains(id)) by {
        if pre.contains(id) {
            let j = choose|j: int| 0 <= j < i && pre[j] == id;
            assert(src[j] == src[i]);
        }
    }
    lemma_copied_rows(tc, pre, ACTIVE_FOLDER@, ACTIVE_FOLDER@, id);
    assert(rows_matching(ti, ACTIVE_FOLDER@, id) == 0);
    let s = ActiveLoadView { source, phase: LoadPhase::FillCheck(i as usize), ids: src, moved, total: i as usize };
    let count_st = count_id_in_folder_view(ACTIVE_FOLDER@, id);
    assert(count_st.params =~= count_id_in_folder_view(text_at(count_st, 0), text_at(count_st, 1)).params);
    let step = StepView::<(bool, usize)>::Run(DbCommandView::Count(count_st));
    let (t1, r1) = table_answer(ti, DbCommandView::Count(count_st), listing);
    assert(t1 == ti && r1 == DbReplyView::Counts(seq![0i64]));
    let (s1, step1) = load_next(s, r1);
    let ins = insert_bookmark_view(id, ACTIVE_FOLDER@, None);
    assert(step1 == StepView::<(bool, usize)>::Run(DbCommandView::Execute(ins)));
    assert(ins.params =~= insert_bookmark_view(text_at(ins, 0), text_at(ins, 1), opt_text_at(ins, 2)).params);
    let row = BookmarkRow { endpoint_id: id, folder: ACTIVE_FOLDER@, notes: None };
    let (t2, r2) = table_answer(t1, DbCommandView::Execute(ins), listing);
    assert(t2 == ti.push(row) && r2 == DbReplyView::Affected(1));
    let next = src.take(i + 1);
    assert(next.drop_last() =~= pre);
    assert(t2 =~= tc + copied_rows(next, ACTIVE_FOLDER@));
    let (s2, step2) = load_next(s1, r2);
    assert(run_load(s, step, ti, listing, fuel) == run_load(s1, step1, t1, listing, (fuel - 1) as nat));
    assert(run_load(s1, step1, t1, listing, (fuel - 1) as nat) == run_load(s2, step2, t2, listing, (fuel - 2) as nat));
    if i + 1 < src.len() {
        lemma_fill_from(tc, source, src, moved, listing, i + 1, (fuel - 2) as nat);
    } else {
        assert(next =~= src);
    }
}

/// The backup from the copy of the `i`-th listed active id on: each listed id
/// is copied into the session backup, then the workspace is cleared.
proof fn lemma_backup_from(tb: Seq<BookmarkRow>, source: Seq<char>, al: Seq<Seq<char>>,
    listing: spec_fn(Seq<char>) -> Seq<Seq<char>>, i: int, fuel: nat)
    requires
        0 <= i < al.len(),
        al.len() <= usize::MAX,
        fuel >= al.len() - i,
    ensures
        run_load(ActiveLoadView { source, phase: LoadPhase::CopyToBackup(i as usize), ids: al, moved: true, total: 0 },
            StepView::Run(DbCommandView::Execute(copy_bookmark_view(al[i], SESSION_BACKUP_FOLDER@))),
            tb + copied_rows(al.take(i), SESSION_BACKUP_FOLDER@), listing, fuel)
            == run_load(ActiveLoadView { source, phase: LoadPhase::ClearActive, ids: al, moved: true, total: 0 },
            StepView::Run(DbCommandView::Execute(clear_folder_view(ACTIVE_FOLDER@))),
            tb + copied_rows(al, SESSION_BACKUP_FOLDER@), listing, (fuel - (al.len() - i)) as nat),
    decreases al.len() - i,
{
    let id = al[i];
    let pre = al.take(i);
    let ti = tb + copied_rows(pre, SESSION_BACKUP_FOLDER@);
    let s = ActiveLoadView { source, phase: LoadPhase::CopyToBackup(i as usize), ids: al, moved: true, total: 0 };
    let cp = copy_bookmark_view(id, SESSION_BACKUP_FOLDER@);
    assert(cp.params.len() == 2);
    assert(cp != insert_bookmark_view(text_at(cp, 0), text_at(cp, 1), opt_text_at(cp, 2)));
    assert(cp.params =~= copy_bookmark_view(text_at(cp, 0), text_at(cp, 1)).params);
    let step = StepView::<(bool, usize)>::Run(DbCommandView::Execute(cp));
    let row = BookmarkRow { endpoint_id: id, folder: SESSION_BACKUP_FOLDER@, notes: None };
    let (t1, r1) = table_answer(ti, DbCommandView::Execute(cp), listing);
    assert(t1 == ti.push(row) && r1 == DbReplyView::Affected(1));
    let next = al.take(i + 1);
    assert(next.drop_last() =~= pre);
    assert(t1 =~= tb + copied_rows(next, SESSION_BACKUP_FOLDER@));
    let (s1, step1) = load_next(s, r1);
    assert(run_load(s, step, ti, listing, fuel) == run_load(s1, step1, t1, listing, (fuel - 1) as nat));
    if i + 1 < al.len() {
        lemma_backup_from(tb, source, al, listing, i + 1, (fuel - 1) as nat);
    } else {
        assert(next =~= al);
    }
}

/// Loading a collection into the active workspace replaces the workspace by
/// the collection and keeps the replaced workspace in the session backup:
/// with `active` and `source` the ids of the workspace and of the collection
/// in the order the database lists them, the result is `Ok` of whether the
/// workspace was non-empty and the number of endpoints loaded; afterwards the
/// workspace holds each endpoint of the collection once, the backup holds each
/// endpoint of the old workspace once when that was non-empty (and is
/// untouched otherwise), and no other folder changes.
pub proof fn law_load_collection_table(t: Seq<BookmarkRow>, source: Seq<char>, active: Seq<Seq<char>>, src: Seq<Seq<char>>)
    requires
        source != ACTIVE_FOLDER@,
        source != SESSION_BACKUP_FOLDER@,
        active.no_duplicates(),
        forall|id: Seq<char>| active.contains(id) <==> #[trigger] rows_matching(t, ACTIVE_FOLDER@, id) > 0,
        src.no_duplicates(),
        forall|id: Seq<char>| src.contains(id) <==> #[trigger] rows_matching(t, source, id) > 0,
        active.len() <= usize::MAX,
        src.len() <= usize::MAX,
        t.len() <= usize::MAX,
        t.len() + active.len() + src.len() < i64::MAX,
    ensures
        ({
            let start = ActiveLoadView { source, phase: LoadPhase::CountActive, ids: Seq::empty(), moved: false, total: 0 };
            let first = StepView::<(bool, usize)>::Run(DbCommandView::Count(count_in_folder_view(ACTIVE_FOLDER@)));
            let (t2, last) = run_load(start, first, t, list_two(active, src), active.len() + 2 * src.len() + 5);
            let moved = active.len() > 0;
            &&& last == StepView::<(bool, usize)>::Done(Ok((moved, src.len() as usize)))
            &&& forall|id: Seq<char>| #[trigger] rows_matching(t2, ACTIVE_FOLDER@, id)
                    == (if src.contains(id) { 1nat } else { 0nat })
            &&& moved ==> forall|id: Seq<char>| #[trigger] rows_matching(t2, SESSION_BACKUP_FOLDER@, id)
                    == (if active.contains(id) { 1nat } else { 0nat })
            &&& !moved ==> forall|id: Seq<char>| #[trigger] rows_matching(t2, SESSION_BACKUP_FOLDER@, id)
                    == rows_matching(t, SESSION_BACKUP_FOLDER@, id)
            &&& forall|f: Seq<char>, id: Seq<char>| f != ACTIVE_FOLDER@ && f != SESSION_BACKUP_FOLDER@ ==>
                    #[trigger] rows_matching(t2, f, id) == rows_matching(t, f, id)
        }),
{
    lemma_folders_differ();
    let listing = list_two(active, src);
    let fuel = active.len() + 2 * src.len() + 5;
    let start = ActiveLoadView { source, phase: LoadPhase::CountActive, ids: Seq::empty(), moved: false, total: 0 };
    let count_st = count_in_folder_view(ACTIVE_FOLDER@);
    assert(count_st.params.len() == 1);
    assert(count_st != count_id_in_folder_view(text_at(count_st, 0), text_at(count_st, 1)));
    assert(count_st.params =~= count_in_folder_view(text_at(count_st, 0)).params);
    let first = StepView::<(bool, usize)>::Run(DbCommandView::Count(count_st));
    lemma_folder_size(t, ACTIVE_FOLDER@);
    let size = folder_size(t, ACTIVE_FOLDER@);
    let (t0, r0) = table_answer(t, DbCommandView::Count(count_st), listing);
    assert(t0 == t && r0 == DbReplyView::Counts(seq![size as i64]));
    let moved = active.len() > 0;
    assert(moved == (size > 0)) by {
        if size > 0 {
            let id = choose|id: Seq<char>| #[trigger] rows_matching(t, ACTIVE_FOLDER@, id) > 0;
            assert(active.contains(id));
        }
        if moved {
            assert(active.contains(active[0]));
            assert(rows_matching(t, ACTIVE_FOLDER@, active[0]) <= size);
        }
    }
    assert(seq![size as i64][0] == size);
    assert(((size as i64) as usize) == size);
    let (s1, step1) = load_next(start, r0);
    assert(s1.moved == moved);
    assert(run_load(start, first, t, listing, fuel) == run_load(s1, step1, t, listing, (fuel - 1) as nat));
    // The table when the workspace is about to be cleared.
    let tx = if moved {
        let clear_b = clear_folder_view(SESSION_BACKUP_FOLDER@);
        assert(step1 == StepView::<(bool, usize)>::Run(DbCommandView::Execute(clear_b)));
        assert(clear_b.params.len() == 1);
        assert(clear_b != insert_bookmark_view(text_at(clear_b, 0), text_at(clear_b, 1), opt_text_at(clear_b, 2)));
        assert(clear_b != copy_bookmark_view(text_at(clear_b, 0), text_at(clear_b, 1)));
        assert(clear_b.params =~= clear_folder_view(text_at(clear_b, 0)).params);
        let tb = without_folder(t, SESSION_BACKUP_FOLDER@);
        let (t1, r1) = table_answer(t, DbCommandView::Execute(clear_b), listing);
        assert(t1 == tb);
        let (s2, step2) = load_next(s1, r1);
        let list_a = list_folder_view(ACTIVE_FOLDER@);
        assert(step2 == StepView::<(bool, usize)>::Run(DbCommandView::ListIds(list_a)));
        assert(list_a.params =~= list_folder_view(text_at(list_a, 0)).params);
        let (t2, r2) = table_answer(tb, DbCommandView::ListIds(list_a), listing);
        assert(t2 == tb && r2 == DbReplyView::Ids(active));
        let (s3, step3) = load_next(s2, r2);
        assert(run_load(s1, step1, t, listing, (fuel - 1) as nat) == run_load(s2, step2, tb, listing, (fuel - 2) as nat));
        assert(run_load(s2, step2, tb, listing, (fuel - 2) as nat) == run_load(s3, step3, tb, listing, (fuel - 3) as nat));
        assert(active.take(0) =~= Seq::<Seq<char>>::empty());
        assert(tb + copied_rows(Seq::empty(), SESSION_BACKUP_FOLDER@) =~= tb);
        lemma_backup_from(tb, source, active, listing, 0, (fuel - 3) as nat);
        tb + copied_rows(active, SESSION_BACKUP_FOLDER@)
    } else {
        t
    };
    let fuel_c = (fuel - 1 - (if moved { active.len() + 2 } else { 0 })) as nat;
    let sc = ActiveLoadView { source, phase: LoadPhase::ClearActive, ids: if moved { active } else { Seq::empty() }, moved, total: 0 };
    let clear_a = clear_folder_view(ACTIVE_FOLDER@);
    let stepc = StepView::<(bool, usize)>::Run(DbCommandView::Execute(clear_a));
    assert(run_load(start, first, t, listing, fuel) == run_load(sc, stepc, tx, listing, fuel_c));
    assert(clear_a.params.len() == 1);
    assert(clear_a != insert_bookmark_view(text_at(clear_a, 0), text_at(clear_a, 1), opt_text_at(clear_a, 2)));
    assert(clear_a != copy_bookmark_view(text_at(clear_a, 0), text_at(clear_a, 1)));
    assert(clear_a.params =~= clear_folder_view(text_at(clear_a, 0)).params);
    let tc = without_folder(tx, ACTIVE_FOLDER@);
    let (t4, r4) = table_answer(tx, DbCommandView::Execute(clear_a), listing);
    assert(t4 == tc);
    let (s5, step5) = load_next(sc, r4);
    let list_s = list_folder_view(source);
    assert(step5 == StepView::<(bool, usize)>::Run(DbCommandView::ListIds(list_s)));
    assert(list_s.params =~= list_folder_view(text_at(list_s, 0)).params);
    let (t6, r6) = table_answer(tc, DbCommandView::ListIds(list_s), listing);
    assert(t6 == tc && r6 == DbReplyView::Ids(src));
    let (s7, step7) = load_next(s5, r6);
    assert(run_load(sc, stepc, tx, listing, fuel_c) == run_load(s5, step5, tc, listing, (fuel_c - 1) as nat));
    assert(run_load(s5, step5, tc, listing, (fuel_c - 1) as nat) == run_load(s7, step7, tc, listing, (fuel_c - 2) as nat));
    lemma_without_folder(tx, ACTIVE_FOLDER@);
    lemma_without_folder(t, SESSION_BACKUP_FOLDER@);
    if moved {
        lemma_copied_rows(without_folder(t, SESSION_BACKUP_FOLDER@), active, SESSION_BACKUP_FOLDER@, SESSION_BACKUP_FOLDER@, Seq::empty());
    }
    let tend = tc + copied_rows(src, ACTIVE_FOLDER@);
    if src.len() > 0 {
        assert(src.take(0) =~= Seq::<Seq<char>>::empty());
        assert(tc + copied_rows(Seq::empty(), ACTIVE_FOLDER@) =~= tc);
        lemma_fill_from(tc, source, src, moved, listing, 0, (fuel_c - 2) as nat);
    } else {
        assert(src =~= Seq::<Seq<char>>::empty());
        assert(tend =~= tc);
    }
    assert(run_load(start, first, t, listing, fuel) == (tend, StepView::<(bool, usize)>::Done(Ok((moved, src.len() as usize)))));
    assert forall|g: Seq<char>, id: Seq<char>| #[trigger] rows_matching(tend, g, id)
        == (if g == ACTIVE_FOLDER@ { if src.contains(id) { 1nat } else { 0nat } }
            else if g == SESSION_BACKUP_FOLDER@ && moved { if active.contains(id) { 1nat } else { 0nat } }
            else { rows_matching(t, g, id) }) by {
        lemma_copied_rows(tc, src, ACTIVE_FOLDER@, g, id);
        if moved {
            lemma_copied_rows(without_folder(t, SESSION_BACKUP_FOLDER@), active, SESSION_BACKUP_FOLDER@, g, id);
        }
    }
}

/// Restoring the session backup replaces the active workspace by the backup:
/// with `backup` the ids of the backup in the order the database lists them,
/// the result is `Ok` of the number of endpoints restored; afterwards the
/// workspace holds each endpoint of the backup once, and no other folder
/// changes (the backup itself included).
pub proof fn law_restore_backup_table(t: Seq<BookmarkRow>, backup: Seq<Seq<char>>)
    requires
        backup.no_duplicates(),
        forall|id: Seq<char>| backup.contains(id) <==> #[trigger] rows_matching(t, SESSION_BACKUP_FOLDER@, id) > 0,
        backup.len() <= usize::MAX,
        t.len() + backup.len() < i64::MAX,
    ensures
        ({
            let start = ActiveLoadView { source: SESSION_BACKUP_FOLDER@, phase: LoadPhase::ClearActive, ids: Seq::empty(), moved: false, total: 0 };
            let first = StepView::<(bool, usize)>::Run(DbCommandView::Execute(clear_folder_view(ACTIVE_FOLDER@)));
            let (t2, last) = run_load(start, first, t, list_all(backup), 2 * backup.len() + 2);
            &&& last == StepView::<(bool, usize)>::Done(Ok((false, backup.len() as usize)))
            &&& forall|id: Seq<char>| #[trigger] rows_matching(t2, ACTIVE_FOLDER@, id)
                    == (if backup.contains(id) { 1nat } else { 0nat })
            &&& forall|f: Seq<char>, id: Seq<char>| f != ACTIVE_FOLDER@ ==>
                    #[trigger] rows_matching(t2, f, id) == rows_matching(t, f, id)
        }),
{
    lemma_folders_differ();
    let listing = list_all(backup);
    let fuel = 2 * backup.len() + 2;
    let sc = ActiveLoadView { source: SESSION_BACKUP_FOLDER@, phase: LoadPhase::ClearActive, ids: Seq::empty(), moved: false, total: 0 };
    let clear_a = clear_folder_view(ACTIVE_FOLDER@);
    let stepc = StepView::<(bool, usize)>::Run(DbCommandView::Execute(clear_a));
    assert(clear_a.params.len() == 1);
    assert(clear_a != insert_bookmark_view(text_at(clear_a, 0), text_at(clear_a, 1), opt_text_at(clear_a, 2)));
    assert(clear_a != copy_bookmark_view(text_at(clear_a, 0), text_at(clear_a, 1)));
    assert(clear_a.params =~= clear_folder_view(text_at(clear_a, 0)).params);
    let tc = without_folder(t, ACTIVE_FOLDER@);
    let (t1, r1) = table_answer(t, DbCommandView::Execute(clear_a), listing);
    assert(t1 == tc);
    let (s2, step2) = load_next(sc, r1);
    let list_b = list_folder_view(SESSION_BACKUP_FOLDER@);
    assert(step2 == StepView::<(bool, usize)>::Run(DbCommandView::ListIds(list_b)));
    assert(list_b.params =~= list_folder_view(text_at(list_b, 0)).params);
    let (t3, r3) = table_answer(tc, DbCommandView::ListIds(list_b), listing);
    assert(t3 == tc && r3 == DbReplyView::Ids(backup));
    let (s4, step4) = load_next(s2, r3);
    assert(run_load(sc, stepc, t, listing, fuel) == run_load(s2, step2, tc, listing, (fuel - 1) as nat));
    assert(run_load(s2, step2, tc, listing, (fuel - 1) as nat) == run_load(s4, step4, tc, listing, (fuel - 2) as nat));
    lemma_without_folder(t, ACTIVE_FOLDER@);
    let tend = tc + copied_rows(backup, ACTIVE_FOLDER@);
    if backup.len() > 0 {
        assert(backup.take(0) =~= Seq::<Seq<char>>::empty());
        assert(tc + copied_rows(Seq::empty(), ACTIVE_FOLDER@) =~= tc);
        lemma_fill_from(tc, SESSION_BACKUP_FOLDER@, backup, false, listing, 0, (fuel - 2) as nat);
    } else {
        assert(backup =~= Seq::<Seq<char>>::empty());
        assert(tend =~= tc);
    }
    assert forall|g: Seq<char>, id: Seq<char>| #[trigger] rows_matching(tend, g, id)
        == (if g == ACTIVE_FOLDER@ { if backup.contains(id) { 1nat } else { 0nat } } else { rows_matching(t, g, id) }) by {
        lemma_copied_rows(tc, backup, ACTIVE_FOLDER@, g, id);
    }
}

} // verus!
