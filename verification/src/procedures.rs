//! The multi-statement bookmark procedures, each as a machine that issues one
//! database command at a time and decides its next command from the reply.
//! The application runs the commands against the database and feeds back the
//! replies until the machine reports its result.

use vstd::prelude::*;
use crate::error::{EdmsError, EdmsResult};
use crate::sql::{SqlStatement, SqlStatementView, first_or_zero, first_count, opt_str_view};
use crate::statements::{
    ACTIVE_FOLDER, SESSION_BACKUP_FOLDER, opt_string_view,
    count_in_folder_view, count_id_in_folder_view, clear_folder_view, list_folder_view,
    insert_bookmark_view, copy_bookmark_view,
    count_in_folder_statement, count_id_in_folder_statement, clear_folder_statement,
    list_folder_statement, insert_bookmark_statement, copy_bookmark_statement,
};

verus! {

/// A command for the database: a count query (one integer column), an id
/// query (one text column), or a statement that changes rows.
pub enum DbCommand {
    Count(SqlStatement),
    ListIds(SqlStatement),
    Execute(SqlStatement),
}

pub enum DbCommandView {
    Count(SqlStatementView),
    ListIds(SqlStatementView),
    Execute(SqlStatementView),
}

impl View for DbCommand {
    type V = DbCommandView;

    open spec fn view(&self) -> DbCommandView {
        match self {
            DbCommand::Count(s) => DbCommandView::Count(s@),
            DbCommand::ListIds(s) => DbCommandView::ListIds(s@),
            DbCommand::Execute(s) => DbCommandView::Execute(s@),
        }
    }
}

/// What the database answered to a command: the rows of a count query, the
/// ids of an id query, the number of rows a statement changed, or a failure.
pub enum DbReply {
    Counts(Vec<i64>),
    Ids(Vec<String>),
    Affected(usize),
    Failed(EdmsError),
}

pub enum DbReplyView {
    Counts(Seq<i64>),
    Ids(Seq<Seq<char>>),
    Affected(usize),
    Failed(EdmsError),
}

pub open spec fn ids_view(ids: Seq<String>) -> Seq<Seq<char>> {
    ids.map_values(|s: String| s@)
}

impl View for DbReply {
    type V = DbReplyView;

    open spec fn view(&self) -> DbReplyView {
        match self {
            DbReply::Counts(rows) => DbReplyView::Counts(rows@),
            DbReply::Ids(ids) => DbReplyView::Ids(ids_view(ids@)),
            DbReply::Affected(n) => DbReplyView::Affected(*n),
            DbReply::Failed(e) => DbReplyView::Failed(*e),
        }
    }
}

/// The next move of a procedure: run a command, or finish with a result.
pub enum Step<T> {
    Run(DbCommand),
    Done(EdmsResult<T>),
}

pub enum StepView<T> {
    Run(DbCommandView),
    Done(EdmsResult<T>),
}

impl<T> View for Step<T> {
    type V = StepView<T>;

    open spec fn view(&self) -> StepView<T> {
        match self {
            Step::Run(c) => StepView::Run(c@),
            Step::Done(r) => StepView::Done(*r),
        }
    }
}

/// Lexicographic order on progress measures.
pub open spec fn lex_lt(a: (nat, nat), b: (nat, nat)) -> bool {
    a.0 < b.0 || (a.0 == b.0 && a.1 < b.1)
}

// ---------------------------------------------------------------------------
// Adding one endpoint to the active workspace, unless it is already there.
// ---------------------------------------------------------------------------

#[derive(Clone, Copy, PartialEq, Eq, Debug)]
pub enum InsertPhase {
    Check,
    Write,
    Finished,
}

/// Bookmarks an endpoint in the active workspace unless it is already
/// bookmarked there; the result is the number of rows inserted.
pub struct InsertActive {
    pub endpoint_id: String,
    pub notes: Option<String>,
    pub phase: InsertPhase,
}

pub struct InsertActiveView {
    pub endpoint_id: Seq<char>,
    pub notes: Option<Seq<char>>,
    pub phase: InsertPhase,
}

impl View for InsertActive {
    type V = InsertActiveView;

    open spec fn view(&self) -> InsertActiveView {
        InsertActiveView { endpoint_id: self.endpoint_id@, notes: opt_string_view(self.notes), phase: self.phase }
    }
}

/// The replies a waiting insert accepts.
pub open spec fn insert_accepts(s: InsertActiveView, r: DbReplyView) -> bool {
    match s.phase {
        InsertPhase::Check => r is Counts || r is Failed,
        InsertPhase::Write => r is Affected || r is Failed,
        InsertPhase::Finished => false,
    }
}

/// One transition of the insert.
pub open spec fn insert_next(s: InsertActiveView, r: DbReplyView) -> (InsertActiveView, StepView<usize>) {
    let fin = InsertActiveView { phase: InsertPhase::Finished, ..s };
    match r {
        DbReplyView::Failed(e) => (fin, StepView::Done(Err(e))),
        DbReplyView::Counts(rows) =>
            if first_or_zero(rows) > 0 {
                (fin, StepView::Done(Ok(0usize)))
            } else {
                (InsertActiveView { phase: InsertPhase::Write, ..s },
                 StepView::Run(DbCommandView::Execute(insert_bookmark_view(s.endpoint_id, ACTIVE_FOLDER@, s.notes))))
            },
        DbReplyView::Affected(n) => (fin, StepView::Done(Ok(n))),
        DbReplyView::Ids(_) => (fin, StepView::Done(Err(EdmsError::UnknownError))),
    }
}

/// The progress of an insert: it strictly decreases with every transition.
pub open spec fn insert_rank(s: InsertActiveView) -> (nat, nat) {
    match s.phase {
        InsertPhase::Check => (2, 0),
        InsertPhase::Write => (1, 0),
        InsertPhase::Finished => (0, 0),
    }
}

impl InsertActive {
    /// Starts the insert: first count the endpoint's active bookmarks.
    pub fn begin(endpoint_id: &str, notes: Option<&str>) -> (r: (InsertActive, Step<usize>))
        ensures
            r.0@ == (InsertActiveView { endpoint_id: endpoint_id@, notes: opt_str_view(notes), phase: InsertPhase::Check }),
            r.1@ == StepView::<usize>::Run(DbCommandView::Count(count_id_in_folder_view(ACTIVE_FOLDER@, endpoint_id@))),
    {
        let m = InsertActive {
            endpoint_id: String::from_str(endpoint_id),
            notes: match notes { Some(n) => Some(String::from_str(n)), None => None },
            phase: InsertPhase::Check,
        };
        let st = count_id_in_folder_statement(ACTIVE_FOLDER, endpoint_id);
        (m, Step::Run(DbCommand::Count(st)))
    }

    /// Whether the insert is waiting for `reply`.
    pub fn accepts(&self, reply: &DbReply) -> (b: bool)
        ensures
            b == insert_accepts(self@, reply@),
    {
        match self.phase {
            InsertPhase::Check => match reply {
                DbReply::Counts(_) => true,
                DbReply::Failed(_) => true,
                _ => false,
            },
            InsertPhase::Write => match reply {
                DbReply::Affected(_) => true,
                DbReply::Failed(_) => true,
                _ => false,
            },
            InsertPhase::Finished => false,
        }
    }

    /// Takes the reply to the last command and decides the next move.
    pub fn resume(&mut self, reply: DbReply) -> (step: Step<usize>)
        requires
            insert_accepts(old(self)@, reply@),
        ensures
            (final(self)@, step@) == insert_next(old(self)@, reply@),
    {
        match reply {
            DbReply::Failed(e) => {
                self.phase = InsertPhase::Finished;
                Step::Done(Err(e))
            },
            DbReply::Counts(rows) => {
                if first_count(&rows) > 0 {
                    self.phase = InsertPhase::Finished;
                    Step::Done(Ok(0))
                } else {
                    self.phase = InsertPhase::Write;
                    let notes = match &self.notes { Some(n) => Some(n.as_str()), None => None };
                    let st = insert_bookmark_statement(self.endpoint_id.as_str(), ACTIVE_FOLDER, notes);
                    Step::Run(DbCommand::Execute(st))
                }
            },
            DbReply::Affected(n) => {
                self.phase = InsertPhase::Finished;
                Step::Done(Ok(n))
            },
            DbReply::Ids(_) => {
                self.phase = InsertPhase::Finished;
                Step::Done(Err(EdmsError::UnknownError))
            },
        }
    }
}

// ---------------------------------------------------------------------------
// Saving the active workspace as a named collection.
// ---------------------------------------------------------------------------

#[derive(Clone, Copy, PartialEq, Eq, Debug)]
pub enum CopyPhase {
    List,
    Check(usize),
    Write(usize),
    Finished,
}

/// Copies every active bookmark into the folder `collection`, skipping the
/// endpoints already there; the result is the number of rows inserted.
pub struct CreateCollection {
    pub collection: String,
    pub phase: CopyPhase,
    pub ids: Vec<String>,
    pub inserted: usize,
}

pub struct CreateCollectionView {
    pub collection: Seq<char>,
    pub phase: CopyPhase,
    pub ids: Seq<Seq<char>>,
    pub inserted: usize,
}

impl View for CreateCollection {
    type V = CreateCollectionView;

    open spec fn view(&self) -> CreateCollectionView {
        CreateCollectionView { collection: self.collection@, phase: self.phase, ids: ids_view(self.ids@), inserted: self.inserted }
    }
}

/// The indices in a phase are within the listed ids.
pub open spec fn copy_wf(s: CreateCollectionView) -> bool {
    s.ids.len() <= usize::MAX && match s.phase {
        CopyPhase::Check(i) => i < s.ids.len(),
        CopyPhase::Write(i) => i < s.ids.len(),
        _ => true,
    }
}

pub open spec fn copy_accepts(s: CreateCollectionView, r: DbReplyView) -> bool {
    match s.phase {
        CopyPhase::List => (r is Ids && r->Ids_0.len() <= usize::MAX) || r is Failed,
        CopyPhase::Check(_) => r is Counts || r is Failed,
        CopyPhase::Write(_) => (r is Affected && s.inserted + r->Affected_0 <= usize::MAX) || r is Failed,
        CopyPhase::Finished => false,
    }
}

/// After the id at `i` is settled: check the next id, or finish.
pub open spec fn copy_advance(s: CreateCollectionView, i: int) -> (CreateCollectionView, StepView<usize>) {
    if i + 1 < s.ids.len() {
        (CreateCollectionView { phase: CopyPhase::Check((i + 1) as usize), ..s },
         StepView::Run(DbCommandView::Count(count_id_in_folder_view(s.collection, s.ids[i + 1]))))
    } else {
        (CreateCollectionView { phase: CopyPhase::Finished, ..s }, StepView::Done(Ok(s.inserted)))
    }
}

pub open spec fn copy_next(s: CreateCollectionView, r: DbReplyView) -> (CreateCollectionView, StepView<usize>) {
    let fin = CreateCollectionView { phase: CopyPhase::Finished, ..s };
    match r {
        DbReplyView::Failed(e) => (fin, StepView::Done(Err(e))),
        DbReplyView::Ids(ids) =>
            if ids.len() == 0 {
                (CreateCollectionView { phase: CopyPhase::Finished, ids, ..s }, StepView::Done(Ok(s.inserted)))
            } else {
                (CreateCollectionView { phase: CopyPhase::Check(0), ids, ..s },
                 StepView::Run(DbCommandView::Count(count_id_in_folder_view(s.collection, ids[0]))))
            },
        DbReplyView::Counts(rows) => match s.phase {
            CopyPhase::Check(i) =>
                if first_or_zero(rows) == 0 {
                    (CreateCollectionView { phase: CopyPhase::Write(i), ..s },
                     StepView::Run(DbCommandView::Execute(copy_bookmark_view(s.ids[i as int], s.collection))))
                } else {
                    copy_advance(s, i as int)
                },
            _ => (fin, StepView::Done(Err(EdmsError::UnknownError))),
        },
        DbReplyView::Affected(n) => match s.phase {
            CopyPhase::Write(i) => copy_advance(CreateCollectionView { inserted: (s.inserted + n) as usize, ..s }, i as int),
            _ => (fin, StepView::Done(Err(EdmsError::UnknownError))),
        },
    }
}

/// The progress of the copy: the stage, then the work left in the listed ids.
pub open spec fn copy_rank(s: CreateCollectionView) -> (nat, nat) {
    match s.phase {
        CopyPhase::List => (2, 0),
        CopyPhase::Check(i) => (1, (2 * (s.ids.len() - i)) as nat),
        CopyPhase::Write(i) => (1, (2 * (s.ids.len() - i) - 1) as nat),
        CopyPhase::Finished => (0, 0),
    }
}

impl CreateCollection {
    /// Starts the copy: first list the active bookmarks.
    pub fn begin(collection: &str) -> (r: (CreateCollection, Step<usize>))
        ensures
            r.0@ == (CreateCollectionView { collection: collection@, phase: CopyPhase::List, ids: Seq::empty(), inserted: 0 }),
            r.1@ == StepView::<usize>::Run(DbCommandView::ListIds(list_folder_view(ACTIVE_FOLDER@))),
    {
        let m = CreateCollection { collection: String::from_str(collection), phase: CopyPhase::List, ids: Vec::new(), inserted: 0 };
        assert(ids_view(m.ids@) =~= Seq::<Seq<char>>::empty());
        (m, Step::Run(DbCommand::ListIds(list_folder_statement(ACTIVE_FOLDER))))
    }

    /// Whether the copy is waiting for `reply`.
    pub fn accepts(&self, reply: &DbReply) -> (b: bool)
        ensures
            b == copy_accepts(self@, reply@),
    {
        match self.phase {
            CopyPhase::List => match reply {
                DbReply::Ids(v) => {
                    let l = v.len();
                    assert(ids_view(v@).len() == l);
                    true
                },
                DbReply::Failed(_) => true,
                _ => false,
            },
            CopyPhase::Check(_) => match reply {
                DbReply::Counts(_) => true,
                DbReply::Failed(_) => true,
                _ => false,
            },
            CopyPhase::Write(_) => match reply {
                DbReply::Affected(n) => *n <= usize::MAX - self.inserted,
                DbReply::Failed(_) => true,
                _ => false,
            },
            CopyPhase::Finished => false,
        }
    }

    fn advance(&mut self, i: usize) -> (step: Step<usize>)
        requires
            copy_wf(old(self)@),
            i < old(self)@.ids.len(),
        ensures
            (final(self)@, step@) == copy_advance(old(self)@, i as int),
            copy_wf(final(self)@),
    {
        let n = self.ids.len();
        assert(ids_view(self.ids@).len() == n);
        assert(i < n);
        if i + 1 < n {
            self.phase = CopyPhase::Check(i + 1);
            let st = count_id_in_folder_statement(self.collection.as_str(), self.ids[i + 1].as_str());
            Step::Run(DbCommand::Count(st))
        } else {
            self.phase = CopyPhase::Finished;
            Step::Done(Ok(self.inserted))
        }
    }

    /// Takes the reply to the last command and decides the next move.
    pub fn resume(&mut self, reply: DbReply) -> (step: Step<usize>)
        requires
            copy_wf(old(self)@),
            copy_accepts(old(self)@, reply@),
        ensures
            (final(self)@, step@) == copy_next(old(self)@, reply@),
            copy_wf(final(self)@),
    {
        match reply {
            DbReply::Failed(e) => {
                self.phase = CopyPhase::Finished;
                Step::Done(Err(e))
            },
            DbReply::Ids(ids) => {
                self.ids = ids;
                if self.ids.len() == 0 {
                    self.phase = CopyPhase::Finished;
                    Step::Done(Ok(self.inserted))
                } else {
                    self.phase = CopyPhase::Check(0);
                    let st = count_id_in_folder_statement(self.collection.as_str(), self.ids[0].as_str());
                    Step::Run(DbCommand::Count(st))
                }
            },
            DbReply::Counts(rows) => match self.phase {
                CopyPhase::Check(i) => {
                    if first_count(&rows) == 0 {
                        self.phase = CopyPhase::Write(i);
                        let st = copy_bookmark_statement(self.ids[i].as_str(), self.collection.as_str());
                        Step::Run(DbCommand::Execute(st))
                    } else {
                        self.advance(i)
                    }
                },
                _ => {
                    self.phase = CopyPhase::Finished;
                    Step::Done(Err(EdmsError::UnknownError))
                },
            },
            DbReply::Affected(n) => match self.phase {
                CopyPhase::Write(i) => {
                    self.inserted = self.inserted + n;
                    self.advance(i)
                },
                _ => {
                    self.phase = CopyPhase::Finished;
                    Step::Done(Err(EdmsError::UnknownError))
                },
            },
        }
    }
}

// ---------------------------------------------------------------------------
// Replacing the active workspace: by a collection (keeping the old workspace
// in the session backup) or by the session backup.
// ---------------------------------------------------------------------------

#[derive(Clone, Copy, PartialEq, Eq, Debug)]
pub enum LoadPhase {
    CountActive,
    ClearBackup,
    ListActive,
    CopyToBackup(usize),
    ClearActive,
    ListSource,
    FillCheck(usize),
    FillWrite(usize),
    Finished,
}

/// Replaces the active workspace by the bookmarks of the folder `source`.
/// When started for a collection, a non-empty workspace is first copied into
/// the session backup. The result is whether a backup was taken and how many
/// bookmarks were loaded into the workspace.
pub struct ActiveLoad {
    pub source: String,
    pub phase: LoadPhase,
    pub ids: Vec<String>,
    pub moved: bool,
    pub total: usize,
}

pub struct ActiveLoadView {
    pub source: Seq<char>,
    pub phase: LoadPhase,
    pub ids: Seq<Seq<char>>,
    pub moved: bool,
    pub total: usize,
}

impl View for ActiveLoad {
    type V = ActiveLoadView;

    open spec fn view(&self) -> ActiveLoadView {
        ActiveLoadView { source: self.source@, phase: self.phase, ids: ids_view(self.ids@), moved: self.moved, total: self.total }
    }
}

pub open spec fn load_wf(s: ActiveLoadView) -> bool {
    s.ids.len() <= usize::MAX && match s.phase {
        LoadPhase::CopyToBackup(i) => i < s.ids.len(),
        LoadPhase::FillCheck(i) => i < s.ids.len(),
        LoadPhase::FillWrite(i) => i < s.ids.len(),
        _ => true,
    }
}

pub open spec fn load_accepts(s: ActiveLoadView, r: DbReplyView) -> bool {
    match s.phase {
        LoadPhase::CountActive => r is Counts || r is Failed,
        LoadPhase::ClearBackup => r is Affected || r is Failed,
        LoadPhase::ListActive => (r is Ids && r->Ids_0.len() <= usize::MAX) || r is Failed,
        LoadPhase::CopyToBackup(_) => r is Affected || r is Failed,
        LoadPhase::ClearActive => r is Affected || r is Failed,
        LoadPhase::ListSource => (r is Ids && r->Ids_0.len() <= usize::MAX) || r is Failed,
        LoadPhase::FillCheck(_) => r is Counts || r is Failed,
        LoadPhase::FillWrite(_) => (r is Affected && s.total + r->Affected_0 <= usize::MAX) || r is Failed,
        LoadPhase::Finished => false,
    }
}

pub open spec fn clear_active_step(s: ActiveLoadView) -> (ActiveLoadView, StepView<(bool, usize)>) {
    (ActiveLoadView { phase: LoadPhase::ClearActive, ..s },
     StepView::Run(DbCommandView::Execute(clear_folder_view(ACTIVE_FOLDER@))))
}

/// After copying the id at `i` into the backup: copy the next one, or clear
/// the workspace.
pub open spec fn backup_advance(s: ActiveLoadView, i: int) -> (ActiveLoadView, StepView<(bool, usize)>) {
    if i + 1 < s.ids.len() {
        (ActiveLoadView { phase: LoadPhase::CopyToBackup((i + 1) as usize), ..s },
         StepView::Run(DbCommandView::Execute(copy_bookmark_view(s.ids[i + 1], SESSION_BACKUP_FOLDER@))))
    } else {
        clear_active_step(s)
    }
}

/// After loading the id at `i`: check the next one, or finish.
pub open spec fn fill_advance(s: ActiveLoadView, i: int) -> (ActiveLoadView, StepView<(bool, usize)>) {
    if i + 1 < s.ids.len() {
        (ActiveLoadView { phase: LoadPhase::FillCheck((i + 1) as usize), ..s },
         StepView::Run(DbCommandView::Count(count_id_in_folder_view(ACTIVE_FOLDER@, s.ids[i + 1]))))
    } else {
        (ActiveLoadView { phase: LoadPhase::Finished, ..s }, StepView::Done(Ok((s.moved, s.total))))
    }
}

pub open spec fn load_next(s: ActiveLoadView, r: DbReplyView) -> (ActiveLoadView, StepView<(bool, usize)>) {
    let fin = ActiveLoadView { phase: LoadPhase::Finished, ..s };
    let bad = (fin, StepView::Done(Err(EdmsError::UnknownError)));
    match s.phase {
        LoadPhase::CountActive => match r {
            DbReplyView::Counts(rows) => {
                let moved = (first_or_zero(rows) as usize) > 0;
                if moved {
                    (ActiveLoadView { phase: LoadPhase::ClearBackup, moved, ..s },
                     StepView::Run(DbCommandView::Execute(clear_folder_view(SESSION_BACKUP_FOLDER@))))
                } else {
                    clear_active_step(ActiveLoadView { moved, ..s })
                }
            },
            DbReplyView::Failed(e) => (fin, StepView::Done(Err(e))),
            _ => bad,
        },
        LoadPhase::ClearBackup =>
            (ActiveLoadView { phase: LoadPhase::ListActive, ..s },
             StepView::Run(DbCommandView::ListIds(list_folder_view(ACTIVE_FOLDER@)))),
        LoadPhase::ListActive => match r {
            DbReplyView::Ids(ids) =>
                if ids.len() == 0 {
                    clear_active_step(ActiveLoadView { ids, ..s })
                } else {
                    (ActiveLoadView { phase: LoadPhase::CopyToBackup(0), ids, ..s },
                     StepView::Run(DbCommandView::Execute(copy_bookmark_view(ids[0], SESSION_BACKUP_FOLDER@))))
                },
            DbReplyView::Failed(e) => (fin, StepView::Done(Err(e))),
            _ => bad,
        },
        LoadPhase::CopyToBackup(i) => match r {
            DbReplyView::Affected(_) => backup_advance(s, i as int),
            DbReplyView::Failed(e) => (fin, StepView::Done(Err(e))),
            _ => bad,
        },
        LoadPhase::ClearActive => match r {
            DbReplyView::Affected(_) =>
                (ActiveLoadView { phase: LoadPhase::ListSource, ..s },
                 StepView::Run(DbCommandView::ListIds(list_folder_view(s.source)))),
            DbReplyView::Failed(e) => (fin, StepView::Done(Err(e))),
            _ => bad,
        },
        LoadPhase::ListSource => match r {
            DbReplyView::Ids(ids) =>
                if ids.len() == 0 {
                    (ActiveLoadView { phase: LoadPhase::Finished, ids, ..s }, StepView::Done(Ok((s.moved, s.total))))
                } else {
                    (ActiveLoadView { phase: LoadPhase::FillCheck(0), ids, ..s },
                     StepView::Run(DbCommandView::Count(count_id_in_folder_view(ACTIVE_FOLDER@, ids[0]))))
                },
            DbReplyView::Failed(e) => (fin, StepView::Done(Err(e))),
            _ => bad,
        },
        LoadPhase::FillCheck(i) => match r {
            DbReplyView::Counts(rows) =>
                if first_or_zero(rows) > 0 {
                    fill_advance(s, i as int)
                } else {
                    (ActiveLoadView { phase: LoadPhase::FillWrite(i), ..s },
                     StepView::Run(DbCommandView::Execute(insert_bookmark_view(s.ids[i as int], ACTIVE_FOLDER@, None))))
                },
            DbReplyView::Failed(e) => (fin, StepView::Done(Err(e))),
            _ => bad,
        },
        LoadPhase::FillWrite(i) => match r {
            DbReplyView::Affected(n) => fill_advance(ActiveLoadView { total: (s.total + n) as usize, ..s }, i as int),
            DbReplyView::Failed(e) => (fin, StepView::Done(Err(e))),
            _ => bad,
        },
        LoadPhase::Finished => bad,
    }
}

/// The progress of a load: the stage, then the work left in the listed ids.
pub open spec fn load_rank(s: ActiveLoadView) -> (nat, nat) {
    match s.phase {
        LoadPhase::CountActive => (8, 0),
        LoadPhase::ClearBackup => (7, 0),
        LoadPhase::ListActive => (6, 0),
        LoadPhase::CopyToBackup(i) => (5, (s.ids.len() - i) as nat),
        LoadPhase::ClearActive => (4, 0),
        LoadPhase::ListSource => (3, 0),
        LoadPhase::FillCheck(i) => (2, (2 * (s.ids.len() - i)) as nat),
        LoadPhase::FillWrite(i) => (2, (2 * (s.ids.len() - i) - 1) as nat),
        LoadPhase::Finished => (0, 0),
    }
}

impl ActiveLoad {
    /// Starts loading the collection `collection` into the workspace: first
    /// count the active bookmarks.
    pub fn begin_collection(collection: &str) -> (r: (ActiveLoad, Step<(bool, usize)>))
        ensures
            r.0@ == (ActiveLoadView { source: collection@, phase: LoadPhase::CountActive, ids: Seq::empty(), moved: false, total: 0 }),
            r.1@ == StepView::<(bool, usize)>::Run(DbCommandView::Count(count_in_folder_view(ACTIVE_FOLDER@))),
    {
        let m = ActiveLoad { source: String::from_str(collection), phase: LoadPhase::CountActive, ids: Vec::new(), moved: false, total: 0 };
        assert(ids_view(m.ids@) =~= Seq::<Seq<char>>::empty());
        (m, Step::Run(DbCommand::Count(count_in_folder_statement(ACTIVE_FOLDER))))
    }

    /// Starts restoring the session backup into the workspace: first clear
    /// the workspace.
    pub fn begin_restore() -> (r: (ActiveLoad, Step<(bool, usize)>))
        ensures
            r.0@ == (ActiveLoadView { source: SESSION_BACKUP_FOLDER@, phase: LoadPhase::ClearActive, ids: Seq::empty(), moved: false, total: 0 }),
            r.1@ == StepView::<(bool, usize)>::Run(DbCommandView::Execute(clear_folder_view(ACTIVE_FOLDER@))),
    {
        let m = ActiveLoad { source: String::from_str(SESSION_BACKUP_FOLDER), phase: LoadPhase::ClearActive, ids: Vec::new(), moved: false, total: 0 };
        assert(ids_view(m.ids@) =~= Seq::<Seq<char>>::empty());
        (m, Step::Run(DbCommand::Execute(clear_folder_statement(ACTIVE_FOLDER))))
    }

    /// Whether the load is waiting for `reply`.
    pub fn accepts(&self, reply: &DbReply) -> (b: bool)
        ensures
            b == load_accepts(self@, reply@),
    {
        let failed = match reply { DbReply::Failed(_) => true, _ => false };
        let counts = match reply { DbReply::Counts(_) => true, _ => false };
        let listed = match reply {
            DbReply::Ids(v) => {
                let l = v.len();
                assert(ids_view(v@).len() == l);
                true
            },
            _ => false,
        };
        let affected = match reply { DbReply::Affected(_) => true, _ => false };
        match self.phase {
            LoadPhase::CountActive => counts || failed,
            LoadPhase::ClearBackup => affected || failed,
            LoadPhase::ListActive => listed || failed,
            LoadPhase::CopyToBackup(_) => affected || failed,
            LoadPhase::ClearActive => affected || failed,
            LoadPhase::ListSource => listed || failed,
            LoadPhase::FillCheck(_) => counts || failed,
            LoadPhase::FillWrite(_) => match reply {
                DbReply::Affected(n) => *n <= usize::MAX - self.total,
                DbReply::Failed(_) => true,
                _ => false,
            },
            LoadPhase::Finished => false,
        }
    }

    fn clear_active(&mut self) -> (step: Step<(bool, usize)>)
        ensures
            (final(self)@, step@) == clear_active_step(old(self)@),
    {
        self.phase = LoadPhase::ClearActive;
        Step::Run(DbCommand::Execute(clear_folder_statement(ACTIVE_FOLDER)))
    }

    fn backup_advance(&mut self, i: usize) -> (step: Step<(bool, usize)>)
        requires
            i < old(self)@.ids.len(),
        ensures
            (final(self)@, step@) == backup_advance(old(self)@, i as int),
            load_wf(final(self)@),
    {
        let n = self.ids.len();
        assert(ids_view(self.ids@).len() == n);
        if i + 1 < n {
            self.phase = LoadPhase::CopyToBackup(i + 1);
            let st = copy_bookmark_statement(self.ids[i + 1].as_str(), SESSION_BACKUP_FOLDER);
            Step::Run(DbCommand::Execute(st))
        } else {
            self.clear_active()
        }
    }

    fn fill_advance(&mut self, i: usize) -> (step: Step<(bool, usize)>)
        requires
            i < old(self)@.ids.len(),
        ensures
            (final(self)@, step@) == fill_advance(old(self)@, i as int),
            load_wf(final(self)@),
    {
        let n = self.ids.len();
        assert(ids_view(self.ids@).len() == n);
        if i + 1 < n {
            self.phase = LoadPhase::FillCheck(i + 1);
            let st = count_id_in_folder_statement(ACTIVE_FOLDER, self.ids[i + 1].as_str());
            Step::Run(DbCommand::Count(st))
        } else {
            self.phase = LoadPhase::Finished;
            Step::Done(Ok((self.moved, self.total)))
        }
    }

    fn finish(&mut self, r: EdmsResult<(bool, usize)>) -> (step: Step<(bool, usize)>)
        ensures
            final(self)@ == (ActiveLoadView { phase: LoadPhase::Finished, ..old(self)@ }),
            step@ == StepView::Done(r),
    {
        self.phase = LoadPhase::Finished;
        Step::Done(r)
    }

    /// Takes the reply to the last command and decides the next move.
    pub fn resume(&mut self, reply: DbReply) -> (step: Step<(bool, usize)>)
        requires
            load_wf(old(self)@),
            load_accepts(old(self)@, reply@),
        ensures
            (final(self)@, step@) == load_next(old(self)@, reply@),
            load_wf(final(self)@),
    {
        match self.phase {
            LoadPhase::CountActive => match reply {
                DbReply::Counts(rows) => {
                    let moved = (first_count(&rows) as usize) > 0;
                    self.moved = moved;
                    if moved {
                        self.phase = LoadPhase::ClearBackup;
                        Step::Run(DbCommand::Execute(clear_folder_statement(SESSION_BACKUP_FOLDER)))
                    } else {
                        self.clear_active()
                    }
                },
                DbReply::Failed(e) => self.finish(Err(e)),
                _ => self.finish(Err(EdmsError::UnknownError)),
            },
            LoadPhase::ClearBackup => {
                self.phase = LoadPhase::ListActive;
                Step::Run(DbCommand::ListIds(list_folder_statement(ACTIVE_FOLDER)))
            },
            LoadPhase::ListActive => match reply {
                DbReply::Ids(ids) => {
                    self.ids = ids;
                    if self.ids.len() == 0 {
                        self.clear_active()
                    } else {
                        self.phase = LoadPhase::CopyToBackup(0);
                        let st = copy_bookmark_statement(self.ids[0].as_str(), SESSION_BACKUP_FOLDER);
                        Step::Run(DbCommand::Execute(st))
                    }
                },
                DbReply::Failed(e) => self.finish(Err(e)),
                _ => self.finish(Err(EdmsError::UnknownError)),
            },
            LoadPhase::CopyToBackup(i) => match reply {
                DbReply::Affected(_) => self.backup_advance(i),
                DbReply::Failed(e) => self.finish(Err(e)),
                _ => self.finish(Err(EdmsError::UnknownError)),
            },
            LoadPhase::ClearActive => match reply {
                DbReply::Affected(_) => {
                    self.phase = LoadPhase::ListSource;
                    Step::Run(DbCommand::ListIds(list_folder_statement(self.source.as_str())))
                },
                DbReply::Failed(e) => self.finish(Err(e)),
                _ => self.finish(Err(EdmsError::UnknownError)),
            },
            LoadPhase::ListSource => match reply {
                DbReply::Ids(ids) => {
                    self.ids = ids;
                    if self.ids.len() == 0 {
                        self.phase = LoadPhase::Finished;
                        Step::Done(Ok((self.moved, self.total)))
                    } else {
                        self.phase = LoadPhase::FillCheck(0);
                        let st = count_id_in_folder_statement(ACTIVE_FOLDER, self.ids[0].as_str());
                        Step::Run(DbCommand::Count(st))
                    }
                },
                DbReply::Failed(e) => self.finish(Err(e)),
                _ => self.finish(Err(EdmsError::UnknownError)),
            },
            LoadPhase::FillCheck(i) => match reply {
                DbReply::Counts(rows) => {
                    if first_count(&rows) > 0 {
                        self.fill_advance(i)
                    } else {
                        self.phase = LoadPhase::FillWrite(i);
                        let st = insert_bookmark_statement(self.ids[i].as_str(), ACTIVE_FOLDER, None);
                        Step::Run(DbCommand::Execute(st))
                    }
                },
                DbReply::Failed(e) => self.finish(Err(e)),
                _ => self.finish(Err(EdmsError::UnknownError)),
            },
            LoadPhase::FillWrite(i) => match reply {
                DbReply::Affected(n) => {
                    self.total = self.total + n;
                    self.fill_advance(i)
                },
                DbReply::Failed(e) => self.finish(Err(e)),
                _ => self.finish(Err(EdmsError::UnknownError)),
            },
            LoadPhase::Finished => self.finish(Err(EdmsError::UnknownError)),
        }
    }
}

// ---------------------------------------------------------------------------
// Laws of the procedures.
// ---------------------------------------------------------------------------

/// An endpoint already bookmarked in the active workspace is not bookmarked
/// again: when the count of its active bookmarks is positive, the insert
/// finishes with zero rows inserted and issues no further command.
pub proof fn law_insert_skips_existing(s: InsertActiveView, rows: Seq<i64>)
    requires
        s.phase == InsertPhase::Check,
        first_or_zero(rows) > 0,
    ensures
        insert_next(s, DbReplyView::Counts(rows)).1 == StepView::<usize>::Done(Ok(0usize)),
{
}

/// Otherwise the insert writes exactly one bookmark: the endpoint, in the
/// active workspace, with the given notes.
pub proof fn law_insert_writes_once(s: InsertActiveView, rows: Seq<i64>, n: usize)
    requires
        s.phase == InsertPhase::Check,
        first_or_zero(rows) <= 0,
    ensures
        insert_next(s, DbReplyView::Counts(rows)).1 == StepView::<usize>::Run(
            DbCommandView::Execute(insert_bookmark_view(s.endpoint_id, ACTIVE_FOLDER@, s.notes))),
        insert_next(insert_next(s, DbReplyView::Counts(rows)).0, DbReplyView::Affected(n)).1
            == StepView::<usize>::Done(Ok(n)),
{
}

/// Every accepted reply moves the insert strictly forward, so it finishes
/// after at most two replies.
pub proof fn law_insert_progress(s: InsertActiveView, r: DbReplyView)
    requires
        insert_accepts(s, r),
    ensures
        lex_lt(insert_rank(insert_next(s, r).0), insert_rank(s)),
        insert_next(s, r).1 is Done <==> insert_next(s, r).0.phase == InsertPhase::Finished,
{
}

/// Every accepted reply moves the collection copy strictly forward, so it
/// finishes after a number of replies bounded by twice the listed ids plus one.
pub proof fn law_copy_progress(s: CreateCollectionView, r: DbReplyView)
    requires
        copy_wf(s),
        copy_accepts(s, r),
    ensures
        lex_lt(copy_rank(copy_next(s, r).0), copy_rank(s)),
        copy_wf(copy_next(s, r).0),
        copy_next(s, r).1 is Done <==> copy_next(s, r).0.phase == CopyPhase::Finished,
{
    match s.phase {
        CopyPhase::Check(i) => {
            if r is Counts && first_or_zero(r->Counts_0) != 0 && i + 1 < s.ids.len() {
                assert(copy_next(s, r).0.phase == CopyPhase::Check((i + 1) as usize));
                assert(copy_next(s, r).0.ids == s.ids);
            }
        },
        CopyPhase::Write(i) => {
            if r is Affected && i + 1 < s.ids.len() {
                assert(copy_next(s, r).0.phase == CopyPhase::Check((i + 1) as usize));
                assert(copy_next(s, r).0.ids == s.ids);
            }
        },
        _ => {},
    }
}

/// Saving a collection only ever writes into that collection, only endpoints
/// listed from the active workspace, and only after finding the endpoint
/// absent from the collection.
pub proof fn law_copy_writes_only_target(s: CreateCollectionView, r: DbReplyView)
    requires
        copy_wf(s),
        copy_accepts(s, r),
        copy_next(s, r).1 is Run,
        copy_next(s, r).1->Run_0 is Execute,
    ensures
        s.phase is Check,
        r is Counts && first_or_zero(r->Counts_0) == 0,
        copy_next(s, r).1->Run_0->Execute_0
            == copy_bookmark_view(s.ids[s.phase->Check_0 as int], s.collection),
{
}

/// The count reported by a collection copy is the total of the rows that its
/// inserts changed.
pub proof fn law_copy_counts_inserts(s: CreateCollectionView, r: DbReplyView)
    requires
        copy_wf(s),
        copy_accepts(s, r),
        copy_next(s, r).1 matches StepView::Done(Ok(_)),
    ensures
        copy_next(s, r).1->Done_0->Ok_0 == (if r is Affected { (s.inserted + r->Affected_0) as usize } else { s.inserted }),
{
}

/// Every accepted reply moves a load strictly forward.
pub proof fn law_load_progress(s: ActiveLoadView, r: DbReplyView)
    requires
        load_wf(s),
        load_accepts(s, r),
    ensures
        lex_lt(load_rank(load_next(s, r).0), load_rank(s)),
        load_wf(load_next(s, r).0),
        load_next(s, r).1 is Done <==> load_next(s, r).0.phase == LoadPhase::Finished,
{
    match s.phase {
        LoadPhase::CopyToBackup(i) => {
            if r is Affected && i + 1 < s.ids.len() {
                assert(load_next(s, r).0.phase == LoadPhase::CopyToBackup((i + 1) as usize));
                assert(load_next(s, r).0.ids == s.ids);
            }
        },
        LoadPhase::FillCheck(i) => {
            if r is Counts && first_or_zero(r->Counts_0) > 0 && i + 1 < s.ids.len() {
                assert(load_next(s, r).0.phase == LoadPhase::FillCheck((i + 1) as usize));
                assert(load_next(s, r).0.ids == s.ids);
            }
        },
        LoadPhase::FillWrite(i) => {
            if r is Affected && i + 1 < s.ids.len() {
                assert(load_next(s, r).0.phase == LoadPhase::FillCheck((i + 1) as usize));
                assert(load_next(s, r).0.ids == s.ids);
            }
        },
        _ => {},
    }
}

/// The statements a load may write: clearing or filling the session backup,
/// clearing the workspace, or adding one endpoint to the workspace.
pub open spec fn workspace_write(st: SqlStatementView) -> bool {
    ||| st == clear_folder_view(SESSION_BACKUP_FOLDER@)
    ||| st == clear_folder_view(ACTIVE_FOLDER@)
    ||| exists|id: Seq<char>| st == copy_bookmark_view(id, SESSION_BACKUP_FOLDER@)
    ||| exists|id: Seq<char>| st == insert_bookmark_view(id, ACTIVE_FOLDER@, None)
}

/// Loading a collection (or restoring the backup) writes only to the active
/// workspace and the session backup: the source folder is never changed.
pub proof fn law_load_writes_workspace_only(s: ActiveLoadView, r: DbReplyView)
    requires
        load_wf(s),
        load_accepts(s, r),
        load_next(s, r).1 is Run,
        load_next(s, r).1->Run_0 is Execute,
    ensures
        workspace_write(load_next(s, r).1->Run_0->Execute_0),
{
    match s.phase {
        LoadPhase::ListActive => {
            if let DbReplyView::Ids(ids) = r {
                if ids.len() > 0 {
                    assert(load_next(s, r).1->Run_0->Execute_0 == copy_bookmark_view(ids[0], SESSION_BACKUP_FOLDER@));
                }
            }
        },
        LoadPhase::CopyToBackup(i) => {
            if i + 1 < s.ids.len() {
                assert(load_next(s, r).1->Run_0->Execute_0 == copy_bookmark_view(s.ids[i + 1], SESSION_BACKUP_FOLDER@));
            }
        },
        LoadPhase::FillCheck(i) => {
            if let DbReplyView::Counts(rows) = r {
                if first_or_zero(rows) <= 0 {
                    assert(load_next(s, r).1->Run_0->Execute_0 == insert_bookmark_view(s.ids[i as int], ACTIVE_FOLDER@, None));
                }
            }
        },
        _ => {},
    }
}

/// A backup is taken exactly when the workspace was not empty: after the
/// workspace is counted, the next command clears the session backup if the
/// count is positive and clears the workspace otherwise, and the flag that the
/// load reports is that outcome.
pub proof fn law_load_backup_iff_nonempty(s: ActiveLoadView, rows: Seq<i64>)
    requires
        s.phase == LoadPhase::CountActive,
    ensures
        load_next(s, DbReplyView::Counts(rows)).0.moved == ((first_or_zero(rows) as usize) > 0),
        load_next(s, DbReplyView::Counts(rows)).1 == (if (first_or_zero(rows) as usize) > 0 {
            StepView::<(bool, usize)>::Run(DbCommandView::Execute(clear_folder_view(SESSION_BACKUP_FOLDER@)))
        } else {
            StepView::<(bool, usize)>::Run(DbCommandView::Execute(clear_folder_view(ACTIVE_FOLDER@)))
        }),
{
}

/// After the workspace is counted the backup flag never changes, and the
/// result of a successful load reports it.
pub proof fn law_load_reports_backup_flag(s: ActiveLoadView, r: DbReplyView)
    requires
        load_wf(s),
        load_accepts(s, r),
        s.phase != LoadPhase::CountActive,
    ensures
        load_next(s, r).0.moved == s.moved,
        load_next(s, r).1 matches StepView::Done(Ok(x)) ==> x.0 == s.moved,
{
}

/// The number of bookmarks a load reports is the total of the rows that its
/// inserts into the workspace changed.
pub proof fn law_load_counts_inserts(s: ActiveLoadView, r: DbReplyView)
    requires
        load_wf(s),
        load_accepts(s, r),
        load_next(s, r).1 matches StepView::Done(Ok(_)),
    ensures
        load_next(s, r).1->Done_0->Ok_0.1 == (if s.phase is FillWrite && r is Affected {
            (s.total + r->Affected_0) as usize
        } else {
            s.total
        }),
{
}

} // verus!
