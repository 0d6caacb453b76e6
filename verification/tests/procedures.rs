use edms::error::EdmsError;
use edms::procedures::{ActiveLoad, CreateCollection, DbCommand, DbReply, InsertActive, Step};
use edms::sql::{SqlStatement, SqlValue};
use edms::statements::{ACTIVE_FOLDER, SESSION_BACKUP_FOLDER};

/// An in-memory bookmarks table, enough to answer the procedures' statements.
struct Bookmarks {
    rows: Vec<(String, String, Option<String>)>,
    fail_on: Option<&'static str>,
}

fn text(v: &SqlValue) -> String {
    match v {
        SqlValue::Text(s) => s.clone(),
        other => panic!("expected text, got {other:?}"),
    }
}

impl Bookmarks {
    fn new(rows: &[(&str, &str)]) -> Self {
        Bookmarks { rows: rows.iter().map(|(e, f)| (e.to_string(), f.to_string(), None)).collect(), fail_on: None }
    }

    fn ids(&self, folder: &str) -> Vec<String> {
        // Most recent first: later rows were inserted later.
        self.rows.iter().rev().filter(|r| r.1 == folder).map(|r| r.0.clone()).collect()
    }

    fn run(&mut self, cmd: DbCommand) -> DbReply {
        let st: SqlStatement = match &cmd {
            DbCommand::Count(s) | DbCommand::ListIds(s) | DbCommand::Execute(s) => s.clone(),
        };
        if let Some(f) = self.fail_on {
            if st.sql.contains(f) {
                return DbReply::Failed(EdmsError::SqliteError("boom".into()));
            }
        }
        let p = &st.params;
        match st.sql.as_str() {
            "SELECT COUNT(*) FROM bookmarks WHERE folder = ?" => {
                let f = text(&p[0]);
                DbReply::Counts(vec![self.rows.iter().filter(|r| r.1 == f).count() as i64])
            }
            "SELECT COUNT(*) FROM bookmarks WHERE folder = ? AND endpoint_id = ?" => {
                let (f, e) = (text(&p[0]), text(&p[1]));
                DbReply::Counts(vec![self.rows.iter().filter(|r| r.1 == f && r.0 == e).count() as i64])
            }
            "DELETE FROM bookmarks WHERE folder = ?" => {
                let f = text(&p[0]);
                let before = self.rows.len();
                self.rows.retain(|r| r.1 != f);
                DbReply::Affected(before - self.rows.len())
            }
            "SELECT endpoint_id FROM bookmarks WHERE folder = ? ORDER BY timestamp DESC" => DbReply::Ids(self.ids(&text(&p[0]))),
            "INSERT INTO bookmarks (endpoint_id, folder, notes) VALUES (?, ?, ?)" => {
                let notes = match &p[2] {
                    SqlValue::Text(s) => Some(s.clone()),
                    _ => None,
                };
                self.rows.push((text(&p[0]), text(&p[1]), notes));
                DbReply::Affected(1)
            }
            "INSERT INTO bookmarks (endpoint_id, folder, notes) VALUES (?, ?, NULL)" => {
                self.rows.push((text(&p[0]), text(&p[1]), None));
                DbReply::Affected(1)
            }
            other => panic!("unexpected statement {other}"),
        }
    }
}

fn insert(db: &mut Bookmarks, id: &str, notes: Option<&str>) -> Result<usize, EdmsError> {
    let (mut m, mut step) = InsertActive::begin(id, notes);
    loop {
        match step {
            Step::Run(cmd) => {
                let reply = db.run(cmd);
                assert!(m.accepts(&reply));
                step = m.resume(reply);
            }
            Step::Done(r) => return r,
        }
    }
}

fn create(db: &mut Bookmarks, collection: &str) -> Result<usize, EdmsError> {
    let (mut m, mut step) = CreateCollection::begin(collection);
    loop {
        match step {
            Step::Run(cmd) => {
                let reply = db.run(cmd);
                assert!(m.accepts(&reply));
                step = m.resume(reply);
            }
            Step::Done(r) => return r,
        }
    }
}

fn drive_load(db: &mut Bookmarks, start: (ActiveLoad, Step<(bool, usize)>)) -> Result<(bool, usize), EdmsError> {
    let (mut m, mut step) = start;
    loop {
        match step {
            Step::Run(cmd) => {
                let reply = db.run(cmd);
                assert!(m.accepts(&reply));
                step = m.resume(reply);
            }
            Step::Done(r) => return r,
        }
    }
}

#[test]
fn bookmark_insert_skips_duplicates() {
    let mut db = Bookmarks::new(&[]);
    assert_eq!(insert(&mut db, "ep1", Some("first")), Ok(1));
    assert_eq!(insert(&mut db, "ep1", Some("again")), Ok(0));
    assert_eq!(db.rows, vec![("ep1".to_string(), ACTIVE_FOLDER.to_string(), Some("first".to_string()))]);
    assert_eq!(insert(&mut db, "ep2", None), Ok(1));
    assert_eq!(db.ids(ACTIVE_FOLDER), vec!["ep2".to_string(), "ep1".to_string()]);
}

#[test]
fn bookmark_insert_reports_database_failure() {
    let mut db = Bookmarks::new(&[]);
    db.fail_on = Some("INSERT");
    assert_eq!(insert(&mut db, "ep1", None), Err(EdmsError::SqliteError("boom".into())));
    assert!(db.rows.is_empty());
}

#[test]
fn collection_copies_active_without_duplicates() {
    let mut db = Bookmarks::new(&[("a", ACTIVE_FOLDER), ("b", ACTIVE_FOLDER), ("b", "saved")]);
    assert_eq!(create(&mut db, "saved"), Ok(1));
    let mut saved = db.ids("saved");
    saved.sort();
    assert_eq!(saved, vec!["a".to_string(), "b".to_string()]);
    // The active workspace is unchanged.
    assert_eq!(db.ids(ACTIVE_FOLDER).len(), 2);
    assert_eq!(create(&mut db, "empty_source_target"), Ok(2));
    let mut empty = Bookmarks::new(&[]);
    assert_eq!(create(&mut empty, "x"), Ok(0));
}

#[test]
fn loading_a_collection_backs_up_a_non_empty_workspace() {
    let mut db = Bookmarks::new(&[
        ("old1", ACTIVE_FOLDER),
        ("old2", ACTIVE_FOLDER),
        ("stale", SESSION_BACKUP_FOLDER),
        ("c1", "coll"),
        ("c2", "coll"),
        ("c1", "coll"),
    ]);
    let r = drive_load(&mut db, ActiveLoad::begin_collection("coll"));
    assert_eq!(r, Ok((true, 2)));
    let mut active = db.ids(ACTIVE_FOLDER);
    active.sort();
    assert_eq!(active, vec!["c1".to_string(), "c2".to_string()]);
    let mut backup = db.ids(SESSION_BACKUP_FOLDER);
    backup.sort();
    assert_eq!(backup, vec!["old1".to_string(), "old2".to_string()]);
    // The collection itself is untouched.
    assert_eq!(db.ids("coll").len(), 3);

    // Restoring the backup brings the old workspace back.
    let r = drive_load(&mut db, ActiveLoad::begin_restore());
    assert_eq!(r, Ok((false, 2)));
    let mut active = db.ids(ACTIVE_FOLDER);
    active.sort();
    assert_eq!(active, vec!["old1".to_string(), "old2".to_string()]);
}

#[test]
fn loading_into_an_empty_workspace_takes_no_backup() {
    let mut db = Bookmarks::new(&[("kept", SESSION_BACKUP_FOLDER), ("c1", "coll")]);
    let r = drive_load(&mut db, ActiveLoad::begin_collection("coll"));
    assert_eq!(r, Ok((false, 1)));
    assert_eq!(db.ids(SESSION_BACKUP_FOLDER), vec!["kept".to_string()]);
    assert_eq!(db.ids(ACTIVE_FOLDER), vec!["c1".to_string()]);
}

#[test]
fn a_failed_backup_clear_does_not_stop_the_load() {
    let mut db = Bookmarks::new(&[("old", ACTIVE_FOLDER), ("c1", "coll")]);
    db.fail_on = Some("DELETE FROM bookmarks WHERE folder = ?");
    // Clearing the backup fails and is ignored; clearing the workspace then fails and is reported.
    let r = drive_load(&mut db, ActiveLoad::begin_collection("coll"));
    assert_eq!(r, Err(EdmsError::SqliteError("boom".into())));
}

#[test]
fn mismatched_reply_is_not_accepted() {
    let (m, _) = InsertActive::begin("x", None);
    assert!(!m.accepts(&DbReply::Ids(vec![])));
    assert!(m.accepts(&DbReply::Failed(EdmsError::UnknownError)));
    let (c, _) = CreateCollection::begin("c");
    assert!(c.accepts(&DbReply::Ids(vec![])));
    assert!(!c.accepts(&DbReply::Affected(1)));
}

#[test]
fn saving_a_collection_twice_adds_nothing_the_second_time() {
    let mut db = Bookmarks::new(&[("a", ACTIVE_FOLDER), ("b", ACTIVE_FOLDER), ("c", ACTIVE_FOLDER), ("b", "saved"), ("z", "other")]);
    assert_eq!(create(&mut db, "saved"), Ok(2));
    let after = db.rows.clone();
    let added: Vec<_> = after.iter().skip(5).cloned().collect();
    assert_eq!(added.len(), 2);
    assert!(added.iter().all(|(_, f, n)| f == "saved" && n.is_none()));
    assert_eq!(db.ids("other"), vec!["z".to_string()]);
    assert_eq!(create(&mut db, "saved"), Ok(0));
    assert_eq!(db.rows, after);
}
