use hidden_photos::migration::{
    begin_check_and_migrate, check_and_migrate, column_name_matches, get_migrations,
    migration_plan_for, table_info_pragma, DbAction, DbReply, MigrationOp,
};

/// What a scripted database saw, and how the run ended.
struct Trace {
    calls: Vec<String>,
    result: Result<(), String>,
}

/// Drives a run against a scripted database: `present` lists the columns
/// that exist (as "table.column"), and the first call whose text contains
/// `fail_on` fails with "boom".
fn drive(version: Result<i32, String>, present: &[&str], fail_on: Option<&str>) -> Trace {
    let mut calls = Vec::new();
    let (mut run, mut action) = begin_check_and_migrate();
    loop {
        let (call, reply) = match action {
            DbAction::ReadUserVersion => ("read user_version".to_string(), version.clone().map(DbReply::UserVersion)),
            DbAction::Print(line) => (format!("print {}", line), Ok(DbReply::Done)),
            DbAction::HasColumn { pragma, column } => {
                let table = pragma.trim_start_matches("PRAGMA table_info(").trim_end_matches(')').to_string();
                let found = present.iter().any(|p| column_name_matches(p, &format!("{}.{}", table, column)));
                (format!("{} has {}", pragma, column), Ok(DbReply::HasColumn(found)))
            }
            DbAction::Execute(sql) => (format!("execute {}", sql), Ok(DbReply::Done)),
            DbAction::ExecuteBatch(sql) => (format!("batch {}", sql), Ok(DbReply::Done)),
            DbAction::BeginTransaction => ("begin".to_string(), Ok(DbReply::Done)),
            DbAction::Commit => ("commit".to_string(), Ok(DbReply::Done)),
            DbAction::Finish(result) => return Trace { calls, result },
        };
        let reply = match fail_on {
            Some(needle) if call.contains(needle) => Err("boom".to_string()),
            _ => reply,
        };
        calls.push(call);
        assert!(run.accepts_reply(&reply));
        action = check_and_migrate(&mut run, reply);
    }
}

#[test]
fn migration_table_versions_and_descriptions() {
    let migrations = get_migrations();
    let versions: Vec<i32> = migrations.iter().map(|m| m.version).collect();
    assert_eq!(versions, vec![1, 2, 3, 4, 5, 9, 10, 11, 12, 13, 14, 15, 16, 17, 18]);
    assert_eq!(migrations[0].description, "Create deduplication tables");
    assert_eq!(migrations[14].description, "Add albums.scan_cursor for resumable scans");
    assert!(migrations[0].sql.contains("CREATE TABLE IF NOT EXISTS file_hashes"));
    assert!(migrations[6].sql.contains("CREATE TABLE IF NOT EXISTS similarity_scans"));
    assert!(migrations.iter().filter(|m| m.version != 1 && m.version != 10).all(|m| m.sql.is_empty()));
}

#[test]
fn up_to_date_database_is_left_alone() {
    let trace = drive(Ok(18), &[], None);
    assert_eq!(trace.result, Ok(()));
    assert_eq!(trace.calls, vec![
        "read user_version",
        "print Current DB version: 18",
        "print Database is up to date.",
    ]);
    assert_eq!(migration_plan_for(25).len(), 2);
}

#[test]
fn last_migration_adds_missing_column() {
    let trace = drive(Ok(17), &[], None);
    assert_eq!(trace.result, Ok(()));
    assert_eq!(trace.calls, vec![
        "read user_version",
        "print Current DB version: 17",
        "print Applying migration 18: Add albums.scan_cursor for resumable scans",
        "PRAGMA table_info(albums) has scan_cursor",
        "execute ALTER TABLE albums ADD COLUMN scan_cursor INTEGER NOT NULL DEFAULT 0",
        "batch PRAGMA user_version = 18;",
        "print Database successfully migrated to version 18",
    ]);
}

#[test]
fn existing_column_is_not_added_again() {
    let trace = drive(Ok(17), &["albums.SCAN_CURSOR"], None);
    assert_eq!(trace.result, Ok(()));
    assert!(!trace.calls.iter().any(|c| c.starts_with("execute")));
    assert!(trace.calls.contains(&"batch PRAGMA user_version = 18;".to_string()));
}

#[test]
fn failed_alter_reports_migration_context() {
    let trace = drive(Ok(17), &[], Some("ADD COLUMN scan_cursor"));
    assert_eq!(trace.result, Err("Migration 18 failed adding scan_cursor: boom".to_string()));
    assert!(!trace.calls.iter().any(|c| c.contains("user_version =")));
}

#[test]
fn failed_version_read_ends_the_run() {
    let trace = drive(Err("no such database".to_string()), &[], None);
    assert_eq!(trace.result, Err("no such database".to_string()));
    assert_eq!(trace.calls, vec!["read user_version"]);
}

#[test]
fn failed_version_update_is_reported() {
    let trace = drive(Ok(17), &[], Some("user_version = 18"));
    assert_eq!(trace.result, Err("Failed to update user_version: boom".to_string()));
}

#[test]
fn generic_migration_failure_names_its_version() {
    let trace = drive(Ok(0), &[], Some("file_hashes"));
    assert_eq!(trace.result, Err("Migration 1 failed: boom".to_string()));
    let trace = drive(Ok(9), &[], Some("similarity_scans"));
    assert_eq!(trace.result, Err("Migration 10 failed: boom".to_string()));
}

#[test]
fn early_migration_failure_names_its_version() {
    let trace = drive(Ok(1), &[], Some("format_label TEXT"));
    assert_eq!(trace.result, Err("Migration 2 failed: boom".to_string()));
    let trace = drive(Ok(2), &[], Some("idx_athumbs_thumb_key"));
    assert_eq!(trace.result, Err("Migration 3 failed: boom".to_string()));
}

#[test]
fn deduplication_transaction_failures() {
    let trace = drive(Ok(5), &[], Some("begin"));
    assert_eq!(trace.result, Err("Migration 9 (deduplicate album files) failed starting transaction: boom".to_string()));
    let trace = drive(Ok(5), &[], Some("duplicate_afile_map"));
    assert_eq!(trace.result, Err("Migration 9 (deduplicate album files) failed: boom".to_string()));
    let trace = drive(Ok(5), &[], Some("commit"));
    assert_eq!(trace.result, Err("Migration 9 (deduplicate album files) failed committing transaction: boom".to_string()));
}

#[test]
fn tag_group_failures_are_bare() {
    let trace = drive(Ok(16), &[], Some("atag_groups ("));
    assert_eq!(trace.result, Err("boom".to_string()));
}

#[test]
fn column_check_failure_is_bare() {
    let trace = drive(Ok(17), &[], Some("has scan_cursor"));
    assert_eq!(trace.result, Err("boom".to_string()));
}

#[test]
fn keep_state_backfill_runs_only_with_new_column() {
    let trace = drive(Ok(14), &[], None);
    assert!(trace.calls.iter().any(|c| c.contains("SET is_keep = 1")));
    let trace = drive(Ok(14), &["similarity_group_items.is_keep"], None);
    assert!(!trace.calls.iter().any(|c| c.contains("SET is_keep = 1")));
    assert!(!trace.calls.iter().any(|c| c.contains("ADD COLUMN is_keep")));
}

#[test]
fn fresh_database_applies_every_migration_in_order() {
    let trace = drive(Ok(0), &[], None);
    assert_eq!(trace.result, Ok(()));
    let applied: Vec<&String> = trace.calls.iter().filter(|c| c.starts_with("print Applying migration")).collect();
    assert_eq!(applied.len(), 15);
    assert_eq!(applied[0], "print Applying migration 1: Create deduplication tables");
    assert_eq!(applied[5], "print Applying migration 9: Post v0.2.4 schema updates");
    assert_eq!(trace.calls.last().unwrap(), "print Database successfully migrated to version 18");
    assert_eq!(trace.calls.iter().filter(|c| *c == "begin").count(), 2);
    assert_eq!(trace.calls.iter().filter(|c| *c == "commit").count(), 2);
}

#[test]
fn plan_steps_for_migration_fifteen() {
    let plan = migration_plan_for(14);
    assert!(matches!(plan[0], MigrationOp::Log(_)));
    assert!(matches!(plan[2], MigrationOp::SkipIfColumnExists { table: "similarity_group_items", column: "is_keep", skip: 2 }));
}

#[test]
fn pragma_and_column_matching() {
    assert_eq!(table_info_pragma("afiles"), "PRAGMA table_info(afiles)");
    assert!(column_name_matches("Format_Label", "format_label"));
    assert!(!column_name_matches("format_labels", "format_label"));
}

fn sqlite_table_has_column(conn: &rusqlite::Connection, pragma: &str, column: &str) -> Result<bool, String> {
    let mut stmt = conn.prepare(pragma).map_err(|e| e.to_string())?;
    let mut rows = stmt.query([]).map_err(|e| e.to_string())?;
    while let Some(row) = rows.next().map_err(|e| e.to_string())? {
        let name: String = row.get(1).map_err(|e| e.to_string())?;
        if column_name_matches(&name, column) {
            return Ok(true);
        }
    }
    Ok(false)
}

fn sqlite_migrate(conn: &rusqlite::Connection) -> Result<(), String> {
    let (mut run, mut action) = begin_check_and_migrate();
    let mut tx: Option<rusqlite::Transaction> = None;
    loop {
        let reply = match action {
            DbAction::ReadUserVersion => conn
                .query_row("PRAGMA user_version;", [], |row| row.get(0))
                .map(DbReply::UserVersion)
                .map_err(|e| e.to_string()),
            DbAction::Print(_) => Ok(DbReply::Done),
            DbAction::HasColumn { pragma, column } => sqlite_table_has_column(conn, &pragma, &column).map(DbReply::HasColumn),
            DbAction::Execute(sql) => conn.execute(&sql, []).map(|_| DbReply::Done).map_err(|e| e.to_string()),
            DbAction::ExecuteBatch(sql) => conn.execute_batch(&sql).map(|_| DbReply::Done).map_err(|e| e.to_string()),
            DbAction::BeginTransaction => match conn.unchecked_transaction() {
                Ok(t) => {
                    tx = Some(t);
                    Ok(DbReply::Done)
                }
                Err(e) => Err(e.to_string()),
            },
            DbAction::Commit => tx.take().unwrap().commit().map(|_| DbReply::Done).map_err(|e| e.to_string()),
            DbAction::Finish(result) => return result,
        };
        assert!(run.accepts_reply(&reply));
        action = check_and_migrate(&mut run, reply);
    }
}

#[test]
fn migrates_a_real_database_once() {
    let conn = rusqlite::Connection::open_in_memory().unwrap();
    conn.execute_batch(
        "CREATE TABLE afolders (id INTEGER PRIMARY KEY, album_id INTEGER);
         CREATE TABLE afiles (id INTEGER PRIMARY KEY, folder_id INTEGER, name TEXT);
         CREATE TABLE albums (id INTEGER PRIMARY KEY, cover_file_id INTEGER);
         CREATE TABLE athumbs (id INTEGER PRIMARY KEY);
         CREATE TABLE faces (id INTEGER PRIMARY KEY, file_id INTEGER);
         CREATE TABLE persons (id INTEGER PRIMARY KEY, cover_face_id INTEGER);
         CREATE TABLE atags (id INTEGER PRIMARY KEY, name TEXT);
         INSERT INTO afiles (id, folder_id, name) VALUES (1, 1, 'a.jpg'), (2, 1, 'a.jpg'), (3, 1, 'b.jpg');
         INSERT INTO albums (id, cover_file_id) VALUES (1, 1);
         INSERT INTO atags (id, name) VALUES (1, 'x');",
    )
    .unwrap();
    assert_eq!(sqlite_migrate(&conn), Ok(()));
    let version: i32 = conn.query_row("PRAGMA user_version;", [], |row| row.get(0)).unwrap();
    assert_eq!(version, 18);
    let files: i64 = conn.query_row("SELECT COUNT(*) FROM afiles", [], |row| row.get(0)).unwrap();
    assert_eq!(files, 2);
    let cover: i64 = conn.query_row("SELECT cover_file_id FROM albums WHERE id = 1", [], |row| row.get(0)).unwrap();
    assert_eq!(cover, 2);
    let group: Option<i64> = conn.query_row("SELECT group_id FROM atags WHERE id = 1", [], |row| row.get(0)).unwrap();
    assert!(group.is_some());
    assert!(sqlite_table_has_column(&conn, "PRAGMA table_info(albums)", "scan_cursor").unwrap());
    // A second run finds nothing to do.
    assert_eq!(sqlite_migrate(&conn), Ok(()));
    let version: i32 = conn.query_row("PRAGMA user_version;", [], |row| row.get(0)).unwrap();
    assert_eq!(version, 18);
}
