use blade::key::{split_maybe_qualified_key, Key};
use blade::render::render_row;
use blade::store::{
    delete_entry, get_entry, list_entries, list_namespaces, migrate_db, open_db_connection,
    recovery_after_open_failure, set_entry, OpenRecovery,
};
use blade::sync_mode::SqliteSynchronousMode;

fn key(s: &str) -> Key {
    split_maybe_qualified_key(s).unwrap()
}

fn fresh() -> rusqlite::Connection {
    let mut conn = rusqlite::Connection::open_in_memory().unwrap();
    migrate_db(&mut conn).unwrap();
    conn
}

#[test]
fn db_set_get_delete_get() {
    let mut conn = fresh();
    set_entry(&mut conn, &key("x"), b"hello").unwrap();
    assert_eq!(get_entry(&mut conn, &key("x")).unwrap(), Some(b"hello".to_vec()));
    delete_entry(&mut conn, &key("x")).unwrap();
    assert_eq!(get_entry(&mut conn, &key("x")).unwrap(), None);
}

#[test]
fn db_binary_round_trip() {
    let mut conn = fresh();
    let v = vec![0u8, 0xff, 0xfe, 0x10];
    set_entry(&mut conn, &key("b@bin"), &v).unwrap();
    assert_eq!(get_entry(&mut conn, &key("b@bin")).unwrap(), Some(v));
}

#[test]
fn db_upsert_keeps_one_row() {
    let mut conn = fresh();
    set_entry(&mut conn, &key("k"), b"v1").unwrap();
    set_entry(&mut conn, &key("k"), b"v2").unwrap();
    assert_eq!(get_entry(&mut conn, &key("k")).unwrap(), Some(b"v2".to_vec()));
    let rows = list_entries(&mut conn, "default").unwrap();
    assert_eq!(rows, vec![("k".to_string(), b"v2".to_vec())]);
}

#[test]
fn db_delete_absent_succeeds() {
    let mut conn = fresh();
    set_entry(&mut conn, &key("a"), b"1").unwrap();
    delete_entry(&mut conn, &key("zzz")).unwrap();
    assert_eq!(get_entry(&mut conn, &key("a")).unwrap(), Some(b"1".to_vec()));
}

#[test]
fn db_same_name_in_two_namespaces() {
    let mut conn = fresh();
    set_entry(&mut conn, &key("x@ns1"), b"1").unwrap();
    set_entry(&mut conn, &key("x@ns2"), b"2").unwrap();
    let rows1 = list_entries(&mut conn, "ns1").unwrap();
    assert_eq!(rows1.len(), 1);
    assert_eq!(render_row(&rows1[0].0, "\t", &rows1[0].1, false), b"x\t1\n".to_vec());
    let rows2 = list_entries(&mut conn, "ns2").unwrap();
    assert_eq!(rows2.len(), 1);
    assert_eq!(render_row(&rows2[0].0, "\t", &rows2[0].1, false), b"x\t2\n".to_vec());
}

#[test]
fn db_namespaces_sorted_distinct() {
    let mut conn = fresh();
    set_entry(&mut conn, &key("x@b"), b"1").unwrap();
    set_entry(&mut conn, &key("y@a"), b"2").unwrap();
    set_entry(&mut conn, &key("z@a"), b"3").unwrap();
    assert_eq!(list_namespaces(&mut conn).unwrap(), vec!["a".to_string(), "b".to_string()]);
}

#[test]
fn db_migration_is_idempotent() {
    let mut conn = fresh();
    set_entry(&mut conn, &key("x"), b"kept").unwrap();
    migrate_db(&mut conn).unwrap();
    assert_eq!(get_entry(&mut conn, &key("x")).unwrap(), Some(b"kept".to_vec()));
}

#[test]
fn db_open_in_memory_with_settings() {
    let mut conn = open_db_connection(&std::path::PathBuf::from(":memory:"), SqliteSynchronousMode::Full, 250).unwrap();
    migrate_db(&mut conn).unwrap();
    assert_eq!(get_entry(&mut conn, &key("none")).unwrap(), None);
}

#[test]
fn open_failure_recovery() {
    assert_eq!(recovery_after_open_failure(true, 1), OpenRecovery::CreateDirectoryAndRetry);
    assert_eq!(recovery_after_open_failure(true, 2), OpenRecovery::Fail);
    assert_eq!(recovery_after_open_failure(false, 1), OpenRecovery::Fail);
}

fn stamps(conn: &rusqlite::Connection, namespace: &str, name: &str) -> (String, String) {
    conn.query_row(
        "select inserted_at, updated_at from entries where namespace = ? and key = ?",
        [namespace, name],
        |row| Ok((row.get(0)?, row.get(1)?)),
    )
    .unwrap()
}

#[test]
fn db_update_keeps_creation_time() {
    let mut conn = fresh();
    set_entry(&mut conn, &key("k@t"), b"v1").unwrap();
    let (inserted1, updated1) = stamps(&conn, "t", "k");
    assert_eq!(inserted1, updated1);
    wait_past(&conn, &updated1);
    set_entry(&mut conn, &key("k@t"), b"v2").unwrap();
    let (inserted2, updated2) = stamps(&conn, "t", "k");
    assert_eq!(inserted2, inserted1);
    assert!(updated2 > updated1);
    assert_eq!(updated2.len(), updated1.len());
    let count: i64 = conn
        .query_row("select count(*) from entries where namespace = 't'", [], |row| row.get(0))
        .unwrap();
    assert_eq!(count, 1);
}

fn now(conn: &rusqlite::Connection) -> String {
    conn.query_row("select strftime('%Y-%m-%d %H:%M:%f', 'NOW')", [], |row| row.get(0))
        .unwrap()
}

fn wait_past(conn: &rusqlite::Connection, stamp: &str) {
    while now(conn).as_str() <= stamp {}
}

#[test]
fn db_list_newest_first() {
    let mut conn = fresh();
    set_entry(&mut conn, &key("k1@n"), b"1").unwrap();
    let (inserted1, _) = stamps(&conn, "n", "k1");
    wait_past(&conn, &inserted1);
    set_entry(&mut conn, &key("other@m"), b"x").unwrap();
    set_entry(&mut conn, &key("k2@n"), b"2").unwrap();
    let rows = list_entries(&mut conn, "n").unwrap();
    assert_eq!(
        rows,
        vec![("k2".to_string(), b"2".to_vec()), ("k1".to_string(), b"1".to_vec())]
    );
    set_entry(&mut conn, &key("k1@n"), b"3").unwrap();
    let names: Vec<String> = list_entries(&mut conn, "n").unwrap().into_iter().map(|r| r.0).collect();
    assert_eq!(names, vec!["k2".to_string(), "k1".to_string()]);
}

#[test]
fn db_get_absent_is_none() {
    let mut conn = fresh();
    assert_eq!(get_entry(&mut conn, &key("nothing")).unwrap(), None);
    assert!(list_entries(&mut conn, "default").unwrap().is_empty());
    assert!(list_namespaces(&mut conn).unwrap().is_empty());
}
