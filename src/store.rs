//! The entries table kept in an SQLite database: opening a connection with
//! its settings, the idempotent schema, and the five store operations.

use vstd::prelude::*;
use rusqlite::OptionalExtension;
use crate::key::Key;
use crate::sync_mode::{mode_name, SqliteSynchronousMode};

verus! {

#[verifier::external_type_specification]
#[verifier::external_body]
pub struct ExConnection(rusqlite::Connection);

#[verifier::external_type_specification]
#[verifier::external_body]
pub struct ExError(rusqlite::Error);

#[verifier::external_type_specification]
#[verifier::external_body]
pub struct ExPathBuf(std::path::PathBuf);

/// The rows of the entries table as seen through a connection, by
/// `(namespace, key)`.
pub uninterp spec fn stored_entries(c: rusqlite::Connection) -> Map<(Seq<char>, Seq<char>), Seq<u8>>;

/// The creation time of each row of the entries table, as the text that the
/// table holds, by `(namespace, key)`.
pub uninterp spec fn creation_times(c: rusqlite::Connection) -> Map<(Seq<char>, Seq<char>), Seq<char>>;

/// The settings applied through a connection since it was opened, in order.
pub uninterp spec fn applied_pragmas(c: rusqlite::Connection) -> Seq<(Seq<char>, PragmaValue)>;

/// The value that a setting was given.
pub ghost enum PragmaValue {
    Text(Seq<char>),
    Integer(int),
}

/// Name of the journal-mode setting.
pub const JOURNAL_MODE: &'static str = "journal_mode";

/// Write-ahead logging, the journal mode every connection uses.
pub const WAL: &'static str = "wal";

/// Name of the durability setting.
pub const SYNCHRONOUS: &'static str = "synchronous";

/// Name of the lock-wait setting, in milliseconds.
pub const BUSY_TIMEOUT: &'static str = "busy_timeout";

/// The settings a new connection receives, in the order they are applied.
pub open spec fn connection_settings(mode: SqliteSynchronousMode, busy_timeout_ms: i32) -> Seq<
    (Seq<char>, PragmaValue),
> {
    seq![
        (JOURNAL_MODE@, PragmaValue::Text(WAL@)),
        (SYNCHRONOUS@, PragmaValue::Text(mode_name(mode))),
        (BUSY_TIMEOUT@, PragmaValue::Integer(busy_timeout_ms as int)),
    ]
}

/// The value stored under address `a`, if any.
pub open spec fn lookup(m: Map<(Seq<char>, Seq<char>), Seq<u8>>, a: (Seq<char>, Seq<char>)) -> Option<Seq<u8>> {
    if m.contains_key(a) {
        Some(m[a])
    } else {
        None
    }
}

/// The address of a parsed key.
pub open spec fn address(k: Key) -> (Seq<char>, Seq<char>) {
    (k.namespace@, k.name@)
}

/// Every namespace that holds an entry.
pub open spec fn namespaces_in(m: Map<(Seq<char>, Seq<char>), Seq<u8>>) -> Set<Seq<char>> {
    Set::new(|ns: Seq<char>| exists|k: Seq<char>| #[trigger] m.contains_key((ns, k)))
}

/// Strict lexicographic order of character sequences by code point, which
/// is the byte order of their UTF-8 encodings.
pub open spec fn text_lt(a: Seq<char>, b: Seq<char>) -> bool
    decreases a.len(),
{
    if a.len() == 0 {
        b.len() > 0
    } else if b.len() == 0 {
        false
    } else if a[0] != b[0] {
        (a[0] as int) < (b[0] as int)
    } else {
        text_lt(a.drop_first(), b.drop_first())
    }
}

/// `s` is in ascending order without repetition.
pub open spec fn strictly_ascending(s: Seq<Seq<char>>) -> bool {
    &&& forall|i: int| 0 <= i < s.len() - 1 ==> text_lt(#[trigger] s[i], s[i + 1])
    &&& forall|i: int, j: int| 0 <= i < s.len() && 0 <= j < s.len() && i != j ==> s[i] != s[j]
}

/// `rows` holds each entry of namespace `ns` exactly once, as `(key, value)`.
pub open spec fn lists_namespace(
    rows: Seq<(String, Vec<u8>)>,
    m: Map<(Seq<char>, Seq<char>), Seq<u8>>,
    ns: Seq<char>,
) -> bool {
    &&& forall|i: int| 0 <= i < rows.len() ==> lookup(m, (ns, (#[trigger] rows[i]).0@)) == Some(rows[i].1@)
    &&& forall|i: int, j: int| 0 <= i < j < rows.len() ==> (#[trigger] rows[i]).0@ != (#[trigger] rows[j]).0@
    &&& forall|k: Seq<char>| #[trigger] m.contains_key((ns, k)) ==> exists|i: int| 0 <= i < rows.len() && (#[trigger] rows[i]).0@ == k
}

/// After a write to address `a`, an existing row keeps its creation time and
/// a new row gets one; every other row keeps its own.
pub open spec fn keeps_or_stamps(
    before: Map<(Seq<char>, Seq<char>), Seq<char>>,
    after: Map<(Seq<char>, Seq<char>), Seq<char>>,
    a: (Seq<char>, Seq<char>),
) -> bool {
    &&& before.contains_key(a) ==> after == before
    &&& !before.contains_key(a) ==> after.contains_key(a) && after.remove(a) == before
}

/// No row of `rows` was created before a row that follows it.
pub open spec fn newest_first(
    rows: Seq<(String, Vec<u8>)>,
    times: Map<(Seq<char>, Seq<char>), Seq<char>>,
    ns: Seq<char>,
) -> bool {
    forall|i: int, j: int|
        0 <= i < j < rows.len() ==> !text_lt(
            times[(ns, (#[trigger] rows[i]).0@)],
            times[(ns, (#[trigger] rows[j]).0@)],
        )
}

/// Creates the entries table and its update-time trigger where absent.
pub const SCHEMA: &'static str = "
    create table if not exists entries (
        namespace text not null,
        key text not null,
        value blob not null,
        inserted_at datetime not null default(strftime('%Y-%m-%d %H:%M:%f', 'NOW')),
        updated_at datetime not null default(strftime('%Y-%m-%d %H:%M:%f', 'NOW')),
        primary key (namespace, key)
    ) without rowid;

    create trigger if not exists entries_updated_at
    after update on entries for each row
    begin
        update entries
        set updated_at = strftime('%Y-%m-%d %H:%M:%f', 'NOW')
        where namespace = old.namespace
        and key = old.key;
    end;
    ";

/// Reads the value under one address.
pub const GET_QUERY: &'static str = "
    select value from entries
    where namespace = ? and key = ?
    limit 1
    ";

/// Inserts a row, or on a clash of addresses replaces its value alone.
pub const SET_QUERY: &'static str = "
    insert into entries (namespace, key, value)
    values (?, ?, ?)
    on conflict do update
    set value = excluded.value
    where namespace = excluded.namespace
    and key = excluded.key;
    ";

/// Removes the row under one address, if there is one.
pub const DELETE_QUERY: &'static str = "
    delete from entries
    where namespace = ? and key = ?
    ";

/// The keys and values of one namespace, most recently created first.
pub const LIST_QUERY: &'static str = "
    select key, value from entries
    where namespace = ?
    order by inserted_at desc
    ";

/// Every namespace in use, once each, in ascending order.
pub const LIST_NAMESPACES_QUERY: &'static str = "
    select distinct namespace from entries
    order by namespace asc
    ";

/// Relies on rusqlite::Connection::open: opens or creates the database file;
/// a new connection has had no setting applied.
#[verifier::external_body]
fn db_open(path: &std::path::PathBuf) -> (r: Result<rusqlite::Connection, rusqlite::Error>)
    ensures
        r matches Ok(c) ==> applied_pragmas(c) == Seq::<(Seq<char>, PragmaValue)>::empty(),
{
    rusqlite::Connection::open(path)
}

/// Relies on rusqlite::Connection::pragma_update with a text value: on
/// success the setting `name = value` has been applied.
#[verifier::external_body]
fn db_pragma_text(conn: &mut rusqlite::Connection, name: &str, value: &str) -> (r: Result<(), rusqlite::Error>)
    ensures
        r is Ok ==> applied_pragmas(*final(conn)) == applied_pragmas(*old(conn)).push((name@, PragmaValue::Text(value@))),
{
    conn.pragma_update(None, name, value)
}

/// Relies on rusqlite::Connection::pragma_update with an integer value: on
/// success the setting `name = value` has been applied.
#[verifier::external_body]
fn db_pragma_int(conn: &mut rusqlite::Connection, name: &str, value: i32) -> (r: Result<(), rusqlite::Error>)
    ensures
        r is Ok ==> applied_pragmas(*final(conn)) == applied_pragmas(*old(conn)).push((name@, PragmaValue::Integer(value as int))),
{
    conn.pragma_update(None, name, value)
}

/// Relies on rusqlite::Connection::execute_batch running the schema, whose
/// statements only create what is absent and touch no row.
#[verifier::external_body]
fn db_execute_batch(conn: &mut rusqlite::Connection, sql: &str) -> (r: Result<(), rusqlite::Error>)
    requires
        sql@ == SCHEMA@,
    ensures
        stored_entries(*final(conn)) == stored_entries(*old(conn)),
        creation_times(*final(conn)) == creation_times(*old(conn)),
{
    conn.execute_batch(sql)
}

/// Relies on rusqlite::Connection::execute running the delete statement on
/// one address; a failed statement changes nothing.
#[verifier::external_body]
fn db_execute_address(
    conn: &mut rusqlite::Connection,
    sql: &str,
    namespace: &str,
    name: &str,
) -> (r: Result<usize, rusqlite::Error>)
    requires
        sql@ == DELETE_QUERY@,
    ensures
        r is Ok ==> stored_entries(*final(conn)) == stored_entries(*old(conn)).remove((namespace@, name@)),
        r is Ok ==> creation_times(*final(conn)) == creation_times(*old(conn)).remove((namespace@, name@)),
        r is Err ==> stored_entries(*final(conn)) == stored_entries(*old(conn)),
        r is Err ==> creation_times(*final(conn)) == creation_times(*old(conn)),
{
    conn.execute(sql, (namespace, name))
}

/// Relies on rusqlite::Connection::execute running the upsert statement on
/// one address and a blob; a failed statement changes nothing.
#[verifier::external_body]
fn db_execute_address_value(
    conn: &mut rusqlite::Connection,
    sql: &str,
    namespace: &str,
    name: &str,
    value: &[u8],
) -> (r: Result<usize, rusqlite::Error>)
    requires
        sql@ == SET_QUERY@,
    ensures
        r is Ok ==> stored_entries(*final(conn)) == stored_entries(*old(conn)).insert((namespace@, name@), value@),
        r is Ok ==> keeps_or_stamps(creation_times(*old(conn)), creation_times(*final(conn)), (namespace@, name@)),
        r is Err ==> stored_entries(*final(conn)) == stored_entries(*old(conn)),
        r is Err ==> creation_times(*final(conn)) == creation_times(*old(conn)),
{
    conn.execute(sql, (namespace, name, value))
}

/// Relies on rusqlite::Connection::query_row running the lookup statement,
/// with `optional` turning the absence of rows into `None`.
#[verifier::external_body]
fn db_query_blob(
    conn: &mut rusqlite::Connection,
    sql: &str,
    namespace: &str,
    name: &str,
) -> (r: Result<Option<Vec<u8>>, rusqlite::Error>)
    requires
        sql@ == GET_QUERY@,
    ensures
        stored_entries(*final(conn)) == stored_entries(*old(conn)),
        creation_times(*final(conn)) == creation_times(*old(conn)),
        r matches Ok(Some(v)) ==> lookup(stored_entries(*old(conn)), (namespace@, name@)) == Some(v@),
        r matches Ok(None) ==> lookup(stored_entries(*old(conn)), (namespace@, name@)) is None,
{
    conn.query_row(sql, (namespace, name), |row| row.get(0)).optional()
}

/// Relies on rusqlite's Connection::prepare and Statement::query_map running
/// the listing statement: the key and value of every row of the namespace.
#[verifier::external_body]
fn db_query_text_blob_rows(
    conn: &mut rusqlite::Connection,
    sql: &str,
    namespace: &str,
) -> (r: Result<Vec<(String, Vec<u8>)>, rusqlite::Error>)
    requires
        sql@ == LIST_QUERY@,
    ensures
        stored_entries(*final(conn)) == stored_entries(*old(conn)),
        creation_times(*final(conn)) == creation_times(*old(conn)),
        r matches Ok(rows) ==> lists_namespace(rows@, stored_entries(*old(conn)), namespace@),
        r matches Ok(rows) ==> newest_first(rows@, creation_times(*old(conn)), namespace@),
{
    let mut stmt = conn.prepare(sql)?;
    let rows = stmt.query_map([namespace], |row| Ok((row.get(0)?, row.get(1)?)))?;
    rows.collect()
}

/// Relies on rusqlite's Connection::prepare and Statement::query_map running
/// the namespace statement: `distinct` and `order by` in SQLite's binary
/// collation give each namespace once, in byte order.
#[verifier::external_body]
fn db_query_text_rows(conn: &mut rusqlite::Connection, sql: &str) -> (r: Result<Vec<String>, rusqlite::Error>)
    requires
        sql@ == LIST_NAMESPACES_QUERY@,
    ensures
        stored_entries(*final(conn)) == stored_entries(*old(conn)),
        creation_times(*final(conn)) == creation_times(*old(conn)),
        r matches Ok(v) ==> strictly_ascending(v@.map_values(|n: String| n@)),
        r matches Ok(v) ==> v@.map_values(|n: String| n@).to_set() == namespaces_in(stored_entries(*old(conn))),
{
    let mut stmt = conn.prepare(sql)?;
    let rows = stmt.query_map([], |row| row.get(0))?;
    rows.collect()
}

/// What to do after an attempt to open the database failed.
#[derive(Debug, Clone, Copy, PartialEq, Eq, Structural)]
pub enum OpenRecovery {
    /// Create the directory that should hold the file, then open again.
    CreateDirectoryAndRetry,
    /// Give up and report the failure.
    Fail,
}

/// A failed open is retried once, after creating the missing directory, and
/// only when the file could not be opened at all; any other failure, or a
/// failure of the retry, is final.
pub fn recovery_after_open_failure(cannot_open: bool, attempts: u32) -> (r: OpenRecovery)
    ensures
        r == (if cannot_open && attempts == 1 {
            OpenRecovery::CreateDirectoryAndRetry
        } else {
            OpenRecovery::Fail
        }),
{
    if cannot_open && attempts == 1 {
        OpenRecovery::CreateDirectoryAndRetry
    } else {
        OpenRecovery::Fail
    }
}

/// Opens the database at `path` and applies, in this order and each only
/// after the one before succeeded, write-ahead logging, the synchronous
/// mode, and the busy timeout in milliseconds.
pub fn open_db_connection(
    path: &std::path::PathBuf,
    sqlite_synchronous_mode: SqliteSynchronousMode,
    sqlite_busy_timeout_ms: i32,
) -> (r: Result<rusqlite::Connection, rusqlite::Error>)
    ensures
        r matches Ok(c) ==> applied_pragmas(c) == connection_settings(
            sqlite_synchronous_mode,
            sqlite_busy_timeout_ms,
        ),
{
    let mut conn = db_open(path)?;
    db_pragma_text(&mut conn, JOURNAL_MODE, WAL)?;
    db_pragma_text(&mut conn, SYNCHRONOUS, sqlite_synchronous_mode.as_str())?;
    db_pragma_int(&mut conn, BUSY_TIMEOUT, sqlite_busy_timeout_ms)?;
    assert(applied_pragmas(conn) =~= connection_settings(sqlite_synchronous_mode, sqlite_busy_timeout_ms));
    Ok(conn)
}

/// Creates the entries table and its trigger where they are absent; the
/// rows already stored stay as they were.
pub fn migrate_db(conn: &mut rusqlite::Connection) -> (r: Result<(), rusqlite::Error>)
    ensures
        stored_entries(*final(conn)) == stored_entries(*old(conn)),
        creation_times(*final(conn)) == creation_times(*old(conn)),
{
    db_execute_batch(conn, SCHEMA)
}

/// The value stored under `key`; an absent key gives `Ok(None)`.
pub fn get_entry(conn: &mut rusqlite::Connection, key: &Key) -> (r: Result<Option<Vec<u8>>, rusqlite::Error>)
    ensures
        stored_entries(*final(conn)) == stored_entries(*old(conn)),
        creation_times(*final(conn)) == creation_times(*old(conn)),
        r matches Ok(Some(v)) ==> lookup(stored_entries(*old(conn)), address(*key)) == Some(v@),
        r matches Ok(None) ==> lookup(stored_entries(*old(conn)), address(*key)) is None,
{
    db_query_blob(conn, GET_QUERY, key.namespace.as_str(), key.name.as_str())
}

/// Stores `value` under `key` in one statement: the new value replaces an
/// old one, and a failure stores nothing.
pub fn set_entry(conn: &mut rusqlite::Connection, key: &Key, value: &[u8]) -> (r: Result<(), rusqlite::Error>)
    ensures
        r is Ok ==> stored_entries(*final(conn)) == stored_entries(*old(conn)).insert(address(*key), value@),
        r is Ok ==> keeps_or_stamps(creation_times(*old(conn)), creation_times(*final(conn)), address(*key)),
        r is Err ==> stored_entries(*final(conn)) == stored_entries(*old(conn)),
        r is Err ==> creation_times(*final(conn)) == creation_times(*old(conn)),
{
    db_execute_address_value(conn, SET_QUERY, key.namespace.as_str(), key.name.as_str(), value)?;
    Ok(())
}

/// Removes the row under `key`; an absent key is no error.
pub fn delete_entry(conn: &mut rusqlite::Connection, key: &Key) -> (r: Result<(), rusqlite::Error>)
    ensures
        r is Ok ==> stored_entries(*final(conn)) == stored_entries(*old(conn)).remove(address(*key)),
        r is Ok ==> creation_times(*final(conn)) == creation_times(*old(conn)).remove(address(*key)),
        r is Err ==> stored_entries(*final(conn)) == stored_entries(*old(conn)),
        r is Err ==> creation_times(*final(conn)) == creation_times(*old(conn)),
{
    db_execute_address(conn, DELETE_QUERY, key.namespace.as_str(), key.name.as_str())?;
    Ok(())
}

/// The key and value of each entry of `namespace`, each once, most recently
/// created first.
pub fn list_entries(conn: &mut rusqlite::Connection, namespace: &str) -> (r: Result<Vec<(String, Vec<u8>)>, rusqlite::Error>)
    ensures
        stored_entries(*final(conn)) == stored_entries(*old(conn)),
        creation_times(*final(conn)) == creation_times(*old(conn)),
        r matches Ok(rows) ==> lists_namespace(rows@, stored_entries(*old(conn)), namespace@),
        r matches Ok(rows) ==> newest_first(rows@, creation_times(*old(conn)), namespace@),
{
    db_query_text_blob_rows(conn, LIST_QUERY, namespace)
}

/// Every namespace in use, once each, in ascending order.
pub fn list_namespaces(conn: &mut rusqlite::Connection) -> (r: Result<Vec<String>, rusqlite::Error>)
    ensures
        stored_entries(*final(conn)) == stored_entries(*old(conn)),
        creation_times(*final(conn)) == creation_times(*old(conn)),
        r matches Ok(v) ==> strictly_ascending(v@.map_values(|n: String| n@)),
        r matches Ok(v) ==> v@.map_values(|n: String| n@).to_set() == namespaces_in(stored_entries(*old(conn))),
{
    db_query_text_rows(conn, LIST_NAMESPACES_QUERY)
}

/// Storing `v` under `a` and then reading `a` gives back exactly `v`.
pub proof fn law_get_after_set(m: Map<(Seq<char>, Seq<char>), Seq<u8>>, a: (Seq<char>, Seq<char>), v: Seq<u8>)
    ensures
        lookup(m.insert(a, v), a) == Some(v),
{
}

/// Storing twice under one address leaves one entry for it, holding the
/// second value, and the other entries as they were.
pub proof fn law_set_twice(
    m: Map<(Seq<char>, Seq<char>), Seq<u8>>,
    a: (Seq<char>, Seq<char>),
    v1: Seq<u8>,
    v2: Seq<u8>,
)
    ensures
        m.insert(a, v1).insert(a, v2) == m.insert(a, v2),
        m.insert(a, v1).insert(a, v2).dom() == m.insert(a, v1).dom(),
        lookup(m.insert(a, v1).insert(a, v2), a) == Some(v2),
{
    assert(m.insert(a, v1).insert(a, v2) =~= m.insert(a, v2));
    assert(m.insert(a, v1).insert(a, v2).dom() =~= m.insert(a, v1).dom());
}

/// Writing twice to one address: the second write leaves every creation
/// time, the address's own included, as the first write left it.
pub proof fn law_set_twice_keeps_creation_time(
    t0: Map<(Seq<char>, Seq<char>), Seq<char>>,
    t1: Map<(Seq<char>, Seq<char>), Seq<char>>,
    t2: Map<(Seq<char>, Seq<char>), Seq<char>>,
    a: (Seq<char>, Seq<char>),
)
    requires
        keeps_or_stamps(t0, t1, a),
        keeps_or_stamps(t1, t2, a),
    ensures
        t1.contains_key(a),
        t2 == t1,
        t2[a] == t1[a],
{
    if !t0.contains_key(a) {
        assert(t1.contains_key(a));
    }
}

/// Removing an absent address leaves the entries unchanged.
pub proof fn law_delete_absent(m: Map<(Seq<char>, Seq<char>), Seq<u8>>, a: (Seq<char>, Seq<char>))
    requires
        !m.contains_key(a),
    ensures
        m.remove(a) == m,
{
    assert(m.remove(a) =~= m);
}

/// Reading an absent address gives `None`.
pub proof fn law_get_absent(m: Map<(Seq<char>, Seq<char>), Seq<u8>>, a: (Seq<char>, Seq<char>))
    requires
        !m.contains_key(a),
    ensures
        lookup(m, a) is None,
{
}

/// After a removal the address reads as absent, and the others read as before.
pub proof fn law_get_after_delete(
    m: Map<(Seq<char>, Seq<char>), Seq<u8>>,
    a: (Seq<char>, Seq<char>),
    b: (Seq<char>, Seq<char>),
)
    ensures
        lookup(m.remove(a), a) is None,
        b != a ==> lookup(m.remove(a), b) == lookup(m, b),
{
}

/// Entries in different namespaces never disturb each other: storing under
/// one address leaves every other address as it read.
pub proof fn law_set_other_address(
    m: Map<(Seq<char>, Seq<char>), Seq<u8>>,
    a: (Seq<char>, Seq<char>),
    b: (Seq<char>, Seq<char>),
    v: Seq<u8>,
)
    requires
        a != b,
    ensures
        lookup(m.insert(a, v), b) == lookup(m, b),
{
}

} // verus!
