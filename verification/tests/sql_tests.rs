use smt_kvdb::decimal::decimal_text;
use smt_kvdb::turso_sql::{cache_size_kib, Statement};

#[test]
fn decimal_notation() {
    for n in [0, 7, 9, 10, 11, 99, 100, 1000, 65536, i64::MAX, -1, -9, -10, -65536, i64::MIN] {
        assert_eq!(decimal_text(n), n.to_string());
    }
}

#[test]
fn cache_sizes() {
    assert_eq!(cache_size_kib(0), 0);
    assert_eq!(cache_size_kib(1023), 0);
    assert_eq!(cache_size_kib(1024), -1);
    assert_eq!(cache_size_kib(1 << 30), -1048576);
    for n in [5usize, 4096, 1_000_000, i64::MAX as usize, i64::MAX as usize + 1, usize::MAX] {
        assert_eq!(cache_size_kib(n), -(n as i64 / 1024));
    }
    assert_eq!(cache_size_kib(i64::MAX as usize + 1), 9007199254740992);
}

#[test]
fn statement_texts() {
    assert_eq!(Statement::JournalModeWal.text(), "PRAGMA journal_mode = WAL");
    assert_eq!(Statement::SynchronousNormal.text(), "PRAGMA synchronous = NORMAL");
    assert_eq!(Statement::CacheSize(-65536).text(), "PRAGMA cache_size = -65536");
    assert_eq!(Statement::WalAutocheckpoint.text(), "PRAGMA wal_autocheckpoint = 1000");
    assert_eq!(Statement::BeginDeferred.text(), "BEGIN DEFERRED");
    assert_eq!(Statement::Commit.text(), "COMMIT");
    assert_eq!(Statement::Rollback.text(), "ROLLBACK");
    assert_eq!(Statement::AnchorRead.text(), "SELECT 1 FROM sqlite_schema LIMIT 1");
    assert_eq!(Statement::Checkpoint.text(), "PRAGMA wal_checkpoint(FULL)");
    assert_eq!(Statement::Select("st16").text(), "SELECT value FROM st16 WHERE key = ?");
    assert_eq!(Statement::SelectAll("st16").text(), "SELECT key, value FROM st16 ORDER BY key");
    assert_eq!(
        Statement::Replace("st16").text(),
        "INSERT OR REPLACE INTO st16 (key, value) VALUES (?, ?)"
    );
    assert_eq!(Statement::Delete("st16").text(), "DELETE FROM st16 WHERE key = ?");
}

#[test]
fn create_tables_text() {
    let text = Statement::CreateTables.text();
    let expected = "\
        CREATE TABLE IF NOT EXISTS leaves       (key BLOB PRIMARY KEY, value BLOB NOT NULL);\
        CREATE TABLE IF NOT EXISTS st16   (key BLOB PRIMARY KEY, value BLOB NOT NULL);\
        CREATE TABLE IF NOT EXISTS st24   (key BLOB PRIMARY KEY, value BLOB NOT NULL);\
        CREATE TABLE IF NOT EXISTS st32   (key BLOB PRIMARY KEY, value BLOB NOT NULL);\
        CREATE TABLE IF NOT EXISTS st40   (key BLOB PRIMARY KEY, value BLOB NOT NULL);\
        CREATE TABLE IF NOT EXISTS st48   (key BLOB PRIMARY KEY, value BLOB NOT NULL);\
        CREATE TABLE IF NOT EXISTS st56   (key BLOB PRIMARY KEY, value BLOB NOT NULL);\
        CREATE TABLE IF NOT EXISTS metadata     (key BLOB PRIMARY KEY, value BLOB NOT NULL);\
        CREATE TABLE IF NOT EXISTS in_mem_depth (key BLOB PRIMARY KEY, value BLOB NOT NULL);";
    assert_eq!(text, expected);
}
