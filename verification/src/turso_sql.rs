//! The SQL statements of the turso storage.

use vstd::prelude::*;

use crate::decimal::decimal_text;
use crate::schema::{
    IN_MEM_DEPTH_CF, LEAVES_CF, METADATA_CF, SUBTREE_16_CF, SUBTREE_24_CF, SUBTREE_32_CF,
    SUBTREE_40_CF, SUBTREE_48_CF, SUBTREE_56_CF,
};

verus! {

/// A statement that the storage hands to turso.
#[derive(Debug)]
pub enum Statement {
    /// Keep changes in a write-ahead log.
    JournalModeWal,
    /// Sync the write-ahead log at checkpoints only.
    SynchronousNormal,
    /// Set the size of the cache: that many pages, or, of a negative number, that many KiB.
    CacheSize(i64),
    /// Checkpoint when the write-ahead log has grown by so many pages.
    WalAutocheckpoint,
    /// Create all tables that do not exist yet.
    CreateTables,
    /// Start a transaction, which takes its view of the tables at its first read or write.
    BeginDeferred,
    /// Commit the transaction.
    Commit,
    /// Take the transaction back.
    Rollback,
    /// A read that returns next to nothing, made so that a transaction takes its view.
    AnchorRead,
    /// Move the write-ahead log into the database file, as far as the views that are held of the
    /// tables allow.
    Checkpoint,
    /// Read the value under the key that is the parameter from the table.
    Select(&'static str),
    /// Read all entries of the table, in the order of the keys.
    SelectAll(&'static str),
    /// Put the value that is the second parameter under the key that is the first into the table.
    Replace(&'static str),
    /// Remove the key that is the parameter from the table.
    Delete(&'static str),
}

/// What a [`Statement`] says, with table names as their characters.
pub enum Sql {
    JournalModeWal,
    SynchronousNormal,
    CacheSize(i64),
    WalAutocheckpoint,
    CreateTables,
    BeginDeferred,
    Commit,
    Rollback,
    AnchorRead,
    Checkpoint,
    Select(Seq<char>),
    SelectAll(Seq<char>),
    Replace(Seq<char>),
    Delete(Seq<char>),
}

impl View for Statement {
    type V = Sql;

    open spec fn view(&self) -> Sql {
        match *self {
            Statement::JournalModeWal => Sql::JournalModeWal,
            Statement::SynchronousNormal => Sql::SynchronousNormal,
            Statement::CacheSize(n) => Sql::CacheSize(n),
            Statement::WalAutocheckpoint => Sql::WalAutocheckpoint,
            Statement::CreateTables => Sql::CreateTables,
            Statement::BeginDeferred => Sql::BeginDeferred,
            Statement::Commit => Sql::Commit,
            Statement::Rollback => Sql::Rollback,
            Statement::AnchorRead => Sql::AnchorRead,
            Statement::Checkpoint => Sql::Checkpoint,
            Statement::Select(table) => Sql::Select(table@),
            Statement::SelectAll(table) => Sql::SelectAll(table@),
            Statement::Replace(table) => Sql::Replace(table@),
            Statement::Delete(table) => Sql::Delete(table@),
        }
    }
}

/// The statement that creates the table `name`, with `gap` between the name and the columns.
pub open spec fn create_table_sql(name: Seq<char>, gap: Seq<char>) -> Seq<char> {
    "CREATE TABLE IF NOT EXISTS "@ + name + gap + "(key BLOB PRIMARY KEY, value BLOB NOT NULL);"@
}

/// The statements that create all tables.
pub open spec fn create_tables_sql() -> Seq<char> {
    create_table_sql(LEAVES_CF@, "       "@) + create_table_sql(SUBTREE_16_CF@, "   "@)
        + create_table_sql(SUBTREE_24_CF@, "   "@) + create_table_sql(SUBTREE_32_CF@, "   "@)
        + create_table_sql(SUBTREE_40_CF@, "   "@) + create_table_sql(SUBTREE_48_CF@, "   "@)
        + create_table_sql(SUBTREE_56_CF@, "   "@) + create_table_sql(METADATA_CF@, "     "@)
        + create_table_sql(IN_MEM_DEPTH_CF@, " "@)
}

impl Sql {
    /// The text of the statement.
    pub open spec fn text(self) -> Seq<char> {
        match self {
            Sql::JournalModeWal => "PRAGMA journal_mode = WAL"@,
            Sql::SynchronousNormal => "PRAGMA synchronous = NORMAL"@,
            Sql::CacheSize(n) => "PRAGMA cache_size = "@ + crate::decimal::decimal(n as int),
            Sql::WalAutocheckpoint => "PRAGMA wal_autocheckpoint = 1000"@,
            Sql::CreateTables => create_tables_sql(),
            Sql::BeginDeferred => "BEGIN DEFERRED"@,
            Sql::Commit => "COMMIT"@,
            Sql::Rollback => "ROLLBACK"@,
            Sql::AnchorRead => "SELECT 1 FROM sqlite_schema LIMIT 1"@,
            Sql::Checkpoint => "PRAGMA wal_checkpoint(FULL)"@,
            Sql::Select(table) => "SELECT value FROM "@ + table + " WHERE key = ?"@,
            Sql::SelectAll(table) => "SELECT key, value FROM "@ + table + " ORDER BY key"@,
            Sql::Replace(table) => "INSERT OR REPLACE INTO "@ + table
                + " (key, value) VALUES (?, ?)"@,
            Sql::Delete(table) => "DELETE FROM "@ + table + " WHERE key = ?"@,
        }
    }
}

/// The statement that creates the table `name`, with `gap` between the name and the columns.
fn create_table_text(name: &str, gap: &str) -> (r: String)
    ensures
        r@ == create_table_sql(name@, gap@),
{
    "CREATE TABLE IF NOT EXISTS ".to_owned().concat(name).concat(gap).concat(
        "(key BLOB PRIMARY KEY, value BLOB NOT NULL);",
    )
}

/// The statements that create all tables.
fn create_tables_text() -> (r: String)
    ensures
        r@ == create_tables_sql(),
{
    let mut text = create_table_text(LEAVES_CF, "       ");
    text.append(create_table_text(SUBTREE_16_CF, "   ").as_str());
    text.append(create_table_text(SUBTREE_24_CF, "   ").as_str());
    text.append(create_table_text(SUBTREE_32_CF, "   ").as_str());
    text.append(create_table_text(SUBTREE_40_CF, "   ").as_str());
    text.append(create_table_text(SUBTREE_48_CF, "   ").as_str());
    text.append(create_table_text(SUBTREE_56_CF, "   ").as_str());
    text.append(create_table_text(METADATA_CF, "     ").as_str());
    text.append(create_table_text(IN_MEM_DEPTH_CF, " ").as_str());
    text
}

impl Statement {
    /// The text of the statement.
    pub fn text(&self) -> (r: String)
        ensures
            r@ == self@.text(),
            match *self {
                Statement::Select(n) => r@ == "SELECT value FROM "@ + n@ + " WHERE key = ?"@,
                Statement::SelectAll(n) => r@ == "SELECT key, value FROM "@ + n@
                    + " ORDER BY key"@,
                Statement::Replace(n) => r@ == "INSERT OR REPLACE INTO "@ + n@
                    + " (key, value) VALUES (?, ?)"@,
                Statement::Delete(n) => r@ == "DELETE FROM "@ + n@ + " WHERE key = ?"@,
                _ => true,
            },
    {
        match self {
            Statement::JournalModeWal => "PRAGMA journal_mode = WAL".to_owned(),
            Statement::SynchronousNormal => "PRAGMA synchronous = NORMAL".to_owned(),
            Statement::CacheSize(n) => "PRAGMA cache_size = ".to_owned().concat(
                decimal_text(*n).as_str(),
            ),
            Statement::WalAutocheckpoint => "PRAGMA wal_autocheckpoint = 1000".to_owned(),
            Statement::CreateTables => create_tables_text(),
            Statement::BeginDeferred => "BEGIN DEFERRED".to_owned(),
            Statement::Commit => "COMMIT".to_owned(),
            Statement::Rollback => "ROLLBACK".to_owned(),
            Statement::AnchorRead => "SELECT 1 FROM sqlite_schema LIMIT 1".to_owned(),
            Statement::Checkpoint => "PRAGMA wal_checkpoint(FULL)".to_owned(),
            Statement::Select(table) => "SELECT value FROM ".to_owned().concat(table).concat(
                " WHERE key = ?",
            ),
            Statement::SelectAll(table) => "SELECT key, value FROM ".to_owned().concat(
                table,
            ).concat(" ORDER BY key"),
            Statement::Replace(table) => "INSERT OR REPLACE INTO ".to_owned().concat(table).concat(
                " (key, value) VALUES (?, ?)",
            ),
            Statement::Delete(table) => "DELETE FROM ".to_owned().concat(table).concat(
                " WHERE key = ?",
            ),
        }
    }
}

/// The cache size that asks turso for `cache_size` bytes: the negated number of KiB. A number of
/// bytes that no `i64` holds is taken as the `i64` with the same bits.
pub open spec fn cache_kib(cache_size: usize) -> int {
    if cache_size <= i64::MAX {
        -(cache_size as int / 1024)
    } else {
        (0x1_0000_0000_0000_0000 - cache_size) / 1024
    }
}

/// The cache size that asks turso for `cache_size` bytes.
pub fn cache_size_kib(cache_size: usize) -> (r: i64)
    ensures
        r == cache_kib(cache_size),
{
    let bytes: u64 = cache_size as u64;
    if bytes <= i64::MAX as u64 {
        -((bytes / 1024) as i64)
    } else {
        ((u64::MAX - bytes + 1) / 1024) as i64
    }
}

// LAWS
// ================================================================================================

/// The text of every statement. A put names the key column first and the value column second, as
/// its parameters come; a read and a removal go by the key; a read of all entries asks for the key,
/// then the value, in ascending order of the keys.
pub proof fn law_statement_texts(statement: Statement)
    ensures
        match statement {
            Statement::JournalModeWal => statement@.text() == "PRAGMA journal_mode = WAL"@,
            Statement::SynchronousNormal => statement@.text() == "PRAGMA synchronous = NORMAL"@,
            Statement::CacheSize(n) => statement@.text() == "PRAGMA cache_size = "@
                + crate::decimal::decimal(n as int),
            Statement::WalAutocheckpoint => statement@.text()
                == "PRAGMA wal_autocheckpoint = 1000"@,
            Statement::CreateTables => statement@ == Sql::CreateTables,
            Statement::BeginDeferred => statement@.text() == "BEGIN DEFERRED"@,
            Statement::Commit => statement@.text() == "COMMIT"@,
            Statement::Rollback => statement@.text() == "ROLLBACK"@,
            Statement::AnchorRead => statement@.text() == "SELECT 1 FROM sqlite_schema LIMIT 1"@,
            Statement::Checkpoint => statement@.text() == "PRAGMA wal_checkpoint(FULL)"@,
            Statement::Select(n) => statement@.text() == "SELECT value FROM "@ + n@
                + " WHERE key = ?"@,
            Statement::SelectAll(n) => statement@.text() == "SELECT key, value FROM "@ + n@
                + " ORDER BY key"@,
            Statement::Replace(n) => statement@.text() == "INSERT OR REPLACE INTO "@ + n@
                + " (key, value) VALUES (?, ?)"@,
            Statement::Delete(n) => statement@.text() == "DELETE FROM "@ + n@
                + " WHERE key = ?"@,
        },
{
}

/// The text of a statement on a table, by the table's name.
pub proof fn law_table_statement_texts(name: Seq<char>)
    ensures
        Sql::Select(name).text() == "SELECT value FROM "@ + name + " WHERE key = ?"@,
        Sql::SelectAll(name).text() == "SELECT key, value FROM "@ + name + " ORDER BY key"@,
        Sql::Replace(name).text() == "INSERT OR REPLACE INTO "@ + name
            + " (key, value) VALUES (?, ?)"@,
        Sql::Delete(name).text() == "DELETE FROM "@ + name + " WHERE key = ?"@,
{
}

/// Whether `text` is the statement that creates the table `name`, if it does not exist, with a key
/// that is made of bytes and unique and a value that is made of bytes and always there.
pub open spec fn creates_table(text: Seq<char>, name: Seq<char>) -> bool {
    exists|gap: Seq<char>|
        {
            &&& gap.len() > 0
            &&& forall|i: int| 0 <= i < gap.len() ==> #[trigger] gap[i] == ' '
            &&& text == #[trigger] ("CREATE TABLE IF NOT EXISTS "@ + name + gap)
                + "(key BLOB PRIMARY KEY, value BLOB NOT NULL);"@
        }
}

/// The text of `parts`, one behind the other.
pub open spec fn joined(parts: Seq<Seq<char>>) -> Seq<char>
    decreases parts.len(),
{
    if parts.len() == 0 {
        Seq::empty()
    } else {
        joined(parts.drop_last()) + parts.last()
    }
}

/// A part with `gap` creates its table.
proof fn lemma_creates_table(name: Seq<char>, gap: Seq<char>)
    requires
        gap.len() > 0,
        forall|i: int| 0 <= i < gap.len() ==> #[trigger] gap[i] == ' ',
    ensures
        creates_table(create_table_sql(name, gap), name),
{
    let head = "CREATE TABLE IF NOT EXISTS "@ + name + gap;
    assert(create_table_sql(name, gap) =~= head + "(key BLOB PRIMARY KEY, value BLOB NOT NULL);"@);
}

/// The text that creates the tables is made of one statement for each table of the schema, in
/// order, and of nothing else.
pub proof fn law_create_tables_text() -> (parts: Seq<Seq<char>>)
    ensures
        Sql::CreateTables.text() == joined(parts),
        parts.len() == crate::schema::schema().len(),
        forall|i: int|
            0 <= i < parts.len() ==> creates_table(
                #[trigger] parts[i],
                crate::schema::schema()[i],
            ),
{
    reveal_strlit("       ");
    reveal_strlit("   ");
    reveal_strlit("     ");
    reveal_strlit(" ");
    let parts = seq![
        create_table_sql(LEAVES_CF@, "       "@),
        create_table_sql(SUBTREE_16_CF@, "   "@),
        create_table_sql(SUBTREE_24_CF@, "   "@),
        create_table_sql(SUBTREE_32_CF@, "   "@),
        create_table_sql(SUBTREE_40_CF@, "   "@),
        create_table_sql(SUBTREE_48_CF@, "   "@),
        create_table_sql(SUBTREE_56_CF@, "   "@),
        create_table_sql(METADATA_CF@, "     "@),
        create_table_sql(IN_MEM_DEPTH_CF@, " "@),
    ];
    lemma_creates_table(LEAVES_CF@, "       "@);
    lemma_creates_table(SUBTREE_16_CF@, "   "@);
    lemma_creates_table(SUBTREE_24_CF@, "   "@);
    lemma_creates_table(SUBTREE_32_CF@, "   "@);
    lemma_creates_table(SUBTREE_40_CF@, "   "@);
    lemma_creates_table(SUBTREE_48_CF@, "   "@);
    lemma_creates_table(SUBTREE_56_CF@, "   "@);
    lemma_creates_table(METADATA_CF@, "     "@);
    lemma_creates_table(IN_MEM_DEPTH_CF@, " "@);
    let p8 = parts.drop_last();
    let p7 = p8.drop_last();
    let p6 = p7.drop_last();
    let p5 = p6.drop_last();
    let p4 = p5.drop_last();
    let p3 = p4.drop_last();
    let p2 = p3.drop_last();
    let p1 = p2.drop_last();
    assert(p1.drop_last() =~= Seq::empty());
    assert(joined(p1.drop_last()) =~= Seq::empty());
    assert(p1.last() == parts[0]);
    assert(joined(p1) =~= parts[0]);
    assert(joined(p2) == joined(p1) + parts[1]);
    assert(joined(p3) == joined(p2) + parts[2]);
    assert(joined(p4) == joined(p3) + parts[3]);
    assert(joined(p5) == joined(p4) + parts[4]);
    assert(joined(p6) == joined(p5) + parts[5]);
    assert(joined(p7) == joined(p6) + parts[6]);
    assert(joined(p8) == joined(p7) + parts[7]);
    assert(joined(parts) == joined(p8) + parts[8]);
    parts
}

/// The cache size in KiB is the number of bytes over 1024, rounded towards zero, with its sign
/// turned; the bytes are taken as the `i64` with the same bits.
pub proof fn law_cache_size(cache_size: usize)
    ensures
        cache_size <= i64::MAX ==> cache_kib(cache_size) <= 0 && -cache_kib(cache_size) * 1024
            <= cache_size < (1 - cache_kib(cache_size)) * 1024,
        cache_size > i64::MAX ==> cache_kib(cache_size) >= 0 && cache_kib(cache_size) * 1024
            <= 0x1_0000_0000_0000_0000 - cache_size < (1 + cache_kib(cache_size)) * 1024,
        i64::MIN <= cache_kib(cache_size) <= i64::MAX,
{
}

/// The text that turso gets for each statement.
pub proof fn law_text_outcome(statement: &Statement, r: String)
    requires
        call_ensures(Statement::text, (statement,), r),
    ensures
        match *statement {
            Statement::JournalModeWal => r@ == "PRAGMA journal_mode = WAL"@,
            Statement::SynchronousNormal => r@ == "PRAGMA synchronous = NORMAL"@,
            Statement::CacheSize(n) => r@ == "PRAGMA cache_size = "@ + crate::decimal::decimal(
                n as int,
            ),
            Statement::WalAutocheckpoint => r@ == "PRAGMA wal_autocheckpoint = 1000"@,
            Statement::CreateTables => r@ == Sql::CreateTables.text(),
            Statement::BeginDeferred => r@ == "BEGIN DEFERRED"@,
            Statement::Commit => r@ == "COMMIT"@,
            Statement::Rollback => r@ == "ROLLBACK"@,
            Statement::AnchorRead => r@ == "SELECT 1 FROM sqlite_schema LIMIT 1"@,
            Statement::Checkpoint => r@ == "PRAGMA wal_checkpoint(FULL)"@,
            Statement::Select(n) => r@ == "SELECT value FROM "@ + n@ + " WHERE key = ?"@,
            Statement::SelectAll(n) => r@ == "SELECT key, value FROM "@ + n@ + " ORDER BY key"@,
            Statement::Replace(n) => r@ == "INSERT OR REPLACE INTO "@ + n@
                + " (key, value) VALUES (?, ?)"@,
            Statement::Delete(n) => r@ == "DELETE FROM "@ + n@ + " WHERE key = ?"@,
        },
{
}

/// The cache size that turso is asked for is the negated number of whole KiB; of a number of bytes
/// that no `i64` holds, it is that of the `i64` with the same bits.
pub proof fn law_cache_size_kib_outcome(cache_size: usize, r: i64)
    requires
        call_ensures(cache_size_kib, (cache_size,), r),
    ensures
        cache_size <= i64::MAX ==> r <= 0 && -r * 1024 <= cache_size < (1 - r) * 1024,
        cache_size > i64::MAX ==> r >= 0 && r * 1024 <= 0x1_0000_0000_0000_0000 - cache_size < (1
            + r) * 1024,
{
}

} // verus!
