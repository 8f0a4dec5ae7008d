# smt_kvdb

Key-value storage for sparse Merkle trees, on two engines: redb and turso.

The library makes no call on an engine itself. Each operation of a storage is a script: the calls
to make, in order, with what the failure of each means. A driver performs them one by one and
hands the replies back; the script says what the operation returns.

- `src/schema.rs`, `src/config.rs`, `src/error.rs`: table names, settings, errors.
- `src/script.rs`: scripts, and how they go on after a reply.
- `src/redb_kvdb.rs`, `src/redb_table.rs`, `src/redb_bytes.rs`: the redb storage.
- `src/turso_kvdb.rs`, `src/turso_sql.rs`, `src/turso_row.rs`, `src/turso_table.rs`,
  `src/decimal.rs`: the turso storage, its SQL and its rows.
- `src/tables.rs`, `src/redb_laws.rs`, `src/turso_laws.rs`: what the storages promise, stated over
  mathematical tables and proved.
- `app/`: the drivers, which perform the scripts on the engines.
- `tests/`: the scripts at work on databases in memory.
