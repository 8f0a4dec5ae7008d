//! Key-value storage for sparse Merkle trees, on redb and on turso.

pub mod config;
pub mod decimal;
pub mod error;
pub mod redb_bytes;
pub mod redb_call_laws;
pub mod redb_kvdb;
pub mod redb_laws;
pub mod redb_outcome_laws;
pub mod redb_table;
pub mod schema;
pub mod script;
pub mod tables;
pub mod turso_call_laws;
pub mod turso_kvdb;
pub mod turso_laws;
pub mod turso_outcome_laws;
pub mod turso_row;
pub mod turso_sql;
pub mod turso_table;
