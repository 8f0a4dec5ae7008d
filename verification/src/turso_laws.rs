//! What the turso storage promises, proved of its scripts.
//!
//! [`turso_perform`] says what each call does to the tables, as the documentation of SQLite, whose
//! SQL turso runs, and the sources of turso have it. The laws then say what the operations of the
//! storage come to, where the machine does not fail and no two connections write at once.

use vstd::prelude::*;

use crate::config::RocksDbConfig;
use crate::error::StorageError;
use crate::script::{OnError, PanicReason, Signal, Step, Verdict};
use crate::tables::{Op, Table, Tables};
use crate::turso_kvdb::{TursoAnswer, TursoCall, TursoReply};
use crate::turso_row::{Cell, Entry, TursoFetched, TursoItem, TursoRowIter};
use crate::turso_sql::Sql;

verus! {

// MODEL
// ================================================================================================

/// A turso database, and one connection to it.
pub struct TursoState {
    /// What a new transaction sees.
    pub committed: Tables,
    /// Whether every commit is known to have been moved into the database file. Turso may have
    /// moved them by itself, so where this is false nothing is known.
    pub flushed: bool,
    /// Whether another connection has a transaction open, such as that of a snapshot.
    pub others: bool,
    /// Whether an iteration on this connection has handed out rows and is not known to be over.
    pub iterating: bool,
    /// The transaction of the connection.
    pub txn: Txn,
    /// The statement that was prepared last.
    pub prepared: Option<Sql>,
    /// The query that was started last.
    pub query: Query,
}

/// A query.
pub enum Query {
    /// None has been started.
    Idle,
    /// It has been started with these parameters; it is run when its first row is fetched.
    Started(Sql, Seq<Seq<u8>>),
    /// It runs, and these rows are not fetched yet.
    Running(Sql, Seq<Seq<Cell>>),
    /// The tables or the transaction have changed while it ran. What it still returns is left
    /// open.
    Unsettled,
}

impl Query {
    /// The query after a change of the tables or of the transaction.
    pub open spec fn unsettled(self) -> Query {
        match self {
            Query::Running(_, _) => Query::Unsettled,
            _ => self,
        }
    }
}

/// The transaction of a connection.
pub enum Txn {
    /// None: each statement is a transaction of its own.
    Auto,
    /// One that has not taken its view of the tables yet.
    Deferred,
    /// One that has read, and sees these tables.
    Reading(Tables),
    /// One that has written, and sees these tables.
    Writing(Tables),
}

impl TursoState {
    /// The tables that the connection sees.
    pub open spec fn visible(self) -> Tables {
        match self.txn {
            Txn::Auto => self.committed,
            Txn::Deferred => self.committed,
            Txn::Reading(tables) => tables,
            Txn::Writing(tables) => tables,
        }
    }

    /// Whether every table of the schema exists, for the connection and for every other.
    pub open spec fn ready(self) -> bool {
        crate::tables::complete(self.committed) && crate::tables::complete(self.visible())
    }

    /// Whether a batch is open on the connection: a transaction whose view of the tables, once it
    /// has one, no commit of another connection has overtaken.
    pub open spec fn in_batch(self) -> bool {
        match self.txn {
            Txn::Auto => false,
            Txn::Deferred => true,
            Txn::Reading(tables) => tables == self.committed,
            Txn::Writing(_) => true,
        }
    }

    /// The state after a read: a transaction now has its view of the tables.
    pub open spec fn anchored(self) -> TursoState {
        match self.txn {
            Txn::Deferred => TursoState { txn: Txn::Reading(self.committed), ..self },
            _ => self,
        }
    }

    /// The state after a write; `None` where the transaction's view has been overtaken.
    pub open spec fn written(self, op: Op) -> Option<TursoState> {
        let s = TursoState { query: self.query.unsettled(), ..self };
        match s.txn {
            Txn::Auto => Some(
                TursoState {
                    committed: crate::tables::apply(s.committed, op),
                    flushed: false,
                    ..s
                },
            ),
            Txn::Deferred => Some(
                TursoState { txn: Txn::Writing(crate::tables::apply(s.committed, op)), ..s },
            ),
            Txn::Reading(tables) => if tables == s.committed {
                Some(TursoState { txn: Txn::Writing(crate::tables::apply(tables, op)), ..s })
            } else {
                None
            },
            Txn::Writing(tables) => Some(
                TursoState { txn: Txn::Writing(crate::tables::apply(tables, op)), ..s },
            ),
        }
    }

    /// The state with the transaction ended; `None` where there is none.
    pub open spec fn ended(self, commit: bool) -> Option<TursoState> {
        let s = TursoState { query: self.query.unsettled(), ..self };
        match s.txn {
            Txn::Auto => None,
            Txn::Writing(tables) => if commit {
                Some(TursoState { committed: tables, flushed: false, txn: Txn::Auto, ..s })
            } else {
                Some(TursoState { txn: Txn::Auto, ..s })
            },
            _ => Some(TursoState { txn: Txn::Auto, ..s }),
        }
    }

    /// The state in which the query `sql` runs and has `rows` left.
    pub open spec fn running(self, sql: Sql, rows: Seq<Seq<Cell>>) -> TursoState {
        TursoState { query: Query::Running(sql, rows), ..self }
    }

    /// The state after a row of the running query `sql` is fetched, and the row.
    pub open spec fn fetched(self, sql: Sql, rows: Seq<Seq<Cell>>) -> (TursoState, TursoAnswer) {
        if rows.len() > 0 {
            (
                TursoState {
                    iterating: self.iterating || sql is SelectAll,
                    ..self.running(sql, rows.skip(1))
                },
                TursoAnswer::Row(Some(rows[0])),
            )
        } else {
            (self.running(sql, rows), TursoAnswer::Row(None))
        }
    }
}

/// The table that a statement names.
pub open spec fn named_table(sql: Sql) -> Option<Seq<char>> {
    match sql {
        Sql::Select(name) => Some(name),
        Sql::SelectAll(name) => Some(name),
        Sql::Replace(name) => Some(name),
        Sql::Delete(name) => Some(name),
        _ => None,
    }
}

/// The rows of a query for all entries of a table.
pub open spec fn entry_rows(table: Table) -> Seq<Seq<Cell>> {
    crate::tables::ordered_keys(table).map_values(
        |k: Seq<u8>| seq![Cell::Blob(k), Cell::Blob(table[k])],
    )
}

/// The rows of a query for the value under a key.
pub open spec fn value_rows(tables: Tables, name: Seq<char>, key: Seq<u8>) -> Seq<Seq<Cell>> {
    match crate::tables::lookup(tables, name, key) {
        Some(value) => seq![seq![Cell::Blob(value)]],
        None => Seq::empty(),
    }
}

/// The rows of a query for a value or for entries, of the tables that it sees.
pub open spec fn query_rows(tables: Tables, sql: Sql, params: Seq<Seq<u8>>) -> Option<
    Seq<Seq<Cell>>,
> {
    match sql {
        Sql::Select(name) => if params.len() == 1 {
            Some(value_rows(tables, name, params[0]))
        } else {
            None
        },
        Sql::SelectAll(name) => if params.len() == 0 {
            Some(entry_rows(crate::tables::table_or_empty(tables, name)))
        } else {
            None
        },
        _ => None,
    }
}

/// The state after the query `sql`, whose rows say nothing of the tables, is run to its end;
/// `None` where that fails.
///
/// A checkpoint moves every commit into the file unless another connection holds a view of the
/// tables. Then it moves what that view allows, and still succeeds. Within a transaction, and
/// while an iteration is in progress on the connection, it can fail.
pub open spec fn turso_drained(s: TursoState, sql: Sql) -> Option<TursoState> {
    match (sql, s.txn) {
        (Sql::JournalModeWal, Txn::Auto) => Some(s.running(sql, Seq::empty())),
        (Sql::AnchorRead, _) => Some(s.anchored().running(sql, Seq::empty())),
        (Sql::Checkpoint, Txn::Auto) => if s.iterating {
            None
        } else {
            Some(
                TursoState { flushed: s.flushed || !s.others, ..s.running(sql, Seq::empty()) },
            )
        },
        _ => None,
    }
}

/// What a call does to the state and what it returns; `None` where it fails or may fail. The rows
/// of the queries whose rows are only drained are left out, and draining makes an end of all rows.
pub open spec fn turso_perform(s: TursoState, call: TursoCall) -> Option<
    (TursoState, TursoAnswer),
> {
    match call {
        TursoCall::BuildRuntime => Some((s, TursoAnswer::Done)),
        TursoCall::Open { .. } => Some((s, TursoAnswer::Done)),
        TursoCall::Connect => Some(
            (
                TursoState {
                    txn: Txn::Auto,
                    prepared: None,
                    query: Query::Idle,
                    others: s.others || !(s.txn is Auto),
                    iterating: false,
                    ..s
                },
                TursoAnswer::Done,
            ),
        ),
        TursoCall::Prepare { sql } => match named_table(sql) {
            Some(name) => if s.visible().contains_key(name) {
                Some((TursoState { prepared: Some(sql), ..s }, TursoAnswer::Done))
            } else {
                None
            },
            None => None,
        },
        TursoCall::ExecutePrepared { params } => match s.prepared {
            Some(Sql::Replace(name)) => if params.len() == 2 {
                match s.written(Op::Put(name, params[0], params[1])) {
                    Some(t) => Some((t, TursoAnswer::Done)),
                    None => None,
                }
            } else {
                None
            },
            Some(Sql::Delete(name)) => if params.len() == 1 {
                match s.written(Op::Delete(name, params[0])) {
                    Some(t) => Some((t, TursoAnswer::Done)),
                    None => None,
                }
            } else {
                None
            },
            _ => None,
        },
        TursoCall::QueryPrepared { params } => match s.prepared {
            Some(sql) => Some(
                (TursoState { query: Query::Started(sql, params), ..s }, TursoAnswer::Done),
            ),
            None => None,
        },
        TursoCall::Execute { sql } => match sql {
            Sql::SynchronousNormal => Some((s, TursoAnswer::Done)),
            Sql::CacheSize(_) => Some((s, TursoAnswer::Done)),
            Sql::WalAutocheckpoint => Some((s, TursoAnswer::Done)),
            Sql::BeginDeferred => match s.txn {
                Txn::Auto => Some((TursoState { txn: Txn::Deferred, ..s }, TursoAnswer::Done)),
                _ => None,
            },
            Sql::Commit => match s.ended(true) {
                Some(t) => Some((t, TursoAnswer::Done)),
                None => None,
            },
            Sql::Rollback => match s.ended(false) {
                Some(t) => Some((t, TursoAnswer::Done)),
                None => None,
            },
            _ => None,
        },
        TursoCall::ExecuteBatch { sql } => match (sql, s.txn) {
            (Sql::CreateTables, Txn::Auto) => Some(
                (
                    TursoState {
                        committed: crate::tables::with_tables(
                            s.committed,
                            crate::schema::schema(),
                        ),
                        flushed: false,
                        query: s.query.unsettled(),
                        ..s
                    },
                    TursoAnswer::Done,
                ),
            ),
            _ => None,
        },
        TursoCall::Query { sql } => Some(
            (TursoState { query: Query::Started(sql, Seq::empty()), ..s }, TursoAnswer::Done),
        ),
        TursoCall::FetchRow => match s.query {
            Query::Started(sql, params) => match query_rows(s.visible(), sql, params) {
                Some(rows) => Some(s.anchored().fetched(sql, rows)),
                None => None,
            },
            Query::Running(sql, rows) => Some(s.fetched(sql, rows)),
            _ => None,
        },
        TursoCall::DrainRow => match s.query {
            Query::Started(sql, _) => match turso_drained(s, sql) {
                Some(t) => Some((t, TursoAnswer::Row(None))),
                None => None,
            },
            Query::Running(sql, _) => Some(
                (s.running(sql, Seq::empty()), TursoAnswer::Row(None)),
            ),
            _ => None,
        },
        TursoCall::CacheFlush => Some((s, TursoAnswer::Done)),
        TursoCall::CheckAutocommit => Some((s, TursoAnswer::Done)),
    }
}

/// How a run of calls on a database ended.
pub enum Ran {
    /// The operation returned this.
    Returned(TursoAnswer),
    /// The operation returned an error.
    Failed,
    /// The operation panicked.
    Panicked(PanicReason),
}

/// The state after the operation with the calls `steps`, and how it ended.
pub open spec fn turso_run(s: TursoState, steps: Seq<Step<TursoCall>>) -> (TursoState, Ran)
    decreases steps.len(),
{
    if steps.len() == 0 {
        (s, Ran::Returned(TursoAnswer::Done))
    } else {
        match turso_perform(s, steps[0].action) {
            Some((t, answer)) => if steps.len() == 1 || (steps[0].action is CheckAutocommit
                && s.txn is Auto) {
                (t, Ran::Returned(answer))
            } else {
                turso_run(t, steps.skip(1))
            },
            None => match steps[0].on_error {
                OnError::Return => (s, Ran::Failed),
                OnError::Panic(reason) => (s, Ran::Panicked(reason)),
                OnError::Skip(n) => if 1 + n < steps.len() {
                    turso_run(s, steps.skip(1 + n))
                } else {
                    (s, Ran::Returned(TursoAnswer::Done))
                },
            },
        }
    }
}

/// How an operation ended, by the replies that came.
pub enum TursoEnd {
    /// The operation returned this.
    Returned(TursoAnswer),
    /// The operation returned this error.
    Failed(StorageError),
    /// The operation panicked.
    Panicked(PanicReason, StorageError),
}

/// How the operation with the calls `steps` ends when `replies` come for them, the first one
/// first; `None` while it goes on.
pub open spec fn turso_end(steps: Seq<Step<TursoCall>>, replies: Seq<TursoReply>) -> Option<
    TursoEnd,
>
    decreases replies.len(),
{
    if replies.len() == 0 {
        None
    } else {
        let reply = replies[0];
        match crate::turso_kvdb::turso_after(steps, reply).1 {
            Verdict::Continue => turso_end(
                crate::turso_kvdb::turso_after(steps, reply).0,
                replies.skip(1),
            ),
            Verdict::Finished => Some(
                TursoEnd::Returned(
                    if reply.failure() is Some {
                        TursoAnswer::Done
                    } else {
                        reply.output()
                    },
                ),
            ),
            Verdict::Failed => Some(TursoEnd::Failed(reply.failure()->0)),
            Verdict::Panic(reason) => Some(TursoEnd::Panicked(reason, reply.failure()->0)),
        }
    }
}

/// Whether `reply` is that of a call which returned `answer`: where a row was fetched, that row.
pub open spec fn turso_replied(reply: TursoReply, answer: TursoAnswer) -> bool {
    match answer {
        TursoAnswer::Done => reply is Done,
        TursoAnswer::Row(None) => reply is End,
        TursoAnswer::Row(Some(columns)) => reply matches TursoReply::Row(row)
            && crate::turso_row::row_columns(row) == columns,
    }
}

/// Whether `replies` are the replies of a database in the state `s` to the operation with the
/// calls `steps`. Where a row is to be drained, any number of rows may come first.
pub open spec fn turso_replies(
    s: TursoState,
    steps: Seq<Step<TursoCall>>,
    replies: Seq<TursoReply>,
) -> bool
    decreases replies.len(),
{
    if replies.len() == 0 || steps.len() == 0 {
        replies.len() == 0 && steps.len() == 0
    } else if steps[0].action is DrainRow && replies[0] is Row {
        turso_replies(s, steps, replies.skip(1))
    } else {
        match turso_perform(s, steps[0].action) {
            Some((t, answer)) => {
                &&& if steps[0].action is CheckAutocommit {
                    replies[0] == TursoReply::Autocommit(s.txn is Auto)
                } else {
                    turso_replied(replies[0], answer)
                }
                &&& if steps.len() == 1 || (steps[0].action is CheckAutocommit && s.txn is Auto) {
                    replies.len() == 1
                } else {
                    turso_replies(t, steps.skip(1), replies.skip(1))
                }
            },
            None => {
                &&& replies[0] is Failed || replies[0] is RuntimeFailed
                &&& match steps[0].on_error {
                    OnError::Skip(n) => if 1 + n < steps.len() {
                        turso_replies(s, steps.skip(1 + n), replies.skip(1))
                    } else {
                        replies.len() == 1
                    },
                    _ => replies.len() == 1,
                }
            },
        }
    }
}

// RUNS
// ================================================================================================

/// An operation ends as its calls on the database come out: it returns what the last call
/// returned, or the error of the call that ended it.
pub proof fn law_turso_run_returns(
    s: TursoState,
    steps: Seq<Step<TursoCall>>,
    replies: Seq<TursoReply>,
)
    requires
        steps.len() > 0,
        turso_replies(s, steps, replies),
    ensures
        turso_end(steps, replies) == Some(
            match turso_run(s, steps).1 {
                Ran::Returned(answer) => TursoEnd::Returned(answer),
                Ran::Failed => TursoEnd::Failed(replies.last().failure()->0),
                Ran::Panicked(reason) => TursoEnd::Panicked(reason, replies.last().failure()->0),
            },
        ),
    decreases replies.len(),
{
    let rest = replies.skip(1);
    if steps[0].action is DrainRow && replies[0] is Row {
        assert(turso_replies(s, steps, rest));
        assert(rest.last() == replies.last());
        law_turso_run_returns(s, steps, rest);
    } else {
        match turso_perform(s, steps[0].action) {
            Some((t, _)) => {
                if steps.len() > 1 && !(steps[0].action is CheckAutocommit && s.txn is Auto) {
                    assert(turso_replies(t, steps.skip(1), rest));
                    assert(rest.last() == replies.last());
                    law_turso_run_returns(t, steps.skip(1), rest);
                }
            },
            None => match steps[0].on_error {
                OnError::Skip(n) => if 1 + n < steps.len() {
                    assert(turso_replies(s, steps.skip(1 + n), rest));
                    assert(rest.last() == replies.last());
                    law_turso_run_returns(s, steps.skip(1 + n), rest);
                },
                _ => {},
            },
        }
    }
}

/// The calls that are left of `steps` after `replies`.
pub open spec fn turso_left(steps: Seq<Step<TursoCall>>, replies: Seq<TursoReply>) -> Seq<
    Step<TursoCall>,
>
    decreases replies.len(),
{
    if replies.len() == 0 {
        steps
    } else {
        turso_left(crate::turso_kvdb::turso_after(steps, replies[0]).0, replies.skip(1))
    }
}

/// A call whose failure counts ends the operation when it fails: with its error, or, where the
/// operation has no error to return, in a panic. No further call is made.
pub proof fn law_turso_error_ends(
    steps: Seq<Step<TursoCall>>,
    replies: Seq<TursoReply>,
    reply: TursoReply,
    e: StorageError,
)
    requires
        turso_end(steps, replies) is None,
        turso_left(steps, replies).len() > 0,
        !(turso_left(steps, replies)[0].on_error is Skip),
        reply.failure() == Some(e),
    ensures
        turso_end(steps, replies.push(reply)) == Some(
            match turso_left(steps, replies)[0].on_error {
                OnError::Panic(reason) => TursoEnd::Panicked(reason, e),
                _ => TursoEnd::Failed(e),
            },
        ),
        turso_left(steps, replies.push(reply)).len() == 0,
    decreases replies.len(),
{
    let all = replies.push(reply);
    if replies.len() == 0 {
        assert(all.skip(1) =~= Seq::empty());
        assert(all[0] == reply);
        assert(turso_left(Seq::empty(), all.skip(1)).len() == 0);
    } else {
        assert(all[0] == replies[0]);
        assert(all.skip(1) =~= replies.skip(1).push(reply));
        law_turso_error_ends(
            crate::turso_kvdb::turso_after(steps, replies[0]).0,
            replies.skip(1),
            reply,
            e,
        );
    }
}

/// The run of a call that succeeds, before others.
proof fn lemma_run_first(s: TursoState, step: Step<TursoCall>, rest: Seq<Step<TursoCall>>)
    requires
        turso_perform(s, step.action) is Some,
        !(step.action is CheckAutocommit),
        rest.len() > 0,
    ensures
        turso_run(s, seq![step] + rest) == turso_run((turso_perform(s, step.action)->0).0, rest),
{
    assert((seq![step] + rest).skip(1) =~= rest);
}

/// The run of one call that succeeds.
proof fn lemma_run_one(s: TursoState, step: Step<TursoCall>)
    requires
        turso_perform(s, step.action) is Some,
    ensures
        turso_run(s, seq![step]) == (
            (turso_perform(s, step.action)->0).0,
            Ran::Returned((turso_perform(s, step.action)->0).1),
        ),
{
}

/// Whether `steps` are made one after the other, and the first error among them is returned.
pub open spec fn straight(steps: Seq<Step<TursoCall>>) -> bool {
    forall|i: int|
        0 <= i < steps.len() ==> (#[trigger] steps[i]).on_error is Return && !(
        steps[i].action is CheckAutocommit)
}

/// Two runs of calls in a row are one run of all of them.
proof fn lemma_run_concat(
    s: TursoState,
    first: Seq<Step<TursoCall>>,
    second: Seq<Step<TursoCall>>,
)
    requires
        second.len() > 0,
        straight(first),
        turso_run(s, first).1 is Returned,
    ensures
        turso_run(s, first + second) == turso_run(turso_run(s, first).0, second),
    decreases first.len(),
{
    if first.len() == 0 {
        assert(first + second =~= second);
    } else {
        assert(first[0].on_error is Return);
        let next = (turso_perform(s, first[0].action)->0).0;
        assert((first + second).skip(1) =~= first.skip(1) + second);
        if first.len() == 1 {
            assert(first.skip(1) + second =~= second);
        } else {
            assert forall|i: int| 0 <= i < first.skip(1).len() implies (#[trigger] first.skip(
                1,
            )[i]).on_error is Return && !(first.skip(1)[i].action is CheckAutocommit) by {
                assert(first[i + 1].on_error is Return);
            }
            lemma_run_concat(next, first.skip(1), second);
        }
    }
}

// OPENING
// ================================================================================================

/// Opening a database creates every table of the schema and keeps every entry.
pub proof fn law_turso_new(s: TursoState, config: RocksDbConfig, path_is_dir: bool)
    ensures
        ({
            let (t, end) = turso_run(s, crate::turso_kvdb::turso_new_steps(config, path_is_dir));
            &&& end is Returned
            &&& t.txn is Auto
            &&& t.committed == crate::tables::with_tables(s.committed, crate::schema::schema())
            &&& t.ready()
            &&& forall|name: Seq<char>, key: Seq<u8>| #[trigger]
                crate::tables::lookup(t.committed, name, key) == crate::tables::lookup(
                    s.committed,
                    name,
                    key,
                )
        }),
{
    let steps = crate::turso_kvdb::turso_new_steps(config, path_is_dir);
    let fresh = (turso_perform(s, TursoCall::Connect)->0).0;
    lemma_new_tail(fresh, config, path_is_dir, 3);
    assert(steps =~= seq![steps[0]] + (seq![steps[1]] + (seq![steps[2]] + steps.skip(3))));
    lemma_run_first(s, steps[0], seq![steps[1]] + (seq![steps[2]] + steps.skip(3)));
    lemma_run_first(s, steps[1], seq![steps[2]] + steps.skip(3));
    lemma_run_first(s, steps[2], steps.skip(3));
}

/// What is left of opening a database after the connection is made comes to the creation of the
/// tables.
proof fn lemma_new_tail(s: TursoState, config: RocksDbConfig, path_is_dir: bool, from: int)
    requires
        3 <= from <= 8,
        s.txn is Auto,
        from == 4 ==> s.query == Query::Started(Sql::JournalModeWal, Seq::empty()),
    ensures
        ({
            let (t, end) = turso_run(
                s,
                crate::turso_kvdb::turso_new_steps(config, path_is_dir).skip(from),
            );
            &&& end == Ran::Returned(TursoAnswer::Done)
            &&& t.txn is Auto
            &&& t.committed == crate::tables::with_tables(s.committed, crate::schema::schema())
        }),
    decreases 8 - from,
{
    let steps = crate::turso_kvdb::turso_new_steps(config, path_is_dir);
    let left = steps.skip(from);
    assert(left[0] == steps[from]);
    assert(left.skip(1) =~= steps.skip(from + 1));
    if from < 8 {
        let next = (turso_perform(s, left[0].action)->0).0;
        lemma_new_tail(next, config, path_is_dir, from + 1);
    }
}

/// A setting that turso does not know, or that fails, does not keep the database from being
/// opened: the failing call is passed over, together with the rows it would have had.
pub proof fn law_turso_settings_are_optional(config: RocksDbConfig, path_is_dir: bool, at: int)
    requires
        3 <= at < 8,
    ensures
        ({
            let steps = crate::turso_kvdb::turso_new_steps(config, path_is_dir);
            crate::script::after(steps.skip(at), Signal::Fail) == (
                steps.skip(
                    if at == 3 {
                        5
                    } else {
                        at + 1
                    },
                ),
                Verdict::Continue,
            )
        }),
{
    let steps = crate::turso_kvdb::turso_new_steps(config, path_is_dir);
    assert(steps.skip(at)[0] == steps[at]);
    assert(steps.skip(at).skip(1) =~= steps.skip(at + 1));
    assert(steps.skip(at).skip(2) =~= steps.skip(at + 2));
}

/// Once every table of the schema exists, none of them goes away, whatever calls are made and
/// however they end. A read of a database that was opened by the storage never meets a table that
/// does not exist.
pub proof fn law_turso_stays_ready(s: TursoState, steps: Seq<Step<TursoCall>>)
    requires
        s.ready(),
    ensures
        turso_run(s, steps).0.ready(),
    decreases steps.len(),
{
    if steps.len() > 0 {
        match turso_perform(s, steps[0].action) {
            Some((t, _)) => {
                assert(t.ready());
                law_turso_stays_ready(t, steps.skip(1));
            },
            None => match steps[0].on_error {
                OnError::Skip(n) => if 1 + n < steps.len() {
                    law_turso_stays_ready(s, steps.skip(1 + n));
                },
                _ => {},
            },
        }
    }
}

// READING
// ================================================================================================

/// The value that an answer stands for: none where there is no row, else that of the first
/// column of the row.
pub open spec fn answered_value(answer: TursoAnswer) -> Option<Seq<u8>> {
    match answer {
        TursoAnswer::Row(Some(columns)) => crate::turso_row::cell_value(columns[0]),
        _ => None,
    }
}

/// A read returns the value that the connection sees, and commits nothing: outside a batch the
/// committed value, while a batch is open on the connection that of the batch, and in a snapshot
/// that of the snapshot. A read of an entry never meets a value that is not made of bytes.
pub proof fn law_turso_get(s: TursoState, name: Seq<char>, key: Seq<u8>)
    requires
        s.visible().contains_key(name),
    ensures
        ({
            let (t, end) = turso_run(s, crate::turso_kvdb::turso_get_steps(name, key));
            &&& end matches Ran::Returned(answer)
            &&& answered_value(answer) == crate::tables::lookup(s.visible(), name, key)
            &&& (answer matches TursoAnswer::Row(Some(columns)) ==> columns.len() == 1
                && columns[0] is Blob)
            &&& t.committed == s.committed
            &&& t.flushed == s.flushed
            &&& t.txn == s.anchored().txn
        }),
{
    let steps = crate::turso_kvdb::turso_get_steps(name, key);
    let s1 = (turso_perform(s, steps[0].action)->0).0;
    let s2 = (turso_perform(s1, steps[1].action)->0).0;
    assert(steps =~= seq![steps[0]] + (seq![steps[1]] + seq![steps[2]]));
    lemma_run_first(s, steps[0], seq![steps[1]] + seq![steps[2]]);
    lemma_run_first(s1, steps[1], seq![steps[2]]);
    lemma_run_one(s2, steps[2]);
}

/// A snapshot sees the tables as they are committed when it starts, and commits nothing.
pub proof fn law_turso_snapshot(s: TursoState)
    ensures
        ({
            let (t, end) = turso_run(s, crate::turso_kvdb::turso_snapshot_steps());
            &&& end is Returned
            &&& t.txn == Txn::Reading(s.committed)
            &&& t.committed == s.committed
            &&& t.flushed == s.flushed
        }),
{
    let steps = crate::turso_kvdb::turso_snapshot_steps();
    let s1 = (turso_perform(s, steps[0].action)->0).0;
    let s2 = (turso_perform(s1, steps[1].action)->0).0;
    let s3 = (turso_perform(s2, steps[2].action)->0).0;
    assert(steps =~= seq![steps[0]] + (seq![steps[1]] + (seq![steps[2]] + seq![steps[3]])));
    lemma_run_first(s, steps[0], seq![steps[1]] + (seq![steps[2]] + seq![steps[3]]));
    lemma_run_first(s1, steps[1], seq![steps[2]] + seq![steps[3]]);
    lemma_run_first(s2, steps[2], seq![steps[3]]);
    lemma_run_one(s3, steps[3]);
}

/// A read in a snapshot returns the value that was committed when the snapshot started, whatever
/// has been committed since, and leaves the snapshot as it was.
pub proof fn law_turso_snapshot_get(s: TursoState, taken: Tables, name: Seq<char>, key: Seq<u8>)
    requires
        s.txn == Txn::Reading(taken),
        crate::tables::complete(taken),
        crate::schema::schema().contains(name),
    ensures
        ({
            let (t, end) = turso_run(s, crate::turso_kvdb::turso_get_steps(name, key));
            &&& end matches Ran::Returned(answer)
            &&& answered_value(answer) == crate::tables::lookup(taken, name, key)
            &&& t.txn == s.txn
            &&& t.committed == s.committed
            &&& t.flushed == s.flushed
        }),
{
    law_turso_get(s, name, key);
}

/// An iteration over a table that exists can be started. That alone changes nothing: the query is
/// run when its first row is fetched.
pub proof fn law_turso_iter(s: TursoState, name: Seq<char>)
    requires
        s.visible().contains_key(name),
    ensures
        turso_run(s, crate::turso_kvdb::turso_iter_steps(name)) == (
            TursoState {
                prepared: Some(Sql::SelectAll(name)),
                query: Query::Started(Sql::SelectAll(name), Seq::empty()),
                ..s
            },
            Ran::Returned(TursoAnswer::Done),
        ),
{
    let steps = crate::turso_kvdb::turso_iter_steps(name);
    let s1 = (turso_perform(s, steps[0].action)->0).0;
    assert(steps =~= seq![steps[0]] + seq![steps[1]]);
    lemma_run_first(s, steps[0], seq![steps[1]]);
    lemma_run_one(s1, steps[1]);
}

/// The calls that fetch `n` rows.
pub open spec fn fetch_steps(n: nat) -> Seq<Step<TursoCall>> {
    Seq::new(n, |i: int| crate::turso_kvdb::must(TursoCall::FetchRow))
}

/// The last of the fetches from a running query returns its row, or none after the last row.
proof fn lemma_fetch_running(s: TursoState, sql: Sql, rows: Seq<Seq<Cell>>, n: nat)
    requires
        s.query == Query::Running(sql, rows),
        n > 0,
    ensures
        ({
            let (t, end) = turso_run(s, fetch_steps(n));
            &&& end == Ran::Returned(
                TursoAnswer::Row(
                    if n <= rows.len() {
                        Some(rows[n - 1])
                    } else {
                        None
                    },
                ),
            )
            &&& t.committed == s.committed
            &&& t.flushed == s.flushed
            &&& t.txn == s.txn
        }),
    decreases n,
{
    let (next, _) = s.fetched(sql, rows);
    assert(turso_perform(s, fetch_steps(n)[0].action) == Some(s.fetched(sql, rows)));
    if n > 1 {
        assert(fetch_steps(n).skip(1) =~= fetch_steps((n - 1) as nat));
        if rows.len() > 0 {
            lemma_fetch_running(next, sql, rows.skip(1), (n - 1) as nat);
        } else {
            lemma_fetch_running(next, sql, rows, (n - 1) as nat);
        }
    }
}

/// The rows of an iteration that is read without a change in between are one for each entry that
/// the connection sees when the first row is fetched, in the order of the keys, and then none.
/// With that fetch a transaction takes its view of the tables; nothing is committed.
pub proof fn law_turso_iter_fetches(s: TursoState, name: Seq<char>, n: nat)
    requires
        s.visible().contains_key(name),
        s.query == Query::Started(Sql::SelectAll(name), Seq::empty()),
        n > 0,
    ensures
        ({
            let (t, end) = turso_run(s, fetch_steps(n));
            let rows = entry_rows(s.visible()[name]);
            &&& end == Ran::Returned(
                TursoAnswer::Row(
                    if n <= rows.len() {
                        Some(rows[n - 1])
                    } else {
                        None
                    },
                ),
            )
            &&& t.committed == s.committed
            &&& t.flushed == s.flushed
            &&& t.txn == s.anchored().txn
        }),
{
    let rows = entry_rows(s.visible()[name]);
    let running = s.anchored().running(Sql::SelectAll(name), rows);
    lemma_fetch_running(running, Sql::SelectAll(name), rows, n);
    assert(query_rows(s.visible(), Sql::SelectAll(name), Seq::empty()) == Some(rows));
    assert(turso_perform(s, fetch_steps(n)[0].action) == turso_perform(
        running,
        fetch_steps(n)[0].action,
    ));
}

// WRITING
// ================================================================================================

/// The calls of an operation of a batch.
pub open spec fn turso_op_steps(op: Op) -> Seq<Step<TursoCall>> {
    match op {
        Op::Put(name, key, value) => crate::turso_kvdb::turso_put_steps(name, key, value),
        Op::Delete(name, key) => crate::turso_kvdb::turso_delete_steps(name, key),
    }
}

/// The calls of the operations of a batch.
pub open spec fn turso_ops_steps(ops: Seq<Op>) -> Seq<Step<TursoCall>>
    decreases ops.len(),
{
    if ops.len() == 0 {
        Seq::empty()
    } else {
        turso_op_steps(ops[0]) + turso_ops_steps(ops.skip(1))
    }
}

/// An operation is one write.
proof fn lemma_run_op(s: TursoState, op: Op)
    requires
        s.visible().contains_key(op.table()),
        s.written(op) is Some,
    ensures
        ({
            let (t, end) = turso_run(s, turso_op_steps(op));
            &&& end is Returned
            &&& t.committed == (s.written(op)->0).committed
            &&& t.flushed == (s.written(op)->0).flushed
            &&& t.txn == (s.written(op)->0).txn
        }),
{
    let steps = turso_op_steps(op);
    let s1 = (turso_perform(s, steps[0].action)->0).0;
    assert(steps =~= seq![steps[0]] + seq![steps[1]]);
    lemma_run_first(s, steps[0], seq![steps[1]]);
    lemma_run_one(s1, steps[1]);
}

/// Removing a key outside a batch commits the removal.
pub proof fn law_turso_delete(s: TursoState, name: Seq<char>, key: Seq<u8>)
    requires
        s.txn is Auto,
        crate::tables::complete(s.committed),
        crate::schema::schema().contains(name),
    ensures
        ({
            let (t, end) = turso_run(s, crate::turso_kvdb::turso_delete_steps(name, key));
            &&& end is Returned
            &&& t.txn is Auto
            &&& t.committed == crate::tables::apply(s.committed, Op::Delete(name, key))
        }),
{
    lemma_run_op(s, Op::Delete(name, key));
}

/// A delete of the storage itself while a batch is open on the connection joins the batch: the
/// connection sees the removal, which is committed with the batch and not before.
pub proof fn law_turso_delete_joins_batch(s: TursoState, name: Seq<char>, key: Seq<u8>)
    requires
        s.in_batch(),
        crate::tables::complete(s.visible()),
        crate::schema::schema().contains(name),
    ensures
        ({
            let (t, end) = turso_run(s, crate::turso_kvdb::turso_delete_steps(name, key));
            &&& end is Returned
            &&& t.txn == Txn::Writing(
                crate::tables::apply(s.visible(), Op::Delete(name, key)),
            )
            &&& t.committed == s.committed
            &&& t.flushed == s.flushed
        }),
{
    lemma_run_op(s, Op::Delete(name, key));
}

/// Something that is done on a connection while a batch is open there.
pub enum Use {
    /// A put or delete of the batch, or a delete of the storage itself.
    Change(Op),
    /// A read of a key in the table of that name.
    Get(Seq<char>, Seq<u8>),
    /// The start of an iteration over the table of that name.
    Iter(Seq<char>),
}

impl Use {
    /// The name of the table that is used.
    pub open spec fn table(self) -> Seq<char> {
        match self {
            Use::Change(op) => op.table(),
            Use::Get(name, _) => name,
            Use::Iter(name) => name,
        }
    }

    /// The calls that are made.
    pub open spec fn steps(self) -> Seq<Step<TursoCall>> {
        match self {
            Use::Change(op) => turso_op_steps(op),
            Use::Get(name, key) => crate::turso_kvdb::turso_get_steps(name, key),
            Use::Iter(name) => crate::turso_kvdb::turso_iter_steps(name),
        }
    }
}

/// The calls of `uses`, the first one first.
pub open spec fn turso_uses_steps(uses: Seq<Use>) -> Seq<Step<TursoCall>>
    decreases uses.len(),
{
    if uses.len() == 0 {
        Seq::empty()
    } else {
        uses[0].steps() + turso_uses_steps(uses.skip(1))
    }
}

/// The changes among `uses`, in order.
pub open spec fn changes(uses: Seq<Use>) -> Seq<Op>
    decreases uses.len(),
{
    if uses.len() == 0 {
        Seq::empty()
    } else {
        match uses[0] {
            Use::Change(op) => seq![op] + changes(uses.skip(1)),
            _ => changes(uses.skip(1)),
        }
    }
}

/// Whether a key is read among `uses`.
pub open spec fn reads(uses: Seq<Use>) -> bool {
    exists|i: int| 0 <= i < uses.len() && (#[trigger] uses[i]) is Get
}

/// Whether `uses` are made of tables of the schema only.
pub open spec fn in_schema(uses: Seq<Use>) -> bool {
    forall|i: int|
        0 <= i < uses.len() ==> crate::schema::schema().contains((#[trigger] uses[i]).table())
}

/// The transaction that is open in the state `s` after `uses`: one that has written after a
/// change; else one that has its view of the tables after a read of a key; else as it was.
pub open spec fn used_txn(s: TursoState, uses: Seq<Use>) -> Txn {
    if changes(uses).len() > 0 {
        Txn::Writing(crate::tables::apply_all(s.visible(), changes(uses)))
    } else if reads(uses) {
        s.anchored().txn
    } else {
        s.txn
    }
}

/// The calls of `uses` are made one after the other.
proof fn lemma_uses_straight(uses: Seq<Use>)
    ensures
        straight(turso_uses_steps(uses)),
        uses.len() > 0 ==> turso_uses_steps(uses).len() > 0,
    decreases uses.len(),
{
    if uses.len() > 0 {
        lemma_uses_straight(uses.skip(1));
        let first = uses[0].steps();
        let rest = turso_uses_steps(uses.skip(1));
        assert forall|i: int| 0 <= i < (first + rest).len() implies (#[trigger] (first
            + rest)[i]).on_error is Return && !((first + rest)[i].action is CheckAutocommit) by {
            if i >= first.len() {
                assert(rest[i - first.len()].on_error is Return);
            }
        }
    }
}

/// One use.
proof fn lemma_run_use(s: TursoState, one: Use)
    requires
        s.in_batch(),
        s.visible().contains_key(one.table()),
    ensures
        ({
            let (t, end) = turso_run(s, one.steps());
            &&& end is Returned
            &&& t.committed == s.committed
            &&& t.flushed == s.flushed
            &&& t.txn == (match one {
                Use::Change(op) => Txn::Writing(crate::tables::apply(s.visible(), op)),
                Use::Get(_, _) => s.anchored().txn,
                Use::Iter(_) => s.txn,
            })
        }),
{
    match one {
        Use::Change(op) => lemma_run_op(s, op),
        Use::Get(name, key) => law_turso_get(s, name, key),
        Use::Iter(name) => law_turso_iter(s, name),
    }
}

/// While a batch is open, its operations and the reads and deletes that come between them, in
/// whatever order, return; the connection sees the changes, made in order, and nothing is
/// committed. The batch stays open.
pub proof fn law_turso_batch_uses(s: TursoState, uses: Seq<Use>)
    requires
        s.in_batch(),
        crate::tables::complete(s.visible()),
        in_schema(uses),
    ensures
        ({
            let (t, end) = turso_run(s, turso_uses_steps(uses));
            &&& end is Returned
            &&& t.in_batch()
            &&& t.txn == used_txn(s, uses)
            &&& t.visible() == crate::tables::apply_all(s.visible(), changes(uses))
            &&& t.committed == s.committed
            &&& t.flushed == s.flushed
        }),
    decreases uses.len(),
{
    if uses.len() == 0 {
        assert(changes(uses) =~= Seq::empty());
    } else {
        assert(crate::schema::schema().contains(uses[0].table()));
        lemma_run_use(s, uses[0]);
        let t = turso_run(s, uses[0].steps()).0;
        let rest = uses.skip(1);
        match uses[0] {
            Use::Change(op) => {
                assert(changes(uses).skip(1) =~= changes(rest));
                assert(changes(uses)[0] == op);
                assert(t.visible() == crate::tables::apply(s.visible(), op));
            },
            _ => {
                assert(changes(uses) == changes(rest));
                assert(t.visible() == s.visible());
            },
        }
        assert(crate::tables::apply_all(s.visible(), changes(uses)) == crate::tables::apply_all(
            t.visible(),
            changes(rest),
        ));
        assert(in_schema(rest)) by {
            assert forall|i: int| 0 <= i < rest.len() implies crate::schema::schema().contains(
                (#[trigger] rest[i]).table(),
            ) by {
                assert(crate::schema::schema().contains(uses[i + 1].table()));
            }
        }
        assert(reads(uses) == (uses[0] is Get || reads(rest))) by {
            if reads(uses) {
                let i = choose|i: int| 0 <= i < uses.len() && (#[trigger] uses[i]) is Get;
                if i > 0 {
                    assert(rest[i - 1] is Get);
                }
            }
            if reads(rest) {
                let i = choose|i: int| 0 <= i < rest.len() && (#[trigger] rest[i]) is Get;
                assert(uses[i + 1] is Get);
            }
        }
        law_turso_batch_uses(t, rest);
        lemma_uses_straight(seq![uses[0]]);
        assert(straight(uses[0].steps())) by {
            assert(turso_uses_steps(seq![uses[0]].skip(1)) =~= Seq::empty());
            assert(turso_uses_steps(seq![uses[0]]) =~= uses[0].steps());
        }
        if rest.len() == 0 {
            assert(turso_uses_steps(rest) =~= Seq::empty());
            assert(turso_uses_steps(uses) =~= uses[0].steps());
            assert(changes(rest) =~= Seq::empty());
        } else {
            lemma_uses_straight(rest);
            lemma_run_concat(s, uses[0].steps(), turso_uses_steps(rest));
        }
    }
}

/// The operations `ops` as what is done on a connection.
proof fn lemma_ops_are_uses(ops: Seq<Op>)
    ensures
        turso_uses_steps(ops.map_values(|op: Op| Use::Change(op))) == turso_ops_steps(ops),
        changes(ops.map_values(|op: Op| Use::Change(op))) == ops,
    decreases ops.len(),
{
    let uses = ops.map_values(|op: Op| Use::Change(op));
    if ops.len() == 0 {
        assert(changes(uses) =~= ops);
    } else {
        lemma_ops_are_uses(ops.skip(1));
        assert(uses.skip(1) =~= ops.skip(1).map_values(|op: Op| Use::Change(op)));
        assert(seq![ops[0]] + ops.skip(1) =~= ops);
    }
}

/// The operations of a batch change what its connection sees, in order, and commit nothing, from
/// whatever the batch has read and written so far.
pub proof fn law_turso_batch_operations(s: TursoState, ops: Seq<Op>)
    requires
        s.in_batch(),
        crate::tables::complete(s.visible()),
        forall|i: int|
            0 <= i < ops.len() ==> crate::schema::schema().contains((#[trigger] ops[i]).table()),
    ensures
        ({
            let (t, end) = turso_run(s, turso_ops_steps(ops));
            &&& end is Returned
            &&& t.in_batch()
            &&& t.txn == (if ops.len() == 0 {
                s.txn
            } else {
                Txn::Writing(crate::tables::apply_all(s.visible(), ops))
            })
            &&& t.visible() == crate::tables::apply_all(s.visible(), ops)
            &&& t.committed == s.committed
            &&& t.flushed == s.flushed
        }),
{
    let uses = ops.map_values(|op: Op| Use::Change(op));
    assert(in_schema(uses)) by {
        assert forall|i: int| 0 <= i < uses.len() implies crate::schema::schema().contains(
            (#[trigger] uses[i]).table(),
        ) by {
            assert(crate::schema::schema().contains(ops[i].table()));
        }
    }
    lemma_ops_are_uses(ops);
    law_turso_batch_uses(s, uses);
}

/// Committing an open batch commits what its connection sees, whatever it has read and written.
pub proof fn law_turso_commit(s: TursoState)
    requires
        s.in_batch(),
    ensures
        ({
            let (t, end) = turso_run(s, crate::turso_kvdb::turso_commit_steps(false));
            &&& end is Returned
            &&& t.txn is Auto
            &&& t.committed == s.visible()
        }),
{
    let commit = crate::turso_kvdb::turso_commit_steps(false);
    assert(commit =~= seq![commit[0]]);
    lemma_run_one(s, commit[0]);
}

/// Committing a batch that met an error takes it back: no transaction is left open and nothing is
/// committed, whatever state its connection is in.
pub proof fn law_turso_failed_commit(s: TursoState)
    ensures
        ({
            let (t, end) = turso_run(s, crate::turso_kvdb::turso_commit_steps(true));
            &&& end is Returned
            &&& t.txn is Auto
            &&& t.committed == s.committed
            &&& t.flushed == s.flushed
        }),
{
    let back = crate::turso_kvdb::turso_commit_steps(true);
    assert(back =~= seq![back[0]]);
    if !(s.txn is Auto) {
        lemma_run_one(s, back[0]);
    }
}

/// The calls of a batch from its start through `uses`.
pub open spec fn turso_open_batch(uses: Seq<Use>) -> Seq<Step<TursoCall>> {
    crate::turso_kvdb::turso_batch_steps() + turso_uses_steps(uses)
}

/// While a batch is open, the connection sees its changes, made in order, and nothing is
/// committed: other connections do not see them.
pub proof fn law_turso_batch_in_progress(s: TursoState, uses: Seq<Use>)
    requires
        s.txn is Auto,
        crate::tables::complete(s.committed),
        in_schema(uses),
    ensures
        ({
            let (t, end) = turso_run(s, turso_open_batch(uses));
            &&& end is Returned
            &&& t.in_batch()
            &&& t.txn == used_txn(TursoState { txn: Txn::Deferred, ..s }, uses)
            &&& t.visible() == crate::tables::apply_all(s.committed, changes(uses))
            &&& t.committed == s.committed
            &&& t.flushed == s.flushed
        }),
{
    let begin = crate::turso_kvdb::turso_batch_steps();
    let begun = (turso_perform(s, begin[0].action)->0).0;
    law_turso_batch_uses(begun, uses);
    assert(begin =~= seq![begin[0]]);
    if uses.len() == 0 {
        assert(turso_open_batch(uses) =~= seq![begin[0]]);
        lemma_run_one(s, begin[0]);
    } else {
        lemma_uses_straight(uses);
        lemma_run_first(s, begin[0], turso_uses_steps(uses));
    }
}

/// A batch ended by `last` after `uses`.
proof fn lemma_end_batch(s: TursoState, uses: Seq<Use>, last: Seq<Step<TursoCall>>)
    requires
        s.txn is Auto,
        crate::tables::complete(s.committed),
        in_schema(uses),
        last.len() > 0,
    ensures
        turso_run(s, turso_open_batch(uses) + last) == turso_run(
            turso_run(s, turso_open_batch(uses)).0,
            last,
        ),
{
    let begin = crate::turso_kvdb::turso_batch_steps();
    let begun = (turso_perform(s, begin[0].action)->0).0;
    law_turso_batch_uses(begun, uses);
    lemma_uses_straight(uses);
    lemma_run_concat(begun, turso_uses_steps(uses), last);
    assert(turso_open_batch(uses) + last =~= seq![begin[0]] + (turso_uses_steps(uses) + last));
    lemma_run_first(s, begin[0], turso_uses_steps(uses) + last);
    assert(begin =~= seq![begin[0]]);
    if uses.len() == 0 {
        assert(turso_open_batch(uses) =~= seq![begin[0]]);
        lemma_run_one(s, begin[0]);
    } else {
        lemma_run_first(s, begin[0], turso_uses_steps(uses));
    }
}

/// A committed batch makes all of its changes, in order, whatever reads came between them.
pub proof fn law_turso_batch_commits(s: TursoState, uses: Seq<Use>)
    requires
        s.txn is Auto,
        crate::tables::complete(s.committed),
        in_schema(uses),
    ensures
        ({
            let (t, end) = turso_run(
                s,
                turso_open_batch(uses) + crate::turso_kvdb::turso_commit_steps(false),
            );
            &&& end is Returned
            &&& t.txn is Auto
            &&& t.committed == crate::tables::apply_all(s.committed, changes(uses))
        }),
{
    law_turso_batch_in_progress(s, uses);
    lemma_end_batch(s, uses, crate::turso_kvdb::turso_commit_steps(false));
    law_turso_commit(turso_run(s, turso_open_batch(uses)).0);
}

/// A batch that met an error is taken back when it is to be committed: the tables are as they
/// were before it.
pub proof fn law_turso_failed_batch_changes_nothing(s: TursoState, uses: Seq<Use>)
    requires
        s.txn is Auto,
        crate::tables::complete(s.committed),
        in_schema(uses),
    ensures
        ({
            let (t, end) = turso_run(
                s,
                turso_open_batch(uses) + crate::turso_kvdb::turso_commit_steps(true),
            );
            &&& end is Returned
            &&& t.txn is Auto
            &&& t.committed == s.committed
            &&& t.flushed == s.flushed
        }),
{
    law_turso_batch_in_progress(s, uses);
    lemma_end_batch(s, uses, crate::turso_kvdb::turso_commit_steps(true));
    law_turso_failed_commit(turso_run(s, turso_open_batch(uses)).0);
}

/// Closing a batch or a snapshot leaves no transaction open and commits nothing, whatever state
/// its connection is in.
pub proof fn law_turso_close(s: TursoState)
    ensures
        ({
            let (t, end) = turso_run(s, crate::turso_kvdb::turso_close_steps());
            &&& end is Returned
            &&& t.txn is Auto
            &&& t.committed == s.committed
            &&& t.flushed == s.flushed
        }),
{
    let steps = crate::turso_kvdb::turso_close_steps();
    assert(steps.skip(1) =~= seq![steps[1]]);
    if !(s.txn is Auto) {
        lemma_run_one(s, steps[1]);
    }
}

/// A batch that goes out of scope without a commit changes nothing.
pub proof fn law_turso_dropped_batch_changes_nothing(s: TursoState, uses: Seq<Use>)
    requires
        s.txn is Auto,
        crate::tables::complete(s.committed),
        in_schema(uses),
    ensures
        ({
            let (t, end) = turso_run(
                s,
                turso_open_batch(uses) + crate::turso_kvdb::turso_close_steps(),
            );
            &&& end is Returned
            &&& t.txn is Auto
            &&& t.committed == s.committed
            &&& t.flushed == s.flushed
        }),
{
    law_turso_batch_in_progress(s, uses);
    lemma_end_batch(s, uses, crate::turso_kvdb::turso_close_steps());
    law_turso_close(turso_run(s, turso_open_batch(uses)).0);
}

/// A read after a committed batch returns what the last change to the key in the batch put there:
/// the value of a put, nothing after a delete; a key that the batch does not change keeps its
/// value. A read while the batch is still open returns the same.
pub proof fn law_turso_read_your_writes(
    s: TursoState,
    uses: Seq<Use>,
    name: Seq<char>,
    key: Seq<u8>,
)
    requires
        s.txn is Auto,
        crate::tables::complete(s.committed),
        crate::schema::schema().contains(name),
        in_schema(uses),
    ensures
        ({
            let wanted = match crate::tables::last_change(changes(uses), name, key) {
                Some(op) => op.value(),
                None => crate::tables::lookup(s.committed, name, key),
            };
            let get = crate::turso_kvdb::turso_get_steps(name, key);
            let during = turso_run(s, turso_open_batch(uses)).0;
            let done = turso_run(
                s,
                turso_open_batch(uses) + crate::turso_kvdb::turso_commit_steps(false),
            ).0;
            &&& turso_run(during, get).1 matches Ran::Returned(answer) && answered_value(answer)
                == wanted
            &&& turso_run(done, get).1 matches Ran::Returned(answer) && answered_value(answer)
                == wanted
        }),
{
    let ops = changes(uses);
    law_turso_batch_in_progress(s, uses);
    law_turso_batch_commits(s, uses);
    crate::tables::law_changes_keep_tables(s.committed, ops);
    crate::tables::law_last_change_wins(s.committed, ops, name, key);
    law_turso_get(turso_run(s, turso_open_batch(uses)).0, name, key);
    law_turso_get(
        turso_run(
            s,
            turso_open_batch(uses) + crate::turso_kvdb::turso_commit_steps(false),
        ).0,
        name,
        key,
    );
}

/// Syncing outside a batch, and with no iteration in progress on the connection, succeeds and
/// commits nothing new. Where no other connection has a transaction open, it moves every commit
/// made so far into the database file; a snapshot that is open can keep some from being moved.
pub proof fn law_turso_sync(s: TursoState)
    requires
        s.txn is Auto,
        !s.iterating,
    ensures
        ({
            let (t, end) = turso_run(s, crate::turso_kvdb::turso_sync_steps());
            &&& end is Returned
            &&& t.committed == s.committed
            &&& t.txn is Auto
            &&& !s.others ==> t.flushed
            &&& s.flushed ==> t.flushed
        }),
{
    let steps = crate::turso_kvdb::turso_sync_steps();
    let s1 = (turso_perform(s, steps[0].action)->0).0;
    let s2 = (turso_perform(s1, steps[1].action)->0).0;
    assert(steps =~= seq![steps[0]] + (seq![steps[1]] + seq![steps[2]]));
    lemma_run_first(s, steps[0], seq![steps[1]] + seq![steps[2]]);
    lemma_run_first(s1, steps[1], seq![steps[2]]);
    lemma_run_one(s2, steps[2]);
}

// ITERATION
// ================================================================================================

/// The items of an iteration to which turso returned `fetched`, the first one first.
pub open spec fn turso_items(it: TursoRowIter, fetched: Seq<TursoFetched>) -> Seq<TursoItem>
    decreases fetched.len(),
{
    if fetched.len() == 0 {
        Seq::empty()
    } else {
        seq![it.item(fetched[0])] + turso_items(it.after(fetched[0]), fetched.skip(1))
    }
}

/// Whether `fetched` starts with rows that have the columns `rows`.
pub open spec fn fetches_rows(fetched: Seq<TursoFetched>, rows: Seq<Seq<Cell>>) -> bool {
    &&& rows.len() <= fetched.len()
    &&& forall|i: int|
        0 <= i < rows.len() ==> ((#[trigger] fetched[i]) matches Ok(Some(row))
            && crate::turso_row::row_columns(row) == rows[i])
}

/// An iteration that is over stays over.
pub proof fn law_turso_ended_iter_stays_ended(fetched: Seq<TursoFetched>, i: int)
    requires
        0 <= i < fetched.len(),
    ensures
        turso_items(TursoRowIter::Ended, fetched).len() == fetched.len(),
        turso_items(TursoRowIter::Ended, fetched)[i] is End,
    decreases fetched.len(),
{
    if fetched.len() > 1 {
        law_turso_ended_iter_stays_ended(
            fetched.skip(1),
            if i > 0 {
                i - 1
            } else {
                0
            },
        );
    } else {
        assert(fetched.skip(1) =~= Seq::empty());
        assert(turso_items(TursoRowIter::Ended, fetched.skip(1)) =~= Seq::empty());
    }
}

/// An iteration whose query could not be started has that error as its only item.
pub proof fn law_turso_failed_iter(e: StorageError, fetched: Seq<TursoFetched>, i: int)
    requires
        0 <= i < fetched.len(),
    ensures
        turso_items(TursoRowIter::Failed(e), fetched)[i] == (if i == 0 {
            TursoItem::Error(e)
        } else {
            TursoItem::End
        }),
{
    if i > 0 {
        law_turso_ended_iter_stays_ended(fetched.skip(1), i - 1);
    }
}

/// An iteration hands out what each row of the query holds, in the order of the rows. After the
/// last row, and after an error of the query, which is an item too, it is over, whatever turso
/// would still return.
pub proof fn law_turso_iter_hands_out_rows(
    fetched: Seq<TursoFetched>,
    rows: Seq<Seq<Cell>>,
    i: int,
)
    requires
        fetches_rows(fetched, rows),
        rows.len() < fetched.len() ==> !(fetched[rows.len() as int] matches Ok(Some(_))),
        0 <= i < fetched.len(),
    ensures
        turso_items(TursoRowIter::Reading, fetched).len() == fetched.len(),
        turso_items(TursoRowIter::Reading, fetched)[i] == (if i < rows.len() {
            TursoItem::Row(crate::turso_row::entry(rows[i]))
        } else if i == rows.len() {
            TursoRowIter::Reading.item(fetched[i])
        } else {
            TursoItem::End
        }),
    decreases fetched.len(),
{
    let rest = fetched.skip(1);
    let next = if i > 0 {
        i - 1
    } else {
        0
    };
    if rows.len() == 0 {
        if rest.len() > 0 {
            law_turso_ended_iter_stays_ended(rest, next);
        } else {
            assert(turso_items(TursoRowIter::Ended, rest) =~= Seq::empty());
        }
    } else {
        assert(fetched[0] matches Ok(Some(row)) && crate::turso_row::row_columns(row) == rows[0]);
        if rest.len() > 0 {
            assert forall|j: int| 0 <= j < rows.skip(1).len() implies ((#[trigger] rest[j]) matches Ok(
                Some(row),
            ) && crate::turso_row::row_columns(row) == rows.skip(1)[j]) by {
                assert(fetched[j + 1] matches Ok(Some(_)));
            }
            law_turso_iter_hands_out_rows(rest, rows.skip(1), next);
        } else {
            assert(turso_items(TursoRowIter::Reading, rest) =~= Seq::empty());
        }
    }
}

/// An iteration over the rows of a table hands out each entry of the table once, in the order of
/// the keys, and then ends.
pub proof fn law_turso_iter_lists_table(table: Table, fetched: Seq<TursoFetched>)
    requires
        fetches_rows(fetched, entry_rows(table)),
        fetched.len() == entry_rows(table).len() + 1,
        fetched.last() matches Ok(None),
    ensures
        ({
            let keys = crate::tables::ordered_keys(table);
            let items = turso_items(TursoRowIter::Reading, fetched);
            &&& items.len() == keys.len() + 1
            &&& items.last() is End
            &&& forall|i: int|
                0 <= i < keys.len() ==> #[trigger] items[i] == TursoItem::Row(
                    Entry::Pair(keys[i], table[keys[i]]),
                )
        }),
{
    let keys = crate::tables::ordered_keys(table);
    let rows = entry_rows(table);
    let items = turso_items(TursoRowIter::Reading, fetched);
    law_turso_iter_hands_out_rows(fetched, rows, rows.len() as int);
    assert forall|i: int| 0 <= i < keys.len() implies #[trigger] items[i] == TursoItem::Row(
        Entry::Pair(keys[i], table[keys[i]]),
    ) by {
        law_turso_iter_hands_out_rows(fetched, rows, i);
        assert(rows[i] =~= seq![Cell::Blob(keys[i]), Cell::Blob(table[keys[i]])]);
    }
}

} // verus!
