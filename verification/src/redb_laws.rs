//! What the redb storage promises, proved of its scripts.
//!
//! [`redb_perform`] says what each call does to the tables, as the documentation and the sources
//! of redb have it. The laws then say what the operations of the storage come to, where the
//! machine does not fail.

use vstd::prelude::*;

use crate::config::RocksDbConfig;
use crate::error::StorageError;
use crate::redb_kvdb::{RedbAnswer, RedbCall, RedbFetched, RedbItem, RedbIter, RedbReply};
use crate::script::{OnError, PanicReason, Step, Verdict};
use crate::tables::{Op, Table, Tables};

verus! {

// MODEL
// ================================================================================================

/// A redb database, and the transactions that one user of it has open.
pub struct RedbState {
    /// What a new transaction sees.
    pub committed: Tables,
    /// What is left after a crash.
    pub durable: Tables,
    /// Whether a process that has the database open ends in a crash. If not, it closes the database
    /// in order, which syncs every commit.
    pub crashes: bool,
    /// The write transaction, if one is open.
    pub write: Option<RedbWrite>,
    /// What the read transaction sees, if one is open.
    pub read: Option<Tables>,
    /// The name of the table that is open in the transaction.
    pub open: Option<Seq<char>>,
}

/// A write transaction.
pub struct RedbWrite {
    /// The tables with the writes so far.
    pub tables: Tables,
    /// Whether the commit is synced.
    pub immediate: bool,
}

impl RedbState {
    /// The state without open transactions: dropping a write transaction takes it back. It is
    /// also the state in which another user of the database starts.
    pub open spec fn dropped(self) -> RedbState {
        RedbState { write: None, read: None, open: None, ..self }
    }

    /// What the database holds when it is opened again.
    pub open spec fn kept(self) -> Tables {
        if self.crashes {
            self.durable
        } else {
            self.committed
        }
    }

    /// Whether every table of the schema exists, wherever the tables are looked at.
    pub open spec fn ready(self) -> bool {
        &&& crate::tables::complete(self.committed)
        &&& crate::tables::complete(self.durable)
        &&& (self.write matches Some(w) ==> crate::tables::complete(w.tables))
        &&& (self.read matches Some(tables) ==> crate::tables::complete(tables))
    }

    /// What the open transaction sees.
    pub open spec fn visible(self) -> Tables {
        match self.write {
            Some(w) => w.tables,
            None => match self.read {
                Some(tables) => tables,
                None => Map::empty(),
            },
        }
    }
}

/// What a call does to the state and what it returns; `None` where it fails or waits. A write
/// transaction waits for one that is open. A database is opened once it is closed or its process
/// has crashed.
pub open spec fn redb_perform(s: RedbState, call: RedbCall) -> Option<(RedbState, RedbAnswer)> {
    match call {
        RedbCall::Create { .. } => Some(
            (
                RedbState { committed: s.kept(), durable: s.kept(), ..s.dropped() },
                RedbAnswer::Done,
            ),
        ),
        RedbCall::BeginWrite => match s.write {
            Some(_) => None,
            None => Some(
                (
                    RedbState {
                        write: Some(RedbWrite { tables: s.committed, immediate: true }),
                        open: None,
                        ..s
                    },
                    RedbAnswer::Done,
                ),
            ),
        },
        RedbCall::BeginRead => Some(
            (RedbState { read: Some(s.committed), open: None, ..s }, RedbAnswer::Done),
        ),
        RedbCall::SetDurabilityNone => match s.write {
            Some(w) => Some(
                (
                    RedbState { write: Some(RedbWrite { immediate: false, ..w }), ..s },
                    RedbAnswer::Done,
                ),
            ),
            None => None,
        },
        RedbCall::OpenTable { name } => match s.write {
            Some(w) => Some(
                (
                    RedbState {
                        write: Some(
                            RedbWrite {
                                tables: crate::tables::with_tables(w.tables, seq![name]),
                                ..w
                            },
                        ),
                        open: Some(name),
                        ..s
                    },
                    RedbAnswer::Done,
                ),
            ),
            None => if s.visible().contains_key(name) {
                Some((RedbState { open: Some(name), ..s }, RedbAnswer::Done))
            } else {
                None
            },
        },
        RedbCall::Insert { key, value } => match (s.write, s.open) {
            (Some(w), Some(name)) => Some(
                (
                    RedbState {
                        write: Some(
                            RedbWrite {
                                tables: crate::tables::apply(w.tables, Op::Put(name, key, value)),
                                ..w
                            },
                        ),
                        ..s
                    },
                    RedbAnswer::Done,
                ),
            ),
            _ => None,
        },
        RedbCall::Remove { key } => match (s.write, s.open) {
            (Some(w), Some(name)) => Some(
                (
                    RedbState {
                        write: Some(
                            RedbWrite {
                                tables: crate::tables::apply(w.tables, Op::Delete(name, key)),
                                ..w
                            },
                        ),
                        ..s
                    },
                    RedbAnswer::Done,
                ),
            ),
            _ => None,
        },
        RedbCall::Get { key } => match s.open {
            Some(name) => Some(
                (s, RedbAnswer::Value(crate::tables::lookup(s.visible(), name, key))),
            ),
            None => None,
        },
        RedbCall::Range => match s.open {
            Some(_) => Some((s, RedbAnswer::Done)),
            None => None,
        },
        RedbCall::Commit => match s.write {
            Some(w) => Some(
                (
                    RedbState {
                        committed: w.tables,
                        durable: if w.immediate {
                            w.tables
                        } else {
                            s.durable
                        },
                        write: None,
                        open: None,
                        ..s
                    },
                    RedbAnswer::Done,
                ),
            ),
            None => None,
        },
    }
}

/// How a run of calls ended.
pub enum RedbEnd {
    /// The operation returned this.
    Returned(RedbAnswer),
    /// The operation returned this error.
    Failed(StorageError),
    /// The operation panicked.
    Panicked(PanicReason, StorageError),
}

/// The state after the calls `steps`, and what the last of them returned; `None` where one fails.
pub open spec fn redb_run(s: RedbState, steps: Seq<Step<RedbCall>>) -> Option<
    (RedbState, RedbAnswer),
>
    decreases steps.len(),
{
    if steps.len() == 0 {
        Some((s, RedbAnswer::Done))
    } else {
        match redb_perform(s, steps[0].action) {
            None => None,
            Some((next, answer)) => if steps.len() == 1 {
                Some((next, answer))
            } else {
                redb_run(next, steps.skip(1))
            },
        }
    }
}

/// How the operation with the calls `steps` ends when `replies` come for them, the first one
/// first; `None` while it goes on.
pub open spec fn redb_end(steps: Seq<Step<RedbCall>>, replies: Seq<RedbReply>) -> Option<RedbEnd>
    decreases replies.len(),
{
    if replies.len() == 0 {
        None
    } else {
        let reply = replies[0];
        match crate::redb_kvdb::redb_after(steps, reply).1 {
            Verdict::Continue => redb_end(
                crate::redb_kvdb::redb_after(steps, reply).0,
                replies.skip(1),
            ),
            Verdict::Finished => Some(
                RedbEnd::Returned(
                    if reply.failure() is Some {
                        RedbAnswer::Done
                    } else {
                        reply.output()
                    },
                ),
            ),
            Verdict::Failed => Some(RedbEnd::Failed(reply.failure()->0)),
            Verdict::Panic(reason) => Some(RedbEnd::Panicked(reason, reply.failure()->0)),
        }
    }
}

/// Whether `reply` is that of a call which returned `answer`: where bytes were read, those bytes.
pub open spec fn redb_replied(reply: RedbReply, answer: RedbAnswer) -> bool {
    match answer {
        RedbAnswer::Done => reply is Done,
        RedbAnswer::Value(None) => reply matches RedbReply::Value(None),
        RedbAnswer::Value(Some(bytes)) => reply matches RedbReply::Value(Some(v)) && v@ == bytes,
    }
}

/// Whether `replies` are the replies of a database in the state `s` to the calls `steps`.
pub open spec fn redb_replies(
    s: RedbState,
    steps: Seq<Step<RedbCall>>,
    replies: Seq<RedbReply>,
) -> bool
    decreases steps.len(),
{
    if steps.len() == 0 {
        replies.len() == 0
    } else {
        &&& replies.len() > 0
        &&& match redb_perform(s, steps[0].action) {
            None => false,
            Some((next, answer)) => redb_replied(replies[0], answer) && redb_replies(
                next,
                steps.skip(1),
                replies.skip(1),
            ),
        }
    }
}

// RUNS
// ================================================================================================

/// An operation whose calls all succeed returns what the last of them returns.
pub proof fn law_redb_run_returns(
    s: RedbState,
    steps: Seq<Step<RedbCall>>,
    replies: Seq<RedbReply>,
)
    requires
        steps.len() > 0,
        redb_replies(s, steps, replies),
    ensures
        redb_run(s, steps) matches Some((_, answer)) && redb_end(steps, replies) == Some(
            RedbEnd::Returned(answer),
        ),
    decreases steps.len(),
{
    if steps.len() > 1 {
        let next = (redb_perform(s, steps[0].action)->0).0;
        law_redb_run_returns(next, steps.skip(1), replies.skip(1));
    }
}

/// An operation none of whose errors is passed over ends at its first failing call: with the
/// error of that call, or, where the operation has no error to return, in a panic.
pub proof fn law_redb_first_error_ends(
    steps: Seq<Step<RedbCall>>,
    replies: Seq<RedbReply>,
    e: StorageError,
)
    requires
        0 < replies.len() <= steps.len(),
        forall|i: int| 0 <= i < replies.len() - 1 ==> #[trigger] replies[i].failure() is None,
        replies.last().failure() == Some(e),
        !(steps[replies.len() - 1].on_error is Skip),
    ensures
        redb_end(steps, replies) == Some(
            match steps[replies.len() - 1].on_error {
                OnError::Panic(reason) => RedbEnd::Panicked(reason, e),
                _ => RedbEnd::Failed(e),
            },
        ),
    decreases replies.len(),
{
    if replies.len() > 1 {
        assert(replies[0].failure() is None);
        assert forall|i: int| 0 <= i < replies.skip(1).len() - 1 implies #[trigger] replies.skip(
            1,
        )[i].failure() is None by {
            assert(replies[i + 1].failure() is None);
        }
        assert(replies.skip(1).last() == replies.last());
        law_redb_first_error_ends(steps.skip(1), replies.skip(1), e);
    }
}

/// Two runs of calls in a row are one run of all of them.
proof fn lemma_run_concat(s: RedbState, first: Seq<Step<RedbCall>>, second: Seq<Step<RedbCall>>)
    requires
        second.len() > 0,
        redb_run(s, first) is Some,
    ensures
        redb_run(s, first + second) == redb_run((redb_run(s, first)->0).0, second),
    decreases first.len(),
{
    if first.len() == 0 {
        assert(first + second =~= second);
    } else {
        let next = (redb_perform(s, first[0].action)->0).0;
        assert((first + second).skip(1) =~= first.skip(1) + second);
        if first.len() == 1 {
            assert(first.skip(1) + second =~= second);
        } else {
            lemma_run_concat(next, first.skip(1), second);
        }
    }
}

/// The run of one call.
proof fn lemma_run_one(s: RedbState, step: Step<RedbCall>)
    ensures
        redb_run(s, seq![step]) == redb_perform(s, step.action),
{
}

/// The run of a call before others.
proof fn lemma_run_first(s: RedbState, step: Step<RedbCall>, rest: Seq<Step<RedbCall>>)
    requires
        redb_perform(s, step.action) is Some,
        rest.len() > 0,
    ensures
        redb_run(s, seq![step] + rest) == redb_run((redb_perform(s, step.action)->0).0, rest),
{
    assert((seq![step] + rest).skip(1) =~= rest);
}

// OPENING
// ================================================================================================

/// The calls that open the tables `names`.
spec fn open_steps(names: Seq<Seq<char>>) -> Seq<Step<RedbCall>> {
    names.map_values(|n: Seq<char>| crate::redb_kvdb::must(RedbCall::OpenTable { name: n }))
}

/// Opening tables in a write transaction creates those that do not exist.
proof fn lemma_open_all(s: RedbState, names: Seq<Seq<char>>)
    requires
        s.write is Some,
        names.len() > 0,
    ensures
        redb_run(s, open_steps(names)) matches Some((t, _)) && t == (RedbState {
            write: Some(
                RedbWrite {
                    tables: crate::tables::with_tables((s.write->0).tables, names),
                    ..s.write->0
                },
            ),
            open: Some(names.last()),
            ..s
        }),
    decreases names.len(),
{
    let tables = (s.write->0).tables;
    let next = (redb_perform(s, open_steps(names)[0].action)->0).0;
    if names.len() == 1 {
        assert(seq![names[0]] =~= names);
    } else {
        assert(open_steps(names).skip(1) =~= open_steps(names.skip(1)));
        lemma_open_all(next, names.skip(1));
        let once = crate::tables::with_tables(tables, seq![names[0]]);
        assert forall|n: Seq<char>| #[trigger] names.contains(n) <==> (n == names[0] || names.skip(
            1,
        ).contains(n)) by {
            if names.contains(n) {
                let i = choose|i: int| 0 <= i < names.len() && names[i] == n;
                if i > 0 {
                    assert(names.skip(1)[i - 1] == n);
                }
            }
            if names.skip(1).contains(n) {
                let i = choose|i: int| 0 <= i < names.skip(1).len() && names.skip(1)[i] == n;
                assert(names[i + 1] == n);
            }
        }
        assert(seq![names[0]].contains(names[0])) by {
            assert(seq![names[0]][0] == names[0]);
        }
        assert(crate::tables::with_tables(once, names.skip(1)) =~= crate::tables::with_tables(
            tables,
            names,
        ));
    }
}

/// Opening a database creates every table of the schema and leaves no transaction open. It keeps
/// every entry that was committed, but after a crash only what was synced. What it opens with is
/// synced.
pub proof fn law_redb_new(s: RedbState, config: RocksDbConfig, path_is_dir: bool)
    ensures
        redb_run(s, crate::redb_kvdb::redb_new_steps(config, path_is_dir)) matches Some((t, _))
            && t == (RedbState {
            committed: crate::tables::with_tables(s.kept(), crate::schema::schema()),
            durable: crate::tables::with_tables(s.kept(), crate::schema::schema()),
            crashes: s.crashes,
            write: None,
            read: None,
            open: None,
        }) && t.ready() && (forall|name: Seq<char>, key: Seq<u8>| #[trigger]
            crate::tables::lookup(t.committed, name, key) == crate::tables::lookup(
                s.kept(),
                name,
                key,
            )),
{
    let steps = crate::redb_kvdb::redb_new_steps(config, path_is_dir);
    let names = crate::schema::schema();
    let rest = open_steps(names) + seq![crate::redb_kvdb::must(RedbCall::Commit)];
    assert(steps =~= seq![steps[0]] + (seq![steps[1]] + rest));
    let created = (redb_perform(s, steps[0].action)->0).0;
    let begun = (redb_perform(created, steps[1].action)->0).0;
    lemma_run_first(s, steps[0], seq![steps[1]] + rest);
    lemma_run_first(created, steps[1], rest);
    lemma_open_all(begun, names);
    let opened = (redb_run(begun, open_steps(names))->0).0;
    lemma_run_concat(begun, open_steps(names), seq![crate::redb_kvdb::must(RedbCall::Commit)]);
    lemma_run_one(opened, crate::redb_kvdb::must(RedbCall::Commit));
}

/// Once every table of the schema exists, none of them goes away, whatever calls are made. A read
/// of a database that was opened by the storage never meets a table that does not exist.
pub proof fn law_redb_stays_ready(s: RedbState, steps: Seq<Step<RedbCall>>)
    requires
        s.ready(),
    ensures
        redb_run(s, steps) matches Some((t, _)) ==> t.ready(),
    decreases steps.len(),
{
    if steps.len() > 0 {
        match redb_perform(s, steps[0].action) {
            None => {},
            Some((next, _)) => {
                assert(next.ready());
                law_redb_stays_ready(next, steps.skip(1));
            },
        }
    }
}

// READING
// ================================================================================================

/// A read in a transaction of its own returns the value that is committed, for every table of
/// the schema, and changes nothing.
pub proof fn law_redb_get(s: RedbState, name: Seq<char>, key: Seq<u8>)
    requires
        s.write is None,
        crate::tables::complete(s.committed),
        crate::schema::schema().contains(name),
    ensures
        redb_run(
            s,
            crate::redb_kvdb::redb_snapshot_steps() + crate::redb_kvdb::redb_read_steps(name, key),
        ) matches Some((t, answer)) && answer == RedbAnswer::Value(
            crate::tables::lookup(s.committed, name, key),
        ) && t.dropped() == s.dropped(),
{
    law_redb_snapshot(s);
    let t = (redb_run(s, crate::redb_kvdb::redb_snapshot_steps())->0).0;
    lemma_run_concat(
        s,
        crate::redb_kvdb::redb_snapshot_steps(),
        crate::redb_kvdb::redb_read_steps(name, key),
    );
    law_redb_snapshot_get(t, s.committed, name, key);
}

/// A snapshot sees the tables as they are committed when it starts, and changes nothing.
pub proof fn law_redb_snapshot(s: RedbState)
    ensures
        redb_run(s, crate::redb_kvdb::redb_snapshot_steps()) matches Some((t, _)) && t.read == Some(
            s.committed,
        ) && t.write == s.write && t.dropped() == s.dropped(),
{
}

/// A read in a snapshot returns the value that was committed when the snapshot started,
/// whatever has been committed since.
pub proof fn law_redb_snapshot_get(s: RedbState, taken: Tables, name: Seq<char>, key: Seq<u8>)
    requires
        s.read == Some(taken),
        s.write is None,
        crate::tables::complete(taken),
        crate::schema::schema().contains(name),
    ensures
        redb_run(s, crate::redb_kvdb::redb_read_steps(name, key)) matches Some((t, answer))
            && answer == RedbAnswer::Value(crate::tables::lookup(taken, name, key)) && t.dropped()
            == s.dropped(),
{
    let steps = crate::redb_kvdb::redb_read_steps(name, key);
    assert(steps =~= seq![steps[0]] + seq![steps[1]]);
    lemma_run_first(s, steps[0], seq![steps[1]]);
    lemma_run_one((redb_perform(s, steps[0].action)->0).0, steps[1]);
}

/// An iteration over a table of the schema can always be started, in a transaction of its own
/// and in a snapshot alike, and changes nothing.
pub proof fn law_redb_iter(s: RedbState, taken: Tables, name: Seq<char>)
    requires
        s.write is None,
        s.read == Some(taken),
        crate::tables::complete(taken),
        crate::tables::complete(s.committed),
        crate::schema::schema().contains(name),
    ensures
        redb_run(s, crate::redb_kvdb::redb_range_steps(name)) matches Some((t, _)) && t.open
            == Some(name) && t.visible() == taken && t.dropped() == s.dropped(),
        redb_run(
            s,
            crate::redb_kvdb::redb_snapshot_steps() + crate::redb_kvdb::redb_range_steps(name),
        ) matches Some((t, _)) && t.open == Some(name) && t.visible() == s.committed
            && t.dropped() == s.dropped(),
{
    let steps = crate::redb_kvdb::redb_range_steps(name);
    assert(steps =~= seq![steps[0]] + seq![steps[1]]);
    lemma_run_first(s, steps[0], seq![steps[1]]);
    lemma_run_one((redb_perform(s, steps[0].action)->0).0, steps[1]);
    law_redb_snapshot(s);
    let t = (redb_run(s, crate::redb_kvdb::redb_snapshot_steps())->0).0;
    lemma_run_concat(s, crate::redb_kvdb::redb_snapshot_steps(), steps);
    lemma_run_first(t, steps[0], seq![steps[1]]);
    lemma_run_one((redb_perform(t, steps[0].action)->0).0, steps[1]);
}

// WRITING
// ================================================================================================

/// Opening the table of a change before making it does not alter what the change makes of the
/// tables.
proof fn lemma_open_then_apply(tables: Tables, op: Op)
    ensures
        crate::tables::apply(crate::tables::with_tables(tables, seq![op.table()]), op)
            == crate::tables::apply(tables, op),
{
    let opened = crate::tables::with_tables(tables, seq![op.table()]);
    assert(seq![op.table()].contains(op.table())) by {
        assert(seq![op.table()][0] == op.table());
    }
    assert(opened.insert(op.table(), crate::tables::apply(tables, op)[op.table()]) =~= tables.insert(
        op.table(),
        crate::tables::apply(tables, op)[op.table()],
    ));
}

/// Removing a key while no batch is open commits, and syncs, the removal, together with every
/// commit made before.
pub proof fn law_redb_delete(s: RedbState, name: Seq<char>, key: Seq<u8>)
    requires
        s.write is None,
    ensures
        redb_run(s, crate::redb_kvdb::redb_delete_steps(name, key)) matches Some((t, _))
            && t.committed == crate::tables::apply(s.committed, Op::Delete(name, key)) && t.durable
            == t.committed && t.write is None && t.read == s.read,
{
    let steps = crate::redb_kvdb::redb_delete_steps(name, key);
    let s1 = (redb_perform(s, steps[0].action)->0).0;
    let s2 = (redb_perform(s1, steps[1].action)->0).0;
    let s3 = (redb_perform(s2, steps[2].action)->0).0;
    assert(steps =~= seq![steps[0]] + (seq![steps[1]] + (seq![steps[2]] + seq![steps[3]])));
    lemma_run_first(s, steps[0], seq![steps[1]] + (seq![steps[2]] + seq![steps[3]]));
    lemma_run_first(s1, steps[1], seq![steps[2]] + seq![steps[3]]);
    lemma_run_first(s2, steps[2], seq![steps[3]]);
    lemma_run_one(s3, steps[3]);
    lemma_open_then_apply(s.committed, Op::Delete(name, key));
}

/// Syncing while no batch is open makes every commit made so far durable, and commits nothing new.
pub proof fn law_redb_sync(s: RedbState)
    requires
        s.write is None,
    ensures
        redb_run(s, crate::redb_kvdb::redb_sync_steps()) matches Some((t, _)) && t.committed
            == s.committed && t.durable == s.committed && t.write is None && t.read == s.read,
{
    let steps = crate::redb_kvdb::redb_sync_steps();
    assert(steps =~= seq![steps[0]] + seq![steps[1]]);
    lemma_run_first(s, steps[0], seq![steps[1]]);
    lemma_run_one((redb_perform(s, steps[0].action)->0).0, steps[1]);
}

/// The calls of an operation of a batch.
pub open spec fn redb_op_steps(op: Op) -> Seq<Step<RedbCall>> {
    match op {
        Op::Put(name, key, value) => crate::redb_kvdb::redb_put_steps(name, key, value),
        Op::Delete(name, key) => crate::redb_kvdb::redb_remove_steps(name, key),
    }
}

/// The calls of the operations of a batch.
pub open spec fn redb_ops_steps(ops: Seq<Op>) -> Seq<Step<RedbCall>>
    decreases ops.len(),
{
    if ops.len() == 0 {
        Seq::empty()
    } else {
        redb_op_steps(ops[0]) + redb_ops_steps(ops.skip(1))
    }
}

/// An operation of a batch changes the tables of the batch's transaction and nothing else.
proof fn lemma_run_op(s: RedbState, op: Op)
    requires
        s.write is Some,
    ensures
        redb_run(s, redb_op_steps(op)) matches Some((t, _)) && t == (RedbState {
            write: Some(
                RedbWrite {
                    tables: crate::tables::apply((s.write->0).tables, op),
                    ..s.write->0
                },
            ),
            open: Some(op.table()),
            ..s
        }),
{
    let steps = redb_op_steps(op);
    assert(steps =~= seq![steps[0]] + seq![steps[1]]);
    lemma_run_first(s, steps[0], seq![steps[1]]);
    lemma_run_one((redb_perform(s, steps[0].action)->0).0, steps[1]);
    lemma_open_then_apply((s.write->0).tables, op);
}

/// The operations of a batch change the tables of the batch's transaction, in order, and
/// nothing else that outlives the transaction.
pub proof fn law_redb_batch_operations(s: RedbState, ops: Seq<Op>)
    requires
        s.write is Some,
    ensures
        redb_run(s, redb_ops_steps(ops)) matches Some((t, _)) && t.write == Some(
            RedbWrite {
                tables: crate::tables::apply_all((s.write->0).tables, ops),
                ..s.write->0
            },
        ) && t.read == s.read && t.dropped() == s.dropped(),
    decreases ops.len(),
{
    if ops.len() > 0 {
        lemma_run_op(s, ops[0]);
        let t = (redb_run(s, redb_op_steps(ops[0]))->0).0;
        if ops.len() == 1 {
            assert(redb_ops_steps(ops.skip(1)) =~= Seq::empty());
            assert(redb_ops_steps(ops) =~= redb_op_steps(ops[0]));
            assert(crate::tables::apply_all((t.write->0).tables, ops.skip(1))
                == (t.write->0).tables);
        } else {
            assert(redb_ops_steps(ops.skip(1)).len() > 0);
            lemma_run_concat(s, redb_op_steps(ops[0]), redb_ops_steps(ops.skip(1)));
            law_redb_batch_operations(t, ops.skip(1));
        }
    }
}

/// While a batch is open, whoever does not write in its transaction reads what is committed: the
/// operations of the batch do not show.
pub proof fn law_redb_open_batch_does_not_show(
    s: RedbState,
    ops: Seq<Op>,
    name: Seq<char>,
    key: Seq<u8>,
)
    requires
        s.write is Some,
        crate::tables::complete(s.committed),
        crate::schema::schema().contains(name),
    ensures
        redb_run(s, redb_ops_steps(ops)) matches Some((t, _)) && redb_run(
            t.dropped(),
            crate::redb_kvdb::redb_snapshot_steps() + crate::redb_kvdb::redb_read_steps(name, key),
        ) matches Some((_, answer)) && answer.value() == crate::tables::lookup(
            s.committed,
            name,
            key,
        ),
{
    law_redb_batch_operations(s, ops);
    let t = (redb_run(s, redb_ops_steps(ops))->0).0;
    law_redb_get(t.dropped(), name, key);
}

/// The calls of a batch from its start to its commit.
pub open spec fn redb_whole_batch(ops: Seq<Op>) -> Seq<Step<RedbCall>> {
    crate::redb_kvdb::redb_batch_steps() + redb_ops_steps(ops)
        + crate::redb_kvdb::redb_commit_steps()
}

/// A committed batch makes all of its changes, in order. They are not synced: what is left after
/// a crash is what was there before.
pub proof fn law_redb_batch_commits(s: RedbState, ops: Seq<Op>)
    requires
        s.write is None,
    ensures
        redb_run(s, redb_whole_batch(ops)) matches Some((t, _)) && t.committed
            == crate::tables::apply_all(s.committed, ops) && t.durable == s.durable && t.write is None && t.read
            == s.read,
{
    let begin = crate::redb_kvdb::redb_batch_steps();
    let commit = crate::redb_kvdb::redb_commit_steps();
    assert(begin =~= seq![begin[0]] + seq![begin[1]]);
    lemma_run_first(s, begin[0], seq![begin[1]]);
    lemma_run_one((redb_perform(s, begin[0].action)->0).0, begin[1]);
    let begun = (redb_run(s, begin)->0).0;
    law_redb_batch_operations(begun, ops);
    let done = (redb_run(begun, redb_ops_steps(ops))->0).0;
    if ops.len() == 0 {
        assert(begin + redb_ops_steps(ops) =~= begin);
    } else {
        lemma_run_concat(s, begin, redb_ops_steps(ops));
    }
    lemma_run_concat(s, begin + redb_ops_steps(ops), commit);
    lemma_run_one(done, commit[0]);
    assert(commit =~= seq![commit[0]]);
}

/// A read after a committed batch returns what the last operation on the key in the batch put
/// there: the value of a put, nothing after a delete; a key that the batch does not name keeps
/// its value.
pub proof fn law_redb_read_your_writes(
    s: RedbState,
    ops: Seq<Op>,
    name: Seq<char>,
    key: Seq<u8>,
)
    requires
        s.write is None,
        crate::tables::complete(s.committed),
        crate::schema::schema().contains(name),
    ensures
        redb_run(s, redb_whole_batch(ops)) matches Some((t, _)) && redb_run(
            t,
            crate::redb_kvdb::redb_snapshot_steps() + crate::redb_kvdb::redb_read_steps(name, key),
        ) matches Some((_, answer)) && answer.value() == (match crate::tables::last_change(
            ops,
            name,
            key,
        ) {
            Some(op) => op.value(),
            None => crate::tables::lookup(s.committed, name, key),
        }),
{
    law_redb_batch_commits(s, ops);
    let t = (redb_run(s, redb_whole_batch(ops))->0).0;
    crate::tables::law_changes_keep_tables(s.committed, ops);
    law_redb_get(t, name, key);
    crate::tables::law_last_change_wins(s.committed, ops, name, key);
}

/// A batch that is committed after a snapshot was taken does not change what the snapshot reads.
pub proof fn law_redb_snapshot_is_stable(
    s: RedbState,
    ops: Seq<Op>,
    name: Seq<char>,
    key: Seq<u8>,
)
    requires
        s.write is None,
        crate::tables::complete(s.committed),
        crate::schema::schema().contains(name),
    ensures
        redb_run(s, crate::redb_kvdb::redb_snapshot_steps()) matches Some((t, _)) && redb_run(
            t,
            redb_whole_batch(ops),
        ) matches Some((u, _)) && redb_run(
            u,
            crate::redb_kvdb::redb_read_steps(name, key),
        ) matches Some((_, answer)) && answer.value() == crate::tables::lookup(
            s.committed,
            name,
            key,
        ),
{
    law_redb_snapshot(s);
    let t = (redb_run(s, crate::redb_kvdb::redb_snapshot_steps())->0).0;
    law_redb_batch_commits(t, ops);
    let u = (redb_run(t, redb_whole_batch(ops))->0).0;
    law_redb_snapshot_get(u, s.committed, name, key);
}

/// A batch that is synced after its commit is there when the database is opened again, after a
/// crash too.
pub proof fn law_redb_synced_batch_survives(
    s: RedbState,
    ops: Seq<Op>,
    config: RocksDbConfig,
    path_is_dir: bool,
    name: Seq<char>,
    key: Seq<u8>,
)
    requires
        s.write is None,
    ensures
        redb_run(s, redb_whole_batch(ops)) matches Some((t, _)) && redb_run(
            t,
            crate::redb_kvdb::redb_sync_steps(),
        ) matches Some((u, _)) && redb_run(
            u,
            crate::redb_kvdb::redb_new_steps(config, path_is_dir),
        ) matches Some((v, _)) && crate::tables::lookup(v.committed, name, key)
            == crate::tables::lookup(crate::tables::apply_all(s.committed, ops), name, key),
{
    law_redb_batch_commits(s, ops);
    let t = (redb_run(s, redb_whole_batch(ops))->0).0;
    law_redb_sync(t);
    let u = (redb_run(t, crate::redb_kvdb::redb_sync_steps())->0).0;
    law_redb_new(u, config, path_is_dir);
}

/// Whether a call can change what outlives the transaction it is made in.
pub open spec fn redb_lasting(call: RedbCall) -> bool {
    call is Commit || call is Create
}

/// Calls without a commit among them change nothing that outlives their transaction: what an
/// operation did before a call that failed, and what a batch did that is dropped, leaves the
/// database as it was.
pub proof fn law_redb_uncommitted_changes_nothing(s: RedbState, steps: Seq<Step<RedbCall>>)
    requires
        forall|i: int| 0 <= i < steps.len() ==> !redb_lasting((#[trigger] steps[i]).action),
    ensures
        redb_run(s, steps) matches Some((t, _)) ==> t.dropped() == s.dropped(),
    decreases steps.len(),
{
    if steps.len() > 0 {
        assert(!redb_lasting(steps[0].action));
        match redb_perform(s, steps[0].action) {
            None => {},
            Some((next, _)) => {
                assert forall|i: int| 0 <= i < steps.skip(1).len() implies !redb_lasting(
                    (#[trigger] steps.skip(1)[i]).action,
                ) by {
                    assert(!redb_lasting(steps[i + 1].action));
                }
                law_redb_uncommitted_changes_nothing(next, steps.skip(1));
            },
        }
    }
}

// ITERATION
// ================================================================================================

/// The items of an iteration to which redb returned `fetched`, the first one first.
pub open spec fn redb_items(it: RedbIter, fetched: Seq<RedbFetched>) -> Seq<RedbItem>
    decreases fetched.len(),
{
    if fetched.len() == 0 {
        Seq::empty()
    } else {
        seq![it.item(fetched[0])] + redb_items(it.after(), fetched.skip(1))
    }
}

/// While the range is read, each item is what redb returned for it.
proof fn lemma_reading_items(fetched: Seq<RedbFetched>)
    ensures
        redb_items(RedbIter::Reading, fetched).len() == fetched.len(),
        forall|i: int|
            0 <= i < fetched.len() ==> #[trigger] redb_items(RedbIter::Reading, fetched)[i]
                == RedbIter::Reading.item(fetched[i]),
    decreases fetched.len(),
{
    if fetched.len() > 0 {
        lemma_reading_items(fetched.skip(1));
        assert forall|i: int| 0 <= i < fetched.len() implies #[trigger] redb_items(
            RedbIter::Reading,
            fetched,
        )[i] == RedbIter::Reading.item(fetched[i]) by {
            if i > 0 {
                assert(redb_items(RedbIter::Reading, fetched.skip(1))[i - 1]
                    == RedbIter::Reading.item(fetched.skip(1)[i - 1]));
            }
        }
    }
}

/// Whether `fetched` is what redb returns for the range over all entries of `table`: the entries
/// in the order of their keys, and then nothing.
pub open spec fn redb_lists(table: Table, fetched: Seq<RedbFetched>) -> bool {
    let keys = crate::tables::ordered_keys(table);
    &&& fetched.len() == keys.len() + 1
    &&& fetched.last() is None
    &&& forall|i: int|
        0 <= i < keys.len() ==> ((#[trigger] fetched[i]) matches Some(Ok((k, v))) && k@ == keys[i]
            && v@ == table[keys[i]])
}

/// An iteration hands out each entry of the table once, in the order of the keys, and then ends.
pub proof fn law_redb_iter_lists_table(table: Table, fetched: Seq<RedbFetched>)
    requires
        redb_lists(table, fetched),
    ensures
        ({
            let keys = crate::tables::ordered_keys(table);
            let items = redb_items(RedbIter::Reading, fetched);
            &&& items.len() == keys.len() + 1
            &&& items.last() is End
            &&& forall|i: int|
                0 <= i < keys.len() ==> #[trigger] items[i] == RedbItem::Pair(
                    keys[i],
                    table[keys[i]],
                )
        }),
{
    lemma_reading_items(fetched);
    let keys = crate::tables::ordered_keys(table);
    let items = redb_items(RedbIter::Reading, fetched);
    assert forall|i: int| 0 <= i < keys.len() implies #[trigger] items[i] == RedbItem::Pair(
        keys[i],
        table[keys[i]],
    ) by {
        assert(fetched[i] is Some);
    }
}

/// An iteration that is over stays over.
pub proof fn law_redb_ended_iter_stays_ended(fetched: Seq<RedbFetched>, i: int)
    requires
        0 <= i < fetched.len(),
    ensures
        redb_items(RedbIter::Ended, fetched).len() == fetched.len(),
        redb_items(RedbIter::Ended, fetched)[i] is End,
    decreases fetched.len(),
{
    if fetched.len() > 1 {
        law_redb_ended_iter_stays_ended(
            fetched.skip(1),
            if i > 0 {
                i - 1
            } else {
                0
            },
        );
    } else {
        assert(fetched.skip(1) =~= Seq::empty());
        assert(redb_items(RedbIter::Ended, fetched.skip(1)) =~= Seq::empty());
    }
}

/// An iteration whose range could not be started has that error as its only item.
pub proof fn law_redb_failed_iter(e: StorageError, fetched: Seq<RedbFetched>, i: int)
    requires
        0 <= i < fetched.len(),
    ensures
        redb_items(RedbIter::Failed(e), fetched)[i] == (if i == 0 {
            RedbItem::Error(e)
        } else {
            RedbItem::End
        }),
{
    if i > 0 {
        law_redb_ended_iter_stays_ended(fetched.skip(1), i - 1);
    }
}

} // verus!
