//! What a storage holds, as mathematics: tables of entries, and what puts and deletes make of
//! them. The laws of both storages are stated over these tables.

use vstd::prelude::*;

verus! {

/// The entries of a table: the value under each key.
pub type Table = Map<Seq<u8>, Seq<u8>>;

/// The tables of a database, by name.
pub type Tables = Map<Seq<char>, Table>;

/// A change to a table.
pub enum Op {
    /// Put the value under the key into the table of that name.
    Put(Seq<char>, Seq<u8>, Seq<u8>),
    /// Remove the key from the table of that name.
    Delete(Seq<char>, Seq<u8>),
}

impl Op {
    /// The name of the table that is changed.
    pub open spec fn table(self) -> Seq<char> {
        match self {
            Op::Put(name, _, _) => name,
            Op::Delete(name, _) => name,
        }
    }

    /// The key whose entry is changed.
    pub open spec fn key(self) -> Seq<u8> {
        match self {
            Op::Put(_, key, _) => key,
            Op::Delete(_, key) => key,
        }
    }

    /// The value under the key after the change.
    pub open spec fn value(self) -> Option<Seq<u8>> {
        match self {
            Op::Put(_, _, value) => Some(value),
            Op::Delete(_, _) => None,
        }
    }
}

/// The table `name`; one that does not exist has no entries.
pub open spec fn table_or_empty(tables: Tables, name: Seq<char>) -> Table {
    if tables.contains_key(name) {
        tables[name]
    } else {
        Map::empty()
    }
}

/// The value under `key` in the table `name`.
pub open spec fn lookup(tables: Tables, name: Seq<char>, key: Seq<u8>) -> Option<Seq<u8>> {
    if table_or_empty(tables, name).contains_key(key) {
        Some(table_or_empty(tables, name)[key])
    } else {
        None
    }
}

/// The tables after a change.
pub open spec fn apply(tables: Tables, op: Op) -> Tables {
    match op {
        Op::Put(name, key, value) => tables.insert(
            name,
            table_or_empty(tables, name).insert(key, value),
        ),
        Op::Delete(name, key) => tables.insert(name, table_or_empty(tables, name).remove(key)),
    }
}

/// The tables after the changes `ops`, the first one first.
pub open spec fn apply_all(tables: Tables, ops: Seq<Op>) -> Tables
    decreases ops.len(),
{
    if ops.len() == 0 {
        tables
    } else {
        apply_all(apply(tables, ops[0]), ops.skip(1))
    }
}

/// The last of the changes `ops` to the entry of `key` in the table `name`.
pub open spec fn last_change(ops: Seq<Op>, name: Seq<char>, key: Seq<u8>) -> Option<Op>
    decreases ops.len(),
{
    if ops.len() == 0 {
        None
    } else if ops.last().table() == name && ops.last().key() == key {
        Some(ops.last())
    } else {
        last_change(ops.drop_last(), name, key)
    }
}

/// The tables with those of `names` that do not exist yet added, without entries.
pub open spec fn with_tables(tables: Tables, names: Seq<Seq<char>>) -> Tables {
    Map::new(
        |n: Seq<char>| tables.contains_key(n) || names.contains(n),
        |n: Seq<char>| table_or_empty(tables, n),
    )
}

/// Whether every table of the schema exists.
pub open spec fn complete(tables: Tables) -> bool {
    forall|n: Seq<char>| #[trigger]
        crate::schema::schema().contains(n) ==> tables.contains_key(n)
}

/// Changes in two runs are changes in one.
proof fn lemma_apply_all_concat(tables: Tables, first: Seq<Op>, second: Seq<Op>)
    ensures
        apply_all(tables, first + second) == apply_all(apply_all(tables, first), second),
    decreases first.len(),
{
    if first.len() == 0 {
        assert(first + second =~= second);
    } else {
        assert((first + second).skip(1) =~= first.skip(1) + second);
        lemma_apply_all_concat(apply(tables, first[0]), first.skip(1), second);
    }
}

/// A change sets the entry it names and leaves every other entry, and every table, as it was.
pub proof fn law_change_is_local(tables: Tables, op: Op, name: Seq<char>, key: Seq<u8>)
    ensures
        lookup(apply(tables, op), name, key) == (if op.table() == name && op.key() == key {
            op.value()
        } else {
            lookup(tables, name, key)
        }),
        tables.contains_key(name) ==> apply(tables, op).contains_key(name),
{
}

/// After a run of changes, the value under a key is the one that the last change to it set; a
/// key that no change names keeps its value.
pub proof fn law_last_change_wins(tables: Tables, ops: Seq<Op>, name: Seq<char>, key: Seq<u8>)
    ensures
        lookup(apply_all(tables, ops), name, key) == (match last_change(ops, name, key) {
            Some(op) => op.value(),
            None => lookup(tables, name, key),
        }),
    decreases ops.len(),
{
    if ops.len() > 0 {
        let before = apply_all(tables, ops.drop_last());
        assert(ops =~= ops.drop_last() + seq![ops.last()]);
        lemma_apply_all_concat(tables, ops.drop_last(), seq![ops.last()]);
        assert(apply_all(before, seq![ops.last()]) == apply(before, ops.last())) by {
            assert(seq![ops.last()].skip(1) =~= Seq::<Op>::empty());
            reveal_with_fuel(apply_all, 2);
        }
        law_change_is_local(before, ops.last(), name, key);
        law_last_change_wins(tables, ops.drop_last(), name, key);
    }
}

/// No run of changes removes a table: once every table of the schema exists, it stays so.
pub proof fn law_changes_keep_tables(tables: Tables, ops: Seq<Op>)
    requires
        complete(tables),
    ensures
        complete(apply_all(tables, ops)),
    decreases ops.len(),
{
    if ops.len() > 0 {
        law_changes_keep_tables(apply(tables, ops[0]), ops.skip(1));
    }
}

// KEY ORDER
// ================================================================================================

/// Whether `a` comes before `b`, or is `b`, in the order of byte strings.
pub open spec fn key_le(a: Seq<u8>, b: Seq<u8>) -> bool
    decreases a.len(),
{
    if a.len() == 0 {
        true
    } else if b.len() == 0 {
        false
    } else if a[0] != b[0] {
        a[0] < b[0]
    } else {
        key_le(a.skip(1), b.skip(1))
    }
}

/// The keys of a table, in order.
pub open spec fn ordered_keys(table: Table) -> Seq<Seq<u8>> {
    table.dom().to_seq().sort_by(|a: Seq<u8>, b: Seq<u8>| key_le(a, b))
}

/// The order of byte strings is total.
proof fn lemma_key_le_total(a: Seq<u8>, b: Seq<u8>, c: Seq<u8>)
    ensures
        key_le(a, a),
        key_le(a, b) || key_le(b, a),
        key_le(a, b) && key_le(b, a) ==> a == b,
        key_le(a, b) && key_le(b, c) ==> key_le(a, c),
    decreases a.len() + b.len() + c.len(),
{
    if a.len() > 0 {
        if b.len() > 0 && c.len() > 0 {
            lemma_key_le_total(a.skip(1), b.skip(1), c.skip(1));
        } else if b.len() > 0 {
            lemma_key_le_total(a.skip(1), b.skip(1), c);
        } else {
            lemma_key_le_total(a.skip(1), b, c);
        }
        if b.len() > 0 && a[0] == b[0] && a.skip(1) == b.skip(1) {
            assert(a =~= seq![a[0]] + a.skip(1));
            assert(b =~= seq![b[0]] + b.skip(1));
        }
    } else if b.len() == 0 {
        assert(a =~= b);
    }
}

/// The order of byte strings, as a relation, is total.
proof fn lemma_key_order()
    ensures
        vstd::relations::total_ordering(|a: Seq<u8>, b: Seq<u8>| key_le(a, b)),
{
    let leq = |a: Seq<u8>, b: Seq<u8>| key_le(a, b);
    assert forall|x: Seq<u8>| #[trigger] leq(x, x) by {
        lemma_key_le_total(x, x, x);
    }
    assert forall|x: Seq<u8>, y: Seq<u8>| #[trigger] leq(x, y) && #[trigger] leq(y, x) implies x
        == y by {
        lemma_key_le_total(x, y, y);
    }
    assert forall|x: Seq<u8>, y: Seq<u8>, z: Seq<u8>| #[trigger]
        leq(x, y) && #[trigger] leq(y, z) implies leq(x, z) by {
        lemma_key_le_total(x, y, z);
    }
    assert forall|x: Seq<u8>, y: Seq<u8>| #[trigger] leq(x, y) || #[trigger] leq(y, x) by {
        lemma_key_le_total(x, y, y);
    }
}

/// The sequence that a set is turned into names each element once.
proof fn lemma_to_seq_once<A>(s: Set<A>)
    requires
        s.finite(),
    ensures
        s.to_seq().no_duplicates(),
    decreases s.len(),
{
    if s.len() > 0 {
        let x = s.choose();
        let rest = s.remove(x);
        lemma_to_seq_once(rest);
        rest.lemma_to_seq_to_set_id();
        let tail = rest.to_seq();
        assert(s.to_seq() =~= seq![x] + tail);
        assert forall|i: int| 0 <= i < tail.len() implies #[trigger] tail[i] != x by {
            assert(tail.to_set().contains(tail[i]));
        }
    }
}

/// The keys of a table in order are each key of the table, once, in ascending order.
pub proof fn law_ordered_keys(table: Table)
    requires
        table.dom().finite(),
    ensures
        ordered_keys(table).no_duplicates(),
        ordered_keys(table).to_set() == table.dom(),
        forall|i: int, j: int|
            0 <= i < j < ordered_keys(table).len() ==> key_le(
                #[trigger] ordered_keys(table)[i],
                #[trigger] ordered_keys(table)[j],
            ),
{
    let leq = |a: Seq<u8>, b: Seq<u8>| key_le(a, b);
    let keys = table.dom().to_seq();
    let sorted = ordered_keys(table);
    lemma_key_order();
    keys.lemma_sort_by_ensures(leq);
    lemma_to_seq_once(table.dom());
    table.dom().lemma_to_seq_to_set_id();
    keys.lemma_multiset_has_no_duplicates();
    sorted.lemma_multiset_has_no_duplicates_conv();
    assert forall|k: Seq<u8>| #[trigger] sorted.contains(k) <==> keys.contains(k) by {
        vstd::seq_lib::to_multiset_contains(sorted, k);
        vstd::seq_lib::to_multiset_contains(keys, k);
    }
    assert forall|k: Seq<u8>| #[trigger] sorted.to_set().contains(k) <==> table.dom().contains(
        k,
    ) by {
        assert(keys.to_set().contains(k) <==> keys.contains(k));
        assert(sorted.contains(k) <==> keys.contains(k));
    }
    assert forall|i: int, j: int| 0 <= i < j < sorted.len() implies key_le(
        #[trigger] sorted[i],
        #[trigger] sorted[j],
    ) by {
        assert(leq(sorted[i], sorted[j]));
    }
}

} // verus!
