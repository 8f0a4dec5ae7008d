//! Rows of turso, and what the storage reads from them.

use vstd::prelude::*;

use crate::error::{BackendError, StorageError, StorageResult};

verus! {

/// `turso::Row`, a row of a query's result.
#[verifier::external_type_specification]
#[verifier::external_body]
pub struct ExRow(turso::Row);

/// The columns that a row holds, the first one first.
pub uninterp spec fn row_columns(row: turso::Row) -> Seq<Cell>;

/// The error of turso for the column at `index` of a row that has only `columns` columns.
pub uninterp spec fn missing_column_error(index: usize, columns: nat) -> turso::Error;

/// The error for the column at `index` of a row that has only `columns` columns.
pub open spec fn missing_column(index: usize, columns: nat) -> StorageError {
    StorageError::Backend(BackendError::Turso(missing_column_error(index, columns)))
}

/// A column of a row.
#[derive(Debug)]
pub enum Column {
    /// No value.
    Null,
    /// An integer.
    Integer(i64),
    /// A floating-point number, which is not looked at.
    Real,
    /// A text.
    Text(String),
    /// Bytes.
    Blob(Vec<u8>),
}

/// What a [`Column`] holds, over sequences.
pub enum Cell {
    Null,
    Integer(i64),
    Real,
    Text(Seq<char>),
    Blob(Seq<u8>),
}

impl View for Column {
    type V = Cell;

    open spec fn view(&self) -> Cell {
        match *self {
            Column::Null => Cell::Null,
            Column::Integer(n) => Cell::Integer(n),
            Column::Real => Cell::Real,
            Column::Text(text) => Cell::Text(text@),
            Column::Blob(bytes) => Cell::Blob(bytes@),
        }
    }
}

/// Calls `turso::Row::get_value`, and claims that it returns the column at `index`, and, where
/// the row has no column there, an error that depends on `index` and on the number of columns
/// alone.
#[verifier::external_body]
fn row_column(row: &turso::Row, index: usize) -> (r: Result<Column, turso::Error>)
    ensures
        match r {
            Ok(column) => index < row_columns(*row).len() && column@
                == row_columns(*row)[index as int],
            Err(e) => index >= row_columns(*row).len() && e == missing_column_error(
                index,
                row_columns(*row).len(),
            ),
        },
{
    match row.get_value(index)? {
        turso::Value::Null => Ok(Column::Null),
        turso::Value::Integer(n) => Ok(Column::Integer(n)),
        turso::Value::Real(_) => Ok(Column::Real),
        turso::Value::Text(text) => Ok(Column::Text(text)),
        turso::Value::Blob(bytes) => Ok(Column::Blob(bytes)),
    }
}

// VALUES
// ================================================================================================

/// The value that a column stands for: its bytes; a column that holds anything else stands for
/// no value.
pub open spec fn cell_value(cell: Cell) -> Option<Seq<u8>> {
    match cell {
        Cell::Blob(bytes) => Some(bytes),
        _ => None,
    }
}

/// Whether `r` is the outcome `value`.
pub open spec fn is_value(r: StorageResult<Option<Vec<u8>>>, value: Option<Seq<u8>>) -> bool {
    match value {
        None => r matches Ok(None),
        Some(bytes) => r matches Ok(Some(v)) && v@ == bytes,
    }
}

/// The value that a column stands for.
pub fn value_of(column: Result<Column, turso::Error>) -> (r: StorageResult<Option<Vec<u8>>>)
    ensures
        match column {
            Ok(column) => is_value(r, cell_value(column@)),
            Err(e) => r == Err::<Option<Vec<u8>>, StorageError>(
                StorageError::Backend(BackendError::Turso(e)),
            ),
        },
        match column {
            Ok(Column::Blob(bytes)) => r matches Ok(Some(v)) && v@ == bytes@,
            Ok(_) => r matches Ok(None),
            Err(_) => r is Err,
        },
{
    match column {
        Ok(Column::Blob(bytes)) => Ok(Some(bytes)),
        Ok(_) => Ok(None),
        Err(e) => Err(StorageError::from(e)),
    }
}

/// The value in the first column of `row`, or no value where there is no row.
pub fn row_value(row: Option<turso::Row>) -> (r: StorageResult<Option<Vec<u8>>>)
    ensures
        match row {
            None => is_value(r, None),
            Some(row) => if row_columns(row).len() > 0 {
                is_value(r, cell_value(row_columns(row)[0]))
            } else {
                r == Err::<Option<Vec<u8>>, StorageError>(missing_column(0, 0))
            },
        },
{
    match row {
        None => Ok(None),
        Some(row) => value_of(row_column(&row, 0)),
    }
}

// ENTRIES
// ================================================================================================

/// What a row with a key and a value column holds.
pub enum Entry {
    /// A key and its value.
    Pair(Seq<u8>, Seq<u8>),
    /// A key that is not made of bytes.
    NonBlobKey,
    /// A value that is not made of bytes.
    NonBlobValue,
    /// One of the two columns is missing, with this error.
    Missing(StorageError),
}

/// What the columns of a row hold: the first is the key, the second the value.
pub open spec fn entry(columns: Seq<Cell>) -> Entry {
    if columns.len() == 0 {
        Entry::Missing(missing_column(0, 0))
    } else {
        match columns[0] {
            Cell::Blob(key) => if columns.len() == 1 {
                Entry::Missing(missing_column(1, 1))
            } else {
                match columns[1] {
                    Cell::Blob(value) => Entry::Pair(key, value),
                    _ => Entry::NonBlobValue,
                }
            },
            _ => Entry::NonBlobKey,
        }
    }
}

/// Whether `r` is the outcome `entry`.
pub open spec fn is_entry(r: StorageResult<(Vec<u8>, Vec<u8>)>, entry: Entry) -> bool {
    match entry {
        Entry::Pair(key, value) => r matches Ok((k, v)) && k@ == key && v@ == value,
        Entry::NonBlobKey => r matches Err(StorageError::Unsupported(text)) && text@
            == "non-blob key"@,
        Entry::NonBlobValue => r matches Err(StorageError::Unsupported(text)) && text@
            == "non-blob value"@,
        Entry::Missing(e) => r == Err::<(Vec<u8>, Vec<u8>), StorageError>(e),
    }
}

/// The key and the value of an entry, from its two columns. The value is looked at only where
/// the key is there and made of bytes.
pub fn entry_of(key: Result<Column, turso::Error>, value: Result<Column, turso::Error>) -> (r:
    StorageResult<(Vec<u8>, Vec<u8>)>)
    ensures
        match (key, value) {
            (Err(e), _) => r == Err::<(Vec<u8>, Vec<u8>), StorageError>(
                StorageError::Backend(BackendError::Turso(e)),
            ),
            (Ok(Column::Blob(_)), Err(e)) => r == Err::<(Vec<u8>, Vec<u8>), StorageError>(
                StorageError::Backend(BackendError::Turso(e)),
            ),
            (Ok(k), Err(_)) => is_entry(r, Entry::NonBlobKey),
            (Ok(k), Ok(v)) => is_entry(r, entry(seq![k@, v@])),
        },
        match (key, value) {
            (Ok(Column::Blob(k)), Ok(Column::Blob(v))) => r matches Ok((r0, r1)) && r0@ == k@
                && r1@ == v@,
            (Ok(Column::Blob(_)), Ok(_)) => r matches Err(StorageError::Unsupported(text)) && text@
                == "non-blob value"@,
            (Ok(Column::Blob(_)), Err(_)) => r is Err,
            (Ok(_), _) => r matches Err(StorageError::Unsupported(text)) && text@
                == "non-blob key"@,
            (Err(_), _) => r is Err,
        },
{
    let k = match key {
        Ok(Column::Blob(bytes)) => bytes,
        Ok(_) => {
            return Err(StorageError::Unsupported("non-blob key".to_owned()));
        },
        Err(e) => {
            return Err(StorageError::from(e));
        },
    };
    let v = match value {
        Ok(Column::Blob(bytes)) => bytes,
        Ok(_) => {
            return Err(StorageError::Unsupported("non-blob value".to_owned()));
        },
        Err(e) => {
            return Err(StorageError::from(e));
        },
    };
    Ok((k, v))
}

/// The key and the value in the first two columns of `row`.
pub fn row_entry(row: &turso::Row) -> (r: StorageResult<(Vec<u8>, Vec<u8>)>)
    ensures
        is_entry(r, entry(row_columns(*row))),
{
    entry_of(row_column(row, 0), row_column(row, 1))
}

// ITERATOR
// ================================================================================================

/// The entries of a table, as an iteration hands them out.
#[derive(Debug)]
pub enum TursoRowIter {
    /// The entries come from the rows of the query.
    Reading,
    /// The query could not be started; the error is the only item.
    Failed(StorageError),
    /// Nothing is left.
    Ended,
}

/// An item of an iteration.
pub enum TursoItem {
    /// There is no item.
    End,
    /// What a row holds.
    Row(Entry),
    /// An error.
    Error(StorageError),
}

/// Whether `r` is the item `item`.
pub open spec fn is_turso_item(
    r: Option<StorageResult<(Vec<u8>, Vec<u8>)>>,
    item: TursoItem,
) -> bool {
    match item {
        TursoItem::End => r is None,
        TursoItem::Row(e) => r matches Some(outcome) && is_entry(outcome, e),
        TursoItem::Error(e) => r == Some(Err::<(Vec<u8>, Vec<u8>), StorageError>(e)),
    }
}

/// What turso returned for the next row of a query.
pub type TursoFetched = Result<Option<turso::Row>, turso::Error>;

impl TursoRowIter {
    /// The iteration after the next item: only a row leaves it open.
    pub open spec fn after(self, fetched: TursoFetched) -> TursoRowIter {
        match (self, fetched) {
            (TursoRowIter::Reading, Ok(Some(_))) => TursoRowIter::Reading,
            _ => TursoRowIter::Ended,
        }
    }

    /// The next item: what the row holds, the error of the query, the error that kept the query
    /// from starting, or nothing.
    pub open spec fn item(self, fetched: TursoFetched) -> TursoItem {
        match self {
            TursoRowIter::Reading => match fetched {
                Ok(None) => TursoItem::End,
                Ok(Some(row)) => TursoItem::Row(entry(row_columns(row))),
                Err(e) => TursoItem::Error(StorageError::Backend(BackendError::Turso(e))),
            },
            TursoRowIter::Failed(e) => TursoItem::Error(e),
            TursoRowIter::Ended => TursoItem::End,
        }
    }
}

impl TursoRowIter {
    /// The iteration that follows the start of a query.
    pub fn new<T>(setup: Result<T, StorageError>) -> (r: Self)
        ensures
            r == (match setup {
                Ok(_) => TursoRowIter::Reading,
                Err(e) => TursoRowIter::Failed(e),
            }),
    {
        match setup {
            Ok(_) => TursoRowIter::Reading,
            Err(e) => TursoRowIter::Failed(e),
        }
    }

    /// Whether [`TursoRowIter::next`] needs the next row of the query.
    pub fn reads(&self) -> (r: bool)
        ensures
            r == (*self is Reading),
    {
        match self {
            TursoRowIter::Reading => true,
            _ => false,
        }
    }

    /// The iteration after this item, and the item. `fetched` is the next row of the query;
    /// where [`TursoRowIter::reads`] is false it is not looked at.
    ///
    /// A row that does not hold an entry is an error, and the iteration goes on; an error of the
    /// query itself ends it.
    pub fn next(self, fetched: TursoFetched) -> (r: (
        TursoRowIter,
        Option<StorageResult<(Vec<u8>, Vec<u8>)>>,
    ))
        ensures
            r.0 == self.after(fetched),
            is_turso_item(r.1, self.item(fetched)),
    {
        match self {
            TursoRowIter::Reading => match fetched {
                Ok(None) => (TursoRowIter::Ended, None),
                Ok(Some(row)) => (TursoRowIter::Reading, Some(row_entry(&row))),
                Err(e) => (TursoRowIter::Ended, Some(Err(StorageError::from(e)))),
            },
            TursoRowIter::Failed(e) => (TursoRowIter::Ended, Some(Err(e))),
            TursoRowIter::Ended => (TursoRowIter::Ended, None),
        }
    }
}

// LAWS
// ================================================================================================

/// What a column says is what it holds.
pub proof fn law_column_says_what_it_holds(column: Column)
    ensures
        match column {
            Column::Null => column@ == Cell::Null,
            Column::Integer(n) => column@ == Cell::Integer(n),
            Column::Real => column@ == Cell::Real,
            Column::Text(text) => column@ == Cell::Text(text@),
            Column::Blob(bytes) => column@ == Cell::Blob(bytes@),
        },
{
}

/// A read hands out all bytes of a column that holds bytes, and no value for any other column.
pub proof fn law_value_is_the_column(r: StorageResult<Option<Vec<u8>>>, cell: Cell)
    requires
        is_value(r, cell_value(cell)),
    ensures
        match cell {
            Cell::Blob(bytes) => r matches Ok(Some(v)) && v@ == bytes,
            _ => r matches Ok(None),
        },
{
}

/// Where there is no value to hand out, none is, and that is no error.
pub proof fn law_no_value(r: StorageResult<Option<Vec<u8>>>)
    requires
        is_value(r, None),
    ensures
        r matches Ok(None),
{
}

/// An entry is the first two columns of its row, the key first, where both hold bytes. A key, or
/// else a value, that does not is an error that says so; so is a column that is missing.
pub proof fn law_entry_is_the_row(r: StorageResult<(Vec<u8>, Vec<u8>)>, columns: Seq<Cell>)
    requires
        is_entry(r, entry(columns)),
    ensures
        columns.len() == 0 ==> (r matches Err(StorageError::Backend(BackendError::Turso(e))) && e
            == missing_column_error(0, 0)),
        columns.len() > 0 && !(columns[0] is Blob) ==> (r matches Err(
            StorageError::Unsupported(text),
        ) && text@ == "non-blob key"@),
        columns.len() == 1 && columns[0] is Blob ==> (r matches Err(
            StorageError::Backend(BackendError::Turso(e)),
        ) && e == missing_column_error(1, 1)),
        columns.len() > 1 && columns[0] is Blob && !(columns[1] is Blob) ==> (r matches Err(
            StorageError::Unsupported(text),
        ) && text@ == "non-blob value"@),
        columns.len() > 1 ==> (columns[0] matches Cell::Blob(key) ==> (
        columns[1] matches Cell::Blob(value) ==> (r matches Ok((k, v)) && k@ == key && v@
            == value))),
{
}

/// While the rows of its query come, an iteration hands out the entry of each row and goes on. It
/// is over after the last row, and after an error of the query, which it hands out.
pub proof fn law_iteration_hands_out_what_came(
    r: Option<StorageResult<(Vec<u8>, Vec<u8>)>>,
    fetched: TursoFetched,
)
    requires
        is_turso_item(r, TursoRowIter::Reading.item(fetched)),
    ensures
        match fetched {
            Ok(None) => r is None && TursoRowIter::Reading.after(fetched) is Ended,
            Ok(Some(row)) => {
                &&& r is Some
                &&& is_entry(r->0, entry(row_columns(row)))
                &&& TursoRowIter::Reading.after(fetched) is Reading
            },
            Err(e) => {
                &&& r == Some(
                    Err::<(Vec<u8>, Vec<u8>), StorageError>(
                        StorageError::Backend(BackendError::Turso(e)),
                    ),
                )
                &&& TursoRowIter::Reading.after(fetched) is Ended
            },
        },
{
}

/// An iteration whose query could not be started hands out that error and is over; one that is over
/// hands out nothing.
pub proof fn law_iteration_without_rows(
    r: Option<StorageResult<(Vec<u8>, Vec<u8>)>>,
    it: TursoRowIter,
    fetched: TursoFetched,
)
    requires
        !(it is Reading),
        is_turso_item(r, it.item(fetched)),
    ensures
        it.after(fetched) is Ended,
        match it {
            TursoRowIter::Failed(e) => r == Some(Err::<(Vec<u8>, Vec<u8>), StorageError>(e)),
            _ => r is None,
        },
{
}

/// A value is all bytes of its column, no value for a column that does not hold bytes, and the error
/// where the column could not be read.
pub proof fn law_value_of_outcome(
    column: Result<Column, turso::Error>,
    r: StorageResult<Option<Vec<u8>>>,
)
    requires
        call_ensures(value_of, (column,), r),
    ensures
        match column {
            Ok(Column::Blob(bytes)) => r matches Ok(Some(v)) && v@ == bytes@,
            Ok(_) => r matches Ok(None),
            Err(e) => r == Err::<Option<Vec<u8>>, StorageError>(
                StorageError::Backend(BackendError::Turso(e)),
            ),
        },
{
}

/// The value of a row is its first column.
pub proof fn law_row_value_outcome(row: turso::Row, r: StorageResult<Option<Vec<u8>>>)
    requires
        call_ensures(row_value, (Some(row),), r),
        row_columns(row).len() > 0,
    ensures
        match row_columns(row)[0] {
            Cell::Blob(bytes) => r matches Ok(Some(v)) && v@ == bytes,
            _ => r matches Ok(None),
        },
{
}

/// Without a row there is no value.
pub proof fn law_no_row_outcome(r: StorageResult<Option<Vec<u8>>>)
    requires
        call_ensures(row_value, (None,), r),
    ensures
        r matches Ok(None),
{
}

/// An entry is its two columns, the key first.
pub proof fn law_entry_of_outcome(
    key: Result<Column, turso::Error>,
    value: Result<Column, turso::Error>,
    r: StorageResult<(Vec<u8>, Vec<u8>)>,
)
    requires
        call_ensures(entry_of, (key, value), r),
    ensures
        match (key, value) {
            (Ok(Column::Blob(k)), Ok(Column::Blob(v))) => r matches Ok((r0, r1)) && r0@ == k@
                && r1@ == v@,
            (Ok(Column::Blob(_)), Ok(_)) => r matches Err(StorageError::Unsupported(text)) && text@
                == "non-blob value"@,
            (Ok(Column::Blob(_)), Err(e)) => r == Err::<(Vec<u8>, Vec<u8>), StorageError>(
                StorageError::Backend(BackendError::Turso(e)),
            ),
            (Ok(_), _) => r matches Err(StorageError::Unsupported(text)) && text@
                == "non-blob key"@,
            (Err(e), _) => r == Err::<(Vec<u8>, Vec<u8>), StorageError>(
                StorageError::Backend(BackendError::Turso(e)),
            ),
        },
{
}

/// The entry of a row is its first two columns, the key first.
pub proof fn law_row_entry_outcome(row: &turso::Row, r: StorageResult<(Vec<u8>, Vec<u8>)>)
    requires
        call_ensures(row_entry, (row,), r),
        row_columns(*row).len() > 1,
    ensures
        match (row_columns(*row)[0], row_columns(*row)[1]) {
            (Cell::Blob(k), Cell::Blob(v)) => r matches Ok((r0, r1)) && r0@ == k && r1@ == v,
            (Cell::Blob(_), _) => r matches Err(StorageError::Unsupported(text)) && text@
                == "non-blob value"@,
            _ => r matches Err(StorageError::Unsupported(text)) && text@ == "non-blob key"@,
        },
{
}

/// An iteration reads its query exactly where the query could be started; else it hands out the
/// error.
pub proof fn law_row_iter_starts<T>(
    setup: Result<T, StorageError>,
    it: TursoRowIter,
    reads: bool,
)
    requires
        call_ensures(TursoRowIter::new::<T>, (setup,), it),
        call_ensures(TursoRowIter::reads, (&it,), reads),
    ensures
        reads == (setup is Ok),
        match setup {
            Ok(_) => it is Reading,
            Err(e) => it == TursoRowIter::Failed(e),
        },
{
}

/// The next item of an iteration is the entry of the row that came, and the iteration goes on; or
/// the error of the query, or the end, and it is over.
pub proof fn law_next_outcome(
    it: TursoRowIter,
    fetched: TursoFetched,
    r: (TursoRowIter, Option<StorageResult<(Vec<u8>, Vec<u8>)>>),
)
    requires
        call_ensures(TursoRowIter::next, (it, fetched), r),
    ensures
        match it {
            TursoRowIter::Reading => match fetched {
                Ok(None) => r.0 is Ended && r.1 is None,
                Ok(Some(row)) => r.0 is Reading && r.1 is Some && is_entry(
                    r.1->0,
                    entry(row_columns(row)),
                ),
                Err(e) => r.0 is Ended && r.1 == Some(
                    Err::<(Vec<u8>, Vec<u8>), StorageError>(
                        StorageError::Backend(BackendError::Turso(e)),
                    ),
                ),
            },
            TursoRowIter::Failed(e) => r.0 is Ended && r.1 == Some(
                Err::<(Vec<u8>, Vec<u8>), StorageError>(e),
            ),
            TursoRowIter::Ended => r.0 is Ended && r.1 is None,
        },
{
}

} // verus!
