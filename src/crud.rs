//! The CRUD surface of the tables: what each write answers, and which statement and values each operation runs.

use vstd::prelude::*;

use crate::lookup::{database_error, part_failure, rows_of, LookupError};
use crate::row::{all_read, column_value, map_rows, Column, DbRow, DbValue, FromRow};
use crate::sql::{delete_sql, insert_sql, names, select_sql, update_sql, TableSpec};

verus! {

/// The write operations of a table.
#[derive(Clone, Copy, Debug, PartialEq, Eq, Structural)]
pub enum WriteKind {
    Create,
    Update,
    Delete,
}

/// The answer to a write.
#[derive(Clone, Debug)]
pub enum WriteOutcome {
    /// The store changed this many rows; status 200 with `{"rows_affected": n}`.
    Affected(u64),
    /// An update or delete matched no row; status 404.
    NotFound,
    /// The store failed; status 500 with the text.
    Failed(String),
}

impl WriteOutcome {
    pub fn status(&self) -> (r: u16)
        ensures
            r == match self {
                WriteOutcome::Affected(_) => 200u16,
                WriteOutcome::NotFound => 404u16,
                WriteOutcome::Failed(_) => 500u16,
            },
    {
        match self {
            WriteOutcome::Affected(_) => 200,
            WriteOutcome::NotFound => 404,
            WriteOutcome::Failed(_) => 500,
        }
    }

    /// The text of an error body; empty for a success.
    pub fn message(&self) -> (r: String)
        ensures
            r@ == match self {
                WriteOutcome::Affected(_) => Seq::<char>::empty(),
                WriteOutcome::NotFound => "Item not found"@,
                WriteOutcome::Failed(m) => m@,
            },
    {
        match self {
            WriteOutcome::Affected(_) => String::new(),
            WriteOutcome::NotFound => String::from_str("Item not found"),
            WriteOutcome::Failed(m) => m.clone(),
        }
    }
}

/// Whether a write that changed no row is reported as not found: an update or a delete
/// names an existing key, a create does not.
pub open spec fn needs_match(kind: WriteKind) -> bool {
    kind == WriteKind::Update || kind == WriteKind::Delete
}

/// The answer to a write from what the store reported: the number of rows it changed, or
/// its error text.
pub fn write_outcome(kind: WriteKind, result: Result<u64, String>) -> (r: WriteOutcome)
    ensures
        match result {
            Err(m) => r matches WriteOutcome::Failed(t) && t@ == database_error(m@),
            Ok(n) => if n == 0 && needs_match(kind) {
                r matches WriteOutcome::NotFound
            } else {
                r matches WriteOutcome::Affected(k) && k == n
            },
        },
{
    match result {
        Err(m) => WriteOutcome::Failed(String::from_str("Database error: ").concat(m.as_str())),
        Ok(n) => if n == 0 && (kind == WriteKind::Update || kind == WriteKind::Delete) {
            WriteOutcome::NotFound
        } else {
            WriteOutcome::Affected(n)
        },
    }
}

/// The records of a full table scan, in the store's row order, or the failure.
pub fn read_table<T: FromRow>(rows: Result<Vec<DbRow>, String>) -> (r: Result<Vec<T>, LookupError>)
    ensures
        match part_failure::<T>(rows) {
            Some(m) => r matches Err(LookupError::Failed(t)) && t@ == database_error(m),
            None => r matches Ok(items) && all_read(items@, rows_of(rows)),
        },
{
    match rows {
        Err(m) => Err(LookupError::Failed(String::from_str("Database error: ").concat(m.as_str()))),
        Ok(rows) => match map_rows::<T>(&rows) {
            Ok(items) => Ok(items),
            Err(e) => Err(
                LookupError::Failed(String::from_str("Database error: ").concat(e.describe().as_str())),
            ),
        },
    }
}

/// Each cell of `row` is named after the column at its position and holds the value at
/// its position.
pub open spec fn row_holds(row: Seq<Column>, cols: Seq<Seq<char>>, vals: Seq<DbValue>) -> bool {
    &&& row.len() == cols.len()
    &&& vals.len() == cols.len()
    &&& forall|i: int| 0 <= i < row.len() ==> (#[trigger] row[i]).name@ == cols[i] && row[i].value == vals[i]
}

/// The cell for a nullable text field.
pub open spec fn text_or_null(o: Option<String>) -> DbValue {
    match o {
        Some(s) => DbValue::Text(s),
        None => DbValue::Null,
    }
}

/// The cell for a nullable integer field.
pub open spec fn int_or_null(o: Option<i32>) -> DbValue {
    match o {
        Some(v) => DbValue::Int(v as i64),
        None => DbValue::Null,
    }
}

pub fn text_or_null_value(o: &Option<String>) -> (r: DbValue)
    ensures
        r == text_or_null(*o),
{
    match o {
        Some(s) => DbValue::Text(s.clone()),
        None => DbValue::Null,
    }
}

pub fn int_or_null_value(o: Option<i32>) -> (r: DbValue)
    ensures
        r == int_or_null(o),
{
    match o {
        Some(v) => DbValue::Int(v as i64),
        None => DbValue::Null,
    }
}

/// A named column that stands at `i` and nowhere before is found there.
pub proof fn lemma_column_at(row: Seq<Column>, name: Seq<char>, i: int)
    requires
        0 <= i < row.len(),
        row[i].name@ == name,
        forall|j: int| 0 <= j < i ==> (#[trigger] row[j]).name@ != name,
    ensures
        column_value(row, name) == Some(row[i].value),
{
    lemma_column_from(row, name, 0, i);
}

proof fn lemma_column_from(row: Seq<Column>, name: Seq<char>, k: int, i: int)
    requires
        0 <= k <= i < row.len(),
        row[i].name@ == name,
        forall|j: int| 0 <= j < i ==> (#[trigger] row[j]).name@ != name,
    ensures
        crate::row::column_from(row, name, k) == Some(row[i].value),
    decreases i - k,
{
    if k < i {
        lemma_column_from(row, name, k + 1, i);
    }
}

/// A record kept in a table of the CRUD surface, whose key columns come first.
pub trait Record: FromRow {
    spec fn table_name() -> Seq<char>;

    spec fn key_columns() -> Seq<Seq<char>>;

    spec fn attr_columns() -> Seq<Seq<char>>;

    /// The store assigns the key on insert.
    spec fn generated_key() -> bool;

    /// The record's key values, in key column order.
    spec fn key_spec(&self) -> Seq<DbValue>;

    /// The record's other values, in column order.
    spec fn attrs_spec(&self) -> Seq<DbValue>;

    fn table() -> (r: TableSpec)
        ensures
            r.wf(),
            r.name@ == Self::table_name(),
            names(r.key@) == Self::key_columns(),
            names(r.attrs@) == Self::attr_columns(),
            r.generated_key == Self::generated_key(),
    ;

    fn key_values(&self) -> (r: Vec<DbValue>)
        ensures
            r@ == self.key_spec(),
    ;

    fn attr_values(&self) -> (r: Vec<DbValue>)
        ensures
            r@ == self.attrs_spec(),
    ;

    /// A row holding the record's values under the table's columns reads back as the
    /// record: what is written is what a later scan lists.
    proof fn lemma_read_back(&self, row: Seq<Column>)
        requires
            row_holds(row, Self::key_columns() + Self::attr_columns(), self.key_spec() + self.attrs_spec()),
        ensures
            Self::row_fault(row) is None,
            self.read_from(row),
    ;
}

/// The columns that a create of a `T` supplies.
pub open spec fn insert_columns_of<T: Record>() -> Seq<Seq<char>> {
    if T::generated_key() {
        T::attr_columns()
    } else {
        T::key_columns() + T::attr_columns()
    }
}

/// A record to create; the store adds the key where it assigns one.
pub trait NewRecord: Sized {
    type Stored: Record;

    /// The values a create binds, in the order of the table's insert columns.
    spec fn insert_spec(&self) -> Seq<DbValue>;

    fn insert_values(&self) -> (r: Vec<DbValue>)
        ensures
            r@ == self.insert_spec(),
            r@.len() == insert_columns_of::<Self::Stored>().len(),
    ;

    /// Each field of `self` is the value of its column in `row`.
    spec fn listed_in(&self, row: Seq<Column>) -> bool;

    /// Create followed by list: a row that holds what the create bound, after the id the
    /// store assigned where it assigns one, is read without fault, and each created field
    /// is the value of its column there.
    proof fn lemma_created_lists(&self, id: i32, row: Seq<Column>)
        requires
            row_holds(
                row,
                Self::Stored::key_columns() + Self::Stored::attr_columns(),
                if Self::Stored::generated_key() {
                    seq![DbValue::Int(id as i64)] + self.insert_spec()
                } else {
                    self.insert_spec()
                },
            ),
        ensures
            <Self::Stored as FromRow>::row_fault(row) is None,
            self.listed_in(row),
    ;
}

/// The statement that lists every row of `T`'s table.
pub fn list_request<T: Record>() -> (r: String)
    ensures
        r@ == select_sql(T::table_name()),
{
    T::table().select_statement()
}

/// The statement and values that create `item`.
pub fn create_request<N: NewRecord>(item: &N) -> (r: (String, Vec<DbValue>))
    ensures
        r.0@ == insert_sql(N::Stored::table_name(), insert_columns_of::<N::Stored>()),
        r.1@ == item.insert_spec(),
        r.1@.len() == insert_columns_of::<N::Stored>().len(),
{
    let t = N::Stored::table();
    (t.insert_statement(), item.insert_values())
}

/// The statement and values that replace the non-key columns of `item`'s row, found by
/// its key: every supplied field is written, and no other row is touched.
pub fn update_request<T: Record>(item: &T) -> (r: (String, Vec<DbValue>))
    ensures
        r.0@ == update_sql(T::table_name(), T::key_columns(), T::attr_columns()),
        r.1@ == item.key_spec() + item.attrs_spec(),
{
    let t = T::table();
    let mut values = item.key_values();
    let mut rest = item.attr_values();
    values.append(&mut rest);
    (t.update_statement(), values)
}

/// The statement that deletes the row with key `key`, and the values it binds.
pub fn delete_request<T: Record>(key: Vec<DbValue>) -> (r: (String, Vec<DbValue>))
    ensures
        r.0@ == delete_sql(T::table_name(), T::key_columns()),
        r.1@ == key@,
{
    let t = T::table();
    (t.delete_statement(), key)
}

} // verus!
