//! Result rows as plain values, and reading typed fields out of them.

use vstd::prelude::*;

use crate::values::{CalendarDate, DecimalValue};

verus! {

/// One cell of a result row, decoded from the store's column type.
///
/// Integer columns of any width arrive as `Int`; narrowing to a field's own width is
/// checked when a record is read.
#[derive(Clone, Debug)]
pub enum DbValue {
    Null,
    Bool(bool),
    Int(i64),
    Text(String),
    Date(CalendarDate),
    Decimal(DecimalValue),
}

/// A named cell.
#[derive(Clone, Debug)]
pub struct Column {
    pub name: String,
    pub value: DbValue,
}

/// One row of a query result: its cells in the order the query lists them.
#[derive(Clone, Debug)]
pub struct DbRow {
    pub columns: Vec<Column>,
}

impl View for DbRow {
    type V = Seq<Column>;

    open spec fn view(&self) -> Seq<Column> {
        self.columns@
    }
}

/// Why a column could not be read into a field.
#[derive(Clone, Copy, Debug, PartialEq, Eq, Structural)]
pub enum FaultKind {
    /// The row has no column of that name.
    Missing,
    /// The column is NULL where the field is required.
    UnexpectedNull,
    /// The column holds a value of another type.
    WrongType,
    /// The integer does not fit the field's width.
    OutOfRange,
}

/// A row that does not have the shape of the record it is read into.
#[derive(Clone, Debug)]
pub struct MappingError {
    pub column: String,
    pub kind: FaultKind,
}

/// A fault: the column's name and what is wrong with it.
pub type Fault = (Seq<char>, FaultKind);

impl View for MappingError {
    type V = Fault;

    open spec fn view(&self) -> Fault {
        (self.column@, self.kind)
    }
}

/// The value of the first column at or after `i` that is called `name`.
pub open spec fn column_from(row: Seq<Column>, name: Seq<char>, i: int) -> Option<DbValue>
    decreases row.len() - i,
{
    if i < 0 || i >= row.len() {
        None
    } else if row[i].name@ == name {
        Some(row[i].value)
    } else {
        column_from(row, name, i + 1)
    }
}

/// The value of the first column called `name`, if any.
pub open spec fn column_value(row: Seq<Column>, name: Seq<char>) -> Option<DbValue> {
    column_from(row, name, 0)
}

pub open spec fn opt_text(o: Option<String>) -> Option<Seq<char>> {
    match o {
        Some(s) => Some(s@),
        None => None,
    }
}

pub open spec fn fits_i32(v: i64) -> bool {
    i32::MIN <= v <= i32::MAX
}

/// A required text column.
pub open spec fn col_text(row: Seq<Column>, name: Seq<char>) -> Result<Seq<char>, Fault> {
    match column_value(row, name) {
        None => Err((name, FaultKind::Missing)),
        Some(DbValue::Null) => Err((name, FaultKind::UnexpectedNull)),
        Some(DbValue::Text(s)) => Ok(s@),
        Some(_) => Err((name, FaultKind::WrongType)),
    }
}

/// A nullable text column.
pub open spec fn col_opt_text(row: Seq<Column>, name: Seq<char>) -> Result<
    Option<Seq<char>>,
    Fault,
> {
    match column_value(row, name) {
        None => Err((name, FaultKind::Missing)),
        Some(DbValue::Null) => Ok(None),
        Some(DbValue::Text(s)) => Ok(Some(s@)),
        Some(_) => Err((name, FaultKind::WrongType)),
    }
}

/// A required 32-bit integer column.
pub open spec fn col_i32(row: Seq<Column>, name: Seq<char>) -> Result<i32, Fault> {
    match column_value(row, name) {
        None => Err((name, FaultKind::Missing)),
        Some(DbValue::Null) => Err((name, FaultKind::UnexpectedNull)),
        Some(DbValue::Int(v)) => if fits_i32(v) {
            Ok(v as i32)
        } else {
            Err((name, FaultKind::OutOfRange))
        },
        Some(_) => Err((name, FaultKind::WrongType)),
    }
}

/// A nullable 32-bit integer column.
pub open spec fn col_opt_i32(row: Seq<Column>, name: Seq<char>) -> Result<Option<i32>, Fault> {
    match column_value(row, name) {
        None => Err((name, FaultKind::Missing)),
        Some(DbValue::Null) => Ok(None),
        Some(DbValue::Int(v)) => if fits_i32(v) {
            Ok(Some(v as i32))
        } else {
            Err((name, FaultKind::OutOfRange))
        },
        Some(_) => Err((name, FaultKind::WrongType)),
    }
}

/// A required boolean column.
pub open spec fn col_bool(row: Seq<Column>, name: Seq<char>) -> Result<bool, Fault> {
    match column_value(row, name) {
        None => Err((name, FaultKind::Missing)),
        Some(DbValue::Null) => Err((name, FaultKind::UnexpectedNull)),
        Some(DbValue::Bool(b)) => Ok(b),
        Some(_) => Err((name, FaultKind::WrongType)),
    }
}

/// A required date column.
pub open spec fn col_date(row: Seq<Column>, name: Seq<char>) -> Result<CalendarDate, Fault> {
    match column_value(row, name) {
        None => Err((name, FaultKind::Missing)),
        Some(DbValue::Null) => Err((name, FaultKind::UnexpectedNull)),
        Some(DbValue::Date(d)) => Ok(d),
        Some(_) => Err((name, FaultKind::WrongType)),
    }
}

/// A nullable date column.
pub open spec fn col_opt_date(row: Seq<Column>, name: Seq<char>) -> Result<
    Option<CalendarDate>,
    Fault,
> {
    match column_value(row, name) {
        None => Err((name, FaultKind::Missing)),
        Some(DbValue::Null) => Ok(None),
        Some(DbValue::Date(d)) => Ok(Some(d)),
        Some(_) => Err((name, FaultKind::WrongType)),
    }
}

/// A required decimal column.
pub open spec fn col_decimal(row: Seq<Column>, name: Seq<char>) -> Result<DecimalValue, Fault> {
    match column_value(row, name) {
        None => Err((name, FaultKind::Missing)),
        Some(DbValue::Null) => Err((name, FaultKind::UnexpectedNull)),
        Some(DbValue::Decimal(d)) => Ok(d),
        Some(_) => Err((name, FaultKind::WrongType)),
    }
}

/// A nullable decimal column.
pub open spec fn col_opt_decimal(row: Seq<Column>, name: Seq<char>) -> Result<
    Option<DecimalValue>,
    Fault,
> {
    match column_value(row, name) {
        None => Err((name, FaultKind::Missing)),
        Some(DbValue::Null) => Ok(None),
        Some(DbValue::Decimal(d)) => Ok(Some(d)),
        Some(_) => Err((name, FaultKind::WrongType)),
    }
}

/// The first fault of a sequence of column reads: `prev` if there was one, else that of `r`.
pub open spec fn then_fault<T>(prev: Option<Fault>, r: Result<T, Fault>) -> Option<Fault> {
    match prev {
        Some(f) => Some(f),
        None => match r {
            Ok(_) => None,
            Err(f) => Some(f),
        },
    }
}

/// Relates the exec result of a column read to its spec.
pub open spec fn read_agrees<T, U>(r: Result<T, MappingError>, s: Result<U, Fault>, v: spec_fn(T) -> U) -> bool {
    match r {
        Ok(x) => s == Ok::<U, Fault>(v(x)),
        Err(e) => s == Err::<U, Fault>(e@),
    }
}

/// Index of the first column called `name`.
fn find_column(row: &DbRow, name: &str) -> (r: Option<usize>)
    ensures
        match r {
            Some(i) => i < row@.len() && column_value(row@, name@) == Some(row@[i as int].value),
            None => column_value(row@, name@) is None,
        },
{
    let key = String::from_str(name);
    let n = row.columns.len();
    let mut i: usize = 0;
    while i < n
        invariant
            n == row@.len(),
            i <= n,
            key@ == name@,
            column_value(row@, name@) == column_from(row@, name@, i as int),
        decreases n - i,
    {
        if row.columns[i].name == key {
            return Some(i);
        }
        i = i + 1;
    }
    None
}

fn fault(name: &str, kind: FaultKind) -> (e: MappingError)
    ensures
        e@ == (name@, kind),
{
    MappingError { column: String::from_str(name), kind }
}

/// Reads a required text column.
pub fn read_text(row: &DbRow, name: &str) -> (r: Result<String, MappingError>)
    ensures
        read_agrees(r, col_text(row@, name@), |s: String| s@),
{
    match find_column(row, name) {
        None => Err(fault(name, FaultKind::Missing)),
        Some(i) => match &row.columns[i].value {
            DbValue::Null => Err(fault(name, FaultKind::UnexpectedNull)),
            DbValue::Text(s) => Ok(s.clone()),
            _ => Err(fault(name, FaultKind::WrongType)),
        },
    }
}

/// Reads a nullable text column.
pub fn read_opt_text(row: &DbRow, name: &str) -> (r: Result<Option<String>, MappingError>)
    ensures
        read_agrees(r, col_opt_text(row@, name@), |o: Option<String>| opt_text(o)),
{
    match find_column(row, name) {
        None => Err(fault(name, FaultKind::Missing)),
        Some(i) => match &row.columns[i].value {
            DbValue::Null => Ok(None),
            DbValue::Text(s) => Ok(Some(s.clone())),
            _ => Err(fault(name, FaultKind::WrongType)),
        },
    }
}

/// Reads a required 32-bit integer column; a wider value that does not fit fails.
pub fn read_i32(row: &DbRow, name: &str) -> (r: Result<i32, MappingError>)
    ensures
        read_agrees(r, col_i32(row@, name@), |x: i32| x),
{
    match find_column(row, name) {
        None => Err(fault(name, FaultKind::Missing)),
        Some(i) => match &row.columns[i].value {
            DbValue::Null => Err(fault(name, FaultKind::UnexpectedNull)),
            DbValue::Int(v) => if i32::MIN as i64 <= *v && *v <= i32::MAX as i64 {
                Ok(*v as i32)
            } else {
                Err(fault(name, FaultKind::OutOfRange))
            },
            _ => Err(fault(name, FaultKind::WrongType)),
        },
    }
}

/// Reads a nullable 32-bit integer column; a wider value that does not fit fails.
pub fn read_opt_i32(row: &DbRow, name: &str) -> (r: Result<Option<i32>, MappingError>)
    ensures
        read_agrees(r, col_opt_i32(row@, name@), |x: Option<i32>| x),
{
    match find_column(row, name) {
        None => Err(fault(name, FaultKind::Missing)),
        Some(i) => match &row.columns[i].value {
            DbValue::Null => Ok(None),
            DbValue::Int(v) => if i32::MIN as i64 <= *v && *v <= i32::MAX as i64 {
                Ok(Some(*v as i32))
            } else {
                Err(fault(name, FaultKind::OutOfRange))
            },
            _ => Err(fault(name, FaultKind::WrongType)),
        },
    }
}

/// Reads a required boolean column.
pub fn read_bool(row: &DbRow, name: &str) -> (r: Result<bool, MappingError>)
    ensures
        read_agrees(r, col_bool(row@, name@), |x: bool| x),
{
    match find_column(row, name) {
        None => Err(fault(name, FaultKind::Missing)),
        Some(i) => match &row.columns[i].value {
            DbValue::Null => Err(fault(name, FaultKind::UnexpectedNull)),
            DbValue::Bool(b) => Ok(*b),
            _ => Err(fault(name, FaultKind::WrongType)),
        },
    }
}

/// Reads a required date column.
pub fn read_date(row: &DbRow, name: &str) -> (r: Result<CalendarDate, MappingError>)
    ensures
        read_agrees(r, col_date(row@, name@), |x: CalendarDate| x),
{
    match find_column(row, name) {
        None => Err(fault(name, FaultKind::Missing)),
        Some(i) => match &row.columns[i].value {
            DbValue::Null => Err(fault(name, FaultKind::UnexpectedNull)),
            DbValue::Date(d) => Ok(*d),
            _ => Err(fault(name, FaultKind::WrongType)),
        },
    }
}

/// Reads a nullable date column.
pub fn read_opt_date(row: &DbRow, name: &str) -> (r: Result<Option<CalendarDate>, MappingError>)
    ensures
        read_agrees(r, col_opt_date(row@, name@), |x: Option<CalendarDate>| x),
{
    match find_column(row, name) {
        None => Err(fault(name, FaultKind::Missing)),
        Some(i) => match &row.columns[i].value {
            DbValue::Null => Ok(None),
            DbValue::Date(d) => Ok(Some(*d)),
            _ => Err(fault(name, FaultKind::WrongType)),
        },
    }
}

/// Reads a required decimal column.
pub fn read_decimal(row: &DbRow, name: &str) -> (r: Result<DecimalValue, MappingError>)
    ensures
        read_agrees(r, col_decimal(row@, name@), |x: DecimalValue| x),
{
    match find_column(row, name) {
        None => Err(fault(name, FaultKind::Missing)),
        Some(i) => match &row.columns[i].value {
            DbValue::Null => Err(fault(name, FaultKind::UnexpectedNull)),
            DbValue::Decimal(d) => Ok(*d),
            _ => Err(fault(name, FaultKind::WrongType)),
        },
    }
}

/// Reads a nullable decimal column.
pub fn read_opt_decimal(row: &DbRow, name: &str) -> (r: Result<Option<DecimalValue>, MappingError>)
    ensures
        read_agrees(r, col_opt_decimal(row@, name@), |x: Option<DecimalValue>| x),
{
    match find_column(row, name) {
        None => Err(fault(name, FaultKind::Missing)),
        Some(i) => match &row.columns[i].value {
            DbValue::Null => Ok(None),
            DbValue::Decimal(d) => Ok(Some(*d)),
            _ => Err(fault(name, FaultKind::WrongType)),
        },
    }
}

/// A record that is read from one result row.
pub trait FromRow: Sized {
    /// The first column of the record's shape that `row` cannot supply, if any.
    spec fn row_fault(row: Seq<Column>) -> Option<Fault>;

    /// Each field of `self` is the value of its column in `row`.
    spec fn read_from(&self, row: Seq<Column>) -> bool;

    fn from_row(row: &DbRow) -> (r: Result<Self, MappingError>)
        ensures
            match r {
                Ok(v) => Self::row_fault(row@) is None && v.read_from(row@),
                Err(e) => Self::row_fault(row@) == Some(e@),
            },
    ;
}

/// Every row of `rows` yields the record at the same position of `items`.
pub open spec fn all_read<T: FromRow>(items: Seq<T>, rows: Seq<DbRow>) -> bool {
    items.len() == rows.len() && forall|i: int| 0 <= i < rows.len() ==> #[trigger] items[i].read_from(rows[i]@)
}

/// The fault of the first row at or after `i` that has one.
pub open spec fn rows_fault_from<T: FromRow>(rows: Seq<DbRow>, i: int) -> Option<Fault>
    decreases rows.len() - i,
{
    if i < 0 || i >= rows.len() {
        None
    } else if T::row_fault(rows[i]@) is Some {
        T::row_fault(rows[i]@)
    } else {
        rows_fault_from::<T>(rows, i + 1)
    }
}

/// The fault of the first row of `rows` that has one.
pub open spec fn rows_fault<T: FromRow>(rows: Seq<DbRow>) -> Option<Fault> {
    rows_fault_from::<T>(rows, 0)
}

/// Reads every row, keeping their order; fails on the first row that has a fault.
pub fn map_rows<T: FromRow>(rows: &Vec<DbRow>) -> (r: Result<Vec<T>, MappingError>)
    ensures
        match r {
            Ok(items) => rows_fault::<T>(rows@) is None && all_read(items@, rows@),
            Err(e) => rows_fault::<T>(rows@) == Some(e@),
        },
{
    let mut items: Vec<T> = Vec::new();
    let n = rows.len();
    let mut i: usize = 0;
    while i < n
        invariant
            n == rows@.len(),
            i <= n,
            items@.len() == i,
            forall|j: int| 0 <= j < i ==> #[trigger] items@[j].read_from(rows@[j]@),
            rows_fault::<T>(rows@) == rows_fault_from::<T>(rows@, i as int),
        decreases n - i,
    {
        match T::from_row(&rows[i]) {
            Ok(v) => {
                items.push(v);
            },
            Err(e) => {
                return Err(e);
            },
        }
        i = i + 1;
    }
    Ok(items)
}

/// A required 32-bit integer in the column at `i`.
pub open spec fn col_i32_at(row: Seq<Column>, i: int) -> Result<i32, Fault> {
    if 0 <= i < row.len() {
        match row[i].value {
            DbValue::Null => Err((row[i].name@, FaultKind::UnexpectedNull)),
            DbValue::Int(v) => if fits_i32(v) {
                Ok(v as i32)
            } else {
                Err((row[i].name@, FaultKind::OutOfRange))
            },
            _ => Err((row[i].name@, FaultKind::WrongType)),
        }
    } else {
        Err((Seq::empty(), FaultKind::Missing))
    }
}

/// Reads a required 32-bit integer from the column at `i`.
pub fn read_i32_at(row: &DbRow, i: usize) -> (r: Result<i32, MappingError>)
    ensures
        read_agrees(r, col_i32_at(row@, i as int), |x: i32| x),
{
    if i >= row.columns.len() {
        return Err(MappingError { column: String::new(), kind: FaultKind::Missing });
    }
    let c = &row.columns[i];
    match &c.value {
        DbValue::Null => Err(MappingError { column: c.name.clone(), kind: FaultKind::UnexpectedNull }),
        DbValue::Int(v) => if i32::MIN as i64 <= *v && *v <= i32::MAX as i64 {
            Ok(*v as i32)
        } else {
            Err(MappingError { column: c.name.clone(), kind: FaultKind::OutOfRange })
        },
        _ => Err(MappingError { column: c.name.clone(), kind: FaultKind::WrongType }),
    }
}

pub open spec fn fault_kind_text(k: FaultKind) -> Seq<char> {
    match k {
        FaultKind::Missing => " is missing"@,
        FaultKind::UnexpectedNull => " is null"@,
        FaultKind::WrongType => " has an unexpected type"@,
        FaultKind::OutOfRange => " is out of range"@,
    }
}

/// How a fault reads in an error message.
pub open spec fn fault_text(f: Fault) -> Seq<char> {
    "column "@ + f.0 + fault_kind_text(f.1)
}

impl MappingError {
    /// The error as text: the column and what is wrong with it.
    pub fn describe(&self) -> (r: String)
        ensures
            r@ == fault_text(self@),
    {
        let kind = match self.kind {
            FaultKind::Missing => " is missing",
            FaultKind::UnexpectedNull => " is null",
            FaultKind::WrongType => " has an unexpected type",
            FaultKind::OutOfRange => " is out of range",
        };
        String::from_str("column ").concat(self.column.as_str()).concat(kind)
    }
}

} // verus!
