//! Table descriptors and the statements they give.

use vstd::prelude::*;

verus! {

/// A table of the CRUD surface: its name, its key columns and its other columns, each in
/// the order that statements list them.
#[derive(Clone, Debug)]
pub struct TableSpec {
    pub name: String,
    pub key: Vec<String>,
    pub attrs: Vec<String>,
    /// The store assigns the key on insert; a create then names only the other columns.
    pub generated_key: bool,
}

pub open spec fn names(v: Seq<String>) -> Seq<Seq<char>> {
    v.map_values(|s: String| s@)
}

/// Upper bound on the number of columns a table may have.
pub const MAX_COLUMNS: usize = 1000;

impl TableSpec {
    /// A table has at least one key column, and a bounded number of columns.
    pub open spec fn wf(&self) -> bool {
        &&& self.key@.len() >= 1
        &&& self.key@.len() + self.attrs@.len() <= MAX_COLUMNS
    }

    /// All columns, key first.
    pub open spec fn columns(&self) -> Seq<Seq<char>> {
        names(self.key@) + names(self.attrs@)
    }

    /// The columns a create supplies.
    pub open spec fn insert_columns(&self) -> Seq<Seq<char>> {
        if self.generated_key {
            names(self.attrs@)
        } else {
            self.columns()
        }
    }
}

/// `items` separated by `sep`.
pub open spec fn join(items: Seq<Seq<char>>, sep: Seq<char>) -> Seq<char>
    decreases items.len(),
{
    if items.len() == 0 {
        Seq::empty()
    } else if items.len() == 1 {
        items[0]
    } else {
        join(items.drop_last(), sep) + sep + items.last()
    }
}

pub open spec fn digit(d: nat) -> char {
    if d == 0 {
        '0'
    } else if d == 1 {
        '1'
    } else if d == 2 {
        '2'
    } else if d == 3 {
        '3'
    } else if d == 4 {
        '4'
    } else if d == 5 {
        '5'
    } else if d == 6 {
        '6'
    } else if d == 7 {
        '7'
    } else if d == 8 {
        '8'
    } else {
        '9'
    }
}

/// The decimal digits of `n`.
pub open spec fn decimal(n: nat) -> Seq<char>
    decreases n,
{
    if n < 10 {
        seq![digit(n)]
    } else {
        decimal(n / 10) + seq![digit(n % 10)]
    }
}

/// The `i`-th statement parameter, counted from 1.
pub open spec fn placeholder(i: nat) -> Seq<char> {
    "$"@ + decimal(i)
}

/// Parameters `from + 1` to `from + count`.
pub open spec fn placeholders(from: nat, count: nat) -> Seq<Seq<char>> {
    Seq::new(count, |i: int| placeholder((from + i + 1) as nat))
}

/// `column = $n` for each column, numbering from `offset + 1`.
pub open spec fn assignments(cols: Seq<Seq<char>>, offset: nat) -> Seq<Seq<char>> {
    Seq::new(cols.len(), |i: int| cols[i] + " = "@ + placeholder((offset + i + 1) as nat))
}

pub open spec fn select_sql(table: Seq<char>) -> Seq<char> {
    "SELECT * FROM "@ + table
}

/// Inserts one row, binding one value per column of `cols`, in order.
pub open spec fn insert_sql(table: Seq<char>, cols: Seq<Seq<char>>) -> Seq<char> {
    "INSERT INTO "@ + table + " ("@ + join(cols, ", "@) + ") VALUES ("@ + join(
        placeholders(0, cols.len()),
        ", "@,
    ) + ")"@
}

/// Replaces every column of `attrs` in the row with the given key: the key values are
/// bound first, then the values of `attrs`.
pub open spec fn update_sql(table: Seq<char>, key: Seq<Seq<char>>, attrs: Seq<Seq<char>>) -> Seq<
    char,
> {
    "UPDATE "@ + table + " SET "@ + join(assignments(attrs, key.len()), ", "@) + " WHERE "@ + join(
        assignments(key, 0),
        " AND "@,
    )
}

/// Deletes the row with the given key, its values bound in key order.
pub open spec fn delete_sql(table: Seq<char>, key: Seq<Seq<char>>) -> Seq<char> {
    "DELETE FROM "@ + table + " WHERE "@ + join(assignments(key, 0), " AND "@)
}

fn digit_str(d: usize) -> (r: &'static str)
    requires
        d < 10,
    ensures
        r@ == seq![digit(d as nat)],
{
    proof {
        reveal_strlit("0");
        reveal_strlit("1");
        reveal_strlit("2");
        reveal_strlit("3");
        reveal_strlit("4");
        reveal_strlit("5");
        reveal_strlit("6");
        reveal_strlit("7");
        reveal_strlit("8");
        reveal_strlit("9");
    }
    if d == 0 {
        "0"
    } else if d == 1 {
        "1"
    } else if d == 2 {
        "2"
    } else if d == 3 {
        "3"
    } else if d == 4 {
        "4"
    } else if d == 5 {
        "5"
    } else if d == 6 {
        "6"
    } else if d == 7 {
        "7"
    } else if d == 8 {
        "8"
    } else {
        "9"
    }
}

/// The decimal digits of `n`.
pub fn decimal_string(n: usize) -> (r: String)
    ensures
        r@ == decimal(n as nat),
    decreases n,
{
    if n < 10 {
        String::from_str(digit_str(n))
    } else {
        decimal_string(n / 10).concat(digit_str(n % 10))
    }
}

fn placeholder_string(i: usize) -> (r: String)
    ensures
        r@ == placeholder(i as nat),
{
    String::from_str("$").concat(decimal_string(i).as_str())
}

/// `items` separated by `sep`.
pub fn join_strings(items: &Vec<String>, sep: &str) -> (r: String)
    ensures
        r@ == join(names(items@), sep@),
{
    let mut acc = String::new();
    let n = items.len();
    let mut i: usize = 0;
    while i < n
        invariant
            n == items@.len(),
            i <= n,
            acc@ == join(names(items@).take(i as int), sep@),
        decreases n - i,
    {
        let ghost prefix = names(items@).take(i as int);
        let ghost next = names(items@).take(i as int + 1);
        assert(next.drop_last() =~= prefix);
        assert(next.last() == items@[i as int]@);
        if i == 0 {
            acc = items[i].clone();
        } else {
            acc = acc.concat(sep).concat(items[i].as_str());
        }
        i = i + 1;
    }
    assert(names(items@).take(n as int) =~= names(items@));
    acc
}

fn placeholder_list(count: usize) -> (r: Vec<String>)
    requires
        count < usize::MAX,
    ensures
        names(r@) == placeholders(0, count as nat),
{
    let mut v: Vec<String> = Vec::new();
    let mut i: usize = 0;
    while i < count
        invariant
            i <= count < usize::MAX,
            names(v@) =~= placeholders(0, i as nat),
        decreases count - i,
    {
        let ghost before = v@;
        let p = placeholder_string(i + 1);
        v.push(p);
        assert(names(v@) =~= names(before).push(p@));
        i = i + 1;
    }
    v
}

fn assignment_list(cols: &Vec<String>, offset: usize) -> (r: Vec<String>)
    requires
        offset + cols@.len() < usize::MAX,
    ensures
        names(r@) == assignments(names(cols@), offset as nat),
{
    let mut v: Vec<String> = Vec::new();
    let n = cols.len();
    let mut i: usize = 0;
    while i < n
        invariant
            n == cols@.len(),
            i <= n,
            offset + n < usize::MAX,
            names(v@) =~= assignments(names(cols@), offset as nat).take(i as int),
        decreases n - i,
    {
        let a = cols[i].clone().concat(" = ").concat(placeholder_string(offset + i + 1).as_str());
        let ghost before = v@;
        v.push(a);
        assert(names(v@) =~= names(before).push(a@));
        i = i + 1;
    }
    assert(assignments(names(cols@), offset as nat).take(n as int) =~= assignments(
        names(cols@),
        offset as nat,
    ));
    v
}

impl TableSpec {
    /// Lists every row of the table.
    pub fn select_statement(&self) -> (r: String)
        ensures
            r@ == select_sql(self.name@),
    {
        String::from_str("SELECT * FROM ").concat(self.name.as_str())
    }

    /// Inserts one row; see `insert_columns` for what it binds.
    pub fn insert_statement(&self) -> (r: String)
        requires
            self.wf(),
        ensures
            r@ == insert_sql(self.name@, self.insert_columns()),
    {
        let cols = if self.generated_key {
            self.attrs.clone()
        } else {
            let mut all = self.key.clone();
            let mut rest = self.attrs.clone();
            all.append(&mut rest);
            all
        };
        assert(names(cols@) =~= self.insert_columns());
        let places = placeholder_list(cols.len());
        String::from_str("INSERT INTO ").concat(self.name.as_str()).concat(" (").concat(
            join_strings(&cols, ", ").as_str(),
        ).concat(") VALUES (").concat(join_strings(&places, ", ").as_str()).concat(")")
    }

    /// Replaces the non-key columns of the row with the given key.
    pub fn update_statement(&self) -> (r: String)
        requires
            self.wf(),
        ensures
            r@ == update_sql(self.name@, names(self.key@), names(self.attrs@)),
    {
        let sets = assignment_list(&self.attrs, self.key.len());
        let conds = assignment_list(&self.key, 0);
        String::from_str("UPDATE ").concat(self.name.as_str()).concat(" SET ").concat(
            join_strings(&sets, ", ").as_str(),
        ).concat(" WHERE ").concat(join_strings(&conds, " AND ").as_str())
    }

    /// Deletes the row with the given key.
    pub fn delete_statement(&self) -> (r: String)
        requires
            self.wf(),
        ensures
            r@ == delete_sql(self.name@, names(self.key@)),
    {
        let conds = assignment_list(&self.key, 0);
        String::from_str("DELETE FROM ").concat(self.name.as_str()).concat(" WHERE ").concat(
            join_strings(&conds, " AND ").as_str(),
        )
    }
}

} // verus!
