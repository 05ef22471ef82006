//! The tables of the CRUD surface: their columns, the values their records bind, and the laws that what is written reads back.

use vstd::prelude::*;

use crate::crud::{int_or_null, int_or_null_value, lemma_column_at, row_holds, text_or_null, text_or_null_value, NewRecord, Record};
use crate::models::{Majitel, Kraj, Okres, Obec, KatastralniUzemi, Bpej, TypRizeni, TypOperace, TypUcastnika, UcastnikRizeni, ListVlastnictvi, ParcelaRow, Rizeni, Vlastnictvi, BremenoParcelaParcela, BremenoParcelaMajitel, Plomba, RizeniOperaceRow, Ucast, NewMajitel, NewKraj, NewOkres, NewObec, NewKatastralniUzemi, NewBpej, NewTypRizeni, NewTypOperace, NewTypUcastnika, NewUcastnikRizeni, NewListVlastnictvi, NewParcelaRow, NewRizeni, NewVlastnictvi, NewBremenoParcelaParcela, NewBremenoParcelaMajitel, NewPlomba, NewRizeniOperaceRow, NewUcast};
use crate::row::{col_bool, col_date, col_decimal, col_i32, col_opt_i32, col_opt_text, col_text, opt_text, Column, DbValue, Fault, FromRow};
use crate::sql::{names, TableSpec};
use crate::values::{CalendarDate, DecimalValue};

verus! {

impl Record for Majitel {
    open spec fn table_name() -> Seq<char> {
        "majitel"@
    }

    open spec fn key_columns() -> Seq<Seq<char>> {
        seq!["id"@]
    }

    open spec fn attr_columns() -> Seq<Seq<char>> {
        seq!["jmeno"@, "prijmeni"@, "titul"@, "bydliste"@, "rodne_cislo"@, "ico"@]
    }

    open spec fn generated_key() -> bool {
        true
    }

    open spec fn key_spec(&self) -> Seq<DbValue> {
        seq![DbValue::Int(self.id as i64)]
    }

    open spec fn attrs_spec(&self) -> Seq<DbValue> {
        seq![DbValue::Text(self.jmeno), DbValue::Text(self.prijmeni), text_or_null(self.titul), text_or_null(self.bydliste), text_or_null(self.rodne_cislo), text_or_null(self.ico)]
    }

    fn table() -> (r: TableSpec) {
        let mut key: Vec<String> = Vec::new();
        key.push(String::from_str("id"));
        let mut attrs: Vec<String> = Vec::new();
        attrs.push(String::from_str("jmeno"));
        attrs.push(String::from_str("prijmeni"));
        attrs.push(String::from_str("titul"));
        attrs.push(String::from_str("bydliste"));
        attrs.push(String::from_str("rodne_cislo"));
        attrs.push(String::from_str("ico"));
        let t = TableSpec { name: String::from_str("majitel"), key, attrs, generated_key: true };
        assert(names(t.key@) =~= Self::key_columns());
        assert(names(t.attrs@) =~= Self::attr_columns());
        t
    }

    fn key_values(&self) -> (r: Vec<DbValue>) {
        let mut v: Vec<DbValue> = Vec::new();
        v.push(DbValue::Int(self.id as i64));
        assert(v@ =~= self.key_spec());
        v
    }

    fn attr_values(&self) -> (r: Vec<DbValue>) {
        let mut v: Vec<DbValue> = Vec::new();
        v.push(DbValue::Text(self.jmeno.clone()));
        v.push(DbValue::Text(self.prijmeni.clone()));
        v.push(text_or_null_value(&self.titul));
        v.push(text_or_null_value(&self.bydliste));
        v.push(text_or_null_value(&self.rodne_cislo));
        v.push(text_or_null_value(&self.ico));
        assert(v@ =~= self.attrs_spec());
        v
    }

    proof fn lemma_read_back(&self, row: Seq<Column>) {
        reveal_strlit("id");
        reveal_strlit("jmeno");
        reveal_strlit("prijmeni");
        reveal_strlit("titul");
        reveal_strlit("bydliste");
        reveal_strlit("rodne_cislo");
        reveal_strlit("ico");
        let cols = Self::key_columns() + Self::attr_columns();
        assert(cols =~= seq!["id"@, "jmeno"@, "prijmeni"@, "titul"@, "bydliste"@, "rodne_cislo"@, "ico"@]);
        let vals = self.key_spec() + self.attrs_spec();
        assert(vals =~= seq![DbValue::Int(self.id as i64), DbValue::Text(self.jmeno), DbValue::Text(self.prijmeni), text_or_null(self.titul), text_or_null(self.bydliste), text_or_null(self.rodne_cislo), text_or_null(self.ico)]);
        assert(row[0].name@ == cols[0]);
        lemma_column_at(row, "id"@, 0);
        assert forall|j: int| 0 <= j < 1 implies (#[trigger] row[j]).name@ != "jmeno"@ by {
            assert(row[j].name@ == cols[j]);
            if j == 0 {}
        }
        assert(row[1].name@ == cols[1]);
        lemma_column_at(row, "jmeno"@, 1);
        assert forall|j: int| 0 <= j < 2 implies (#[trigger] row[j]).name@ != "prijmeni"@ by {
            assert(row[j].name@ == cols[j]);
            if j == 0 {} else if j == 1 {}
        }
        assert(row[2].name@ == cols[2]);
        lemma_column_at(row, "prijmeni"@, 2);
        assert forall|j: int| 0 <= j < 3 implies (#[trigger] row[j]).name@ != "titul"@ by {
            assert(row[j].name@ == cols[j]);
            if j == 0 {} else if j == 1 { assert("jmeno"@[0] != "titul"@[0]); } else if j == 2 {}
        }
        assert(row[3].name@ == cols[3]);
        lemma_column_at(row, "titul"@, 3);
        assert forall|j: int| 0 <= j < 4 implies (#[trigger] row[j]).name@ != "bydliste"@ by {
            assert(row[j].name@ == cols[j]);
            if j == 0 {} else if j == 1 {} else if j == 2 { assert("prijmeni"@[0] != "bydliste"@[0]); } else if j == 3 {}
        }
        assert(row[4].name@ == cols[4]);
        lemma_column_at(row, "bydliste"@, 4);
        assert forall|j: int| 0 <= j < 5 implies (#[trigger] row[j]).name@ != "rodne_cislo"@ by {
            assert(row[j].name@ == cols[j]);
            if j == 0 {} else if j == 1 {} else if j == 2 {} else if j == 3 {} else if j == 4 {}
        }
        assert(row[5].name@ == cols[5]);
        lemma_column_at(row, "rodne_cislo"@, 5);
        assert forall|j: int| 0 <= j < 6 implies (#[trigger] row[j]).name@ != "ico"@ by {
            assert(row[j].name@ == cols[j]);
            if j == 0 {} else if j == 1 {} else if j == 2 {} else if j == 3 {} else if j == 4 {} else if j == 5 {}
        }
        assert(row[6].name@ == cols[6]);
        lemma_column_at(row, "ico"@, 6);
    }
}

impl NewRecord for NewMajitel {
    type Stored = Majitel;

    open spec fn insert_spec(&self) -> Seq<DbValue> {
        seq![DbValue::Text(self.jmeno), DbValue::Text(self.prijmeni), text_or_null(self.titul), text_or_null(self.bydliste), text_or_null(self.rodne_cislo), text_or_null(self.ico)]
    }

    fn insert_values(&self) -> (r: Vec<DbValue>) {
        let mut v: Vec<DbValue> = Vec::new();
        v.push(DbValue::Text(self.jmeno.clone()));
        v.push(DbValue::Text(self.prijmeni.clone()));
        v.push(text_or_null_value(&self.titul));
        v.push(text_or_null_value(&self.bydliste));
        v.push(text_or_null_value(&self.rodne_cislo));
        v.push(text_or_null_value(&self.ico));
        assert(v@ =~= self.insert_spec());
        v
    }

    open spec fn listed_in(&self, row: Seq<Column>) -> bool {
        &&& col_text(row, "jmeno"@) == Ok::<Seq<char>, Fault>(self.jmeno@)
        &&& col_text(row, "prijmeni"@) == Ok::<Seq<char>, Fault>(self.prijmeni@)
        &&& col_opt_text(row, "titul"@) == Ok::<Option<Seq<char>>, Fault>(opt_text(self.titul))
        &&& col_opt_text(row, "bydliste"@) == Ok::<Option<Seq<char>>, Fault>(opt_text(self.bydliste))
        &&& col_opt_text(row, "rodne_cislo"@) == Ok::<Option<Seq<char>>, Fault>(opt_text(self.rodne_cislo))
        &&& col_opt_text(row, "ico"@) == Ok::<Option<Seq<char>>, Fault>(opt_text(self.ico))
    }

    proof fn lemma_created_lists(&self, id: i32, row: Seq<Column>) {
        reveal_strlit("id");
        reveal_strlit("jmeno");
        reveal_strlit("prijmeni");
        reveal_strlit("titul");
        reveal_strlit("bydliste");
        reveal_strlit("rodne_cislo");
        reveal_strlit("ico");
        let cols = Majitel::key_columns() + Majitel::attr_columns();
        assert(cols =~= seq!["id"@, "jmeno"@, "prijmeni"@, "titul"@, "bydliste"@, "rodne_cislo"@, "ico"@]);
        let vals = if Majitel::generated_key() { seq![DbValue::Int(id as i64)] + self.insert_spec() } else { self.insert_spec() };
        assert(vals =~= seq![DbValue::Int(id as i64), DbValue::Text(self.jmeno), DbValue::Text(self.prijmeni), text_or_null(self.titul), text_or_null(self.bydliste), text_or_null(self.rodne_cislo), text_or_null(self.ico)]);
        assert(row[0].name@ == cols[0]);
        lemma_column_at(row, "id"@, 0);
        assert forall|j: int| 0 <= j < 1 implies (#[trigger] row[j]).name@ != "jmeno"@ by {
            assert(row[j].name@ == cols[j]);
            if j == 0 {}
        }
        assert(row[1].name@ == cols[1]);
        lemma_column_at(row, "jmeno"@, 1);
        assert forall|j: int| 0 <= j < 2 implies (#[trigger] row[j]).name@ != "prijmeni"@ by {
            assert(row[j].name@ == cols[j]);
            if j == 0 {} else if j == 1 {}
        }
        assert(row[2].name@ == cols[2]);
        lemma_column_at(row, "prijmeni"@, 2);
        assert forall|j: int| 0 <= j < 3 implies (#[trigger] row[j]).name@ != "titul"@ by {
            assert(row[j].name@ == cols[j]);
            if j == 0 {} else if j == 1 { assert("jmeno"@[0] != "titul"@[0]); } else if j == 2 {}
        }
        assert(row[3].name@ == cols[3]);
        lemma_column_at(row, "titul"@, 3);
        assert forall|j: int| 0 <= j < 4 implies (#[trigger] row[j]).name@ != "bydliste"@ by {
            assert(row[j].name@ == cols[j]);
            if j == 0 {} else if j == 1 {} else if j == 2 { assert("prijmeni"@[0] != "bydliste"@[0]); } else if j == 3 {}
        }
        assert(row[4].name@ == cols[4]);
        lemma_column_at(row, "bydliste"@, 4);
        assert forall|j: int| 0 <= j < 5 implies (#[trigger] row[j]).name@ != "rodne_cislo"@ by {
            assert(row[j].name@ == cols[j]);
            if j == 0 {} else if j == 1 {} else if j == 2 {} else if j == 3 {} else if j == 4 {}
        }
        assert(row[5].name@ == cols[5]);
        lemma_column_at(row, "rodne_cislo"@, 5);
        assert forall|j: int| 0 <= j < 6 implies (#[trigger] row[j]).name@ != "ico"@ by {
            assert(row[j].name@ == cols[j]);
            if j == 0 {} else if j == 1 {} else if j == 2 {} else if j == 3 {} else if j == 4 {} else if j == 5 {}
        }
        assert(row[6].name@ == cols[6]);
        lemma_column_at(row, "ico"@, 6);
    }
}

impl Record for Kraj {
    open spec fn table_name() -> Seq<char> {
        "kraj"@
    }

    open spec fn key_columns() -> Seq<Seq<char>> {
        seq!["id"@]
    }

    open spec fn attr_columns() -> Seq<Seq<char>> {
        seq!["nazev"@]
    }

    open spec fn generated_key() -> bool {
        true
    }

    open spec fn key_spec(&self) -> Seq<DbValue> {
        seq![DbValue::Int(self.id as i64)]
    }

    open spec fn attrs_spec(&self) -> Seq<DbValue> {
        seq![DbValue::Text(self.nazev)]
    }

    fn table() -> (r: TableSpec) {
        let mut key: Vec<String> = Vec::new();
        key.push(String::from_str("id"));
        let mut attrs: Vec<String> = Vec::new();
        attrs.push(String::from_str("nazev"));
        let t = TableSpec { name: String::from_str("kraj"), key, attrs, generated_key: true };
        assert(names(t.key@) =~= Self::key_columns());
        assert(names(t.attrs@) =~= Self::attr_columns());
        t
    }

    fn key_values(&self) -> (r: Vec<DbValue>) {
        let mut v: Vec<DbValue> = Vec::new();
        v.push(DbValue::Int(self.id as i64));
        assert(v@ =~= self.key_spec());
        v
    }

    fn attr_values(&self) -> (r: Vec<DbValue>) {
        let mut v: Vec<DbValue> = Vec::new();
        v.push(DbValue::Text(self.nazev.clone()));
        assert(v@ =~= self.attrs_spec());
        v
    }

    proof fn lemma_read_back(&self, row: Seq<Column>) {
        reveal_strlit("id");
        reveal_strlit("nazev");
        let cols = Self::key_columns() + Self::attr_columns();
        assert(cols =~= seq!["id"@, "nazev"@]);
        let vals = self.key_spec() + self.attrs_spec();
        assert(vals =~= seq![DbValue::Int(self.id as i64), DbValue::Text(self.nazev)]);
        assert(row[0].name@ == cols[0]);
        lemma_column_at(row, "id"@, 0);
        assert forall|j: int| 0 <= j < 1 implies (#[trigger] row[j]).name@ != "nazev"@ by {
            assert(row[j].name@ == cols[j]);
            if j == 0 {}
        }
        assert(row[1].name@ == cols[1]);
        lemma_column_at(row, "nazev"@, 1);
    }
}

impl NewRecord for NewKraj {
    type Stored = Kraj;

    open spec fn insert_spec(&self) -> Seq<DbValue> {
        seq![DbValue::Text(self.nazev)]
    }

    fn insert_values(&self) -> (r: Vec<DbValue>) {
        let mut v: Vec<DbValue> = Vec::new();
        v.push(DbValue::Text(self.nazev.clone()));
        assert(v@ =~= self.insert_spec());
        v
    }

    open spec fn listed_in(&self, row: Seq<Column>) -> bool {
        &&& col_text(row, "nazev"@) == Ok::<Seq<char>, Fault>(self.nazev@)
    }

    proof fn lemma_created_lists(&self, id: i32, row: Seq<Column>) {
        reveal_strlit("id");
        reveal_strlit("nazev");
        let cols = Kraj::key_columns() + Kraj::attr_columns();
        assert(cols =~= seq!["id"@, "nazev"@]);
        let vals = if Kraj::generated_key() { seq![DbValue::Int(id as i64)] + self.insert_spec() } else { self.insert_spec() };
        assert(vals =~= seq![DbValue::Int(id as i64), DbValue::Text(self.nazev)]);
        assert(row[0].name@ == cols[0]);
        lemma_column_at(row, "id"@, 0);
        assert forall|j: int| 0 <= j < 1 implies (#[trigger] row[j]).name@ != "nazev"@ by {
            assert(row[j].name@ == cols[j]);
            if j == 0 {}
        }
        assert(row[1].name@ == cols[1]);
        lemma_column_at(row, "nazev"@, 1);
    }
}

impl Record for Okres {
    open spec fn table_name() -> Seq<char> {
        "okres"@
    }

    open spec fn key_columns() -> Seq<Seq<char>> {
        seq!["id"@]
    }

    open spec fn attr_columns() -> Seq<Seq<char>> {
        seq!["kraj_id"@, "nazev"@]
    }

    open spec fn generated_key() -> bool {
        true
    }

    open spec fn key_spec(&self) -> Seq<DbValue> {
        seq![DbValue::Int(self.id as i64)]
    }

    open spec fn attrs_spec(&self) -> Seq<DbValue> {
        seq![DbValue::Int(self.kraj_id as i64), DbValue::Text(self.nazev)]
    }

    fn table() -> (r: TableSpec) {
        let mut key: Vec<String> = Vec::new();
        key.push(String::from_str("id"));
        let mut attrs: Vec<String> = Vec::new();
        attrs.push(String::from_str("kraj_id"));
        attrs.push(String::from_str("nazev"));
        let t = TableSpec { name: String::from_str("okres"), key, attrs, generated_key: true };
        assert(names(t.key@) =~= Self::key_columns());
        assert(names(t.attrs@) =~= Self::attr_columns());
        t
    }

    fn key_values(&self) -> (r: Vec<DbValue>) {
        let mut v: Vec<DbValue> = Vec::new();
        v.push(DbValue::Int(self.id as i64));
        assert(v@ =~= self.key_spec());
        v
    }

    fn attr_values(&self) -> (r: Vec<DbValue>) {
        let mut v: Vec<DbValue> = Vec::new();
        v.push(DbValue::Int(self.kraj_id as i64));
        v.push(DbValue::Text(self.nazev.clone()));
        assert(v@ =~= self.attrs_spec());
        v
    }

    proof fn lemma_read_back(&self, row: Seq<Column>) {
        reveal_strlit("id");
        reveal_strlit("kraj_id");
        reveal_strlit("nazev");
        let cols = Self::key_columns() + Self::attr_columns();
        assert(cols =~= seq!["id"@, "kraj_id"@, "nazev"@]);
        let vals = self.key_spec() + self.attrs_spec();
        assert(vals =~= seq![DbValue::Int(self.id as i64), DbValue::Int(self.kraj_id as i64), DbValue::Text(self.nazev)]);
        assert(row[0].name@ == cols[0]);
        lemma_column_at(row, "id"@, 0);
        assert forall|j: int| 0 <= j < 1 implies (#[trigger] row[j]).name@ != "kraj_id"@ by {
            assert(row[j].name@ == cols[j]);
            if j == 0 {}
        }
        assert(row[1].name@ == cols[1]);
        lemma_column_at(row, "kraj_id"@, 1);
        assert forall|j: int| 0 <= j < 2 implies (#[trigger] row[j]).name@ != "nazev"@ by {
            assert(row[j].name@ == cols[j]);
            if j == 0 {} else if j == 1 {}
        }
        assert(row[2].name@ == cols[2]);
        lemma_column_at(row, "nazev"@, 2);
    }
}

impl NewRecord for NewOkres {
    type Stored = Okres;

    open spec fn insert_spec(&self) -> Seq<DbValue> {
        seq![DbValue::Int(self.kraj_id as i64), DbValue::Text(self.nazev)]
    }

    fn insert_values(&self) -> (r: Vec<DbValue>) {
        let mut v: Vec<DbValue> = Vec::new();
        v.push(DbValue::Int(self.kraj_id as i64));
        v.push(DbValue::Text(self.nazev.clone()));
        assert(v@ =~= self.insert_spec());
        v
    }

    open spec fn listed_in(&self, row: Seq<Column>) -> bool {
        &&& col_i32(row, "kraj_id"@) == Ok::<i32, Fault>(self.kraj_id)
        &&& col_text(row, "nazev"@) == Ok::<Seq<char>, Fault>(self.nazev@)
    }

    proof fn lemma_created_lists(&self, id: i32, row: Seq<Column>) {
        reveal_strlit("id");
        reveal_strlit("kraj_id");
        reveal_strlit("nazev");
        let cols = Okres::key_columns() + Okres::attr_columns();
        assert(cols =~= seq!["id"@, "kraj_id"@, "nazev"@]);
        let vals = if Okres::generated_key() { seq![DbValue::Int(id as i64)] + self.insert_spec() } else { self.insert_spec() };
        assert(vals =~= seq![DbValue::Int(id as i64), DbValue::Int(self.kraj_id as i64), DbValue::Text(self.nazev)]);
        assert(row[0].name@ == cols[0]);
        lemma_column_at(row, "id"@, 0);
        assert forall|j: int| 0 <= j < 1 implies (#[trigger] row[j]).name@ != "kraj_id"@ by {
            assert(row[j].name@ == cols[j]);
            if j == 0 {}
        }
        assert(row[1].name@ == cols[1]);
        lemma_column_at(row, "kraj_id"@, 1);
        assert forall|j: int| 0 <= j < 2 implies (#[trigger] row[j]).name@ != "nazev"@ by {
            assert(row[j].name@ == cols[j]);
            if j == 0 {} else if j == 1 {}
        }
        assert(row[2].name@ == cols[2]);
        lemma_column_at(row, "nazev"@, 2);
    }
}

impl Record for Obec {
    open spec fn table_name() -> Seq<char> {
        "obec"@
    }

    open spec fn key_columns() -> Seq<Seq<char>> {
        seq!["id"@]
    }

    open spec fn attr_columns() -> Seq<Seq<char>> {
        seq!["okres_id"@, "nazev"@]
    }

    open spec fn generated_key() -> bool {
        true
    }

    open spec fn key_spec(&self) -> Seq<DbValue> {
        seq![DbValue::Int(self.id as i64)]
    }

    open spec fn attrs_spec(&self) -> Seq<DbValue> {
        seq![DbValue::Int(self.okres_id as i64), DbValue::Text(self.nazev)]
    }

    fn table() -> (r: TableSpec) {
        let mut key: Vec<String> = Vec::new();
        key.push(String::from_str("id"));
        let mut attrs: Vec<String> = Vec::new();
        attrs.push(String::from_str("okres_id"));
        attrs.push(String::from_str("nazev"));
        let t = TableSpec { name: String::from_str("obec"), key, attrs, generated_key: true };
        assert(names(t.key@) =~= Self::key_columns());
        assert(names(t.attrs@) =~= Self::attr_columns());
        t
    }

    fn key_values(&self) -> (r: Vec<DbValue>) {
        let mut v: Vec<DbValue> = Vec::new();
        v.push(DbValue::Int(self.id as i64));
        assert(v@ =~= self.key_spec());
        v
    }

    fn attr_values(&self) -> (r: Vec<DbValue>) {
        let mut v: Vec<DbValue> = Vec::new();
        v.push(DbValue::Int(self.okres_id as i64));
        v.push(DbValue::Text(self.nazev.clone()));
        assert(v@ =~= self.attrs_spec());
        v
    }

    proof fn lemma_read_back(&self, row: Seq<Column>) {
        reveal_strlit("id");
        reveal_strlit("okres_id");
        reveal_strlit("nazev");
        let cols = Self::key_columns() + Self::attr_columns();
        assert(cols =~= seq!["id"@, "okres_id"@, "nazev"@]);
        let vals = self.key_spec() + self.attrs_spec();
        assert(vals =~= seq![DbValue::Int(self.id as i64), DbValue::Int(self.okres_id as i64), DbValue::Text(self.nazev)]);
        assert(row[0].name@ == cols[0]);
        lemma_column_at(row, "id"@, 0);
        assert forall|j: int| 0 <= j < 1 implies (#[trigger] row[j]).name@ != "okres_id"@ by {
            assert(row[j].name@ == cols[j]);
            if j == 0 {}
        }
        assert(row[1].name@ == cols[1]);
        lemma_column_at(row, "okres_id"@, 1);
        assert forall|j: int| 0 <= j < 2 implies (#[trigger] row[j]).name@ != "nazev"@ by {
            assert(row[j].name@ == cols[j]);
            if j == 0 {} else if j == 1 {}
        }
        assert(row[2].name@ == cols[2]);
        lemma_column_at(row, "nazev"@, 2);
    }
}

impl NewRecord for NewObec {
    type Stored = Obec;

    open spec fn insert_spec(&self) -> Seq<DbValue> {
        seq![DbValue::Int(self.okres_id as i64), DbValue::Text(self.nazev)]
    }

    fn insert_values(&self) -> (r: Vec<DbValue>) {
        let mut v: Vec<DbValue> = Vec::new();
        v.push(DbValue::Int(self.okres_id as i64));
        v.push(DbValue::Text(self.nazev.clone()));
        assert(v@ =~= self.insert_spec());
        v
    }

    open spec fn listed_in(&self, row: Seq<Column>) -> bool {
        &&& col_i32(row, "okres_id"@) == Ok::<i32, Fault>(self.okres_id)
        &&& col_text(row, "nazev"@) == Ok::<Seq<char>, Fault>(self.nazev@)
    }

    proof fn lemma_created_lists(&self, id: i32, row: Seq<Column>) {
        reveal_strlit("id");
        reveal_strlit("okres_id");
        reveal_strlit("nazev");
        let cols = Obec::key_columns() + Obec::attr_columns();
        assert(cols =~= seq!["id"@, "okres_id"@, "nazev"@]);
        let vals = if Obec::generated_key() { seq![DbValue::Int(id as i64)] + self.insert_spec() } else { self.insert_spec() };
        assert(vals =~= seq![DbValue::Int(id as i64), DbValue::Int(self.okres_id as i64), DbValue::Text(self.nazev)]);
        assert(row[0].name@ == cols[0]);
        lemma_column_at(row, "id"@, 0);
        assert forall|j: int| 0 <= j < 1 implies (#[trigger] row[j]).name@ != "okres_id"@ by {
            assert(row[j].name@ == cols[j]);
            if j == 0 {}
        }
        assert(row[1].name@ == cols[1]);
        lemma_column_at(row, "okres_id"@, 1);
        assert forall|j: int| 0 <= j < 2 implies (#[trigger] row[j]).name@ != "nazev"@ by {
            assert(row[j].name@ == cols[j]);
            if j == 0 {} else if j == 1 {}
        }
        assert(row[2].name@ == cols[2]);
        lemma_column_at(row, "nazev"@, 2);
    }
}

impl Record for KatastralniUzemi {
    open spec fn table_name() -> Seq<char> {
        "katastralni_uzemi"@
    }

    open spec fn key_columns() -> Seq<Seq<char>> {
        seq!["id"@]
    }

    open spec fn attr_columns() -> Seq<Seq<char>> {
        seq!["obec_id"@, "nazev"@]
    }

    open spec fn generated_key() -> bool {
        true
    }

    open spec fn key_spec(&self) -> Seq<DbValue> {
        seq![DbValue::Int(self.id as i64)]
    }

    open spec fn attrs_spec(&self) -> Seq<DbValue> {
        seq![DbValue::Int(self.obec_id as i64), DbValue::Text(self.nazev)]
    }

    fn table() -> (r: TableSpec) {
        let mut key: Vec<String> = Vec::new();
        key.push(String::from_str("id"));
        let mut attrs: Vec<String> = Vec::new();
        attrs.push(String::from_str("obec_id"));
        attrs.push(String::from_str("nazev"));
        let t = TableSpec { name: String::from_str("katastralni_uzemi"), key, attrs, generated_key: true };
        assert(names(t.key@) =~= Self::key_columns());
        assert(names(t.attrs@) =~= Self::attr_columns());
        t
    }

    fn key_values(&self) -> (r: Vec<DbValue>) {
        let mut v: Vec<DbValue> = Vec::new();
        v.push(DbValue::Int(self.id as i64));
        assert(v@ =~= self.key_spec());
        v
    }

    fn attr_values(&self) -> (r: Vec<DbValue>) {
        let mut v: Vec<DbValue> = Vec::new();
        v.push(DbValue::Int(self.obec_id as i64));
        v.push(DbValue::Text(self.nazev.clone()));
        assert(v@ =~= self.attrs_spec());
        v
    }

    proof fn lemma_read_back(&self, row: Seq<Column>) {
        reveal_strlit("id");
        reveal_strlit("obec_id");
        reveal_strlit("nazev");
        let cols = Self::key_columns() + Self::attr_columns();
        assert(cols =~= seq!["id"@, "obec_id"@, "nazev"@]);
        let vals = self.key_spec() + self.attrs_spec();
        assert(vals =~= seq![DbValue::Int(self.id as i64), DbValue::Int(self.obec_id as i64), DbValue::Text(self.nazev)]);
        assert(row[0].name@ == cols[0]);
        lemma_column_at(row, "id"@, 0);
        assert forall|j: int| 0 <= j < 1 implies (#[trigger] row[j]).name@ != "obec_id"@ by {
            assert(row[j].name@ == cols[j]);
            if j == 0 {}
        }
        assert(row[1].name@ == cols[1]);
        lemma_column_at(row, "obec_id"@, 1);
        assert forall|j: int| 0 <= j < 2 implies (#[trigger] row[j]).name@ != "nazev"@ by {
            assert(row[j].name@ == cols[j]);
            if j == 0 {} else if j == 1 {}
        }
        assert(row[2].name@ == cols[2]);
        lemma_column_at(row, "nazev"@, 2);
    }
}

impl NewRecord for NewKatastralniUzemi {
    type Stored = KatastralniUzemi;

    open spec fn insert_spec(&self) -> Seq<DbValue> {
        seq![DbValue::Int(self.obec_id as i64), DbValue::Text(self.nazev)]
    }

    fn insert_values(&self) -> (r: Vec<DbValue>) {
        let mut v: Vec<DbValue> = Vec::new();
        v.push(DbValue::Int(self.obec_id as i64));
        v.push(DbValue::Text(self.nazev.clone()));
        assert(v@ =~= self.insert_spec());
        v
    }

    open spec fn listed_in(&self, row: Seq<Column>) -> bool {
        &&& col_i32(row, "obec_id"@) == Ok::<i32, Fault>(self.obec_id)
        &&& col_text(row, "nazev"@) == Ok::<Seq<char>, Fault>(self.nazev@)
    }

    proof fn lemma_created_lists(&self, id: i32, row: Seq<Column>) {
        reveal_strlit("id");
        reveal_strlit("obec_id");
        reveal_strlit("nazev");
        let cols = KatastralniUzemi::key_columns() + KatastralniUzemi::attr_columns();
        assert(cols =~= seq!["id"@, "obec_id"@, "nazev"@]);
        let vals = if KatastralniUzemi::generated_key() { seq![DbValue::Int(id as i64)] + self.insert_spec() } else { self.insert_spec() };
        assert(vals =~= seq![DbValue::Int(id as i64), DbValue::Int(self.obec_id as i64), DbValue::Text(self.nazev)]);
        assert(row[0].name@ == cols[0]);
        lemma_column_at(row, "id"@, 0);
        assert forall|j: int| 0 <= j < 1 implies (#[trigger] row[j]).name@ != "obec_id"@ by {
            assert(row[j].name@ == cols[j]);
            if j == 0 {}
        }
        assert(row[1].name@ == cols[1]);
        lemma_column_at(row, "obec_id"@, 1);
        assert forall|j: int| 0 <= j < 2 implies (#[trigger] row[j]).name@ != "nazev"@ by {
            assert(row[j].name@ == cols[j]);
            if j == 0 {} else if j == 1 {}
        }
        assert(row[2].name@ == cols[2]);
        lemma_column_at(row, "nazev"@, 2);
    }
}

impl Record for Bpej {
    open spec fn table_name() -> Seq<char> {
        "bpej"@
    }

    open spec fn key_columns() -> Seq<Seq<char>> {
        seq!["id"@]
    }

    open spec fn attr_columns() -> Seq<Seq<char>> {
        seq!["hodnota"@]
    }

    open spec fn generated_key() -> bool {
        true
    }

    open spec fn key_spec(&self) -> Seq<DbValue> {
        seq![DbValue::Int(self.id as i64)]
    }

    open spec fn attrs_spec(&self) -> Seq<DbValue> {
        seq![DbValue::Int(self.hodnota as i64)]
    }

    fn table() -> (r: TableSpec) {
        let mut key: Vec<String> = Vec::new();
        key.push(String::from_str("id"));
        let mut attrs: Vec<String> = Vec::new();
        attrs.push(String::from_str("hodnota"));
        let t = TableSpec { name: String::from_str("bpej"), key, attrs, generated_key: true };
        assert(names(t.key@) =~= Self::key_columns());
        assert(names(t.attrs@) =~= Self::attr_columns());
        t
    }

    fn key_values(&self) -> (r: Vec<DbValue>) {
        let mut v: Vec<DbValue> = Vec::new();
        v.push(DbValue::Int(self.id as i64));
        assert(v@ =~= self.key_spec());
        v
    }

    fn attr_values(&self) -> (r: Vec<DbValue>) {
        let mut v: Vec<DbValue> = Vec::new();
        v.push(DbValue::Int(self.hodnota as i64));
        assert(v@ =~= self.attrs_spec());
        v
    }

    proof fn lemma_read_back(&self, row: Seq<Column>) {
        reveal_strlit("id");
        reveal_strlit("hodnota");
        let cols = Self::key_columns() + Self::attr_columns();
        assert(cols =~= seq!["id"@, "hodnota"@]);
        let vals = self.key_spec() + self.attrs_spec();
        assert(vals =~= seq![DbValue::Int(self.id as i64), DbValue::Int(self.hodnota as i64)]);
        assert(row[0].name@ == cols[0]);
        lemma_column_at(row, "id"@, 0);
        assert forall|j: int| 0 <= j < 1 implies (#[trigger] row[j]).name@ != "hodnota"@ by {
            assert(row[j].name@ == cols[j]);
            if j == 0 {}
        }
        assert(row[1].name@ == cols[1]);
        lemma_column_at(row, "hodnota"@, 1);
    }
}

impl NewRecord for NewBpej {
    type Stored = Bpej;

    open spec fn insert_spec(&self) -> Seq<DbValue> {
        seq![DbValue::Int(self.hodnota as i64)]
    }

    fn insert_values(&self) -> (r: Vec<DbValue>) {
        let mut v: Vec<DbValue> = Vec::new();
        v.push(DbValue::Int(self.hodnota as i64));
        assert(v@ =~= self.insert_spec());
        v
    }

    open spec fn listed_in(&self, row: Seq<Column>) -> bool {
        &&& col_i32(row, "hodnota"@) == Ok::<i32, Fault>(self.hodnota)
    }

    proof fn lemma_created_lists(&self, id: i32, row: Seq<Column>) {
        reveal_strlit("id");
        reveal_strlit("hodnota");
        let cols = Bpej::key_columns() + Bpej::attr_columns();
        assert(cols =~= seq!["id"@, "hodnota"@]);
        let vals = if Bpej::generated_key() { seq![DbValue::Int(id as i64)] + self.insert_spec() } else { self.insert_spec() };
        assert(vals =~= seq![DbValue::Int(id as i64), DbValue::Int(self.hodnota as i64)]);
        assert(row[0].name@ == cols[0]);
        lemma_column_at(row, "id"@, 0);
        assert forall|j: int| 0 <= j < 1 implies (#[trigger] row[j]).name@ != "hodnota"@ by {
            assert(row[j].name@ == cols[j]);
            if j == 0 {}
        }
        assert(row[1].name@ == cols[1]);
        lemma_column_at(row, "hodnota"@, 1);
    }
}

impl Record for TypRizeni {
    open spec fn table_name() -> Seq<char> {
        "typ_rizeni"@
    }

    open spec fn key_columns() -> Seq<Seq<char>> {
        seq!["id"@]
    }

    open spec fn attr_columns() -> Seq<Seq<char>> {
        seq!["nazev"@, "zkratka"@]
    }

    open spec fn generated_key() -> bool {
        true
    }

    open spec fn key_spec(&self) -> Seq<DbValue> {
        seq![DbValue::Int(self.id as i64)]
    }

    open spec fn attrs_spec(&self) -> Seq<DbValue> {
        seq![DbValue::Text(self.nazev), DbValue::Text(self.zkratka)]
    }

    fn table() -> (r: TableSpec) {
        let mut key: Vec<String> = Vec::new();
        key.push(String::from_str("id"));
        let mut attrs: Vec<String> = Vec::new();
        attrs.push(String::from_str("nazev"));
        attrs.push(String::from_str("zkratka"));
        let t = TableSpec { name: String::from_str("typ_rizeni"), key, attrs, generated_key: true };
        assert(names(t.key@) =~= Self::key_columns());
        assert(names(t.attrs@) =~= Self::attr_columns());
        t
    }

    fn key_values(&self) -> (r: Vec<DbValue>) {
        let mut v: Vec<DbValue> = Vec::new();
        v.push(DbValue::Int(self.id as i64));
        assert(v@ =~= self.key_spec());
        v
    }

    fn attr_values(&self) -> (r: Vec<DbValue>) {
        let mut v: Vec<DbValue> = Vec::new();
        v.push(DbValue::Text(self.nazev.clone()));
        v.push(DbValue::Text(self.zkratka.clone()));
        assert(v@ =~= self.attrs_spec());
        v
    }

    proof fn lemma_read_back(&self, row: Seq<Column>) {
        reveal_strlit("id");
        reveal_strlit("nazev");
        reveal_strlit("zkratka");
        let cols = Self::key_columns() + Self::attr_columns();
        assert(cols =~= seq!["id"@, "nazev"@, "zkratka"@]);
        let vals = self.key_spec() + self.attrs_spec();
        assert(vals =~= seq![DbValue::Int(self.id as i64), DbValue::Text(self.nazev), DbValue::Text(self.zkratka)]);
        assert(row[0].name@ == cols[0]);
        lemma_column_at(row, "id"@, 0);
        assert forall|j: int| 0 <= j < 1 implies (#[trigger] row[j]).name@ != "nazev"@ by {
            assert(row[j].name@ == cols[j]);
            if j == 0 {}
        }
        assert(row[1].name@ == cols[1]);
        lemma_column_at(row, "nazev"@, 1);
        assert forall|j: int| 0 <= j < 2 implies (#[trigger] row[j]).name@ != "zkratka"@ by {
            assert(row[j].name@ == cols[j]);
            if j == 0 {} else if j == 1 {}
        }
        assert(row[2].name@ == cols[2]);
        lemma_column_at(row, "zkratka"@, 2);
    }
}

impl NewRecord for NewTypRizeni {
    type Stored = TypRizeni;

    open spec fn insert_spec(&self) -> Seq<DbValue> {
        seq![DbValue::Text(self.nazev), DbValue::Text(self.zkratka)]
    }

    fn insert_values(&self) -> (r: Vec<DbValue>) {
        let mut v: Vec<DbValue> = Vec::new();
        v.push(DbValue::Text(self.nazev.clone()));
        v.push(DbValue::Text(self.zkratka.clone()));
        assert(v@ =~= self.insert_spec());
        v
    }

    open spec fn listed_in(&self, row: Seq<Column>) -> bool {
        &&& col_text(row, "nazev"@) == Ok::<Seq<char>, Fault>(self.nazev@)
        &&& col_text(row, "zkratka"@) == Ok::<Seq<char>, Fault>(self.zkratka@)
    }

    proof fn lemma_created_lists(&self, id: i32, row: Seq<Column>) {
        reveal_strlit("id");
        reveal_strlit("nazev");
        reveal_strlit("zkratka");
        let cols = TypRizeni::key_columns() + TypRizeni::attr_columns();
        assert(cols =~= seq!["id"@, "nazev"@, "zkratka"@]);
        let vals = if TypRizeni::generated_key() { seq![DbValue::Int(id as i64)] + self.insert_spec() } else { self.insert_spec() };
        assert(vals =~= seq![DbValue::Int(id as i64), DbValue::Text(self.nazev), DbValue::Text(self.zkratka)]);
        assert(row[0].name@ == cols[0]);
        lemma_column_at(row, "id"@, 0);
        assert forall|j: int| 0 <= j < 1 implies (#[trigger] row[j]).name@ != "nazev"@ by {
            assert(row[j].name@ == cols[j]);
            if j == 0 {}
        }
        assert(row[1].name@ == cols[1]);
        lemma_column_at(row, "nazev"@, 1);
        assert forall|j: int| 0 <= j < 2 implies (#[trigger] row[j]).name@ != "zkratka"@ by {
            assert(row[j].name@ == cols[j]);
            if j == 0 {} else if j == 1 {}
        }
        assert(row[2].name@ == cols[2]);
        lemma_column_at(row, "zkratka"@, 2);
    }
}

impl Record for TypOperace {
    open spec fn table_name() -> Seq<char> {
        "typ_operace"@
    }

    open spec fn key_columns() -> Seq<Seq<char>> {
        seq!["id"@]
    }

    open spec fn attr_columns() -> Seq<Seq<char>> {
        seq!["popis"@]
    }

    open spec fn generated_key() -> bool {
        true
    }

    open spec fn key_spec(&self) -> Seq<DbValue> {
        seq![DbValue::Int(self.id as i64)]
    }

    open spec fn attrs_spec(&self) -> Seq<DbValue> {
        seq![DbValue::Text(self.popis)]
    }

    fn table() -> (r: TableSpec) {
        let mut key: Vec<String> = Vec::new();
        key.push(String::from_str("id"));
        let mut attrs: Vec<String> = Vec::new();
        attrs.push(String::from_str("popis"));
        let t = TableSpec { name: String::from_str("typ_operace"), key, attrs, generated_key: true };
        assert(names(t.key@) =~= Self::key_columns());
        assert(names(t.attrs@) =~= Self::attr_columns());
        t
    }

    fn key_values(&self) -> (r: Vec<DbValue>) {
        let mut v: Vec<DbValue> = Vec::new();
        v.push(DbValue::Int(self.id as i64));
        assert(v@ =~= self.key_spec());
        v
    }

    fn attr_values(&self) -> (r: Vec<DbValue>) {
        let mut v: Vec<DbValue> = Vec::new();
        v.push(DbValue::Text(self.popis.clone()));
        assert(v@ =~= self.attrs_spec());
        v
    }

    proof fn lemma_read_back(&self, row: Seq<Column>) {
        reveal_strlit("id");
        reveal_strlit("popis");
        let cols = Self::key_columns() + Self::attr_columns();
        assert(cols =~= seq!["id"@, "popis"@]);
        let vals = self.key_spec() + self.attrs_spec();
        assert(vals =~= seq![DbValue::Int(self.id as i64), DbValue::Text(self.popis)]);
        assert(row[0].name@ == cols[0]);
        lemma_column_at(row, "id"@, 0);
        assert forall|j: int| 0 <= j < 1 implies (#[trigger] row[j]).name@ != "popis"@ by {
            assert(row[j].name@ == cols[j]);
            if j == 0 {}
        }
        assert(row[1].name@ == cols[1]);
        lemma_column_at(row, "popis"@, 1);
    }
}

impl NewRecord for NewTypOperace {
    type Stored = TypOperace;

    open spec fn insert_spec(&self) -> Seq<DbValue> {
        seq![DbValue::Text(self.popis)]
    }

    fn insert_values(&self) -> (r: Vec<DbValue>) {
        let mut v: Vec<DbValue> = Vec::new();
        v.push(DbValue::Text(self.popis.clone()));
        assert(v@ =~= self.insert_spec());
        v
    }

    open spec fn listed_in(&self, row: Seq<Column>) -> bool {
        &&& col_text(row, "popis"@) == Ok::<Seq<char>, Fault>(self.popis@)
    }

    proof fn lemma_created_lists(&self, id: i32, row: Seq<Column>) {
        reveal_strlit("id");
        reveal_strlit("popis");
        let cols = TypOperace::key_columns() + TypOperace::attr_columns();
        assert(cols =~= seq!["id"@, "popis"@]);
        let vals = if TypOperace::generated_key() { seq![DbValue::Int(id as i64)] + self.insert_spec() } else { self.insert_spec() };
        assert(vals =~= seq![DbValue::Int(id as i64), DbValue::Text(self.popis)]);
        assert(row[0].name@ == cols[0]);
        lemma_column_at(row, "id"@, 0);
        assert forall|j: int| 0 <= j < 1 implies (#[trigger] row[j]).name@ != "popis"@ by {
            assert(row[j].name@ == cols[j]);
            if j == 0 {}
        }
        assert(row[1].name@ == cols[1]);
        lemma_column_at(row, "popis"@, 1);
    }
}

impl Record for TypUcastnika {
    open spec fn table_name() -> Seq<char> {
        "typ_ucastnika"@
    }

    open spec fn key_columns() -> Seq<Seq<char>> {
        seq!["id"@]
    }

    open spec fn attr_columns() -> Seq<Seq<char>> {
        seq!["nazev"@]
    }

    open spec fn generated_key() -> bool {
        true
    }

    open spec fn key_spec(&self) -> Seq<DbValue> {
        seq![DbValue::Int(self.id as i64)]
    }

    open spec fn attrs_spec(&self) -> Seq<DbValue> {
        seq![DbValue::Text(self.nazev)]
    }

    fn table() -> (r: TableSpec) {
        let mut key: Vec<String> = Vec::new();
        key.push(String::from_str("id"));
        let mut attrs: Vec<String> = Vec::new();
        attrs.push(String::from_str("nazev"));
        let t = TableSpec { name: String::from_str("typ_ucastnika"), key, attrs, generated_key: true };
        assert(names(t.key@) =~= Self::key_columns());
        assert(names(t.attrs@) =~= Self::attr_columns());
        t
    }

    fn key_values(&self) -> (r: Vec<DbValue>) {
        let mut v: Vec<DbValue> = Vec::new();
        v.push(DbValue::Int(self.id as i64));
        assert(v@ =~= self.key_spec());
        v
    }

    fn attr_values(&self) -> (r: Vec<DbValue>) {
        let mut v: Vec<DbValue> = Vec::new();
        v.push(DbValue::Text(self.nazev.clone()));
        assert(v@ =~= self.attrs_spec());
        v
    }

    proof fn lemma_read_back(&self, row: Seq<Column>) {
        reveal_strlit("id");
        reveal_strlit("nazev");
        let cols = Self::key_columns() + Self::attr_columns();
        assert(cols =~= seq!["id"@, "nazev"@]);
        let vals = self.key_spec() + self.attrs_spec();
        assert(vals =~= seq![DbValue::Int(self.id as i64), DbValue::Text(self.nazev)]);
        assert(row[0].name@ == cols[0]);
        lemma_column_at(row, "id"@, 0);
        assert forall|j: int| 0 <= j < 1 implies (#[trigger] row[j]).name@ != "nazev"@ by {
            assert(row[j].name@ == cols[j]);
            if j == 0 {}
        }
        assert(row[1].name@ == cols[1]);
        lemma_column_at(row, "nazev"@, 1);
    }
}

impl NewRecord for NewTypUcastnika {
    type Stored = TypUcastnika;

    open spec fn insert_spec(&self) -> Seq<DbValue> {
        seq![DbValue::Text(self.nazev)]
    }

    fn insert_values(&self) -> (r: Vec<DbValue>) {
        let mut v: Vec<DbValue> = Vec::new();
        v.push(DbValue::Text(self.nazev.clone()));
        assert(v@ =~= self.insert_spec());
        v
    }

    open spec fn listed_in(&self, row: Seq<Column>) -> bool {
        &&& col_text(row, "nazev"@) == Ok::<Seq<char>, Fault>(self.nazev@)
    }

    proof fn lemma_created_lists(&self, id: i32, row: Seq<Column>) {
        reveal_strlit("id");
        reveal_strlit("nazev");
        let cols = TypUcastnika::key_columns() + TypUcastnika::attr_columns();
        assert(cols =~= seq!["id"@, "nazev"@]);
        let vals = if TypUcastnika::generated_key() { seq![DbValue::Int(id as i64)] + self.insert_spec() } else { self.insert_spec() };
        assert(vals =~= seq![DbValue::Int(id as i64), DbValue::Text(self.nazev)]);
        assert(row[0].name@ == cols[0]);
        lemma_column_at(row, "id"@, 0);
        assert forall|j: int| 0 <= j < 1 implies (#[trigger] row[j]).name@ != "nazev"@ by {
            assert(row[j].name@ == cols[j]);
            if j == 0 {}
        }
        assert(row[1].name@ == cols[1]);
        lemma_column_at(row, "nazev"@, 1);
    }
}

impl Record for UcastnikRizeni {
    open spec fn table_name() -> Seq<char> {
        "ucastnik_rizeni"@
    }

    open spec fn key_columns() -> Seq<Seq<char>> {
        seq!["id"@]
    }

    open spec fn attr_columns() -> Seq<Seq<char>> {
        seq!["jmeno"@]
    }

    open spec fn generated_key() -> bool {
        true
    }

    open spec fn key_spec(&self) -> Seq<DbValue> {
        seq![DbValue::Int(self.id as i64)]
    }

    open spec fn attrs_spec(&self) -> Seq<DbValue> {
        seq![DbValue::Text(self.jmeno)]
    }

    fn table() -> (r: TableSpec) {
        let mut key: Vec<String> = Vec::new();
        key.push(String::from_str("id"));
        let mut attrs: Vec<String> = Vec::new();
        attrs.push(String::from_str("jmeno"));
        let t = TableSpec { name: String::from_str("ucastnik_rizeni"), key, attrs, generated_key: true };
        assert(names(t.key@) =~= Self::key_columns());
        assert(names(t.attrs@) =~= Self::attr_columns());
        t
    }

    fn key_values(&self) -> (r: Vec<DbValue>) {
        let mut v: Vec<DbValue> = Vec::new();
        v.push(DbValue::Int(self.id as i64));
        assert(v@ =~= self.key_spec());
        v
    }

    fn attr_values(&self) -> (r: Vec<DbValue>) {
        let mut v: Vec<DbValue> = Vec::new();
        v.push(DbValue::Text(self.jmeno.clone()));
        assert(v@ =~= self.attrs_spec());
        v
    }

    proof fn lemma_read_back(&self, row: Seq<Column>) {
        reveal_strlit("id");
        reveal_strlit("jmeno");
        let cols = Self::key_columns() + Self::attr_columns();
        assert(cols =~= seq!["id"@, "jmeno"@]);
        let vals = self.key_spec() + self.attrs_spec();
        assert(vals =~= seq![DbValue::Int(self.id as i64), DbValue::Text(self.jmeno)]);
        assert(row[0].name@ == cols[0]);
        lemma_column_at(row, "id"@, 0);
        assert forall|j: int| 0 <= j < 1 implies (#[trigger] row[j]).name@ != "jmeno"@ by {
            assert(row[j].name@ == cols[j]);
            if j == 0 {}
        }
        assert(row[1].name@ == cols[1]);
        lemma_column_at(row, "jmeno"@, 1);
    }
}

impl NewRecord for NewUcastnikRizeni {
    type Stored = UcastnikRizeni;

    open spec fn insert_spec(&self) -> Seq<DbValue> {
        seq![DbValue::Text(self.jmeno)]
    }

    fn insert_values(&self) -> (r: Vec<DbValue>) {
        let mut v: Vec<DbValue> = Vec::new();
        v.push(DbValue::Text(self.jmeno.clone()));
        assert(v@ =~= self.insert_spec());
        v
    }

    open spec fn listed_in(&self, row: Seq<Column>) -> bool {
        &&& col_text(row, "jmeno"@) == Ok::<Seq<char>, Fault>(self.jmeno@)
    }

    proof fn lemma_created_lists(&self, id: i32, row: Seq<Column>) {
        reveal_strlit("id");
        reveal_strlit("jmeno");
        let cols = UcastnikRizeni::key_columns() + UcastnikRizeni::attr_columns();
        assert(cols =~= seq!["id"@, "jmeno"@]);
        let vals = if UcastnikRizeni::generated_key() { seq![DbValue::Int(id as i64)] + self.insert_spec() } else { self.insert_spec() };
        assert(vals =~= seq![DbValue::Int(id as i64), DbValue::Text(self.jmeno)]);
        assert(row[0].name@ == cols[0]);
        lemma_column_at(row, "id"@, 0);
        assert forall|j: int| 0 <= j < 1 implies (#[trigger] row[j]).name@ != "jmeno"@ by {
            assert(row[j].name@ == cols[j]);
            if j == 0 {}
        }
        assert(row[1].name@ == cols[1]);
        lemma_column_at(row, "jmeno"@, 1);
    }
}

impl Record for ListVlastnictvi {
    open spec fn table_name() -> Seq<char> {
        "list_vlastnictvi"@
    }

    open spec fn key_columns() -> Seq<Seq<char>> {
        seq!["id"@]
    }

    open spec fn attr_columns() -> Seq<Seq<char>> {
        seq!["katastralni_uzemi_id"@, "cislo_lv"@, "vlastnicky_hash"@]
    }

    open spec fn generated_key() -> bool {
        true
    }

    open spec fn key_spec(&self) -> Seq<DbValue> {
        seq![DbValue::Int(self.id as i64)]
    }

    open spec fn attrs_spec(&self) -> Seq<DbValue> {
        seq![DbValue::Int(self.katastralni_uzemi_id as i64), DbValue::Int(self.cislo_lv as i64), text_or_null(self.vlastnicky_hash)]
    }

    fn table() -> (r: TableSpec) {
        let mut key: Vec<String> = Vec::new();
        key.push(String::from_str("id"));
        let mut attrs: Vec<String> = Vec::new();
        attrs.push(String::from_str("katastralni_uzemi_id"));
        attrs.push(String::from_str("cislo_lv"));
        attrs.push(String::from_str("vlastnicky_hash"));
        let t = TableSpec { name: String::from_str("list_vlastnictvi"), key, attrs, generated_key: true };
        assert(names(t.key@) =~= Self::key_columns());
        assert(names(t.attrs@) =~= Self::attr_columns());
        t
    }

    fn key_values(&self) -> (r: Vec<DbValue>) {
        let mut v: Vec<DbValue> = Vec::new();
        v.push(DbValue::Int(self.id as i64));
        assert(v@ =~= self.key_spec());
        v
    }

    fn attr_values(&self) -> (r: Vec<DbValue>) {
        let mut v: Vec<DbValue> = Vec::new();
        v.push(DbValue::Int(self.katastralni_uzemi_id as i64));
        v.push(DbValue::Int(self.cislo_lv as i64));
        v.push(text_or_null_value(&self.vlastnicky_hash));
        assert(v@ =~= self.attrs_spec());
        v
    }

    proof fn lemma_read_back(&self, row: Seq<Column>) {
        reveal_strlit("id");
        reveal_strlit("katastralni_uzemi_id");
        reveal_strlit("cislo_lv");
        reveal_strlit("vlastnicky_hash");
        let cols = Self::key_columns() + Self::attr_columns();
        assert(cols =~= seq!["id"@, "katastralni_uzemi_id"@, "cislo_lv"@, "vlastnicky_hash"@]);
        let vals = self.key_spec() + self.attrs_spec();
        assert(vals =~= seq![DbValue::Int(self.id as i64), DbValue::Int(self.katastralni_uzemi_id as i64), DbValue::Int(self.cislo_lv as i64), text_or_null(self.vlastnicky_hash)]);
        assert(row[0].name@ == cols[0]);
        lemma_column_at(row, "id"@, 0);
        assert forall|j: int| 0 <= j < 1 implies (#[trigger] row[j]).name@ != "katastralni_uzemi_id"@ by {
            assert(row[j].name@ == cols[j]);
            if j == 0 {}
        }
        assert(row[1].name@ == cols[1]);
        lemma_column_at(row, "katastralni_uzemi_id"@, 1);
        assert forall|j: int| 0 <= j < 2 implies (#[trigger] row[j]).name@ != "cislo_lv"@ by {
            assert(row[j].name@ == cols[j]);
            if j == 0 {} else if j == 1 {}
        }
        assert(row[2].name@ == cols[2]);
        lemma_column_at(row, "cislo_lv"@, 2);
        assert forall|j: int| 0 <= j < 3 implies (#[trigger] row[j]).name@ != "vlastnicky_hash"@ by {
            assert(row[j].name@ == cols[j]);
            if j == 0 {} else if j == 1 {} else if j == 2 {}
        }
        assert(row[3].name@ == cols[3]);
        lemma_column_at(row, "vlastnicky_hash"@, 3);
    }
}

impl NewRecord for NewListVlastnictvi {
    type Stored = ListVlastnictvi;

    open spec fn insert_spec(&self) -> Seq<DbValue> {
        seq![DbValue::Int(self.katastralni_uzemi_id as i64), DbValue::Int(self.cislo_lv as i64), text_or_null(self.vlastnicky_hash)]
    }

    fn insert_values(&self) -> (r: Vec<DbValue>) {
        let mut v: Vec<DbValue> = Vec::new();
        v.push(DbValue::Int(self.katastralni_uzemi_id as i64));
        v.push(DbValue::Int(self.cislo_lv as i64));
        v.push(text_or_null_value(&self.vlastnicky_hash));
        assert(v@ =~= self.insert_spec());
        v
    }

    open spec fn listed_in(&self, row: Seq<Column>) -> bool {
        &&& col_i32(row, "katastralni_uzemi_id"@) == Ok::<i32, Fault>(self.katastralni_uzemi_id)
        &&& col_i32(row, "cislo_lv"@) == Ok::<i32, Fault>(self.cislo_lv)
        &&& col_opt_text(row, "vlastnicky_hash"@) == Ok::<Option<Seq<char>>, Fault>(opt_text(self.vlastnicky_hash))
    }

    proof fn lemma_created_lists(&self, id: i32, row: Seq<Column>) {
        reveal_strlit("id");
        reveal_strlit("katastralni_uzemi_id");
        reveal_strlit("cislo_lv");
        reveal_strlit("vlastnicky_hash");
        let cols = ListVlastnictvi::key_columns() + ListVlastnictvi::attr_columns();
        assert(cols =~= seq!["id"@, "katastralni_uzemi_id"@, "cislo_lv"@, "vlastnicky_hash"@]);
        let vals = if ListVlastnictvi::generated_key() { seq![DbValue::Int(id as i64)] + self.insert_spec() } else { self.insert_spec() };
        assert(vals =~= seq![DbValue::Int(id as i64), DbValue::Int(self.katastralni_uzemi_id as i64), DbValue::Int(self.cislo_lv as i64), text_or_null(self.vlastnicky_hash)]);
        assert(row[0].name@ == cols[0]);
        lemma_column_at(row, "id"@, 0);
        assert forall|j: int| 0 <= j < 1 implies (#[trigger] row[j]).name@ != "katastralni_uzemi_id"@ by {
            assert(row[j].name@ == cols[j]);
            if j == 0 {}
        }
        assert(row[1].name@ == cols[1]);
        lemma_column_at(row, "katastralni_uzemi_id"@, 1);
        assert forall|j: int| 0 <= j < 2 implies (#[trigger] row[j]).name@ != "cislo_lv"@ by {
            assert(row[j].name@ == cols[j]);
            if j == 0 {} else if j == 1 {}
        }
        assert(row[2].name@ == cols[2]);
        lemma_column_at(row, "cislo_lv"@, 2);
        assert forall|j: int| 0 <= j < 3 implies (#[trigger] row[j]).name@ != "vlastnicky_hash"@ by {
            assert(row[j].name@ == cols[j]);
            if j == 0 {} else if j == 1 {} else if j == 2 {}
        }
        assert(row[3].name@ == cols[3]);
        lemma_column_at(row, "vlastnicky_hash"@, 3);
    }
}

impl Record for ParcelaRow {
    open spec fn table_name() -> Seq<char> {
        "parcela"@
    }

    open spec fn key_columns() -> Seq<Seq<char>> {
        seq!["id"@]
    }

    open spec fn attr_columns() -> Seq<Seq<char>> {
        seq!["parcelni_cislo"@, "cast_parcely"@, "je_stavebni"@, "vymera_metru_ctverecnich"@, "ulice"@, "cislo_popisne"@, "katastralni_uzemi_id"@, "bpej_id"@, "list_vlastnictvi_id"@]
    }

    open spec fn generated_key() -> bool {
        true
    }

    open spec fn key_spec(&self) -> Seq<DbValue> {
        seq![DbValue::Int(self.id as i64)]
    }

    open spec fn attrs_spec(&self) -> Seq<DbValue> {
        seq![DbValue::Int(self.parcelni_cislo as i64), DbValue::Int(self.cast_parcely as i64), DbValue::Bool(self.je_stavebni), DbValue::Decimal(self.vymera_metru_ctverecnich), text_or_null(self.ulice), text_or_null(self.cislo_popisne), DbValue::Int(self.katastralni_uzemi_id as i64), int_or_null(self.bpej_id), DbValue::Int(self.list_vlastnictvi_id as i64)]
    }

    fn table() -> (r: TableSpec) {
        let mut key: Vec<String> = Vec::new();
        key.push(String::from_str("id"));
        let mut attrs: Vec<String> = Vec::new();
        attrs.push(String::from_str("parcelni_cislo"));
        attrs.push(String::from_str("cast_parcely"));
        attrs.push(String::from_str("je_stavebni"));
        attrs.push(String::from_str("vymera_metru_ctverecnich"));
        attrs.push(String::from_str("ulice"));
        attrs.push(String::from_str("cislo_popisne"));
        attrs.push(String::from_str("katastralni_uzemi_id"));
        attrs.push(String::from_str("bpej_id"));
        attrs.push(String::from_str("list_vlastnictvi_id"));
        let t = TableSpec { name: String::from_str("parcela"), key, attrs, generated_key: true };
        assert(names(t.key@) =~= Self::key_columns());
        assert(names(t.attrs@) =~= Self::attr_columns());
        t
    }

    fn key_values(&self) -> (r: Vec<DbValue>) {
        let mut v: Vec<DbValue> = Vec::new();
        v.push(DbValue::Int(self.id as i64));
        assert(v@ =~= self.key_spec());
        v
    }

    fn attr_values(&self) -> (r: Vec<DbValue>) {
        let mut v: Vec<DbValue> = Vec::new();
        v.push(DbValue::Int(self.parcelni_cislo as i64));
        v.push(DbValue::Int(self.cast_parcely as i64));
        v.push(DbValue::Bool(self.je_stavebni));
        v.push(DbValue::Decimal(self.vymera_metru_ctverecnich));
        v.push(text_or_null_value(&self.ulice));
        v.push(text_or_null_value(&self.cislo_popisne));
        v.push(DbValue::Int(self.katastralni_uzemi_id as i64));
        v.push(int_or_null_value(self.bpej_id));
        v.push(DbValue::Int(self.list_vlastnictvi_id as i64));
        assert(v@ =~= self.attrs_spec());
        v
    }

    proof fn lemma_read_back(&self, row: Seq<Column>) {
        reveal_strlit("id");
        reveal_strlit("parcelni_cislo");
        reveal_strlit("cast_parcely");
        reveal_strlit("je_stavebni");
        reveal_strlit("vymera_metru_ctverecnich");
        reveal_strlit("ulice");
        reveal_strlit("cislo_popisne");
        reveal_strlit("katastralni_uzemi_id");
        reveal_strlit("bpej_id");
        reveal_strlit("list_vlastnictvi_id");
        let cols = Self::key_columns() + Self::attr_columns();
        assert(cols =~= seq!["id"@, "parcelni_cislo"@, "cast_parcely"@, "je_stavebni"@, "vymera_metru_ctverecnich"@, "ulice"@, "cislo_popisne"@, "katastralni_uzemi_id"@, "bpej_id"@, "list_vlastnictvi_id"@]);
        let vals = self.key_spec() + self.attrs_spec();
        assert(vals =~= seq![DbValue::Int(self.id as i64), DbValue::Int(self.parcelni_cislo as i64), DbValue::Int(self.cast_parcely as i64), DbValue::Bool(self.je_stavebni), DbValue::Decimal(self.vymera_metru_ctverecnich), text_or_null(self.ulice), text_or_null(self.cislo_popisne), DbValue::Int(self.katastralni_uzemi_id as i64), int_or_null(self.bpej_id), DbValue::Int(self.list_vlastnictvi_id as i64)]);
        assert(row[0].name@ == cols[0]);
        lemma_column_at(row, "id"@, 0);
        assert forall|j: int| 0 <= j < 1 implies (#[trigger] row[j]).name@ != "parcelni_cislo"@ by {
            assert(row[j].name@ == cols[j]);
            if j == 0 {}
        }
        assert(row[1].name@ == cols[1]);
        lemma_column_at(row, "parcelni_cislo"@, 1);
        assert forall|j: int| 0 <= j < 2 implies (#[trigger] row[j]).name@ != "cast_parcely"@ by {
            assert(row[j].name@ == cols[j]);
            if j == 0 {} else if j == 1 {}
        }
        assert(row[2].name@ == cols[2]);
        lemma_column_at(row, "cast_parcely"@, 2);
        assert forall|j: int| 0 <= j < 3 implies (#[trigger] row[j]).name@ != "je_stavebni"@ by {
            assert(row[j].name@ == cols[j]);
            if j == 0 {} else if j == 1 {} else if j == 2 {}
        }
        assert(row[3].name@ == cols[3]);
        lemma_column_at(row, "je_stavebni"@, 3);
        assert forall|j: int| 0 <= j < 4 implies (#[trigger] row[j]).name@ != "vymera_metru_ctverecnich"@ by {
            assert(row[j].name@ == cols[j]);
            if j == 0 {} else if j == 1 {} else if j == 2 {} else if j == 3 {}
        }
        assert(row[4].name@ == cols[4]);
        lemma_column_at(row, "vymera_metru_ctverecnich"@, 4);
        assert forall|j: int| 0 <= j < 5 implies (#[trigger] row[j]).name@ != "ulice"@ by {
            assert(row[j].name@ == cols[j]);
            if j == 0 {} else if j == 1 {} else if j == 2 {} else if j == 3 {} else if j == 4 {}
        }
        assert(row[5].name@ == cols[5]);
        lemma_column_at(row, "ulice"@, 5);
        assert forall|j: int| 0 <= j < 6 implies (#[trigger] row[j]).name@ != "cislo_popisne"@ by {
            assert(row[j].name@ == cols[j]);
            if j == 0 {} else if j == 1 {} else if j == 2 {} else if j == 3 {} else if j == 4 {} else if j == 5 {}
        }
        assert(row[6].name@ == cols[6]);
        lemma_column_at(row, "cislo_popisne"@, 6);
        assert forall|j: int| 0 <= j < 7 implies (#[trigger] row[j]).name@ != "katastralni_uzemi_id"@ by {
            assert(row[j].name@ == cols[j]);
            if j == 0 {} else if j == 1 {} else if j == 2 {} else if j == 3 {} else if j == 4 {} else if j == 5 {} else if j == 6 {}
        }
        assert(row[7].name@ == cols[7]);
        lemma_column_at(row, "katastralni_uzemi_id"@, 7);
        assert forall|j: int| 0 <= j < 8 implies (#[trigger] row[j]).name@ != "bpej_id"@ by {
            assert(row[j].name@ == cols[j]);
            if j == 0 {} else if j == 1 {} else if j == 2 {} else if j == 3 {} else if j == 4 {} else if j == 5 {} else if j == 6 {} else if j == 7 {}
        }
        assert(row[8].name@ == cols[8]);
        lemma_column_at(row, "bpej_id"@, 8);
        assert forall|j: int| 0 <= j < 9 implies (#[trigger] row[j]).name@ != "list_vlastnictvi_id"@ by {
            assert(row[j].name@ == cols[j]);
            if j == 0 {} else if j == 1 {} else if j == 2 {} else if j == 3 {} else if j == 4 {} else if j == 5 {} else if j == 6 {} else if j == 7 {} else if j == 8 {}
        }
        assert(row[9].name@ == cols[9]);
        lemma_column_at(row, "list_vlastnictvi_id"@, 9);
    }
}

impl NewRecord for NewParcelaRow {
    type Stored = ParcelaRow;

    open spec fn insert_spec(&self) -> Seq<DbValue> {
        seq![DbValue::Int(self.parcelni_cislo as i64), DbValue::Int(self.cast_parcely as i64), DbValue::Bool(self.je_stavebni), DbValue::Decimal(self.vymera_metru_ctverecnich), text_or_null(self.ulice), text_or_null(self.cislo_popisne), DbValue::Int(self.katastralni_uzemi_id as i64), int_or_null(self.bpej_id), DbValue::Int(self.list_vlastnictvi_id as i64)]
    }

    fn insert_values(&self) -> (r: Vec<DbValue>) {
        let mut v: Vec<DbValue> = Vec::new();
        v.push(DbValue::Int(self.parcelni_cislo as i64));
        v.push(DbValue::Int(self.cast_parcely as i64));
        v.push(DbValue::Bool(self.je_stavebni));
        v.push(DbValue::Decimal(self.vymera_metru_ctverecnich));
        v.push(text_or_null_value(&self.ulice));
        v.push(text_or_null_value(&self.cislo_popisne));
        v.push(DbValue::Int(self.katastralni_uzemi_id as i64));
        v.push(int_or_null_value(self.bpej_id));
        v.push(DbValue::Int(self.list_vlastnictvi_id as i64));
        assert(v@ =~= self.insert_spec());
        v
    }

    open spec fn listed_in(&self, row: Seq<Column>) -> bool {
        &&& col_i32(row, "parcelni_cislo"@) == Ok::<i32, Fault>(self.parcelni_cislo)
        &&& col_i32(row, "cast_parcely"@) == Ok::<i32, Fault>(self.cast_parcely)
        &&& col_bool(row, "je_stavebni"@) == Ok::<bool, Fault>(self.je_stavebni)
        &&& col_decimal(row, "vymera_metru_ctverecnich"@) == Ok::<DecimalValue, Fault>(self.vymera_metru_ctverecnich)
        &&& col_opt_text(row, "ulice"@) == Ok::<Option<Seq<char>>, Fault>(opt_text(self.ulice))
        &&& col_opt_text(row, "cislo_popisne"@) == Ok::<Option<Seq<char>>, Fault>(opt_text(self.cislo_popisne))
        &&& col_i32(row, "katastralni_uzemi_id"@) == Ok::<i32, Fault>(self.katastralni_uzemi_id)
        &&& col_opt_i32(row, "bpej_id"@) == Ok::<Option<i32>, Fault>(self.bpej_id)
        &&& col_i32(row, "list_vlastnictvi_id"@) == Ok::<i32, Fault>(self.list_vlastnictvi_id)
    }

    proof fn lemma_created_lists(&self, id: i32, row: Seq<Column>) {
        reveal_strlit("id");
        reveal_strlit("parcelni_cislo");
        reveal_strlit("cast_parcely");
        reveal_strlit("je_stavebni");
        reveal_strlit("vymera_metru_ctverecnich");
        reveal_strlit("ulice");
        reveal_strlit("cislo_popisne");
        reveal_strlit("katastralni_uzemi_id");
        reveal_strlit("bpej_id");
        reveal_strlit("list_vlastnictvi_id");
        let cols = ParcelaRow::key_columns() + ParcelaRow::attr_columns();
        assert(cols =~= seq!["id"@, "parcelni_cislo"@, "cast_parcely"@, "je_stavebni"@, "vymera_metru_ctverecnich"@, "ulice"@, "cislo_popisne"@, "katastralni_uzemi_id"@, "bpej_id"@, "list_vlastnictvi_id"@]);
        let vals = if ParcelaRow::generated_key() { seq![DbValue::Int(id as i64)] + self.insert_spec() } else { self.insert_spec() };
        assert(vals =~= seq![DbValue::Int(id as i64), DbValue::Int(self.parcelni_cislo as i64), DbValue::Int(self.cast_parcely as i64), DbValue::Bool(self.je_stavebni), DbValue::Decimal(self.vymera_metru_ctverecnich), text_or_null(self.ulice), text_or_null(self.cislo_popisne), DbValue::Int(self.katastralni_uzemi_id as i64), int_or_null(self.bpej_id), DbValue::Int(self.list_vlastnictvi_id as i64)]);
        assert(row[0].name@ == cols[0]);
        lemma_column_at(row, "id"@, 0);
        assert forall|j: int| 0 <= j < 1 implies (#[trigger] row[j]).name@ != "parcelni_cislo"@ by {
            assert(row[j].name@ == cols[j]);
            if j == 0 {}
        }
        assert(row[1].name@ == cols[1]);
        lemma_column_at(row, "parcelni_cislo"@, 1);
        assert forall|j: int| 0 <= j < 2 implies (#[trigger] row[j]).name@ != "cast_parcely"@ by {
            assert(row[j].name@ == cols[j]);
            if j == 0 {} else if j == 1 {}
        }
        assert(row[2].name@ == cols[2]);
        lemma_column_at(row, "cast_parcely"@, 2);
        assert forall|j: int| 0 <= j < 3 implies (#[trigger] row[j]).name@ != "je_stavebni"@ by {
            assert(row[j].name@ == cols[j]);
            if j == 0 {} else if j == 1 {} else if j == 2 {}
        }
        assert(row[3].name@ == cols[3]);
        lemma_column_at(row, "je_stavebni"@, 3);
        assert forall|j: int| 0 <= j < 4 implies (#[trigger] row[j]).name@ != "vymera_metru_ctverecnich"@ by {
            assert(row[j].name@ == cols[j]);
            if j == 0 {} else if j == 1 {} else if j == 2 {} else if j == 3 {}
        }
        assert(row[4].name@ == cols[4]);
        lemma_column_at(row, "vymera_metru_ctverecnich"@, 4);
        assert forall|j: int| 0 <= j < 5 implies (#[trigger] row[j]).name@ != "ulice"@ by {
            assert(row[j].name@ == cols[j]);
            if j == 0 {} else if j == 1 {} else if j == 2 {} else if j == 3 {} else if j == 4 {}
        }
        assert(row[5].name@ == cols[5]);
        lemma_column_at(row, "ulice"@, 5);
        assert forall|j: int| 0 <= j < 6 implies (#[trigger] row[j]).name@ != "cislo_popisne"@ by {
            assert(row[j].name@ == cols[j]);
            if j == 0 {} else if j == 1 {} else if j == 2 {} else if j == 3 {} else if j == 4 {} else if j == 5 {}
        }
        assert(row[6].name@ == cols[6]);
        lemma_column_at(row, "cislo_popisne"@, 6);
        assert forall|j: int| 0 <= j < 7 implies (#[trigger] row[j]).name@ != "katastralni_uzemi_id"@ by {
            assert(row[j].name@ == cols[j]);
            if j == 0 {} else if j == 1 {} else if j == 2 {} else if j == 3 {} else if j == 4 {} else if j == 5 {} else if j == 6 {}
        }
        assert(row[7].name@ == cols[7]);
        lemma_column_at(row, "katastralni_uzemi_id"@, 7);
        assert forall|j: int| 0 <= j < 8 implies (#[trigger] row[j]).name@ != "bpej_id"@ by {
            assert(row[j].name@ == cols[j]);
            if j == 0 {} else if j == 1 {} else if j == 2 {} else if j == 3 {} else if j == 4 {} else if j == 5 {} else if j == 6 {} else if j == 7 {}
        }
        assert(row[8].name@ == cols[8]);
        lemma_column_at(row, "bpej_id"@, 8);
        assert forall|j: int| 0 <= j < 9 implies (#[trigger] row[j]).name@ != "list_vlastnictvi_id"@ by {
            assert(row[j].name@ == cols[j]);
            if j == 0 {} else if j == 1 {} else if j == 2 {} else if j == 3 {} else if j == 4 {} else if j == 5 {} else if j == 6 {} else if j == 7 {} else if j == 8 {}
        }
        assert(row[9].name@ == cols[9]);
        lemma_column_at(row, "list_vlastnictvi_id"@, 9);
    }
}

impl Record for Rizeni {
    open spec fn table_name() -> Seq<char> {
        "rizeni"@
    }

    open spec fn key_columns() -> Seq<Seq<char>> {
        seq!["id"@]
    }

    open spec fn attr_columns() -> Seq<Seq<char>> {
        seq!["rok"@, "cislo_rizeni"@, "typ_rizeni_id"@, "predmet"@, "poznamka"@]
    }

    open spec fn generated_key() -> bool {
        true
    }

    open spec fn key_spec(&self) -> Seq<DbValue> {
        seq![DbValue::Int(self.id as i64)]
    }

    open spec fn attrs_spec(&self) -> Seq<DbValue> {
        seq![DbValue::Int(self.rok as i64), DbValue::Int(self.cislo_rizeni as i64), DbValue::Int(self.typ_rizeni_id as i64), DbValue::Text(self.predmet), text_or_null(self.poznamka)]
    }

    fn table() -> (r: TableSpec) {
        let mut key: Vec<String> = Vec::new();
        key.push(String::from_str("id"));
        let mut attrs: Vec<String> = Vec::new();
        attrs.push(String::from_str("rok"));
        attrs.push(String::from_str("cislo_rizeni"));
        attrs.push(String::from_str("typ_rizeni_id"));
        attrs.push(String::from_str("predmet"));
        attrs.push(String::from_str("poznamka"));
        let t = TableSpec { name: String::from_str("rizeni"), key, attrs, generated_key: true };
        assert(names(t.key@) =~= Self::key_columns());
        assert(names(t.attrs@) =~= Self::attr_columns());
        t
    }

    fn key_values(&self) -> (r: Vec<DbValue>) {
        let mut v: Vec<DbValue> = Vec::new();
        v.push(DbValue::Int(self.id as i64));
        assert(v@ =~= self.key_spec());
        v
    }

    fn attr_values(&self) -> (r: Vec<DbValue>) {
        let mut v: Vec<DbValue> = Vec::new();
        v.push(DbValue::Int(self.rok as i64));
        v.push(DbValue::Int(self.cislo_rizeni as i64));
        v.push(DbValue::Int(self.typ_rizeni_id as i64));
        v.push(DbValue::Text(self.predmet.clone()));
        v.push(text_or_null_value(&self.poznamka));
        assert(v@ =~= self.attrs_spec());
        v
    }

    proof fn lemma_read_back(&self, row: Seq<Column>) {
        reveal_strlit("id");
        reveal_strlit("rok");
        reveal_strlit("cislo_rizeni");
        reveal_strlit("typ_rizeni_id");
        reveal_strlit("predmet");
        reveal_strlit("poznamka");
        let cols = Self::key_columns() + Self::attr_columns();
        assert(cols =~= seq!["id"@, "rok"@, "cislo_rizeni"@, "typ_rizeni_id"@, "predmet"@, "poznamka"@]);
        let vals = self.key_spec() + self.attrs_spec();
        assert(vals =~= seq![DbValue::Int(self.id as i64), DbValue::Int(self.rok as i64), DbValue::Int(self.cislo_rizeni as i64), DbValue::Int(self.typ_rizeni_id as i64), DbValue::Text(self.predmet), text_or_null(self.poznamka)]);
        assert(row[0].name@ == cols[0]);
        lemma_column_at(row, "id"@, 0);
        assert forall|j: int| 0 <= j < 1 implies (#[trigger] row[j]).name@ != "rok"@ by {
            assert(row[j].name@ == cols[j]);
            if j == 0 {}
        }
        assert(row[1].name@ == cols[1]);
        lemma_column_at(row, "rok"@, 1);
        assert forall|j: int| 0 <= j < 2 implies (#[trigger] row[j]).name@ != "cislo_rizeni"@ by {
            assert(row[j].name@ == cols[j]);
            if j == 0 {} else if j == 1 {}
        }
        assert(row[2].name@ == cols[2]);
        lemma_column_at(row, "cislo_rizeni"@, 2);
        assert forall|j: int| 0 <= j < 3 implies (#[trigger] row[j]).name@ != "typ_rizeni_id"@ by {
            assert(row[j].name@ == cols[j]);
            if j == 0 {} else if j == 1 {} else if j == 2 {}
        }
        assert(row[3].name@ == cols[3]);
        lemma_column_at(row, "typ_rizeni_id"@, 3);
        assert forall|j: int| 0 <= j < 4 implies (#[trigger] row[j]).name@ != "predmet"@ by {
            assert(row[j].name@ == cols[j]);
            if j == 0 {} else if j == 1 {} else if j == 2 {} else if j == 3 {}
        }
        assert(row[4].name@ == cols[4]);
        lemma_column_at(row, "predmet"@, 4);
        assert forall|j: int| 0 <= j < 5 implies (#[trigger] row[j]).name@ != "poznamka"@ by {
            assert(row[j].name@ == cols[j]);
            if j == 0 {} else if j == 1 {} else if j == 2 {} else if j == 3 {} else if j == 4 {}
        }
        assert(row[5].name@ == cols[5]);
        lemma_column_at(row, "poznamka"@, 5);
    }
}

impl NewRecord for NewRizeni {
    type Stored = Rizeni;

    open spec fn insert_spec(&self) -> Seq<DbValue> {
        seq![DbValue::Int(self.rok as i64), DbValue::Int(self.cislo_rizeni as i64), DbValue::Int(self.typ_rizeni_id as i64), DbValue::Text(self.predmet), text_or_null(self.poznamka)]
    }

    fn insert_values(&self) -> (r: Vec<DbValue>) {
        let mut v: Vec<DbValue> = Vec::new();
        v.push(DbValue::Int(self.rok as i64));
        v.push(DbValue::Int(self.cislo_rizeni as i64));
        v.push(DbValue::Int(self.typ_rizeni_id as i64));
        v.push(DbValue::Text(self.predmet.clone()));
        v.push(text_or_null_value(&self.poznamka));
        assert(v@ =~= self.insert_spec());
        v
    }

    open spec fn listed_in(&self, row: Seq<Column>) -> bool {
        &&& col_i32(row, "rok"@) == Ok::<i32, Fault>(self.rok)
        &&& col_i32(row, "cislo_rizeni"@) == Ok::<i32, Fault>(self.cislo_rizeni)
        &&& col_i32(row, "typ_rizeni_id"@) == Ok::<i32, Fault>(self.typ_rizeni_id)
        &&& col_text(row, "predmet"@) == Ok::<Seq<char>, Fault>(self.predmet@)
        &&& col_opt_text(row, "poznamka"@) == Ok::<Option<Seq<char>>, Fault>(opt_text(self.poznamka))
    }

    proof fn lemma_created_lists(&self, id: i32, row: Seq<Column>) {
        reveal_strlit("id");
        reveal_strlit("rok");
        reveal_strlit("cislo_rizeni");
        reveal_strlit("typ_rizeni_id");
        reveal_strlit("predmet");
        reveal_strlit("poznamka");
        let cols = Rizeni::key_columns() + Rizeni::attr_columns();
        assert(cols =~= seq!["id"@, "rok"@, "cislo_rizeni"@, "typ_rizeni_id"@, "predmet"@, "poznamka"@]);
        let vals = if Rizeni::generated_key() { seq![DbValue::Int(id as i64)] + self.insert_spec() } else { self.insert_spec() };
        assert(vals =~= seq![DbValue::Int(id as i64), DbValue::Int(self.rok as i64), DbValue::Int(self.cislo_rizeni as i64), DbValue::Int(self.typ_rizeni_id as i64), DbValue::Text(self.predmet), text_or_null(self.poznamka)]);
        assert(row[0].name@ == cols[0]);
        lemma_column_at(row, "id"@, 0);
        assert forall|j: int| 0 <= j < 1 implies (#[trigger] row[j]).name@ != "rok"@ by {
            assert(row[j].name@ == cols[j]);
            if j == 0 {}
        }
        assert(row[1].name@ == cols[1]);
        lemma_column_at(row, "rok"@, 1);
        assert forall|j: int| 0 <= j < 2 implies (#[trigger] row[j]).name@ != "cislo_rizeni"@ by {
            assert(row[j].name@ == cols[j]);
            if j == 0 {} else if j == 1 {}
        }
        assert(row[2].name@ == cols[2]);
        lemma_column_at(row, "cislo_rizeni"@, 2);
        assert forall|j: int| 0 <= j < 3 implies (#[trigger] row[j]).name@ != "typ_rizeni_id"@ by {
            assert(row[j].name@ == cols[j]);
            if j == 0 {} else if j == 1 {} else if j == 2 {}
        }
        assert(row[3].name@ == cols[3]);
        lemma_column_at(row, "typ_rizeni_id"@, 3);
        assert forall|j: int| 0 <= j < 4 implies (#[trigger] row[j]).name@ != "predmet"@ by {
            assert(row[j].name@ == cols[j]);
            if j == 0 {} else if j == 1 {} else if j == 2 {} else if j == 3 {}
        }
        assert(row[4].name@ == cols[4]);
        lemma_column_at(row, "predmet"@, 4);
        assert forall|j: int| 0 <= j < 5 implies (#[trigger] row[j]).name@ != "poznamka"@ by {
            assert(row[j].name@ == cols[j]);
            if j == 0 {} else if j == 1 {} else if j == 2 {} else if j == 3 {} else if j == 4 {}
        }
        assert(row[5].name@ == cols[5]);
        lemma_column_at(row, "poznamka"@, 5);
    }
}

impl Record for Vlastnictvi {
    open spec fn table_name() -> Seq<char> {
        "vlastnictvi"@
    }

    open spec fn key_columns() -> Seq<Seq<char>> {
        seq!["parcela_id"@, "majitel_id"@]
    }

    open spec fn attr_columns() -> Seq<Seq<char>> {
        seq!["podil_setin"@]
    }

    open spec fn generated_key() -> bool {
        false
    }

    open spec fn key_spec(&self) -> Seq<DbValue> {
        seq![DbValue::Int(self.parcela_id as i64), DbValue::Int(self.majitel_id as i64)]
    }

    open spec fn attrs_spec(&self) -> Seq<DbValue> {
        seq![DbValue::Int(self.podil_setin as i64)]
    }

    fn table() -> (r: TableSpec) {
        let mut key: Vec<String> = Vec::new();
        key.push(String::from_str("parcela_id"));
        key.push(String::from_str("majitel_id"));
        let mut attrs: Vec<String> = Vec::new();
        attrs.push(String::from_str("podil_setin"));
        let t = TableSpec { name: String::from_str("vlastnictvi"), key, attrs, generated_key: false };
        assert(names(t.key@) =~= Self::key_columns());
        assert(names(t.attrs@) =~= Self::attr_columns());
        t
    }

    fn key_values(&self) -> (r: Vec<DbValue>) {
        let mut v: Vec<DbValue> = Vec::new();
        v.push(DbValue::Int(self.parcela_id as i64));
        v.push(DbValue::Int(self.majitel_id as i64));
        assert(v@ =~= self.key_spec());
        v
    }

    fn attr_values(&self) -> (r: Vec<DbValue>) {
        let mut v: Vec<DbValue> = Vec::new();
        v.push(DbValue::Int(self.podil_setin as i64));
        assert(v@ =~= self.attrs_spec());
        v
    }

    proof fn lemma_read_back(&self, row: Seq<Column>) {
        reveal_strlit("parcela_id");
        reveal_strlit("majitel_id");
        reveal_strlit("podil_setin");
        let cols = Self::key_columns() + Self::attr_columns();
        assert(cols =~= seq!["parcela_id"@, "majitel_id"@, "podil_setin"@]);
        let vals = self.key_spec() + self.attrs_spec();
        assert(vals =~= seq![DbValue::Int(self.parcela_id as i64), DbValue::Int(self.majitel_id as i64), DbValue::Int(self.podil_setin as i64)]);
        assert(row[0].name@ == cols[0]);
        lemma_column_at(row, "parcela_id"@, 0);
        assert forall|j: int| 0 <= j < 1 implies (#[trigger] row[j]).name@ != "majitel_id"@ by {
            assert(row[j].name@ == cols[j]);
            if j == 0 { assert("parcela_id"@[0] != "majitel_id"@[0]); }
        }
        assert(row[1].name@ == cols[1]);
        lemma_column_at(row, "majitel_id"@, 1);
        assert forall|j: int| 0 <= j < 2 implies (#[trigger] row[j]).name@ != "podil_setin"@ by {
            assert(row[j].name@ == cols[j]);
            if j == 0 {} else if j == 1 {}
        }
        assert(row[2].name@ == cols[2]);
        lemma_column_at(row, "podil_setin"@, 2);
    }
}

impl NewRecord for NewVlastnictvi {
    type Stored = Vlastnictvi;

    open spec fn insert_spec(&self) -> Seq<DbValue> {
        seq![DbValue::Int(self.parcela_id as i64), DbValue::Int(self.majitel_id as i64), DbValue::Int(self.podil_setin as i64)]
    }

    fn insert_values(&self) -> (r: Vec<DbValue>) {
        let mut v: Vec<DbValue> = Vec::new();
        v.push(DbValue::Int(self.parcela_id as i64));
        v.push(DbValue::Int(self.majitel_id as i64));
        v.push(DbValue::Int(self.podil_setin as i64));
        assert(v@ =~= self.insert_spec());
        v
    }

    open spec fn listed_in(&self, row: Seq<Column>) -> bool {
        &&& col_i32(row, "parcela_id"@) == Ok::<i32, Fault>(self.parcela_id)
        &&& col_i32(row, "majitel_id"@) == Ok::<i32, Fault>(self.majitel_id)
        &&& col_i32(row, "podil_setin"@) == Ok::<i32, Fault>(self.podil_setin)
    }

    proof fn lemma_created_lists(&self, id: i32, row: Seq<Column>) {
        reveal_strlit("parcela_id");
        reveal_strlit("majitel_id");
        reveal_strlit("podil_setin");
        let cols = Vlastnictvi::key_columns() + Vlastnictvi::attr_columns();
        assert(cols =~= seq!["parcela_id"@, "majitel_id"@, "podil_setin"@]);
        let vals = if Vlastnictvi::generated_key() { seq![DbValue::Int(id as i64)] + self.insert_spec() } else { self.insert_spec() };
        assert(vals =~= seq![DbValue::Int(self.parcela_id as i64), DbValue::Int(self.majitel_id as i64), DbValue::Int(self.podil_setin as i64)]);
        assert(row[0].name@ == cols[0]);
        lemma_column_at(row, "parcela_id"@, 0);
        assert forall|j: int| 0 <= j < 1 implies (#[trigger] row[j]).name@ != "majitel_id"@ by {
            assert(row[j].name@ == cols[j]);
            if j == 0 { assert("parcela_id"@[0] != "majitel_id"@[0]); }
        }
        assert(row[1].name@ == cols[1]);
        lemma_column_at(row, "majitel_id"@, 1);
        assert forall|j: int| 0 <= j < 2 implies (#[trigger] row[j]).name@ != "podil_setin"@ by {
            assert(row[j].name@ == cols[j]);
            if j == 0 {} else if j == 1 {}
        }
        assert(row[2].name@ == cols[2]);
        lemma_column_at(row, "podil_setin"@, 2);
    }
}

impl Record for BremenoParcelaParcela {
    open spec fn table_name() -> Seq<char> {
        "bremeno_parcela_parcela"@
    }

    open spec fn key_columns() -> Seq<Seq<char>> {
        seq!["parcela_id"@, "parcela_povinna_id"@]
    }

    open spec fn attr_columns() -> Seq<Seq<char>> {
        seq!["popis"@, "datum_zrizeni"@, "datum_pravnich_ucinku"@]
    }

    open spec fn generated_key() -> bool {
        false
    }

    open spec fn key_spec(&self) -> Seq<DbValue> {
        seq![DbValue::Int(self.parcela_id as i64), DbValue::Int(self.parcela_povinna_id as i64)]
    }

    open spec fn attrs_spec(&self) -> Seq<DbValue> {
        seq![DbValue::Text(self.popis), DbValue::Date(self.datum_zrizeni), DbValue::Date(self.datum_pravnich_ucinku)]
    }

    fn table() -> (r: TableSpec) {
        let mut key: Vec<String> = Vec::new();
        key.push(String::from_str("parcela_id"));
        key.push(String::from_str("parcela_povinna_id"));
        let mut attrs: Vec<String> = Vec::new();
        attrs.push(String::from_str("popis"));
        attrs.push(String::from_str("datum_zrizeni"));
        attrs.push(String::from_str("datum_pravnich_ucinku"));
        let t = TableSpec { name: String::from_str("bremeno_parcela_parcela"), key, attrs, generated_key: false };
        assert(names(t.key@) =~= Self::key_columns());
        assert(names(t.attrs@) =~= Self::attr_columns());
        t
    }

    fn key_values(&self) -> (r: Vec<DbValue>) {
        let mut v: Vec<DbValue> = Vec::new();
        v.push(DbValue::Int(self.parcela_id as i64));
        v.push(DbValue::Int(self.parcela_povinna_id as i64));
        assert(v@ =~= self.key_spec());
        v
    }

    fn attr_values(&self) -> (r: Vec<DbValue>) {
        let mut v: Vec<DbValue> = Vec::new();
        v.push(DbValue::Text(self.popis.clone()));
        v.push(DbValue::Date(self.datum_zrizeni));
        v.push(DbValue::Date(self.datum_pravnich_ucinku));
        assert(v@ =~= self.attrs_spec());
        v
    }

    proof fn lemma_read_back(&self, row: Seq<Column>) {
        reveal_strlit("parcela_id");
        reveal_strlit("parcela_povinna_id");
        reveal_strlit("popis");
        reveal_strlit("datum_zrizeni");
        reveal_strlit("datum_pravnich_ucinku");
        let cols = Self::key_columns() + Self::attr_columns();
        assert(cols =~= seq!["parcela_id"@, "parcela_povinna_id"@, "popis"@, "datum_zrizeni"@, "datum_pravnich_ucinku"@]);
        let vals = self.key_spec() + self.attrs_spec();
        assert(vals =~= seq![DbValue::Int(self.parcela_id as i64), DbValue::Int(self.parcela_povinna_id as i64), DbValue::Text(self.popis), DbValue::Date(self.datum_zrizeni), DbValue::Date(self.datum_pravnich_ucinku)]);
        assert(row[0].name@ == cols[0]);
        lemma_column_at(row, "parcela_id"@, 0);
        assert forall|j: int| 0 <= j < 1 implies (#[trigger] row[j]).name@ != "parcela_povinna_id"@ by {
            assert(row[j].name@ == cols[j]);
            if j == 0 {}
        }
        assert(row[1].name@ == cols[1]);
        lemma_column_at(row, "parcela_povinna_id"@, 1);
        assert forall|j: int| 0 <= j < 2 implies (#[trigger] row[j]).name@ != "popis"@ by {
            assert(row[j].name@ == cols[j]);
            if j == 0 {} else if j == 1 {}
        }
        assert(row[2].name@ == cols[2]);
        lemma_column_at(row, "popis"@, 2);
        assert forall|j: int| 0 <= j < 3 implies (#[trigger] row[j]).name@ != "datum_zrizeni"@ by {
            assert(row[j].name@ == cols[j]);
            if j == 0 {} else if j == 1 {} else if j == 2 {}
        }
        assert(row[3].name@ == cols[3]);
        lemma_column_at(row, "datum_zrizeni"@, 3);
        assert forall|j: int| 0 <= j < 4 implies (#[trigger] row[j]).name@ != "datum_pravnich_ucinku"@ by {
            assert(row[j].name@ == cols[j]);
            if j == 0 {} else if j == 1 {} else if j == 2 {} else if j == 3 {}
        }
        assert(row[4].name@ == cols[4]);
        lemma_column_at(row, "datum_pravnich_ucinku"@, 4);
    }
}

impl NewRecord for NewBremenoParcelaParcela {
    type Stored = BremenoParcelaParcela;

    open spec fn insert_spec(&self) -> Seq<DbValue> {
        seq![DbValue::Int(self.parcela_id as i64), DbValue::Int(self.parcela_povinna_id as i64), DbValue::Text(self.popis), DbValue::Date(self.datum_zrizeni), DbValue::Date(self.datum_pravnich_ucinku)]
    }

    fn insert_values(&self) -> (r: Vec<DbValue>) {
        let mut v: Vec<DbValue> = Vec::new();
        v.push(DbValue::Int(self.parcela_id as i64));
        v.push(DbValue::Int(self.parcela_povinna_id as i64));
        v.push(DbValue::Text(self.popis.clone()));
        v.push(DbValue::Date(self.datum_zrizeni));
        v.push(DbValue::Date(self.datum_pravnich_ucinku));
        assert(v@ =~= self.insert_spec());
        v
    }

    open spec fn listed_in(&self, row: Seq<Column>) -> bool {
        &&& col_i32(row, "parcela_id"@) == Ok::<i32, Fault>(self.parcela_id)
        &&& col_i32(row, "parcela_povinna_id"@) == Ok::<i32, Fault>(self.parcela_povinna_id)
        &&& col_text(row, "popis"@) == Ok::<Seq<char>, Fault>(self.popis@)
        &&& col_date(row, "datum_zrizeni"@) == Ok::<CalendarDate, Fault>(self.datum_zrizeni)
        &&& col_date(row, "datum_pravnich_ucinku"@) == Ok::<CalendarDate, Fault>(self.datum_pravnich_ucinku)
    }

    proof fn lemma_created_lists(&self, id: i32, row: Seq<Column>) {
        reveal_strlit("parcela_id");
        reveal_strlit("parcela_povinna_id");
        reveal_strlit("popis");
        reveal_strlit("datum_zrizeni");
        reveal_strlit("datum_pravnich_ucinku");
        let cols = BremenoParcelaParcela::key_columns() + BremenoParcelaParcela::attr_columns();
        assert(cols =~= seq!["parcela_id"@, "parcela_povinna_id"@, "popis"@, "datum_zrizeni"@, "datum_pravnich_ucinku"@]);
        let vals = if BremenoParcelaParcela::generated_key() { seq![DbValue::Int(id as i64)] + self.insert_spec() } else { self.insert_spec() };
        assert(vals =~= seq![DbValue::Int(self.parcela_id as i64), DbValue::Int(self.parcela_povinna_id as i64), DbValue::Text(self.popis), DbValue::Date(self.datum_zrizeni), DbValue::Date(self.datum_pravnich_ucinku)]);
        assert(row[0].name@ == cols[0]);
        lemma_column_at(row, "parcela_id"@, 0);
        assert forall|j: int| 0 <= j < 1 implies (#[trigger] row[j]).name@ != "parcela_povinna_id"@ by {
            assert(row[j].name@ == cols[j]);
            if j == 0 {}
        }
        assert(row[1].name@ == cols[1]);
        lemma_column_at(row, "parcela_povinna_id"@, 1);
        assert forall|j: int| 0 <= j < 2 implies (#[trigger] row[j]).name@ != "popis"@ by {
            assert(row[j].name@ == cols[j]);
            if j == 0 {} else if j == 1 {}
        }
        assert(row[2].name@ == cols[2]);
        lemma_column_at(row, "popis"@, 2);
        assert forall|j: int| 0 <= j < 3 implies (#[trigger] row[j]).name@ != "datum_zrizeni"@ by {
            assert(row[j].name@ == cols[j]);
            if j == 0 {} else if j == 1 {} else if j == 2 {}
        }
        assert(row[3].name@ == cols[3]);
        lemma_column_at(row, "datum_zrizeni"@, 3);
        assert forall|j: int| 0 <= j < 4 implies (#[trigger] row[j]).name@ != "datum_pravnich_ucinku"@ by {
            assert(row[j].name@ == cols[j]);
            if j == 0 {} else if j == 1 {} else if j == 2 {} else if j == 3 {}
        }
        assert(row[4].name@ == cols[4]);
        lemma_column_at(row, "datum_pravnich_ucinku"@, 4);
    }
}

impl Record for BremenoParcelaMajitel {
    open spec fn table_name() -> Seq<char> {
        "bremeno_parcela_majitel"@
    }

    open spec fn key_columns() -> Seq<Seq<char>> {
        seq!["parcela_id"@, "majitel_povinny_id"@]
    }

    open spec fn attr_columns() -> Seq<Seq<char>> {
        seq!["popis"@, "datum_zrizeni"@, "datum_pravnich_ucinku"@]
    }

    open spec fn generated_key() -> bool {
        false
    }

    open spec fn key_spec(&self) -> Seq<DbValue> {
        seq![DbValue::Int(self.parcela_id as i64), DbValue::Int(self.majitel_povinny_id as i64)]
    }

    open spec fn attrs_spec(&self) -> Seq<DbValue> {
        seq![DbValue::Text(self.popis), DbValue::Date(self.datum_zrizeni), DbValue::Date(self.datum_pravnich_ucinku)]
    }

    fn table() -> (r: TableSpec) {
        let mut key: Vec<String> = Vec::new();
        key.push(String::from_str("parcela_id"));
        key.push(String::from_str("majitel_povinny_id"));
        let mut attrs: Vec<String> = Vec::new();
        attrs.push(String::from_str("popis"));
        attrs.push(String::from_str("datum_zrizeni"));
        attrs.push(String::from_str("datum_pravnich_ucinku"));
        let t = TableSpec { name: String::from_str("bremeno_parcela_majitel"), key, attrs, generated_key: false };
        assert(names(t.key@) =~= Self::key_columns());
        assert(names(t.attrs@) =~= Self::attr_columns());
        t
    }

    fn key_values(&self) -> (r: Vec<DbValue>) {
        let mut v: Vec<DbValue> = Vec::new();
        v.push(DbValue::Int(self.parcela_id as i64));
        v.push(DbValue::Int(self.majitel_povinny_id as i64));
        assert(v@ =~= self.key_spec());
        v
    }

    fn attr_values(&self) -> (r: Vec<DbValue>) {
        let mut v: Vec<DbValue> = Vec::new();
        v.push(DbValue::Text(self.popis.clone()));
        v.push(DbValue::Date(self.datum_zrizeni));
        v.push(DbValue::Date(self.datum_pravnich_ucinku));
        assert(v@ =~= self.attrs_spec());
        v
    }

    proof fn lemma_read_back(&self, row: Seq<Column>) {
        reveal_strlit("parcela_id");
        reveal_strlit("majitel_povinny_id");
        reveal_strlit("popis");
        reveal_strlit("datum_zrizeni");
        reveal_strlit("datum_pravnich_ucinku");
        let cols = Self::key_columns() + Self::attr_columns();
        assert(cols =~= seq!["parcela_id"@, "majitel_povinny_id"@, "popis"@, "datum_zrizeni"@, "datum_pravnich_ucinku"@]);
        let vals = self.key_spec() + self.attrs_spec();
        assert(vals =~= seq![DbValue::Int(self.parcela_id as i64), DbValue::Int(self.majitel_povinny_id as i64), DbValue::Text(self.popis), DbValue::Date(self.datum_zrizeni), DbValue::Date(self.datum_pravnich_ucinku)]);
        assert(row[0].name@ == cols[0]);
        lemma_column_at(row, "parcela_id"@, 0);
        assert forall|j: int| 0 <= j < 1 implies (#[trigger] row[j]).name@ != "majitel_povinny_id"@ by {
            assert(row[j].name@ == cols[j]);
            if j == 0 {}
        }
        assert(row[1].name@ == cols[1]);
        lemma_column_at(row, "majitel_povinny_id"@, 1);
        assert forall|j: int| 0 <= j < 2 implies (#[trigger] row[j]).name@ != "popis"@ by {
            assert(row[j].name@ == cols[j]);
            if j == 0 {} else if j == 1 {}
        }
        assert(row[2].name@ == cols[2]);
        lemma_column_at(row, "popis"@, 2);
        assert forall|j: int| 0 <= j < 3 implies (#[trigger] row[j]).name@ != "datum_zrizeni"@ by {
            assert(row[j].name@ == cols[j]);
            if j == 0 {} else if j == 1 {} else if j == 2 {}
        }
        assert(row[3].name@ == cols[3]);
        lemma_column_at(row, "datum_zrizeni"@, 3);
        assert forall|j: int| 0 <= j < 4 implies (#[trigger] row[j]).name@ != "datum_pravnich_ucinku"@ by {
            assert(row[j].name@ == cols[j]);
            if j == 0 {} else if j == 1 {} else if j == 2 {} else if j == 3 {}
        }
        assert(row[4].name@ == cols[4]);
        lemma_column_at(row, "datum_pravnich_ucinku"@, 4);
    }
}

impl NewRecord for NewBremenoParcelaMajitel {
    type Stored = BremenoParcelaMajitel;

    open spec fn insert_spec(&self) -> Seq<DbValue> {
        seq![DbValue::Int(self.parcela_id as i64), DbValue::Int(self.majitel_povinny_id as i64), DbValue::Text(self.popis), DbValue::Date(self.datum_zrizeni), DbValue::Date(self.datum_pravnich_ucinku)]
    }

    fn insert_values(&self) -> (r: Vec<DbValue>) {
        let mut v: Vec<DbValue> = Vec::new();
        v.push(DbValue::Int(self.parcela_id as i64));
        v.push(DbValue::Int(self.majitel_povinny_id as i64));
        v.push(DbValue::Text(self.popis.clone()));
        v.push(DbValue::Date(self.datum_zrizeni));
        v.push(DbValue::Date(self.datum_pravnich_ucinku));
        assert(v@ =~= self.insert_spec());
        v
    }

    open spec fn listed_in(&self, row: Seq<Column>) -> bool {
        &&& col_i32(row, "parcela_id"@) == Ok::<i32, Fault>(self.parcela_id)
        &&& col_i32(row, "majitel_povinny_id"@) == Ok::<i32, Fault>(self.majitel_povinny_id)
        &&& col_text(row, "popis"@) == Ok::<Seq<char>, Fault>(self.popis@)
        &&& col_date(row, "datum_zrizeni"@) == Ok::<CalendarDate, Fault>(self.datum_zrizeni)
        &&& col_date(row, "datum_pravnich_ucinku"@) == Ok::<CalendarDate, Fault>(self.datum_pravnich_ucinku)
    }

    proof fn lemma_created_lists(&self, id: i32, row: Seq<Column>) {
        reveal_strlit("parcela_id");
        reveal_strlit("majitel_povinny_id");
        reveal_strlit("popis");
        reveal_strlit("datum_zrizeni");
        reveal_strlit("datum_pravnich_ucinku");
        let cols = BremenoParcelaMajitel::key_columns() + BremenoParcelaMajitel::attr_columns();
        assert(cols =~= seq!["parcela_id"@, "majitel_povinny_id"@, "popis"@, "datum_zrizeni"@, "datum_pravnich_ucinku"@]);
        let vals = if BremenoParcelaMajitel::generated_key() { seq![DbValue::Int(id as i64)] + self.insert_spec() } else { self.insert_spec() };
        assert(vals =~= seq![DbValue::Int(self.parcela_id as i64), DbValue::Int(self.majitel_povinny_id as i64), DbValue::Text(self.popis), DbValue::Date(self.datum_zrizeni), DbValue::Date(self.datum_pravnich_ucinku)]);
        assert(row[0].name@ == cols[0]);
        lemma_column_at(row, "parcela_id"@, 0);
        assert forall|j: int| 0 <= j < 1 implies (#[trigger] row[j]).name@ != "majitel_povinny_id"@ by {
            assert(row[j].name@ == cols[j]);
            if j == 0 {}
        }
        assert(row[1].name@ == cols[1]);
        lemma_column_at(row, "majitel_povinny_id"@, 1);
        assert forall|j: int| 0 <= j < 2 implies (#[trigger] row[j]).name@ != "popis"@ by {
            assert(row[j].name@ == cols[j]);
            if j == 0 {} else if j == 1 {}
        }
        assert(row[2].name@ == cols[2]);
        lemma_column_at(row, "popis"@, 2);
        assert forall|j: int| 0 <= j < 3 implies (#[trigger] row[j]).name@ != "datum_zrizeni"@ by {
            assert(row[j].name@ == cols[j]);
            if j == 0 {} else if j == 1 {} else if j == 2 {}
        }
        assert(row[3].name@ == cols[3]);
        lemma_column_at(row, "datum_zrizeni"@, 3);
        assert forall|j: int| 0 <= j < 4 implies (#[trigger] row[j]).name@ != "datum_pravnich_ucinku"@ by {
            assert(row[j].name@ == cols[j]);
            if j == 0 {} else if j == 1 {} else if j == 2 {} else if j == 3 {}
        }
        assert(row[4].name@ == cols[4]);
        lemma_column_at(row, "datum_pravnich_ucinku"@, 4);
    }
}

impl Record for Plomba {
    open spec fn table_name() -> Seq<char> {
        "plomba"@
    }

    open spec fn key_columns() -> Seq<Seq<char>> {
        seq!["rizeni_id"@, "parcela_id"@]
    }

    open spec fn attr_columns() -> Seq<Seq<char>> {
        Seq::<Seq<char>>::empty()
    }

    open spec fn generated_key() -> bool {
        false
    }

    open spec fn key_spec(&self) -> Seq<DbValue> {
        seq![DbValue::Int(self.rizeni_id as i64), DbValue::Int(self.parcela_id as i64)]
    }

    open spec fn attrs_spec(&self) -> Seq<DbValue> {
        Seq::<DbValue>::empty()
    }

    fn table() -> (r: TableSpec) {
        let mut key: Vec<String> = Vec::new();
        key.push(String::from_str("rizeni_id"));
        key.push(String::from_str("parcela_id"));
        let mut attrs: Vec<String> = Vec::new();
        let t = TableSpec { name: String::from_str("plomba"), key, attrs, generated_key: false };
        assert(names(t.key@) =~= Self::key_columns());
        assert(names(t.attrs@) =~= Self::attr_columns());
        t
    }

    fn key_values(&self) -> (r: Vec<DbValue>) {
        let mut v: Vec<DbValue> = Vec::new();
        v.push(DbValue::Int(self.rizeni_id as i64));
        v.push(DbValue::Int(self.parcela_id as i64));
        assert(v@ =~= self.key_spec());
        v
    }

    fn attr_values(&self) -> (r: Vec<DbValue>) {
        let mut v: Vec<DbValue> = Vec::new();
        assert(v@ =~= self.attrs_spec());
        v
    }

    proof fn lemma_read_back(&self, row: Seq<Column>) {
        reveal_strlit("rizeni_id");
        reveal_strlit("parcela_id");
        let cols = Self::key_columns() + Self::attr_columns();
        assert(cols =~= seq!["rizeni_id"@, "parcela_id"@]);
        let vals = self.key_spec() + self.attrs_spec();
        assert(vals =~= seq![DbValue::Int(self.rizeni_id as i64), DbValue::Int(self.parcela_id as i64)]);
        assert(row[0].name@ == cols[0]);
        lemma_column_at(row, "rizeni_id"@, 0);
        assert forall|j: int| 0 <= j < 1 implies (#[trigger] row[j]).name@ != "parcela_id"@ by {
            assert(row[j].name@ == cols[j]);
            if j == 0 {}
        }
        assert(row[1].name@ == cols[1]);
        lemma_column_at(row, "parcela_id"@, 1);
    }
}

impl NewRecord for NewPlomba {
    type Stored = Plomba;

    open spec fn insert_spec(&self) -> Seq<DbValue> {
        seq![DbValue::Int(self.rizeni_id as i64), DbValue::Int(self.parcela_id as i64)]
    }

    fn insert_values(&self) -> (r: Vec<DbValue>) {
        let mut v: Vec<DbValue> = Vec::new();
        v.push(DbValue::Int(self.rizeni_id as i64));
        v.push(DbValue::Int(self.parcela_id as i64));
        assert(v@ =~= self.insert_spec());
        v
    }

    open spec fn listed_in(&self, row: Seq<Column>) -> bool {
        &&& col_i32(row, "rizeni_id"@) == Ok::<i32, Fault>(self.rizeni_id)
        &&& col_i32(row, "parcela_id"@) == Ok::<i32, Fault>(self.parcela_id)
    }

    proof fn lemma_created_lists(&self, id: i32, row: Seq<Column>) {
        reveal_strlit("rizeni_id");
        reveal_strlit("parcela_id");
        let cols = Plomba::key_columns() + Plomba::attr_columns();
        assert(cols =~= seq!["rizeni_id"@, "parcela_id"@]);
        let vals = if Plomba::generated_key() { seq![DbValue::Int(id as i64)] + self.insert_spec() } else { self.insert_spec() };
        assert(vals =~= seq![DbValue::Int(self.rizeni_id as i64), DbValue::Int(self.parcela_id as i64)]);
        assert(row[0].name@ == cols[0]);
        lemma_column_at(row, "rizeni_id"@, 0);
        assert forall|j: int| 0 <= j < 1 implies (#[trigger] row[j]).name@ != "parcela_id"@ by {
            assert(row[j].name@ == cols[j]);
            if j == 0 {}
        }
        assert(row[1].name@ == cols[1]);
        lemma_column_at(row, "parcela_id"@, 1);
    }
}

impl Record for RizeniOperaceRow {
    open spec fn table_name() -> Seq<char> {
        "rizeni_operace"@
    }

    open spec fn key_columns() -> Seq<Seq<char>> {
        seq!["rizeni_id"@, "typ_operace_id"@]
    }

    open spec fn attr_columns() -> Seq<Seq<char>> {
        seq!["datum"@]
    }

    open spec fn generated_key() -> bool {
        false
    }

    open spec fn key_spec(&self) -> Seq<DbValue> {
        seq![DbValue::Int(self.rizeni_id as i64), DbValue::Int(self.typ_operace_id as i64)]
    }

    open spec fn attrs_spec(&self) -> Seq<DbValue> {
        seq![DbValue::Date(self.datum)]
    }

    fn table() -> (r: TableSpec) {
        let mut key: Vec<String> = Vec::new();
        key.push(String::from_str("rizeni_id"));
        key.push(String::from_str("typ_operace_id"));
        let mut attrs: Vec<String> = Vec::new();
        attrs.push(String::from_str("datum"));
        let t = TableSpec { name: String::from_str("rizeni_operace"), key, attrs, generated_key: false };
        assert(names(t.key@) =~= Self::key_columns());
        assert(names(t.attrs@) =~= Self::attr_columns());
        t
    }

    fn key_values(&self) -> (r: Vec<DbValue>) {
        let mut v: Vec<DbValue> = Vec::new();
        v.push(DbValue::Int(self.rizeni_id as i64));
        v.push(DbValue::Int(self.typ_operace_id as i64));
        assert(v@ =~= self.key_spec());
        v
    }

    fn attr_values(&self) -> (r: Vec<DbValue>) {
        let mut v: Vec<DbValue> = Vec::new();
        v.push(DbValue::Date(self.datum));
        assert(v@ =~= self.attrs_spec());
        v
    }

    proof fn lemma_read_back(&self, row: Seq<Column>) {
        reveal_strlit("rizeni_id");
        reveal_strlit("typ_operace_id");
        reveal_strlit("datum");
        let cols = Self::key_columns() + Self::attr_columns();
        assert(cols =~= seq!["rizeni_id"@, "typ_operace_id"@, "datum"@]);
        let vals = self.key_spec() + self.attrs_spec();
        assert(vals =~= seq![DbValue::Int(self.rizeni_id as i64), DbValue::Int(self.typ_operace_id as i64), DbValue::Date(self.datum)]);
        assert(row[0].name@ == cols[0]);
        lemma_column_at(row, "rizeni_id"@, 0);
        assert forall|j: int| 0 <= j < 1 implies (#[trigger] row[j]).name@ != "typ_operace_id"@ by {
            assert(row[j].name@ == cols[j]);
            if j == 0 {}
        }
        assert(row[1].name@ == cols[1]);
        lemma_column_at(row, "typ_operace_id"@, 1);
        assert forall|j: int| 0 <= j < 2 implies (#[trigger] row[j]).name@ != "datum"@ by {
            assert(row[j].name@ == cols[j]);
            if j == 0 {} else if j == 1 {}
        }
        assert(row[2].name@ == cols[2]);
        lemma_column_at(row, "datum"@, 2);
    }
}

impl NewRecord for NewRizeniOperaceRow {
    type Stored = RizeniOperaceRow;

    open spec fn insert_spec(&self) -> Seq<DbValue> {
        seq![DbValue::Int(self.rizeni_id as i64), DbValue::Int(self.typ_operace_id as i64), DbValue::Date(self.datum)]
    }

    fn insert_values(&self) -> (r: Vec<DbValue>) {
        let mut v: Vec<DbValue> = Vec::new();
        v.push(DbValue::Int(self.rizeni_id as i64));
        v.push(DbValue::Int(self.typ_operace_id as i64));
        v.push(DbValue::Date(self.datum));
        assert(v@ =~= self.insert_spec());
        v
    }

    open spec fn listed_in(&self, row: Seq<Column>) -> bool {
        &&& col_i32(row, "rizeni_id"@) == Ok::<i32, Fault>(self.rizeni_id)
        &&& col_i32(row, "typ_operace_id"@) == Ok::<i32, Fault>(self.typ_operace_id)
        &&& col_date(row, "datum"@) == Ok::<CalendarDate, Fault>(self.datum)
    }

    proof fn lemma_created_lists(&self, id: i32, row: Seq<Column>) {
        reveal_strlit("rizeni_id");
        reveal_strlit("typ_operace_id");
        reveal_strlit("datum");
        let cols = RizeniOperaceRow::key_columns() + RizeniOperaceRow::attr_columns();
        assert(cols =~= seq!["rizeni_id"@, "typ_operace_id"@, "datum"@]);
        let vals = if RizeniOperaceRow::generated_key() { seq![DbValue::Int(id as i64)] + self.insert_spec() } else { self.insert_spec() };
        assert(vals =~= seq![DbValue::Int(self.rizeni_id as i64), DbValue::Int(self.typ_operace_id as i64), DbValue::Date(self.datum)]);
        assert(row[0].name@ == cols[0]);
        lemma_column_at(row, "rizeni_id"@, 0);
        assert forall|j: int| 0 <= j < 1 implies (#[trigger] row[j]).name@ != "typ_operace_id"@ by {
            assert(row[j].name@ == cols[j]);
            if j == 0 {}
        }
        assert(row[1].name@ == cols[1]);
        lemma_column_at(row, "typ_operace_id"@, 1);
        assert forall|j: int| 0 <= j < 2 implies (#[trigger] row[j]).name@ != "datum"@ by {
            assert(row[j].name@ == cols[j]);
            if j == 0 {} else if j == 1 {}
        }
        assert(row[2].name@ == cols[2]);
        lemma_column_at(row, "datum"@, 2);
    }
}

impl Record for Ucast {
    open spec fn table_name() -> Seq<char> {
        "ucast"@
    }

    open spec fn key_columns() -> Seq<Seq<char>> {
        seq!["rizeni_id"@, "ucastnik_rizeni_id"@, "typ_ucastnika_id"@]
    }

    open spec fn attr_columns() -> Seq<Seq<char>> {
        Seq::<Seq<char>>::empty()
    }

    open spec fn generated_key() -> bool {
        false
    }

    open spec fn key_spec(&self) -> Seq<DbValue> {
        seq![DbValue::Int(self.rizeni_id as i64), DbValue::Int(self.ucastnik_rizeni_id as i64), DbValue::Int(self.typ_ucastnika_id as i64)]
    }

    open spec fn attrs_spec(&self) -> Seq<DbValue> {
        Seq::<DbValue>::empty()
    }

    fn table() -> (r: TableSpec) {
        let mut key: Vec<String> = Vec::new();
        key.push(String::from_str("rizeni_id"));
        key.push(String::from_str("ucastnik_rizeni_id"));
        key.push(String::from_str("typ_ucastnika_id"));
        let mut attrs: Vec<String> = Vec::new();
        let t = TableSpec { name: String::from_str("ucast"), key, attrs, generated_key: false };
        assert(names(t.key@) =~= Self::key_columns());
        assert(names(t.attrs@) =~= Self::attr_columns());
        t
    }

    fn key_values(&self) -> (r: Vec<DbValue>) {
        let mut v: Vec<DbValue> = Vec::new();
        v.push(DbValue::Int(self.rizeni_id as i64));
        v.push(DbValue::Int(self.ucastnik_rizeni_id as i64));
        v.push(DbValue::Int(self.typ_ucastnika_id as i64));
        assert(v@ =~= self.key_spec());
        v
    }

    fn attr_values(&self) -> (r: Vec<DbValue>) {
        let mut v: Vec<DbValue> = Vec::new();
        assert(v@ =~= self.attrs_spec());
        v
    }

    proof fn lemma_read_back(&self, row: Seq<Column>) {
        reveal_strlit("rizeni_id");
        reveal_strlit("ucastnik_rizeni_id");
        reveal_strlit("typ_ucastnika_id");
        let cols = Self::key_columns() + Self::attr_columns();
        assert(cols =~= seq!["rizeni_id"@, "ucastnik_rizeni_id"@, "typ_ucastnika_id"@]);
        let vals = self.key_spec() + self.attrs_spec();
        assert(vals =~= seq![DbValue::Int(self.rizeni_id as i64), DbValue::Int(self.ucastnik_rizeni_id as i64), DbValue::Int(self.typ_ucastnika_id as i64)]);
        assert(row[0].name@ == cols[0]);
        lemma_column_at(row, "rizeni_id"@, 0);
        assert forall|j: int| 0 <= j < 1 implies (#[trigger] row[j]).name@ != "ucastnik_rizeni_id"@ by {
            assert(row[j].name@ == cols[j]);
            if j == 0 {}
        }
        assert(row[1].name@ == cols[1]);
        lemma_column_at(row, "ucastnik_rizeni_id"@, 1);
        assert forall|j: int| 0 <= j < 2 implies (#[trigger] row[j]).name@ != "typ_ucastnika_id"@ by {
            assert(row[j].name@ == cols[j]);
            if j == 0 {} else if j == 1 {}
        }
        assert(row[2].name@ == cols[2]);
        lemma_column_at(row, "typ_ucastnika_id"@, 2);
    }
}

impl NewRecord for NewUcast {
    type Stored = Ucast;

    open spec fn insert_spec(&self) -> Seq<DbValue> {
        seq![DbValue::Int(self.rizeni_id as i64), DbValue::Int(self.ucastnik_rizeni_id as i64), DbValue::Int(self.typ_ucastnika_id as i64)]
    }

    fn insert_values(&self) -> (r: Vec<DbValue>) {
        let mut v: Vec<DbValue> = Vec::new();
        v.push(DbValue::Int(self.rizeni_id as i64));
        v.push(DbValue::Int(self.ucastnik_rizeni_id as i64));
        v.push(DbValue::Int(self.typ_ucastnika_id as i64));
        assert(v@ =~= self.insert_spec());
        v
    }

    open spec fn listed_in(&self, row: Seq<Column>) -> bool {
        &&& col_i32(row, "rizeni_id"@) == Ok::<i32, Fault>(self.rizeni_id)
        &&& col_i32(row, "ucastnik_rizeni_id"@) == Ok::<i32, Fault>(self.ucastnik_rizeni_id)
        &&& col_i32(row, "typ_ucastnika_id"@) == Ok::<i32, Fault>(self.typ_ucastnika_id)
    }

    proof fn lemma_created_lists(&self, id: i32, row: Seq<Column>) {
        reveal_strlit("rizeni_id");
        reveal_strlit("ucastnik_rizeni_id");
        reveal_strlit("typ_ucastnika_id");
        let cols = Ucast::key_columns() + Ucast::attr_columns();
        assert(cols =~= seq!["rizeni_id"@, "ucastnik_rizeni_id"@, "typ_ucastnika_id"@]);
        let vals = if Ucast::generated_key() { seq![DbValue::Int(id as i64)] + self.insert_spec() } else { self.insert_spec() };
        assert(vals =~= seq![DbValue::Int(self.rizeni_id as i64), DbValue::Int(self.ucastnik_rizeni_id as i64), DbValue::Int(self.typ_ucastnika_id as i64)]);
        assert(row[0].name@ == cols[0]);
        lemma_column_at(row, "rizeni_id"@, 0);
        assert forall|j: int| 0 <= j < 1 implies (#[trigger] row[j]).name@ != "ucastnik_rizeni_id"@ by {
            assert(row[j].name@ == cols[j]);
            if j == 0 {}
        }
        assert(row[1].name@ == cols[1]);
        lemma_column_at(row, "ucastnik_rizeni_id"@, 1);
        assert forall|j: int| 0 <= j < 2 implies (#[trigger] row[j]).name@ != "typ_ucastnika_id"@ by {
            assert(row[j].name@ == cols[j]);
            if j == 0 {} else if j == 1 {}
        }
        assert(row[2].name@ == cols[2]);
        lemma_column_at(row, "typ_ucastnika_id"@, 2);
    }
}

} // verus!
