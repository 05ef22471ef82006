use katastr::crud::{
    create_request, delete_request, list_request, read_table, update_request, write_outcome, Record,
    WriteKind, WriteOutcome,
};
use katastr::models::{
    Kraj, Majitel, NewKraj, NewPlomba, NewUcast, NewVlastnictvi, Plomba, Ucast, Vlastnictvi,
};
use katastr::row::{Column, DbRow, DbValue};
use katastr::sql::decimal_string;

fn row_of(cols: &[&str], values: Vec<DbValue>) -> DbRow {
    DbRow {
        columns: cols.iter().zip(values).map(|(c, v)| Column { name: c.to_string(), value: v }).collect(),
    }
}

#[test]
fn create_then_list_region() {
    let (sql, values) = create_request(&NewKraj { nazev: "Praha".to_string() });
    assert_eq!(sql, "INSERT INTO kraj (nazev) VALUES ($1)");
    assert!(matches!(values.as_slice(), [DbValue::Text(s)] if s == "Praha"));
    let out = write_outcome(WriteKind::Create, Ok(1));
    assert!(matches!(out, WriteOutcome::Affected(1)));
    assert_eq!(out.status(), 200);
    assert_eq!(list_request::<Kraj>(), "SELECT * FROM kraj");
    let listed = vec![
        row_of(&["id", "nazev"], vec![DbValue::Int(1), DbValue::Text("Brno".to_string())]),
        row_of(&["id", "nazev"], vec![DbValue::Int(2), values[0].clone()]),
    ];
    let regions: Vec<Kraj> = read_table(Ok(listed)).unwrap();
    assert!(regions.iter().any(|k| k.id == 2 && k.nazev == "Praha"));
}

#[test]
fn delete_of_missing_key_is_not_found() {
    let out = write_outcome(WriteKind::Delete, Ok(0));
    assert!(matches!(out, WriteOutcome::NotFound));
    assert_eq!(out.status(), 404);
    assert_eq!(out.message(), "Item not found");
    let (sql, values) = delete_request::<katastr::models::Bpej>(vec![DbValue::Int(9999)]);
    assert_eq!(sql, "DELETE FROM bpej WHERE id = $1");
    assert_eq!(values.len(), 1);
}

#[test]
fn update_outcomes() {
    assert!(matches!(write_outcome(WriteKind::Update, Ok(1)), WriteOutcome::Affected(1)));
    assert_eq!(write_outcome(WriteKind::Update, Ok(0)).status(), 404);
    assert!(matches!(write_outcome(WriteKind::Create, Ok(0)), WriteOutcome::Affected(0)));
    let failed = write_outcome(WriteKind::Create, Err("duplicate key".to_string()));
    assert_eq!(failed.status(), 500);
    assert_eq!(failed.message(), "Database error: duplicate key");
}

#[test]
fn update_replaces_every_non_key_column() {
    let m = Majitel {
        id: 3,
        jmeno: "Jan".to_string(),
        prijmeni: "Novak".to_string(),
        titul: None,
        bydliste: Some("Brno".to_string()),
        rodne_cislo: None,
        ico: None,
    };
    let (sql, values) = update_request(&m);
    assert_eq!(
        sql,
        "UPDATE majitel SET jmeno = $2, prijmeni = $3, titul = $4, bydliste = $5, rodne_cislo = $6, ico = $7 WHERE id = $1"
    );
    assert_eq!(values.len(), 7);
    assert!(matches!(values[0], DbValue::Int(3)));
    assert!(matches!(values[3], DbValue::Null));
    assert!(matches!(&values[4], DbValue::Text(s) if s == "Brno"));
}

#[test]
fn composite_key_statements() {
    let v = Vlastnictvi { parcela_id: 1, majitel_id: 2, podil_setin: 50 };
    let (sql, values) = update_request(&v);
    assert_eq!(sql, "UPDATE vlastnictvi SET podil_setin = $3 WHERE parcela_id = $1 AND majitel_id = $2");
    assert!(matches!(values.as_slice(), [DbValue::Int(1), DbValue::Int(2), DbValue::Int(50)]));
    let (sql, _) = create_request(&NewVlastnictvi { parcela_id: 1, majitel_id: 2, podil_setin: 50 });
    assert_eq!(sql, "INSERT INTO vlastnictvi (parcela_id, majitel_id, podil_setin) VALUES ($1, $2, $3)");
    let (sql, _) = delete_request::<Ucast>(vec![DbValue::Int(1), DbValue::Int(2), DbValue::Int(3)]);
    assert_eq!(
        sql,
        "DELETE FROM ucast WHERE rizeni_id = $1 AND ucastnik_rizeni_id = $2 AND typ_ucastnika_id = $3"
    );
    let (sql, _) = create_request(&NewUcast { rizeni_id: 1, ucastnik_rizeni_id: 2, typ_ucastnika_id: 3 });
    assert_eq!(sql, "INSERT INTO ucast (rizeni_id, ucastnik_rizeni_id, typ_ucastnika_id) VALUES ($1, $2, $3)");
    let (sql, _) = create_request(&NewPlomba { rizeni_id: 4, parcela_id: 5 });
    assert_eq!(sql, "INSERT INTO plomba (rizeni_id, parcela_id) VALUES ($1, $2)");
    assert_eq!(Plomba::table().attrs.len(), 0);
}

#[test]
fn written_values_read_back() {
    let m = Majitel {
        id: 8,
        jmeno: "Eva".to_string(),
        prijmeni: "Dvorakova".to_string(),
        titul: Some("Ing.".to_string()),
        bydliste: None,
        rodne_cislo: Some("806101/1234".to_string()),
        ico: None,
    };
    let t = Majitel::table();
    let mut values = m.key_values();
    values.extend(m.attr_values());
    let cols: Vec<&str> = t.key.iter().chain(t.attrs.iter()).map(|s| s.as_str()).collect();
    let back: Vec<Majitel> = read_table(Ok(vec![row_of(&cols, values)])).unwrap();
    assert_eq!(back[0].id, 8);
    assert_eq!(back[0].titul.as_deref(), Some("Ing."));
    assert_eq!(back[0].bydliste, None);
    assert_eq!(back[0].rodne_cislo.as_deref(), Some("806101/1234"));
}

#[test]
fn table_read_failures() {
    let err = read_table::<Kraj>(Err("no pool".to_string())).unwrap_err();
    assert_eq!(err.status(), 500);
    assert_eq!(err.message(), "Database error: no pool");
    let empty: Vec<Kraj> = read_table(Ok(vec![])).unwrap();
    assert!(empty.is_empty());
}

#[test]
fn parameter_numbers_are_decimal() {
    assert_eq!(decimal_string(0), "0");
    assert_eq!(decimal_string(7), "7");
    assert_eq!(decimal_string(10), "10");
    assert_eq!(decimal_string(1203), "1203");
}
