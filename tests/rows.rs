use katastr::models::{FindParcela, Kraj, MajitelPartA, PartF, RizeniOperace};
use katastr::row::{map_rows, read_i32_at, Column, DbRow, DbValue, FaultKind, FromRow};
use katastr::values::{CalendarDate, DecimalValue};

fn col(name: &str, value: DbValue) -> Column {
    Column { name: name.to_string(), value }
}

fn text(s: &str) -> DbValue {
    DbValue::Text(s.to_string())
}

fn owner_row(podil: i64) -> DbRow {
    DbRow {
        columns: vec![
            col("jmeno", text("Jan")),
            col("prijmeni", text("Novak")),
            col("bydliste", text("Praha 1")),
            col("podil_setin", DbValue::Int(podil)),
        ],
    }
}

#[test]
fn owner_row_is_read_field_by_field() {
    let owner = MajitelPartA::from_row(&owner_row(50)).unwrap();
    assert_eq!(owner.jmeno, "Jan");
    assert_eq!(owner.prijmeni, "Novak");
    assert_eq!(owner.bydliste, "Praha 1");
    assert_eq!(owner.podil_setin, 50);
}

#[test]
fn columns_are_found_by_name_in_any_order() {
    let row = DbRow { columns: vec![col("nazev", text("Praha")), col("id", DbValue::Int(7))] };
    let kraj = Kraj::from_row(&row).unwrap();
    assert_eq!(kraj.id, 7);
    assert_eq!(kraj.nazev, "Praha");
}

#[test]
fn missing_column_is_a_mapping_error() {
    let row = DbRow { columns: vec![col("id", DbValue::Int(1))] };
    let err = Kraj::from_row(&row).unwrap_err();
    assert_eq!(err.column, "nazev");
    assert_eq!(err.kind, FaultKind::Missing);
    assert_eq!(err.describe(), "column nazev is missing");
}

#[test]
fn null_in_required_column_is_a_mapping_error() {
    let row = DbRow { columns: vec![col("id", DbValue::Null), col("nazev", text("x"))] };
    let err = Kraj::from_row(&row).unwrap_err();
    assert_eq!(err.column, "id");
    assert_eq!(err.kind, FaultKind::UnexpectedNull);
}

#[test]
fn wrong_type_is_a_mapping_error() {
    let row = DbRow { columns: vec![col("id", text("1")), col("nazev", text("x"))] };
    let err = Kraj::from_row(&row).unwrap_err();
    assert_eq!(err.kind, FaultKind::WrongType);
    assert_eq!(err.describe(), "column id has an unexpected type");
}

#[test]
fn wide_integer_is_not_truncated() {
    let err = MajitelPartA::from_row(&owner_row(1i64 << 40)).unwrap_err();
    assert_eq!(err.column, "podil_setin");
    assert_eq!(err.kind, FaultKind::OutOfRange);
    assert_eq!(err.describe(), "column podil_setin is out of range");
    let ok = MajitelPartA::from_row(&owner_row(i32::MIN as i64)).unwrap();
    assert_eq!(ok.podil_setin, i32::MIN as i64);
}

#[test]
fn first_faulty_column_is_reported() {
    let row = DbRow { columns: vec![col("id", DbValue::Bool(true))] };
    let err = Kraj::from_row(&row).unwrap_err();
    assert_eq!(err.column, "id");
    assert_eq!(err.kind, FaultKind::WrongType);
}

#[test]
fn optional_columns_map_to_absent() {
    let row = DbRow {
        columns: vec![
            col("je_stavebni", DbValue::Bool(false)),
            col("parcelni_cislo", DbValue::Int(12)),
            col("cast_parcely", DbValue::Int(3)),
            col("hodnota", DbValue::Null),
        ],
    };
    let f = PartF::from_row(&row).unwrap();
    assert_eq!(f.hodnota, None);
    assert_eq!(f.parcelni_cislo, 12);
    assert_eq!(f.cast_parcely, 3);
}

#[test]
fn parcel_lookup_row_with_decimal_area() {
    let row = DbRow {
        columns: vec![
            col("je_stavebni", DbValue::Bool(true)),
            col("parcelni_cislo", DbValue::Int(101)),
            col("cast_parcely", DbValue::Int(2)),
            col("vymera_metru_ctverecnich", DbValue::Decimal(DecimalValue { mantissa: 12345, scale: 2 })),
            col("ulice", text("Dlouha")),
            col("cislo_popisne", DbValue::Null),
            col("hodnota", DbValue::Int(44)),
            col("cislo_lv", DbValue::Int(9)),
        ],
    };
    let p = FindParcela::from_row(&row).unwrap();
    assert_eq!(p.vymera_metru_ctverecnich, Some(DecimalValue { mantissa: 12345, scale: 2 }));
    assert_eq!(p.ulice.as_deref(), Some("Dlouha"));
    assert_eq!(p.cislo_popisne, None);
    assert_eq!(p.hodnota, Some(44));
    assert_eq!(p.cislo_lv, 9);
}

#[test]
fn operation_date_is_read() {
    let d = CalendarDate { year: 2024, month: 2, day: 29 };
    let row = DbRow { columns: vec![col("operace_popis", text("zapis")), col("operace_datum", DbValue::Date(d))] };
    let o = RizeniOperace::from_row(&row).unwrap();
    assert_eq!(o.operace_datum, Some(d));
}

#[test]
fn rows_keep_their_order_and_fail_on_the_first_bad_one() {
    let rows = vec![owner_row(10), owner_row(20), owner_row(30)];
    let owners: Vec<MajitelPartA> = map_rows(&rows).unwrap();
    let shares: Vec<i64> = owners.iter().map(|o| o.podil_setin).collect();
    assert_eq!(shares, vec![10, 20, 30]);
    let bad = vec![owner_row(10), owner_row(1i64 << 35), DbRow { columns: vec![] }];
    let err = map_rows::<MajitelPartA>(&bad).unwrap_err();
    assert_eq!(err.kind, FaultKind::OutOfRange);
}

#[test]
fn positional_integer_read() {
    let row = DbRow { columns: vec![col("fn_get_rizeni_id", DbValue::Int(5))] };
    assert_eq!(read_i32_at(&row, 0).unwrap(), 5);
    assert_eq!(read_i32_at(&row, 1).unwrap_err().kind, FaultKind::Missing);
}
