use katastr::lookup::{
    assemble_ownership_sheet, assemble_rizeni, find_parcela, resolve_rizeni_id, LookupError,
    RizeniKey, RizeniParams,
};
use katastr::row::{Column, DbRow, DbValue};
use katastr::values::CalendarDate;

fn col(name: &str, value: DbValue) -> Column {
    Column { name: name.to_string(), value }
}

fn text(s: &str) -> DbValue {
    DbValue::Text(s.to_string())
}

fn owner(name: &str) -> DbRow {
    DbRow {
        columns: vec![
            col("jmeno", text(name)),
            col("prijmeni", text("Novak")),
            col("bydliste", text("Brno")),
            col("podil_setin", DbValue::Int(100)),
        ],
    }
}

fn parcel_encumbrance() -> DbRow {
    let d = CalendarDate { year: 2001, month: 5, day: 17 };
    DbRow {
        columns: vec![
            col("popis", text("vecne bremeno chuze")),
            col("datum_zrizeni", DbValue::Date(d)),
            col("datum_pravnich_ucinku", DbValue::Date(d)),
            col("je_stavebni_opravnena", DbValue::Bool(false)),
            col("parcelni_cislo_opravnena", DbValue::Int(77)),
            col("cast_parcely_opravnena", DbValue::Int(1)),
            col("je_stavebni_povinna", DbValue::Bool(false)),
            col("parcelni_cislo_povinna", DbValue::Int(78)),
            col("cast_parcely_povinna", DbValue::Int(0)),
        ],
    }
}

fn none() -> Result<Vec<DbRow>, String> {
    Ok(vec![])
}

#[test]
fn sheet_with_an_owner_is_assembled() {
    let sheet = assemble_ownership_sheet(
        Ok(vec![owner("Jan"), owner("Eva")]),
        none(),
        Ok(vec![parcel_encumbrance()]),
        none(),
        none(),
        none(),
        none(),
    )
    .unwrap();
    assert_eq!(sheet.part_a.len(), 2);
    assert_eq!(sheet.part_a[0].jmeno, "Jan");
    assert_eq!(sheet.part_a[1].jmeno, "Eva");
    assert_eq!(sheet.part_b_parcela.len(), 1);
    assert_eq!(sheet.part_b_parcela[0].parcelni_cislo_povinna, 78);
    assert!(sheet.part_b.is_empty() && sheet.part_f.is_empty());
}

#[test]
fn sheet_without_owners_is_not_found_whatever_the_other_parts() {
    // No folio in the area: the owners part is empty, though another part has a stray row.
    let err = assemble_ownership_sheet(
        none(),
        none(),
        Ok(vec![parcel_encumbrance()]),
        none(),
        Ok(vec![parcel_encumbrance()]),
        none(),
        none(),
    )
    .unwrap_err();
    assert_eq!(err.status(), 404);
    assert_eq!(err.message(), "LV not found");
}

#[test]
fn any_failed_part_fails_the_sheet() {
    let err = assemble_ownership_sheet(
        Ok(vec![owner("Jan")]),
        none(),
        none(),
        none(),
        none(),
        Err("connection reset".to_string()),
        none(),
    )
    .unwrap_err();
    assert_eq!(err.status(), 500);
    assert_eq!(err.message(), "Database error: connection reset");
    assert!(matches!(err, LookupError::Failed(_)));
}

#[test]
fn failure_wins_over_missing_owners() {
    let err = assemble_ownership_sheet(none(), Err("timeout".to_string()), none(), none(), none(), none(), none())
        .unwrap_err();
    assert_eq!(err.status(), 500);
    assert_eq!(err.message(), "Database error: timeout");
}

#[test]
fn first_failed_part_is_reported() {
    let err = assemble_ownership_sheet(
        Ok(vec![owner("Jan")]),
        Err("first".to_string()),
        none(),
        none(),
        none(),
        none(),
        Err("second".to_string()),
    )
    .unwrap_err();
    assert_eq!(err.message(), "Database error: first");
}

#[test]
fn badly_shaped_part_fails_the_sheet() {
    let bad = DbRow { columns: vec![col("jmeno", text("Jan"))] };
    let err = assemble_ownership_sheet(Ok(vec![bad]), none(), none(), none(), none(), none(), none()).unwrap_err();
    assert_eq!(err.status(), 500);
    assert_eq!(err.message(), "Database error: column prijmeni is missing");
}

#[test]
fn parcel_lookup_without_rows_is_not_found() {
    let err = find_parcela(Ok(vec![])).unwrap_err();
    assert_eq!(err.status(), 404);
    assert_eq!(err.message(), "Parcela not found");
    let err = find_parcela(Err("boom".to_string())).unwrap_err();
    assert_eq!(err.status(), 500);
}

#[test]
fn parcel_lookup_returns_its_rows() {
    let row = DbRow {
        columns: vec![
            col("je_stavebni", DbValue::Bool(false)),
            col("parcelni_cislo", DbValue::Int(5)),
            col("cast_parcely", DbValue::Int(1)),
            col("vymera_metru_ctverecnich", DbValue::Null),
            col("ulice", DbValue::Null),
            col("cislo_popisne", DbValue::Null),
            col("hodnota", DbValue::Null),
            col("cislo_lv", DbValue::Int(1)),
        ],
    };
    let found = find_parcela(Ok(vec![row])).unwrap();
    assert_eq!(found.len(), 1);
    assert_eq!(found[0].parcelni_cislo, 5);
}

#[test]
fn proceeding_key_prefers_the_id() {
    let p = RizeniParams { id: Some(4), typ: Some("V".to_string()), cislo: Some(1), rok: Some(2020) };
    assert!(matches!(p.key(), Ok(RizeniKey::ById(4))));
    let p = RizeniParams { id: None, typ: Some("V".to_string()), cislo: Some(12), rok: Some(2020) };
    match p.key() {
        Ok(RizeniKey::ByCase { typ, cislo, rok }) => {
            assert_eq!(typ, "V");
            assert_eq!((cislo, rok), (12, 2020));
        }
        _ => panic!("expected a case key"),
    }
}

#[test]
fn proceeding_key_missing_is_bad_request() {
    let p = RizeniParams { id: None, typ: Some("V".to_string()), cislo: None, rok: Some(2020) };
    let err = p.key().unwrap_err();
    assert_eq!(err.status(), 400);
    assert_eq!(err.message(), "Missing parameters: either 'id' or 'typ', 'cislo', 'rok' must be provided");
}

#[test]
fn proceeding_id_resolution() {
    let row = DbRow { columns: vec![col("id", DbValue::Int(31))] };
    assert_eq!(resolve_rizeni_id(Ok(Some(row))).unwrap(), 31);
    let err = resolve_rizeni_id(Ok(None)).unwrap_err();
    assert_eq!((err.status(), err.message()), (404, "Rizeni not found".to_string()));
    let row = DbRow { columns: vec![col("id", DbValue::Null)] };
    let err = resolve_rizeni_id(Ok(Some(row))).unwrap_err();
    assert_eq!(err.status(), 500);
    assert_eq!(err.message(), "Row parse error: column id is null");
}

#[test]
fn proceeding_with_all_parts_empty_is_not_found() {
    let err = assemble_rizeni(Ok(vec![]), Ok(vec![]), Ok(vec![])).unwrap_err();
    assert_eq!(err.status(), 404);
    assert_eq!(err.message(), "Rizeni details not found");
}

#[test]
fn proceeding_with_one_part_is_found() {
    let part = DbRow { columns: vec![col("typ_ucastnika", text("navrhovatel")), col("ucastnik_jmeno", text("Obec Lhota"))] };
    let d = assemble_rizeni(Ok(vec![]), Ok(vec![part]), Ok(vec![])).unwrap();
    assert!(d.predmet.is_empty() && d.operace.is_empty());
    assert_eq!(d.ucastnici[0].ucastnik_jmeno, "Obec Lhota");
    let err = assemble_rizeni(Ok(vec![]), Ok(vec![]), Err("down".to_string())).unwrap_err();
    assert_eq!(err.message(), "Database error: down");
}
