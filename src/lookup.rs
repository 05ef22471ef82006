//! The composite read endpoints: ownership sheet, parcel and proceeding lookups.

use vstd::prelude::*;

use crate::models::{
    FindParcela, MajitelB, MajitelPartA, Parcela, ParcelaB, PartC, PartD, PartF,
    RizeniOperace, RizeniPredmetPoznamka, RizeniUcastnik,
};
use crate::row::{
    all_read, col_i32_at, fault_text, map_rows, read_i32_at, rows_fault, DbRow, FromRow,
};

verus! {

/// The seven sub-queries of an ownership sheet; each takes the cadastral area's name and
/// the folio number.
pub const LV_PART_A_QUERY: &'static str = "SELECT jmeno, prijmeni, bydliste, podil_setin FROM fn_get_lv_part_a($1, $2);";
pub const LV_PART_B_QUERY: &'static str = "SELECT parcelni_cislo, je_stavebni, ulice, cislo_popisne, nazev_ku FROM fn_get_lv_part_b($1, $2);";
pub const LV_PART_B_PARCELA_QUERY: &'static str = "SELECT popis, datum_zrizeni, datum_pravnich_ucinku, je_stavebni_opravnena, parcelni_cislo_opravnena, cast_parcely_opravnena, je_stavebni_povinna, parcelni_cislo_povinna, cast_parcely_povinna FROM fn_get_lv_part_b_parcela($1, $2);";
pub const LV_PART_B_MAJITEL_QUERY: &'static str = "SELECT popis, datum_zrizeni, datum_pravnich_ucinku, je_stavebni_opravnena, parcelni_cislo_opravnena, cast_parcely_opravnena, jmeno_povinny, prijmeni_povinny, titul_povinny, rodne_cislo_povinny, ico_povinny FROM fn_get_lv_part_b_majitel($1, $2);";
pub const LV_PART_C_QUERY: &'static str = "SELECT popis, datum_zrizeni, datum_pravnich_ucinku, je_stavebni_opravnena, parcelni_cislo_opravnena, cast_parcely_opravnena, je_stavebni_povinna, parcelni_cislo_povinna, cast_parcely_povinna FROM fn_get_lv_part_c($1, $2);";
pub const LV_PART_D_QUERY: &'static str = "SELECT je_stavebni, parcelni_cislo, cast_parcely, nazev_katastralniho_uzemi, typ_rizeni_zkratka, cislo_rizeni, rok_rizeni FROM fn_get_lv_part_d($1, $2);";
pub const LV_PART_F_QUERY: &'static str = "SELECT je_stavebni, parcelni_cislo, cast_parcely, hodnota FROM fn_get_lv_part_f($1, $2);";

/// The parcel lookup; takes the area's name, the building flag, the parcel number and the
/// sub-part number.
pub const PARCELA_QUERY: &'static str = "SELECT * FROM fn_get_parcela($1, $2, $3, $4);";

/// Resolves a proceeding's id from kind abbreviation, case number and year.
pub const RIZENI_ID_QUERY: &'static str = "SELECT * FROM fn_get_rizeni_id($1, $2, $3);";

/// The three sub-queries of a proceeding; each takes its id.
pub const RIZENI_PREDMET_QUERY: &'static str = "SELECT * FROM fn_get_rizeni_predmet_poznamka_by_id($1);";
pub const RIZENI_UCASTNICI_QUERY: &'static str = "SELECT * FROM fn_get_ucastnici_rizeni_by_id($1);";
pub const RIZENI_OPERACE_QUERY: &'static str = "SELECT * FROM fn_get_operace_rizeni_by_id($1);";

/// Why a read endpoint answers without a record.
#[derive(Clone, Debug)]
pub enum LookupError {
    /// The store or the shape of its answer failed; the text is sent with status 500.
    Failed(String),
    /// The record does not exist; status 404.
    NotFound(String),
    /// The request names no record; status 400.
    BadRequest(String),
}

impl LookupError {
    /// The HTTP status that the error is answered with.
    pub fn status(&self) -> (r: u16)
        ensures
            r == match self {
                LookupError::Failed(_) => 500u16,
                LookupError::NotFound(_) => 404u16,
                LookupError::BadRequest(_) => 400u16,
            },
    {
        match self {
            LookupError::Failed(_) => 500,
            LookupError::NotFound(_) => 404,
            LookupError::BadRequest(_) => 400,
        }
    }

    /// The text of the response body.
    pub fn message(&self) -> (r: String)
        ensures
            r@ == match self {
                LookupError::Failed(m) => m@,
                LookupError::NotFound(m) => m@,
                LookupError::BadRequest(m) => m@,
            },
    {
        match self {
            LookupError::Failed(m) => m.clone(),
            LookupError::NotFound(m) => m.clone(),
            LookupError::BadRequest(m) => m.clone(),
        }
    }
}

/// What went wrong with one sub-query, if anything: the store's own error text, or the
/// fault of the first row that does not have the record's shape.
pub open spec fn part_failure<T: FromRow>(r: Result<Vec<DbRow>, String>) -> Option<Seq<char>> {
    match r {
        Err(m) => Some(m@),
        Ok(rows) => match rows_fault::<T>(rows@) {
            Some(f) => Some(fault_text(f)),
            None => None,
        },
    }
}

/// `a` if it holds a failure, else `b`.
pub open spec fn or_failure(a: Option<Seq<char>>, b: Option<Seq<char>>) -> Option<Seq<char>> {
    match a {
        Some(m) => Some(m),
        None => b,
    }
}

pub open spec fn database_error(m: Seq<char>) -> Seq<char> {
    "Database error: "@ + m
}

/// The rows that a sub-query returned; empty where it failed.
pub open spec fn rows_of(r: Result<Vec<DbRow>, String>) -> Seq<DbRow> {
    match r {
        Ok(rows) => rows@,
        Err(_) => Seq::empty(),
    }
}

/// The records of one sub-query, or the text of its failure.
fn read_part<T: FromRow>(r: Result<Vec<DbRow>, String>) -> (out: Result<Vec<T>, String>)
    ensures
        match out {
            Ok(items) => part_failure::<T>(r) is None && all_read(items@, rows_of(r)),
            Err(m) => part_failure::<T>(r) == Some(m@),
        },
{
    match r {
        Err(m) => Err(m),
        Ok(rows) => match map_rows::<T>(&rows) {
            Ok(items) => Ok(items),
            Err(e) => Err(e.describe()),
        },
    }
}

fn database_failure(m: String) -> (e: LookupError)
    ensures
        e matches LookupError::Failed(t) && t@ == database_error(m@),
{
    LookupError::Failed(String::from_str("Database error: ").concat(m.as_str()))
}

/// The seven parts of an ownership sheet, each the records of one sub-query.
#[derive(Clone, Debug)]
pub struct OwnershipSheet {
    pub part_a: Vec<MajitelPartA>,
    pub part_b: Vec<Parcela>,
    pub part_b_parcela: Vec<ParcelaB>,
    pub part_b_majitel: Vec<MajitelB>,
    pub part_c: Vec<PartC>,
    pub part_d: Vec<PartD>,
    pub part_f: Vec<PartF>,
}

/// The first failure among the seven sub-queries of an ownership sheet, in the order
/// owners, parcels, parcel encumbrances, owner encumbrances, entitled encumbrances,
/// proceedings, valuations.
pub open spec fn sheet_failure(
    a: Result<Vec<DbRow>, String>,
    b: Result<Vec<DbRow>, String>,
    bp: Result<Vec<DbRow>, String>,
    bm: Result<Vec<DbRow>, String>,
    c: Result<Vec<DbRow>, String>,
    d: Result<Vec<DbRow>, String>,
    f: Result<Vec<DbRow>, String>,
) -> Option<Seq<char>> {
    or_failure(
        part_failure::<MajitelPartA>(a),
        or_failure(
            part_failure::<Parcela>(b),
            or_failure(
                part_failure::<ParcelaB>(bp),
                or_failure(
                    part_failure::<MajitelB>(bm),
                    or_failure(
                        part_failure::<PartC>(c),
                        or_failure(part_failure::<PartD>(d), part_failure::<PartF>(f)),
                    ),
                ),
            ),
        ),
    )
}

/// Assembles an ownership sheet from the results of its seven sub-queries.
///
/// Any failure fails the whole sheet with no partial body. When all succeed, the sheet
/// exists exactly when the owners part has a row; the other parts may be empty.
pub fn assemble_ownership_sheet(
    part_a: Result<Vec<DbRow>, String>,
    part_b: Result<Vec<DbRow>, String>,
    part_b_parcela: Result<Vec<DbRow>, String>,
    part_b_majitel: Result<Vec<DbRow>, String>,
    part_c: Result<Vec<DbRow>, String>,
    part_d: Result<Vec<DbRow>, String>,
    part_f: Result<Vec<DbRow>, String>,
) -> (r: Result<OwnershipSheet, LookupError>)
    ensures
        ({
            let failure = sheet_failure(
                part_a,
                part_b,
                part_b_parcela,
                part_b_majitel,
                part_c,
                part_d,
                part_f,
            );
            &&& failure is Some ==> (r matches Err(LookupError::Failed(m)) && m@ == database_error(
                failure->Some_0,
            ))
            &&& (failure is None && rows_of(part_a).len() == 0) ==> (r matches Err(
                LookupError::NotFound(m),
            ) && m@ == "LV not found"@)
            &&& (failure is None && rows_of(part_a).len() > 0) ==> (r matches Ok(s) && all_read(
                s.part_a@,
                rows_of(part_a),
            ) && all_read(s.part_b@, rows_of(part_b)) && all_read(
                s.part_b_parcela@,
                rows_of(part_b_parcela),
            ) && all_read(s.part_b_majitel@, rows_of(part_b_majitel)) && all_read(
                s.part_c@,
                rows_of(part_c),
            ) && all_read(s.part_d@, rows_of(part_d)) && all_read(s.part_f@, rows_of(part_f)))
        }),
{
    let owners_empty = match &part_a {
        Ok(rows) => rows.len() == 0,
        Err(_) => true,
    };
    let a = read_part::<MajitelPartA>(part_a);
    let b = read_part::<Parcela>(part_b);
    let bp = read_part::<ParcelaB>(part_b_parcela);
    let bm = read_part::<MajitelB>(part_b_majitel);
    let c = read_part::<PartC>(part_c);
    let d = read_part::<PartD>(part_d);
    let f = read_part::<PartF>(part_f);
    let a = match a {
        Ok(v) => v,
        Err(m) => return Err(database_failure(m)),
    };
    let b = match b {
        Ok(v) => v,
        Err(m) => return Err(database_failure(m)),
    };
    let bp = match bp {
        Ok(v) => v,
        Err(m) => return Err(database_failure(m)),
    };
    let bm = match bm {
        Ok(v) => v,
        Err(m) => return Err(database_failure(m)),
    };
    let c = match c {
        Ok(v) => v,
        Err(m) => return Err(database_failure(m)),
    };
    let d = match d {
        Ok(v) => v,
        Err(m) => return Err(database_failure(m)),
    };
    let f = match f {
        Ok(v) => v,
        Err(m) => return Err(database_failure(m)),
    };
    if owners_empty {
        return Err(LookupError::NotFound(String::from_str("LV not found")));
    }
    Ok(
        OwnershipSheet {
            part_a: a,
            part_b: b,
            part_b_parcela: bp,
            part_b_majitel: bm,
            part_c: c,
            part_d: d,
            part_f: f,
        },
    )
}

/// The answer of the parcel lookup from the result of its one query: the parcels found,
/// or `NotFound` where there are none.
pub fn find_parcela(found: Result<Vec<DbRow>, String>) -> (r: Result<
    Vec<FindParcela>,
    LookupError,
>)
    ensures
        ({
            let failure = part_failure::<FindParcela>(found);
            &&& failure is Some ==> (r matches Err(LookupError::Failed(m)) && m@ == database_error(
                failure->Some_0,
            ))
            &&& (failure is None && rows_of(found).len() == 0) ==> (r matches Err(
                LookupError::NotFound(m),
            ) && m@ == "Parcela not found"@)
            &&& (failure is None && rows_of(found).len() > 0) ==> (r matches Ok(items) && all_read(
                items@,
                rows_of(found),
            ))
        }),
{
    let empty = match &found {
        Ok(rows) => rows.len() == 0,
        Err(_) => true,
    };
    match read_part::<FindParcela>(found) {
        Err(m) => Err(database_failure(m)),
        Ok(items) => if empty {
            Err(LookupError::NotFound(String::from_str("Parcela not found")))
        } else {
            Ok(items)
        },
    }
}

/// How a request names a proceeding.
#[derive(Clone, Debug)]
pub enum RizeniKey {
    /// By its id.
    ById(i32),
    /// By kind abbreviation, case number and year; the store resolves the id.
    ByCase { typ: String, cislo: i32, rok: i32 },
}

/// The query parameters of the proceeding lookup.
#[derive(Clone, Debug)]
pub struct RizeniParams {
    pub id: Option<i32>,
    pub typ: Option<String>,
    pub cislo: Option<i32>,
    pub rok: Option<i32>,
}

pub open spec fn missing_key_text() -> Seq<char> {
    "Missing parameters: either 'id' or 'typ', 'cislo', 'rok' must be provided"@
}

impl RizeniParams {
    /// The proceeding that the parameters name: the id where given, else the case triple
    /// where all three parts are given, else `BadRequest`.
    pub fn key(&self) -> (r: Result<RizeniKey, LookupError>)
        ensures
            match self.id {
                Some(id) => r matches Ok(RizeniKey::ById(i)) && i == id,
                None => if self.typ is Some && self.cislo is Some && self.rok is Some {
                    r matches Ok(RizeniKey::ByCase { typ, cislo, rok }) && typ@ == self.typ->Some_0@
                        && cislo == self.cislo->Some_0 && rok == self.rok->Some_0
                } else {
                    r matches Err(LookupError::BadRequest(m)) && m@ == missing_key_text()
                },
            },
    {
        if let Some(id) = self.id {
            return Ok(RizeniKey::ById(id));
        }
        match (&self.typ, self.cislo, self.rok) {
            (Some(typ), Some(cislo), Some(rok)) => Ok(
                RizeniKey::ByCase { typ: typ.clone(), cislo, rok },
            ),
            _ => Err(
                LookupError::BadRequest(
                    String::from_str(
                        "Missing parameters: either 'id' or 'typ', 'cislo', 'rok' must be provided",
                    ),
                ),
            ),
        }
    }
}

/// The id of a proceeding from the answer of the lookup by case: the first column of the
/// row found; `NotFound` where there is no row.
pub fn resolve_rizeni_id(found: Result<Option<DbRow>, String>) -> (r: Result<i32, LookupError>)
    ensures
        match found {
            Err(m) => r matches Err(LookupError::Failed(t)) && t@ == database_error(m@),
            Ok(None) => r matches Err(LookupError::NotFound(t)) && t@ == "Rizeni not found"@,
            Ok(Some(row)) => match col_i32_at(row@, 0) {
                Ok(id) => r == Ok::<i32, LookupError>(id),
                Err(f) => r matches Err(LookupError::Failed(t)) && t@ == "Row parse error: "@
                    + fault_text(f),
            },
        },
{
    match found {
        Err(m) => Err(database_failure(m)),
        Ok(None) => Err(LookupError::NotFound(String::from_str("Rizeni not found"))),
        Ok(Some(row)) => match read_i32_at(&row, 0) {
            Ok(id) => Ok(id),
            Err(e) => Err(
                LookupError::Failed(String::from_str("Row parse error: ").concat(e.describe().as_str())),
            ),
        },
    }
}

/// The details of a proceeding: subject and note, participants, operations.
#[derive(Clone, Debug)]
pub struct RizeniDetail {
    pub predmet: Vec<RizeniPredmetPoznamka>,
    pub ucastnici: Vec<RizeniUcastnik>,
    pub operace: Vec<RizeniOperace>,
}

/// The first failure among the three sub-queries of a proceeding.
pub open spec fn rizeni_failure(
    p: Result<Vec<DbRow>, String>,
    u: Result<Vec<DbRow>, String>,
    o: Result<Vec<DbRow>, String>,
) -> Option<Seq<char>> {
    or_failure(
        part_failure::<RizeniPredmetPoznamka>(p),
        or_failure(part_failure::<RizeniUcastnik>(u), part_failure::<RizeniOperace>(o)),
    )
}

/// Assembles the details of a proceeding from its three sub-queries. Any failure fails
/// the whole; when all three succeed and all are empty, the proceeding is not found.
pub fn assemble_rizeni(
    predmet: Result<Vec<DbRow>, String>,
    ucastnici: Result<Vec<DbRow>, String>,
    operace: Result<Vec<DbRow>, String>,
) -> (r: Result<RizeniDetail, LookupError>)
    ensures
        ({
            let failure = rizeni_failure(predmet, ucastnici, operace);
            let empty = rows_of(predmet).len() == 0 && rows_of(ucastnici).len() == 0 && rows_of(
                operace,
            ).len() == 0;
            &&& failure is Some ==> (r matches Err(LookupError::Failed(m)) && m@ == database_error(
                failure->Some_0,
            ))
            &&& (failure is None && empty) ==> (r matches Err(LookupError::NotFound(m)) && m@
                == "Rizeni details not found"@)
            &&& (failure is None && !empty) ==> (r matches Ok(d) && all_read(
                d.predmet@,
                rows_of(predmet),
            ) && all_read(d.ucastnici@, rows_of(ucastnici)) && all_read(
                d.operace@,
                rows_of(operace),
            ))
        }),
{
    let p = read_part::<RizeniPredmetPoznamka>(predmet);
    let u = read_part::<RizeniUcastnik>(ucastnici);
    let o = read_part::<RizeniOperace>(operace);
    let p = match p {
        Ok(v) => v,
        Err(m) => return Err(database_failure(m)),
    };
    let u = match u {
        Ok(v) => v,
        Err(m) => return Err(database_failure(m)),
    };
    let o = match o {
        Ok(v) => v,
        Err(m) => return Err(database_failure(m)),
    };
    if p.len() == 0 && u.len() == 0 && o.len() == 0 {
        return Err(LookupError::NotFound(String::from_str("Rizeni details not found")));
    }
    Ok(RizeniDetail { predmet: p, ucastnici: u, operace: o })
}

} // verus!
