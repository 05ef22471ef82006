//! The records of the registry and the parameters of the read endpoints.

use vstd::prelude::*;

use crate::session::SessionRegistry;
use crate::values::{CalendarDate, DecimalValue};

verus! {

/// An owner of record on an ownership sheet, with the share held in hundredths.
#[derive(Clone, Debug)]
pub struct MajitelPartA {
    pub jmeno: String,
    pub prijmeni: String,
    pub bydliste: String,
    pub podil_setin: i64,
}

/// An owner.
#[derive(Clone, Debug)]
pub struct Majitel {
    pub id: i32,
    pub jmeno: String,
    pub prijmeni: String,
    pub titul: Option<String>,
    pub bydliste: Option<String>,
    pub rodne_cislo: Option<String>,
    pub ico: Option<String>,
}

/// An owner to create; the store assigns the id.
#[derive(Clone, Debug)]
pub struct NewMajitel {
    pub jmeno: String,
    pub prijmeni: String,
    pub titul: Option<String>,
    pub bydliste: Option<String>,
    pub rodne_cislo: Option<String>,
    pub ico: Option<String>,
}

/// A parcel listed on an ownership sheet.
#[derive(Clone, Debug)]
pub struct Parcela {
    pub parcelni_cislo: i64,
    pub je_stavebni: bool,
    pub ulice: Option<String>,
    pub cislo_popisne: Option<String>,
    pub nazev_ku: String,
}

/// An encumbrance between two parcels, seen from an ownership sheet.
#[derive(Clone, Debug)]
pub struct ParcelaB {
    pub popis: String,
    pub datum_zrizeni: CalendarDate,
    pub datum_pravnich_ucinku: CalendarDate,
    pub je_stavebni_opravnena: bool,
    pub parcelni_cislo_opravnena: i64,
    pub cast_parcely_opravnena: i64,
    pub je_stavebni_povinna: bool,
    pub parcelni_cislo_povinna: i64,
    pub cast_parcely_povinna: i64,
}

/// An encumbrance that burdens an owner in favour of a parcel.
#[derive(Clone, Debug)]
pub struct MajitelB {
    pub popis: String,
    pub datum_zrizeni: CalendarDate,
    pub datum_pravnich_ucinku: CalendarDate,
    pub je_stavebni_opravnena: bool,
    pub parcelni_cislo_opravnena: i64,
    pub cast_parcely_opravnena: i64,
    pub jmeno_povinny: String,
    pub prijmeni_povinny: String,
    pub titul_povinny: Option<String>,
    pub rodne_cislo_povinny: Option<String>,
    pub ico_povinny: Option<String>,
}

/// An encumbrance in which a parcel of the sheet is the entitled one.
#[derive(Clone, Debug)]
pub struct PartC {
    pub popis: String,
    pub datum_zrizeni: CalendarDate,
    pub datum_pravnich_ucinku: CalendarDate,
    pub je_stavebni_opravnena: bool,
    pub parcelni_cislo_opravnena: i64,
    pub cast_parcely_opravnena: i64,
    pub je_stavebni_povinna: bool,
    pub parcelni_cislo_povinna: i64,
    pub cast_parcely_povinna: i64,
}

/// A proceeding that touches a parcel of the sheet.
#[derive(Clone, Debug)]
pub struct PartD {
    pub je_stavebni: bool,
    pub parcelni_cislo: i64,
    pub cast_parcely: i64,
    pub nazev_katastralniho_uzemi: String,
    pub typ_rizeni_zkratka: String,
    pub cislo_rizeni: i64,
    pub rok_rizeni: i64,
}

/// The soil valuation of a parcel of the sheet.
#[derive(Clone, Debug)]
pub struct PartF {
    pub je_stavebni: bool,
    pub parcelni_cislo: i64,
    pub cast_parcely: i64,
    pub hodnota: Option<i64>,
}

/// A parcel as the parcel lookup reports it.
#[derive(Clone, Debug)]
pub struct FindParcela {
    pub je_stavebni: bool,
    pub parcelni_cislo: i64,
    pub cast_parcely: i64,
    pub vymera_metru_ctverecnich: Option<DecimalValue>,
    pub ulice: Option<String>,
    pub cislo_popisne: Option<String>,
    pub hodnota: Option<i64>,
    pub cislo_lv: i64,
}

/// Subject and note of a proceeding.
#[derive(Clone, Debug)]
pub struct RizeniPredmetPoznamka {
    pub predmet: String,
    pub poznamka: Option<String>,
}

/// A participant of a proceeding with the role taken.
#[derive(Clone, Debug)]
pub struct RizeniUcastnik {
    pub typ_ucastnika: String,
    pub ucastnik_jmeno: String,
}

/// An operation carried out in a proceeding.
#[derive(Clone, Debug)]
pub struct RizeniOperace {
    pub operace_popis: String,
    pub operace_datum: Option<CalendarDate>,
}

/// A region.
#[derive(Clone, Debug)]
pub struct Kraj {
    pub id: i32,
    pub nazev: String,
}

/// A region to create.
#[derive(Clone, Debug)]
pub struct NewKraj {
    pub nazev: String,
}

/// A district of a region.
#[derive(Clone, Debug)]
pub struct Okres {
    pub id: i32,
    pub kraj_id: i32,
    pub nazev: String,
}

/// A district to create.
#[derive(Clone, Debug)]
pub struct NewOkres {
    pub kraj_id: i32,
    pub nazev: String,
}

/// A municipality of a district.
#[derive(Clone, Debug)]
pub struct Obec {
    pub id: i32,
    pub okres_id: i32,
    pub nazev: String,
}

/// A municipality to create.
#[derive(Clone, Debug)]
pub struct NewObec {
    pub okres_id: i32,
    pub nazev: String,
}

/// A cadastral area of a municipality.
#[derive(Clone, Debug)]
pub struct KatastralniUzemi {
    pub id: i32,
    pub obec_id: i32,
    pub nazev: String,
}

/// A cadastral area to create.
#[derive(Clone, Debug)]
pub struct NewKatastralniUzemi {
    pub obec_id: i32,
    pub nazev: String,
}

/// A soil quality code with its value.
#[derive(Clone, Debug)]
pub struct Bpej {
    pub id: i32,
    pub hodnota: i32,
}

/// A soil quality code to create.
#[derive(Clone, Debug)]
pub struct NewBpej {
    pub hodnota: i32,
}

/// A kind of proceeding, with its abbreviation.
#[derive(Clone, Debug)]
pub struct TypRizeni {
    pub id: i32,
    pub nazev: String,
    pub zkratka: String,
}

/// A kind of proceeding to create.
#[derive(Clone, Debug)]
pub struct NewTypRizeni {
    pub nazev: String,
    pub zkratka: String,
}

/// A kind of operation within a proceeding.
#[derive(Clone, Debug)]
pub struct TypOperace {
    pub id: i32,
    pub popis: String,
}

/// A kind of operation to create.
#[derive(Clone, Debug)]
pub struct NewTypOperace {
    pub popis: String,
}

/// A role that a participant takes in a proceeding.
#[derive(Clone, Debug)]
pub struct TypUcastnika {
    pub id: i32,
    pub nazev: String,
}

/// A participant role to create.
#[derive(Clone, Debug)]
pub struct NewTypUcastnika {
    pub nazev: String,
}

/// A participant of proceedings.
#[derive(Clone, Debug)]
pub struct UcastnikRizeni {
    pub id: i32,
    pub jmeno: String,
}

/// A participant to create.
#[derive(Clone, Debug)]
pub struct NewUcastnikRizeni {
    pub jmeno: String,
}

/// An ownership sheet: one folio number within a cadastral area.
#[derive(Clone, Debug)]
pub struct ListVlastnictvi {
    pub id: i32,
    pub katastralni_uzemi_id: i32,
    pub cislo_lv: i32,
    pub vlastnicky_hash: Option<String>,
}

/// An ownership sheet to create.
#[derive(Clone, Debug)]
pub struct NewListVlastnictvi {
    pub katastralni_uzemi_id: i32,
    pub cislo_lv: i32,
    pub vlastnicky_hash: Option<String>,
}

/// A parcel as stored.
#[derive(Clone, Debug)]
pub struct ParcelaRow {
    pub id: i32,
    pub parcelni_cislo: i32,
    pub cast_parcely: i32,
    pub je_stavebni: bool,
    pub vymera_metru_ctverecnich: DecimalValue,
    pub ulice: Option<String>,
    pub cislo_popisne: Option<String>,
    pub katastralni_uzemi_id: i32,
    pub bpej_id: Option<i32>,
    pub list_vlastnictvi_id: i32,
}

/// A parcel to create.
#[derive(Clone, Debug)]
pub struct NewParcelaRow {
    pub parcelni_cislo: i32,
    pub cast_parcely: i32,
    pub je_stavebni: bool,
    pub vymera_metru_ctverecnich: DecimalValue,
    pub ulice: Option<String>,
    pub cislo_popisne: Option<String>,
    pub katastralni_uzemi_id: i32,
    pub bpej_id: Option<i32>,
    pub list_vlastnictvi_id: i32,
}

/// A proceeding: year, case number and kind, with its subject.
#[derive(Clone, Debug)]
pub struct Rizeni {
    pub id: i32,
    pub rok: i32,
    pub cislo_rizeni: i32,
    pub typ_rizeni_id: i32,
    pub predmet: String,
    pub poznamka: Option<String>,
}

/// A proceeding to create.
#[derive(Clone, Debug)]
pub struct NewRizeni {
    pub rok: i32,
    pub cislo_rizeni: i32,
    pub typ_rizeni_id: i32,
    pub predmet: String,
    pub poznamka: Option<String>,
}

/// A share of a parcel held by an owner, in hundredths.
#[derive(Clone, Debug)]
pub struct Vlastnictvi {
    pub parcela_id: i32,
    pub majitel_id: i32,
    pub podil_setin: i32,
}

/// A share of a parcel to record.
#[derive(Clone, Debug)]
pub struct NewVlastnictvi {
    pub parcela_id: i32,
    pub majitel_id: i32,
    pub podil_setin: i32,
}

/// An encumbrance of one parcel in favour of another.
#[derive(Clone, Debug)]
pub struct BremenoParcelaParcela {
    pub parcela_id: i32,
    pub parcela_povinna_id: i32,
    pub popis: String,
    pub datum_zrizeni: CalendarDate,
    pub datum_pravnich_ucinku: CalendarDate,
}

/// A parcel-to-parcel encumbrance to create.
#[derive(Clone, Debug)]
pub struct NewBremenoParcelaParcela {
    pub parcela_id: i32,
    pub parcela_povinna_id: i32,
    pub popis: String,
    pub datum_zrizeni: CalendarDate,
    pub datum_pravnich_ucinku: CalendarDate,
}

/// An encumbrance of an owner in favour of a parcel.
#[derive(Clone, Debug)]
pub struct BremenoParcelaMajitel {
    pub parcela_id: i32,
    pub majitel_povinny_id: i32,
    pub popis: String,
    pub datum_zrizeni: CalendarDate,
    pub datum_pravnich_ucinku: CalendarDate,
}

/// A parcel-to-owner encumbrance to create.
#[derive(Clone, Debug)]
pub struct NewBremenoParcelaMajitel {
    pub parcela_id: i32,
    pub majitel_povinny_id: i32,
    pub popis: String,
    pub datum_zrizeni: CalendarDate,
    pub datum_pravnich_ucinku: CalendarDate,
}

/// A pending annotation of a parcel by a proceeding.
#[derive(Clone, Debug)]
pub struct Plomba {
    pub rizeni_id: i32,
    pub parcela_id: i32,
}

/// A pending annotation to create.
#[derive(Clone, Debug)]
pub struct NewPlomba {
    pub rizeni_id: i32,
    pub parcela_id: i32,
}

/// An operation of a proceeding on a date.
#[derive(Clone, Debug)]
pub struct RizeniOperaceRow {
    pub rizeni_id: i32,
    pub typ_operace_id: i32,
    pub datum: CalendarDate,
}

/// An operation of a proceeding to record.
#[derive(Clone, Debug)]
pub struct NewRizeniOperaceRow {
    pub rizeni_id: i32,
    pub typ_operace_id: i32,
    pub datum: CalendarDate,
}

/// The part that a participant takes in a proceeding.
#[derive(Clone, Debug)]
pub struct Ucast {
    pub rizeni_id: i32,
    pub ucastnik_rizeni_id: i32,
    pub typ_ucastnika_id: i32,
}

/// A participation to record.
#[derive(Clone, Debug)]
pub struct NewUcast {
    pub rizeni_id: i32,
    pub ucastnik_rizeni_id: i32,
    pub typ_ucastnika_id: i32,
}

/// State shared by the request handlers: the stored password hash, whether request logging
/// is off, and the session table.
pub struct AppState {
    pub password: String,
    pub no_print: bool,
    pub sessions: SessionRegistry,
}

impl AppState {
    /// A fresh state with no sessions, which never expire.
    pub fn new(password: String, no_print: bool) -> (r: AppState)
        ensures
            r.password == password,
            r.no_print == no_print,
            r.sessions.wf(),
            r.sessions@ == Map::<Seq<char>, u64>::empty(),
            r.sessions.max_age_spec() is None,
    {
        AppState { password, no_print, sessions: SessionRegistry::new() }
    }
}

/// Query parameters of the login.
#[derive(Clone, Debug)]
pub struct AuthenticateParams {
    pub password: String,
}

/// Query parameters of the ownership-sheet lookup.
#[derive(Clone, Debug)]
pub struct LvParams {
    pub katastralni_uzemi: String,
    pub cislo_lv: i32,
}

/// Query parameters of the parcel lookup.
#[derive(Clone, Debug)]
pub struct ParcelaParams {
    pub katastralni_uzemi: String,
    pub parcelni_cislo: i32,
    pub cast_parcely: i32,
    pub je_stavebni: bool,
}

} // verus!
