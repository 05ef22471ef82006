//! How each record is read from a result row.

use vstd::prelude::*;

use crate::models::{MajitelPartA, Majitel, Parcela, ParcelaB, MajitelB, PartC, PartD, PartF, FindParcela, RizeniPredmetPoznamka, RizeniUcastnik, RizeniOperace, Kraj, Okres, Obec, KatastralniUzemi, Bpej, TypRizeni, TypOperace, TypUcastnika, UcastnikRizeni, ListVlastnictvi, ParcelaRow, Rizeni, Vlastnictvi, BremenoParcelaParcela, BremenoParcelaMajitel, Plomba, RizeniOperaceRow, Ucast};
use crate::row::{col_bool, col_date, col_decimal, col_i32, col_opt_date, col_opt_decimal, col_opt_i32, col_opt_text, col_text, opt_text, read_bool, read_date, read_decimal, read_i32, read_opt_date, read_opt_decimal, read_opt_i32, read_opt_text, read_text, then_fault, Column, DbRow, Fault, FromRow, MappingError};
use crate::values::{CalendarDate, DecimalValue};

verus! {

/// An integer read at 32 bits, widened to 64.
pub open spec fn widened(r: Result<i32, Fault>) -> Result<i64, Fault> {
    match r {
        Ok(v) => Ok(v as i64),
        Err(f) => Err(f),
    }
}

/// A nullable integer read at 32 bits, widened to 64.
pub open spec fn widened_opt(r: Result<Option<i32>, Fault>) -> Result<Option<i64>, Fault> {
    match r {
        Ok(Some(v)) => Ok(Some(v as i64)),
        Ok(None) => Ok(None),
        Err(f) => Err(f),
    }
}

impl FromRow for MajitelPartA {
    open spec fn row_fault(row: Seq<Column>) -> Option<Fault> {
        then_fault(then_fault(then_fault(then_fault(None, col_text(row, "jmeno"@)), col_text(row, "prijmeni"@)), col_text(row, "bydliste"@)), widened(col_i32(row, "podil_setin"@)))
    }

    open spec fn read_from(&self, row: Seq<Column>) -> bool {
        &&& col_text(row, "jmeno"@) == Ok::<Seq<char>, Fault>(self.jmeno@)
        &&& col_text(row, "prijmeni"@) == Ok::<Seq<char>, Fault>(self.prijmeni@)
        &&& col_text(row, "bydliste"@) == Ok::<Seq<char>, Fault>(self.bydliste@)
        &&& widened(col_i32(row, "podil_setin"@)) == Ok::<i64, Fault>(self.podil_setin)
    }

    fn from_row(row: &DbRow) -> (r: Result<MajitelPartA, MappingError>) {
        let jmeno = read_text(row, "jmeno")?;
        let prijmeni = read_text(row, "prijmeni")?;
        let bydliste = read_text(row, "bydliste")?;
        let podil_setin = read_i32(row, "podil_setin")? as i64;
        Ok(MajitelPartA { jmeno, prijmeni, bydliste, podil_setin })
    }
}

impl FromRow for Majitel {
    open spec fn row_fault(row: Seq<Column>) -> Option<Fault> {
        then_fault(then_fault(then_fault(then_fault(then_fault(then_fault(then_fault(None, col_i32(row, "id"@)), col_text(row, "jmeno"@)), col_text(row, "prijmeni"@)), col_opt_text(row, "titul"@)), col_opt_text(row, "bydliste"@)), col_opt_text(row, "rodne_cislo"@)), col_opt_text(row, "ico"@))
    }

    open spec fn read_from(&self, row: Seq<Column>) -> bool {
        &&& col_i32(row, "id"@) == Ok::<i32, Fault>(self.id)
        &&& col_text(row, "jmeno"@) == Ok::<Seq<char>, Fault>(self.jmeno@)
        &&& col_text(row, "prijmeni"@) == Ok::<Seq<char>, Fault>(self.prijmeni@)
        &&& col_opt_text(row, "titul"@) == Ok::<Option<Seq<char>>, Fault>(opt_text(self.titul))
        &&& col_opt_text(row, "bydliste"@) == Ok::<Option<Seq<char>>, Fault>(opt_text(self.bydliste))
        &&& col_opt_text(row, "rodne_cislo"@) == Ok::<Option<Seq<char>>, Fault>(opt_text(self.rodne_cislo))
        &&& col_opt_text(row, "ico"@) == Ok::<Option<Seq<char>>, Fault>(opt_text(self.ico))
    }

    fn from_row(row: &DbRow) -> (r: Result<Majitel, MappingError>) {
        let id = read_i32(row, "id")?;
        let jmeno = read_text(row, "jmeno")?;
        let prijmeni = read_text(row, "prijmeni")?;
        let titul = read_opt_text(row, "titul")?;
        let bydliste = read_opt_text(row, "bydliste")?;
        let rodne_cislo = read_opt_text(row, "rodne_cislo")?;
        let ico = read_opt_text(row, "ico")?;
        Ok(Majitel { id, jmeno, prijmeni, titul, bydliste, rodne_cislo, ico })
    }
}

impl FromRow for Parcela {
    open spec fn row_fault(row: Seq<Column>) -> Option<Fault> {
        then_fault(then_fault(then_fault(then_fault(then_fault(None, widened(col_i32(row, "parcelni_cislo"@))), col_bool(row, "je_stavebni"@)), col_opt_text(row, "ulice"@)), col_opt_text(row, "cislo_popisne"@)), col_text(row, "nazev_ku"@))
    }

    open spec fn read_from(&self, row: Seq<Column>) -> bool {
        &&& widened(col_i32(row, "parcelni_cislo"@)) == Ok::<i64, Fault>(self.parcelni_cislo)
        &&& col_bool(row, "je_stavebni"@) == Ok::<bool, Fault>(self.je_stavebni)
        &&& col_opt_text(row, "ulice"@) == Ok::<Option<Seq<char>>, Fault>(opt_text(self.ulice))
        &&& col_opt_text(row, "cislo_popisne"@) == Ok::<Option<Seq<char>>, Fault>(opt_text(self.cislo_popisne))
        &&& col_text(row, "nazev_ku"@) == Ok::<Seq<char>, Fault>(self.nazev_ku@)
    }

    fn from_row(row: &DbRow) -> (r: Result<Parcela, MappingError>) {
        let parcelni_cislo = read_i32(row, "parcelni_cislo")? as i64;
        let je_stavebni = read_bool(row, "je_stavebni")?;
        let ulice = read_opt_text(row, "ulice")?;
        let cislo_popisne = read_opt_text(row, "cislo_popisne")?;
        let nazev_ku = read_text(row, "nazev_ku")?;
        Ok(Parcela { parcelni_cislo, je_stavebni, ulice, cislo_popisne, nazev_ku })
    }
}

impl FromRow for ParcelaB {
    open spec fn row_fault(row: Seq<Column>) -> Option<Fault> {
        then_fault(then_fault(then_fault(then_fault(then_fault(then_fault(then_fault(then_fault(then_fault(None, col_text(row, "popis"@)), col_date(row, "datum_zrizeni"@)), col_date(row, "datum_pravnich_ucinku"@)), col_bool(row, "je_stavebni_opravnena"@)), widened(col_i32(row, "parcelni_cislo_opravnena"@))), widened(col_i32(row, "cast_parcely_opravnena"@))), col_bool(row, "je_stavebni_povinna"@)), widened(col_i32(row, "parcelni_cislo_povinna"@))), widened(col_i32(row, "cast_parcely_povinna"@)))
    }

    open spec fn read_from(&self, row: Seq<Column>) -> bool {
        &&& col_text(row, "popis"@) == Ok::<Seq<char>, Fault>(self.popis@)
        &&& col_date(row, "datum_zrizeni"@) == Ok::<CalendarDate, Fault>(self.datum_zrizeni)
        &&& col_date(row, "datum_pravnich_ucinku"@) == Ok::<CalendarDate, Fault>(self.datum_pravnich_ucinku)
        &&& col_bool(row, "je_stavebni_opravnena"@) == Ok::<bool, Fault>(self.je_stavebni_opravnena)
        &&& widened(col_i32(row, "parcelni_cislo_opravnena"@)) == Ok::<i64, Fault>(self.parcelni_cislo_opravnena)
        &&& widened(col_i32(row, "cast_parcely_opravnena"@)) == Ok::<i64, Fault>(self.cast_parcely_opravnena)
        &&& col_bool(row, "je_stavebni_povinna"@) == Ok::<bool, Fault>(self.je_stavebni_povinna)
        &&& widened(col_i32(row, "parcelni_cislo_povinna"@)) == Ok::<i64, Fault>(self.parcelni_cislo_povinna)
        &&& widened(col_i32(row, "cast_parcely_povinna"@)) == Ok::<i64, Fault>(self.cast_parcely_povinna)
    }

    fn from_row(row: &DbRow) -> (r: Result<ParcelaB, MappingError>) {
        let popis = read_text(row, "popis")?;
        let datum_zrizeni = read_date(row, "datum_zrizeni")?;
        let datum_pravnich_ucinku = read_date(row, "datum_pravnich_ucinku")?;
        let je_stavebni_opravnena = read_bool(row, "je_stavebni_opravnena")?;
        let parcelni_cislo_opravnena = read_i32(row, "parcelni_cislo_opravnena")? as i64;
        let cast_parcely_opravnena = read_i32(row, "cast_parcely_opravnena")? as i64;
        let je_stavebni_povinna = read_bool(row, "je_stavebni_povinna")?;
        let parcelni_cislo_povinna = read_i32(row, "parcelni_cislo_povinna")? as i64;
        let cast_parcely_povinna = read_i32(row, "cast_parcely_povinna")? as i64;
        Ok(ParcelaB { popis, datum_zrizeni, datum_pravnich_ucinku, je_stavebni_opravnena, parcelni_cislo_opravnena, cast_parcely_opravnena, je_stavebni_povinna, parcelni_cislo_povinna, cast_parcely_povinna })
    }
}

impl FromRow for MajitelB {
    open spec fn row_fault(row: Seq<Column>) -> Option<Fault> {
        then_fault(then_fault(then_fault(then_fault(then_fault(then_fault(then_fault(then_fault(then_fault(then_fault(then_fault(None, col_text(row, "popis"@)), col_date(row, "datum_zrizeni"@)), col_date(row, "datum_pravnich_ucinku"@)), col_bool(row, "je_stavebni_opravnena"@)), widened(col_i32(row, "parcelni_cislo_opravnena"@))), widened(col_i32(row, "cast_parcely_opravnena"@))), col_text(row, "jmeno_povinny"@)), col_text(row, "prijmeni_povinny"@)), col_opt_text(row, "titul_povinny"@)), col_opt_text(row, "rodne_cislo_povinny"@)), col_opt_text(row, "ico_povinny"@))
    }

    open spec fn read_from(&self, row: Seq<Column>) -> bool {
        &&& col_text(row, "popis"@) == Ok::<Seq<char>, Fault>(self.popis@)
        &&& col_date(row, "datum_zrizeni"@) == Ok::<CalendarDate, Fault>(self.datum_zrizeni)
        &&& col_date(row, "datum_pravnich_ucinku"@) == Ok::<CalendarDate, Fault>(self.datum_pravnich_ucinku)
        &&& col_bool(row, "je_stavebni_opravnena"@) == Ok::<bool, Fault>(self.je_stavebni_opravnena)
        &&& widened(col_i32(row, "parcelni_cislo_opravnena"@)) == Ok::<i64, Fault>(self.parcelni_cislo_opravnena)
        &&& widened(col_i32(row, "cast_parcely_opravnena"@)) == Ok::<i64, Fault>(self.cast_parcely_opravnena)
        &&& col_text(row, "jmeno_povinny"@) == Ok::<Seq<char>, Fault>(self.jmeno_povinny@)
        &&& col_text(row, "prijmeni_povinny"@) == Ok::<Seq<char>, Fault>(self.prijmeni_povinny@)
        &&& col_opt_text(row, "titul_povinny"@) == Ok::<Option<Seq<char>>, Fault>(opt_text(self.titul_povinny))
        &&& col_opt_text(row, "rodne_cislo_povinny"@) == Ok::<Option<Seq<char>>, Fault>(opt_text(self.rodne_cislo_povinny))
        &&& col_opt_text(row, "ico_povinny"@) == Ok::<Option<Seq<char>>, Fault>(opt_text(self.ico_povinny))
    }

    fn from_row(row: &DbRow) -> (r: Result<MajitelB, MappingError>) {
        let popis = read_text(row, "popis")?;
        let datum_zrizeni = read_date(row, "datum_zrizeni")?;
        let datum_pravnich_ucinku = read_date(row, "datum_pravnich_ucinku")?;
        let je_stavebni_opravnena = read_bool(row, "je_stavebni_opravnena")?;
        let parcelni_cislo_opravnena = read_i32(row, "parcelni_cislo_opravnena")? as i64;
        let cast_parcely_opravnena = read_i32(row, "cast_parcely_opravnena")? as i64;
        let jmeno_povinny = read_text(row, "jmeno_povinny")?;
        let prijmeni_povinny = read_text(row, "prijmeni_povinny")?;
        let titul_povinny = read_opt_text(row, "titul_povinny")?;
        let rodne_cislo_povinny = read_opt_text(row, "rodne_cislo_povinny")?;
        let ico_povinny = read_opt_text(row, "ico_povinny")?;
        Ok(MajitelB { popis, datum_zrizeni, datum_pravnich_ucinku, je_stavebni_opravnena, parcelni_cislo_opravnena, cast_parcely_opravnena, jmeno_povinny, prijmeni_povinny, titul_povinny, rodne_cislo_povinny, ico_povinny })
    }
}

impl FromRow for PartC {
    open spec fn row_fault(row: Seq<Column>) -> Option<Fault> {
        then_fault(then_fault(then_fault(then_fault(then_fault(then_fault(then_fault(then_fault(then_fault(None, col_text(row, "popis"@)), col_date(row, "datum_zrizeni"@)), col_date(row, "datum_pravnich_ucinku"@)), col_bool(row, "je_stavebni_opravnena"@)), widened(col_i32(row, "parcelni_cislo_opravnena"@))), widened(col_i32(row, "cast_parcely_opravnena"@))), col_bool(row, "je_stavebni_povinna"@)), widened(col_i32(row, "parcelni_cislo_povinna"@))), widened(col_i32(row, "cast_parcely_povinna"@)))
    }

    open spec fn read_from(&self, row: Seq<Column>) -> bool {
        &&& col_text(row, "popis"@) == Ok::<Seq<char>, Fault>(self.popis@)
        &&& col_date(row, "datum_zrizeni"@) == Ok::<CalendarDate, Fault>(self.datum_zrizeni)
        &&& col_date(row, "datum_pravnich_ucinku"@) == Ok::<CalendarDate, Fault>(self.datum_pravnich_ucinku)
        &&& col_bool(row, "je_stavebni_opravnena"@) == Ok::<bool, Fault>(self.je_stavebni_opravnena)
        &&& widened(col_i32(row, "parcelni_cislo_opravnena"@)) == Ok::<i64, Fault>(self.parcelni_cislo_opravnena)
        &&& widened(col_i32(row, "cast_parcely_opravnena"@)) == Ok::<i64, Fault>(self.cast_parcely_opravnena)
        &&& col_bool(row, "je_stavebni_povinna"@) == Ok::<bool, Fault>(self.je_stavebni_povinna)
        &&& widened(col_i32(row, "parcelni_cislo_povinna"@)) == Ok::<i64, Fault>(self.parcelni_cislo_povinna)
        &&& widened(col_i32(row, "cast_parcely_povinna"@)) == Ok::<i64, Fault>(self.cast_parcely_povinna)
    }

    fn from_row(row: &DbRow) -> (r: Result<PartC, MappingError>) {
        let popis = read_text(row, "popis")?;
        let datum_zrizeni = read_date(row, "datum_zrizeni")?;
        let datum_pravnich_ucinku = read_date(row, "datum_pravnich_ucinku")?;
        let je_stavebni_opravnena = read_bool(row, "je_stavebni_opravnena")?;
        let parcelni_cislo_opravnena = read_i32(row, "parcelni_cislo_opravnena")? as i64;
        let cast_parcely_opravnena = read_i32(row, "cast_parcely_opravnena")? as i64;
        let je_stavebni_povinna = read_bool(row, "je_stavebni_povinna")?;
        let parcelni_cislo_povinna = read_i32(row, "parcelni_cislo_povinna")? as i64;
        let cast_parcely_povinna = read_i32(row, "cast_parcely_povinna")? as i64;
        Ok(PartC { popis, datum_zrizeni, datum_pravnich_ucinku, je_stavebni_opravnena, parcelni_cislo_opravnena, cast_parcely_opravnena, je_stavebni_povinna, parcelni_cislo_povinna, cast_parcely_povinna })
    }
}

impl FromRow for PartD {
    open spec fn row_fault(row: Seq<Column>) -> Option<Fault> {
        then_fault(then_fault(then_fault(then_fault(then_fault(then_fault(then_fault(None, col_bool(row, "je_stavebni"@)), widened(col_i32(row, "parcelni_cislo"@))), widened(col_i32(row, "cast_parcely"@))), col_text(row, "nazev_katastralniho_uzemi"@)), col_text(row, "typ_rizeni_zkratka"@)), widened(col_i32(row, "cislo_rizeni"@))), widened(col_i32(row, "rok_rizeni"@)))
    }

    open spec fn read_from(&self, row: Seq<Column>) -> bool {
        &&& col_bool(row, "je_stavebni"@) == Ok::<bool, Fault>(self.je_stavebni)
        &&& widened(col_i32(row, "parcelni_cislo"@)) == Ok::<i64, Fault>(self.parcelni_cislo)
        &&& widened(col_i32(row, "cast_parcely"@)) == Ok::<i64, Fault>(self.cast_parcely)
        &&& col_text(row, "nazev_katastralniho_uzemi"@) == Ok::<Seq<char>, Fault>(self.nazev_katastralniho_uzemi@)
        &&& col_text(row, "typ_rizeni_zkratka"@) == Ok::<Seq<char>, Fault>(self.typ_rizeni_zkratka@)
        &&& widened(col_i32(row, "cislo_rizeni"@)) == Ok::<i64, Fault>(self.cislo_rizeni)
        &&& widened(col_i32(row, "rok_rizeni"@)) == Ok::<i64, Fault>(self.rok_rizeni)
    }

    fn from_row(row: &DbRow) -> (r: Result<PartD, MappingError>) {
        let je_stavebni = read_bool(row, "je_stavebni")?;
        let parcelni_cislo = read_i32(row, "parcelni_cislo")? as i64;
        let cast_parcely = read_i32(row, "cast_parcely")? as i64;
        let nazev_katastralniho_uzemi = read_text(row, "nazev_katastralniho_uzemi")?;
        let typ_rizeni_zkratka = read_text(row, "typ_rizeni_zkratka")?;
        let cislo_rizeni = read_i32(row, "cislo_rizeni")? as i64;
        let rok_rizeni = read_i32(row, "rok_rizeni")? as i64;
        Ok(PartD { je_stavebni, parcelni_cislo, cast_parcely, nazev_katastralniho_uzemi, typ_rizeni_zkratka, cislo_rizeni, rok_rizeni })
    }
}

impl FromRow for PartF {
    open spec fn row_fault(row: Seq<Column>) -> Option<Fault> {
        then_fault(then_fault(then_fault(then_fault(None, col_bool(row, "je_stavebni"@)), widened(col_i32(row, "parcelni_cislo"@))), widened(col_i32(row, "cast_parcely"@))), widened_opt(col_opt_i32(row, "hodnota"@)))
    }

    open spec fn read_from(&self, row: Seq<Column>) -> bool {
        &&& col_bool(row, "je_stavebni"@) == Ok::<bool, Fault>(self.je_stavebni)
        &&& widened(col_i32(row, "parcelni_cislo"@)) == Ok::<i64, Fault>(self.parcelni_cislo)
        &&& widened(col_i32(row, "cast_parcely"@)) == Ok::<i64, Fault>(self.cast_parcely)
        &&& widened_opt(col_opt_i32(row, "hodnota"@)) == Ok::<Option<i64>, Fault>(self.hodnota)
    }

    fn from_row(row: &DbRow) -> (r: Result<PartF, MappingError>) {
        let je_stavebni = read_bool(row, "je_stavebni")?;
        let parcelni_cislo = read_i32(row, "parcelni_cislo")? as i64;
        let cast_parcely = read_i32(row, "cast_parcely")? as i64;
        let hodnota = match read_opt_i32(row, "hodnota")? { Some(v) => Some(v as i64), None => None };
        Ok(PartF { je_stavebni, parcelni_cislo, cast_parcely, hodnota })
    }
}

impl FromRow for FindParcela {
    open spec fn row_fault(row: Seq<Column>) -> Option<Fault> {
        then_fault(then_fault(then_fault(then_fault(then_fault(then_fault(then_fault(then_fault(None, col_bool(row, "je_stavebni"@)), widened(col_i32(row, "parcelni_cislo"@))), widened(col_i32(row, "cast_parcely"@))), col_opt_decimal(row, "vymera_metru_ctverecnich"@)), col_opt_text(row, "ulice"@)), col_opt_text(row, "cislo_popisne"@)), widened_opt(col_opt_i32(row, "hodnota"@))), widened(col_i32(row, "cislo_lv"@)))
    }

    open spec fn read_from(&self, row: Seq<Column>) -> bool {
        &&& col_bool(row, "je_stavebni"@) == Ok::<bool, Fault>(self.je_stavebni)
        &&& widened(col_i32(row, "parcelni_cislo"@)) == Ok::<i64, Fault>(self.parcelni_cislo)
        &&& widened(col_i32(row, "cast_parcely"@)) == Ok::<i64, Fault>(self.cast_parcely)
        &&& col_opt_decimal(row, "vymera_metru_ctverecnich"@) == Ok::<Option<DecimalValue>, Fault>(self.vymera_metru_ctverecnich)
        &&& col_opt_text(row, "ulice"@) == Ok::<Option<Seq<char>>, Fault>(opt_text(self.ulice))
        &&& col_opt_text(row, "cislo_popisne"@) == Ok::<Option<Seq<char>>, Fault>(opt_text(self.cislo_popisne))
        &&& widened_opt(col_opt_i32(row, "hodnota"@)) == Ok::<Option<i64>, Fault>(self.hodnota)
        &&& widened(col_i32(row, "cislo_lv"@)) == Ok::<i64, Fault>(self.cislo_lv)
    }

    fn from_row(row: &DbRow) -> (r: Result<FindParcela, MappingError>) {
        let je_stavebni = read_bool(row, "je_stavebni")?;
        let parcelni_cislo = read_i32(row, "parcelni_cislo")? as i64;
        let cast_parcely = read_i32(row, "cast_parcely")? as i64;
        let vymera_metru_ctverecnich = read_opt_decimal(row, "vymera_metru_ctverecnich")?;
        let ulice = read_opt_text(row, "ulice")?;
        let cislo_popisne = read_opt_text(row, "cislo_popisne")?;
        let hodnota = match read_opt_i32(row, "hodnota")? { Some(v) => Some(v as i64), None => None };
        let cislo_lv = read_i32(row, "cislo_lv")? as i64;
        Ok(FindParcela { je_stavebni, parcelni_cislo, cast_parcely, vymera_metru_ctverecnich, ulice, cislo_popisne, hodnota, cislo_lv })
    }
}

impl FromRow for RizeniPredmetPoznamka {
    open spec fn row_fault(row: Seq<Column>) -> Option<Fault> {
        then_fault(then_fault(None, col_text(row, "predmet"@)), col_opt_text(row, "poznamka"@))
    }

    open spec fn read_from(&self, row: Seq<Column>) -> bool {
        &&& col_text(row, "predmet"@) == Ok::<Seq<char>, Fault>(self.predmet@)
        &&& col_opt_text(row, "poznamka"@) == Ok::<Option<Seq<char>>, Fault>(opt_text(self.poznamka))
    }

    fn from_row(row: &DbRow) -> (r: Result<RizeniPredmetPoznamka, MappingError>) {
        let predmet = read_text(row, "predmet")?;
        let poznamka = read_opt_text(row, "poznamka")?;
        Ok(RizeniPredmetPoznamka { predmet, poznamka })
    }
}

impl FromRow for RizeniUcastnik {
    open spec fn row_fault(row: Seq<Column>) -> Option<Fault> {
        then_fault(then_fault(None, col_text(row, "typ_ucastnika"@)), col_text(row, "ucastnik_jmeno"@))
    }

    open spec fn read_from(&self, row: Seq<Column>) -> bool {
        &&& col_text(row, "typ_ucastnika"@) == Ok::<Seq<char>, Fault>(self.typ_ucastnika@)
        &&& col_text(row, "ucastnik_jmeno"@) == Ok::<Seq<char>, Fault>(self.ucastnik_jmeno@)
    }

    fn from_row(row: &DbRow) -> (r: Result<RizeniUcastnik, MappingError>) {
        let typ_ucastnika = read_text(row, "typ_ucastnika")?;
        let ucastnik_jmeno = read_text(row, "ucastnik_jmeno")?;
        Ok(RizeniUcastnik { typ_ucastnika, ucastnik_jmeno })
    }
}

impl FromRow for RizeniOperace {
    open spec fn row_fault(row: Seq<Column>) -> Option<Fault> {
        then_fault(then_fault(None, col_text(row, "operace_popis"@)), col_opt_date(row, "operace_datum"@))
    }

    open spec fn read_from(&self, row: Seq<Column>) -> bool {
        &&& col_text(row, "operace_popis"@) == Ok::<Seq<char>, Fault>(self.operace_popis@)
        &&& col_opt_date(row, "operace_datum"@) == Ok::<Option<CalendarDate>, Fault>(self.operace_datum)
    }

    fn from_row(row: &DbRow) -> (r: Result<RizeniOperace, MappingError>) {
        let operace_popis = read_text(row, "operace_popis")?;
        let operace_datum = read_opt_date(row, "operace_datum")?;
        Ok(RizeniOperace { operace_popis, operace_datum })
    }
}

impl FromRow for Kraj {
    open spec fn row_fault(row: Seq<Column>) -> Option<Fault> {
        then_fault(then_fault(None, col_i32(row, "id"@)), col_text(row, "nazev"@))
    }

    open spec fn read_from(&self, row: Seq<Column>) -> bool {
        &&& col_i32(row, "id"@) == Ok::<i32, Fault>(self.id)
        &&& col_text(row, "nazev"@) == Ok::<Seq<char>, Fault>(self.nazev@)
    }

    fn from_row(row: &DbRow) -> (r: Result<Kraj, MappingError>) {
        let id = read_i32(row, "id")?;
        let nazev = read_text(row, "nazev")?;
        Ok(Kraj { id, nazev })
    }
}

impl FromRow for Okres {
    open spec fn row_fault(row: Seq<Column>) -> Option<Fault> {
        then_fault(then_fault(then_fault(None, col_i32(row, "id"@)), col_i32(row, "kraj_id"@)), col_text(row, "nazev"@))
    }

    open spec fn read_from(&self, row: Seq<Column>) -> bool {
        &&& col_i32(row, "id"@) == Ok::<i32, Fault>(self.id)
        &&& col_i32(row, "kraj_id"@) == Ok::<i32, Fault>(self.kraj_id)
        &&& col_text(row, "nazev"@) == Ok::<Seq<char>, Fault>(self.nazev@)
    }

    fn from_row(row: &DbRow) -> (r: Result<Okres, MappingError>) {
        let id = read_i32(row, "id")?;
        let kraj_id = read_i32(row, "kraj_id")?;
        let nazev = read_text(row, "nazev")?;
        Ok(Okres { id, kraj_id, nazev })
    }
}

impl FromRow for Obec {
    open spec fn row_fault(row: Seq<Column>) -> Option<Fault> {
        then_fault(then_fault(then_fault(None, col_i32(row, "id"@)), col_i32(row, "okres_id"@)), col_text(row, "nazev"@))
    }

    open spec fn read_from(&self, row: Seq<Column>) -> bool {
        &&& col_i32(row, "id"@) == Ok::<i32, Fault>(self.id)
        &&& col_i32(row, "okres_id"@) == Ok::<i32, Fault>(self.okres_id)
        &&& col_text(row, "nazev"@) == Ok::<Seq<char>, Fault>(self.nazev@)
    }

    fn from_row(row: &DbRow) -> (r: Result<Obec, MappingError>) {
        let id = read_i32(row, "id")?;
        let okres_id = read_i32(row, "okres_id")?;
        let nazev = read_text(row, "nazev")?;
        Ok(Obec { id, okres_id, nazev })
    }
}

impl FromRow for KatastralniUzemi {
    open spec fn row_fault(row: Seq<Column>) -> Option<Fault> {
        then_fault(then_fault(then_fault(None, col_i32(row, "id"@)), col_i32(row, "obec_id"@)), col_text(row, "nazev"@))
    }

    open spec fn read_from(&self, row: Seq<Column>) -> bool {
        &&& col_i32(row, "id"@) == Ok::<i32, Fault>(self.id)
        &&& col_i32(row, "obec_id"@) == Ok::<i32, Fault>(self.obec_id)
        &&& col_text(row, "nazev"@) == Ok::<Seq<char>, Fault>(self.nazev@)
    }

    fn from_row(row: &DbRow) -> (r: Result<KatastralniUzemi, MappingError>) {
        let id = read_i32(row, "id")?;
        let obec_id = read_i32(row, "obec_id")?;
        let nazev = read_text(row, "nazev")?;
        Ok(KatastralniUzemi { id, obec_id, nazev })
    }
}

impl FromRow for Bpej {
    open spec fn row_fault(row: Seq<Column>) -> Option<Fault> {
        then_fault(then_fault(None, col_i32(row, "id"@)), col_i32(row, "hodnota"@))
    }

    open spec fn read_from(&self, row: Seq<Column>) -> bool {
        &&& col_i32(row, "id"@) == Ok::<i32, Fault>(self.id)
        &&& col_i32(row, "hodnota"@) == Ok::<i32, Fault>(self.hodnota)
    }

    fn from_row(row: &DbRow) -> (r: Result<Bpej, MappingError>) {
        let id = read_i32(row, "id")?;
        let hodnota = read_i32(row, "hodnota")?;
        Ok(Bpej { id, hodnota })
    }
}

impl FromRow for TypRizeni {
    open spec fn row_fault(row: Seq<Column>) -> Option<Fault> {
        then_fault(then_fault(then_fault(None, col_i32(row, "id"@)), col_text(row, "nazev"@)), col_text(row, "zkratka"@))
    }

    open spec fn read_from(&self, row: Seq<Column>) -> bool {
        &&& col_i32(row, "id"@) == Ok::<i32, Fault>(self.id)
        &&& col_text(row, "nazev"@) == Ok::<Seq<char>, Fault>(self.nazev@)
        &&& col_text(row, "zkratka"@) == Ok::<Seq<char>, Fault>(self.zkratka@)
    }

    fn from_row(row: &DbRow) -> (r: Result<TypRizeni, MappingError>) {
        let id = read_i32(row, "id")?;
        let nazev = read_text(row, "nazev")?;
        let zkratka = read_text(row, "zkratka")?;
        Ok(TypRizeni { id, nazev, zkratka })
    }
}

impl FromRow for TypOperace {
    open spec fn row_fault(row: Seq<Column>) -> Option<Fault> {
        then_fault(then_fault(None, col_i32(row, "id"@)), col_text(row, "popis"@))
    }

    open spec fn read_from(&self, row: Seq<Column>) -> bool {
        &&& col_i32(row, "id"@) == Ok::<i32, Fault>(self.id)
        &&& col_text(row, "popis"@) == Ok::<Seq<char>, Fault>(self.popis@)
    }

    fn from_row(row: &DbRow) -> (r: Result<TypOperace, MappingError>) {
        let id = read_i32(row, "id")?;
        let popis = read_text(row, "popis")?;
        Ok(TypOperace { id, popis })
    }
}

impl FromRow for TypUcastnika {
    open spec fn row_fault(row: Seq<Column>) -> Option<Fault> {
        then_fault(then_fault(None, col_i32(row, "id"@)), col_text(row, "nazev"@))
    }

    open spec fn read_from(&self, row: Seq<Column>) -> bool {
        &&& col_i32(row, "id"@) == Ok::<i32, Fault>(self.id)
        &&& col_text(row, "nazev"@) == Ok::<Seq<char>, Fault>(self.nazev@)
    }

    fn from_row(row: &DbRow) -> (r: Result<TypUcastnika, MappingError>) {
        let id = read_i32(row, "id")?;
        let nazev = read_text(row, "nazev")?;
        Ok(TypUcastnika { id, nazev })
    }
}

impl FromRow for UcastnikRizeni {
    open spec fn row_fault(row: Seq<Column>) -> Option<Fault> {
        then_fault(then_fault(None, col_i32(row, "id"@)), col_text(row, "jmeno"@))
    }

    open spec fn read_from(&self, row: Seq<Column>) -> bool {
        &&& col_i32(row, "id"@) == Ok::<i32, Fault>(self.id)
        &&& col_text(row, "jmeno"@) == Ok::<Seq<char>, Fault>(self.jmeno@)
    }

    fn from_row(row: &DbRow) -> (r: Result<UcastnikRizeni, MappingError>) {
        let id = read_i32(row, "id")?;
        let jmeno = read_text(row, "jmeno")?;
        Ok(UcastnikRizeni { id, jmeno })
    }
}

impl FromRow for ListVlastnictvi {
    open spec fn row_fault(row: Seq<Column>) -> Option<Fault> {
        then_fault(then_fault(then_fault(then_fault(None, col_i32(row, "id"@)), col_i32(row, "katastralni_uzemi_id"@)), col_i32(row, "cislo_lv"@)), col_opt_text(row, "vlastnicky_hash"@))
    }

    open spec fn read_from(&self, row: Seq<Column>) -> bool {
        &&& col_i32(row, "id"@) == Ok::<i32, Fault>(self.id)
        &&& col_i32(row, "katastralni_uzemi_id"@) == Ok::<i32, Fault>(self.katastralni_uzemi_id)
        &&& col_i32(row, "cislo_lv"@) == Ok::<i32, Fault>(self.cislo_lv)
        &&& col_opt_text(row, "vlastnicky_hash"@) == Ok::<Option<Seq<char>>, Fault>(opt_text(self.vlastnicky_hash))
    }

    fn from_row(row: &DbRow) -> (r: Result<ListVlastnictvi, MappingError>) {
        let id = read_i32(row, "id")?;
        let katastralni_uzemi_id = read_i32(row, "katastralni_uzemi_id")?;
        let cislo_lv = read_i32(row, "cislo_lv")?;
        let vlastnicky_hash = read_opt_text(row, "vlastnicky_hash")?;
        Ok(ListVlastnictvi { id, katastralni_uzemi_id, cislo_lv, vlastnicky_hash })
    }
}

impl FromRow for ParcelaRow {
    open spec fn row_fault(row: Seq<Column>) -> Option<Fault> {
        then_fault(then_fault(then_fault(then_fault(then_fault(then_fault(then_fault(then_fault(then_fault(then_fault(None, col_i32(row, "id"@)), col_i32(row, "parcelni_cislo"@)), col_i32(row, "cast_parcely"@)), col_bool(row, "je_stavebni"@)), col_decimal(row, "vymera_metru_ctverecnich"@)), col_opt_text(row, "ulice"@)), col_opt_text(row, "cislo_popisne"@)), col_i32(row, "katastralni_uzemi_id"@)), col_opt_i32(row, "bpej_id"@)), col_i32(row, "list_vlastnictvi_id"@))
    }

    open spec fn read_from(&self, row: Seq<Column>) -> bool {
        &&& col_i32(row, "id"@) == Ok::<i32, Fault>(self.id)
        &&& col_i32(row, "parcelni_cislo"@) == Ok::<i32, Fault>(self.parcelni_cislo)
        &&& col_i32(row, "cast_parcely"@) == Ok::<i32, Fault>(self.cast_parcely)
        &&& col_bool(row, "je_stavebni"@) == Ok::<bool, Fault>(self.je_stavebni)
        &&& col_decimal(row, "vymera_metru_ctverecnich"@) == Ok::<DecimalValue, Fault>(self.vymera_metru_ctverecnich)
        &&& col_opt_text(row, "ulice"@) == Ok::<Option<Seq<char>>, Fault>(opt_text(self.ulice))
        &&& col_opt_text(row, "cislo_popisne"@) == Ok::<Option<Seq<char>>, Fault>(opt_text(self.cislo_popisne))
        &&& col_i32(row, "katastralni_uzemi_id"@) == Ok::<i32, Fault>(self.katastralni_uzemi_id)
        &&& col_opt_i32(row, "bpej_id"@) == Ok::<Option<i32>, Fault>(self.bpej_id)
        &&& col_i32(row, "list_vlastnictvi_id"@) == Ok::<i32, Fault>(self.list_vlastnictvi_id)
    }

    fn from_row(row: &DbRow) -> (r: Result<ParcelaRow, MappingError>) {
        let id = read_i32(row, "id")?;
        let parcelni_cislo = read_i32(row, "parcelni_cislo")?;
        let cast_parcely = read_i32(row, "cast_parcely")?;
        let je_stavebni = read_bool(row, "je_stavebni")?;
        let vymera_metru_ctverecnich = read_decimal(row, "vymera_metru_ctverecnich")?;
        let ulice = read_opt_text(row, "ulice")?;
        let cislo_popisne = read_opt_text(row, "cislo_popisne")?;
        let katastralni_uzemi_id = read_i32(row, "katastralni_uzemi_id")?;
        let bpej_id = read_opt_i32(row, "bpej_id")?;
        let list_vlastnictvi_id = read_i32(row, "list_vlastnictvi_id")?;
        Ok(ParcelaRow { id, parcelni_cislo, cast_parcely, je_stavebni, vymera_metru_ctverecnich, ulice, cislo_popisne, katastralni_uzemi_id, bpej_id, list_vlastnictvi_id })
    }
}

impl FromRow for Rizeni {
    open spec fn row_fault(row: Seq<Column>) -> Option<Fault> {
        then_fault(then_fault(then_fault(then_fault(then_fault(then_fault(None, col_i32(row, "id"@)), col_i32(row, "rok"@)), col_i32(row, "cislo_rizeni"@)), col_i32(row, "typ_rizeni_id"@)), col_text(row, "predmet"@)), col_opt_text(row, "poznamka"@))
    }

    open spec fn read_from(&self, row: Seq<Column>) -> bool {
        &&& col_i32(row, "id"@) == Ok::<i32, Fault>(self.id)
        &&& col_i32(row, "rok"@) == Ok::<i32, Fault>(self.rok)
        &&& col_i32(row, "cislo_rizeni"@) == Ok::<i32, Fault>(self.cislo_rizeni)
        &&& col_i32(row, "typ_rizeni_id"@) == Ok::<i32, Fault>(self.typ_rizeni_id)
        &&& col_text(row, "predmet"@) == Ok::<Seq<char>, Fault>(self.predmet@)
        &&& col_opt_text(row, "poznamka"@) == Ok::<Option<Seq<char>>, Fault>(opt_text(self.poznamka))
    }

    fn from_row(row: &DbRow) -> (r: Result<Rizeni, MappingError>) {
        let id = read_i32(row, "id")?;
        let rok = read_i32(row, "rok")?;
        let cislo_rizeni = read_i32(row, "cislo_rizeni")?;
        let typ_rizeni_id = read_i32(row, "typ_rizeni_id")?;
        let predmet = read_text(row, "predmet")?;
        let poznamka = read_opt_text(row, "poznamka")?;
        Ok(Rizeni { id, rok, cislo_rizeni, typ_rizeni_id, predmet, poznamka })
    }
}

impl FromRow for Vlastnictvi {
    open spec fn row_fault(row: Seq<Column>) -> Option<Fault> {
        then_fault(then_fault(then_fault(None, col_i32(row, "parcela_id"@)), col_i32(row, "majitel_id"@)), col_i32(row, "podil_setin"@))
    }

    open spec fn read_from(&self, row: Seq<Column>) -> bool {
        &&& col_i32(row, "parcela_id"@) == Ok::<i32, Fault>(self.parcela_id)
        &&& col_i32(row, "majitel_id"@) == Ok::<i32, Fault>(self.majitel_id)
        &&& col_i32(row, "podil_setin"@) == Ok::<i32, Fault>(self.podil_setin)
    }

    fn from_row(row: &DbRow) -> (r: Result<Vlastnictvi, MappingError>) {
        let parcela_id = read_i32(row, "parcela_id")?;
        let majitel_id = read_i32(row, "majitel_id")?;
        let podil_setin = read_i32(row, "podil_setin")?;
        Ok(Vlastnictvi { parcela_id, majitel_id, podil_setin })
    }
}

impl FromRow for BremenoParcelaParcela {
    open spec fn row_fault(row: Seq<Column>) -> Option<Fault> {
        then_fault(then_fault(then_fault(then_fault(then_fault(None, col_i32(row, "parcela_id"@)), col_i32(row, "parcela_povinna_id"@)), col_text(row, "popis"@)), col_date(row, "datum_zrizeni"@)), col_date(row, "datum_pravnich_ucinku"@))
    }

    open spec fn read_from(&self, row: Seq<Column>) -> bool {
        &&& col_i32(row, "parcela_id"@) == Ok::<i32, Fault>(self.parcela_id)
        &&& col_i32(row, "parcela_povinna_id"@) == Ok::<i32, Fault>(self.parcela_povinna_id)
        &&& col_text(row, "popis"@) == Ok::<Seq<char>, Fault>(self.popis@)
        &&& col_date(row, "datum_zrizeni"@) == Ok::<CalendarDate, Fault>(self.datum_zrizeni)
        &&& col_date(row, "datum_pravnich_ucinku"@) == Ok::<CalendarDate, Fault>(self.datum_pravnich_ucinku)
    }

    fn from_row(row: &DbRow) -> (r: Result<BremenoParcelaParcela, MappingError>) {
        let parcela_id = read_i32(row, "parcela_id")?;
        let parcela_povinna_id = read_i32(row, "parcela_povinna_id")?;
        let popis = read_text(row, "popis")?;
        let datum_zrizeni = read_date(row, "datum_zrizeni")?;
        let datum_pravnich_ucinku = read_date(row, "datum_pravnich_ucinku")?;
        Ok(BremenoParcelaParcela { parcela_id, parcela_povinna_id, popis, datum_zrizeni, datum_pravnich_ucinku })
    }
}

impl FromRow for BremenoParcelaMajitel {
    open spec fn row_fault(row: Seq<Column>) -> Option<Fault> {
        then_fault(then_fault(then_fault(then_fault(then_fault(None, col_i32(row, "parcela_id"@)), col_i32(row, "majitel_povinny_id"@)), col_text(row, "popis"@)), col_date(row, "datum_zrizeni"@)), col_date(row, "datum_pravnich_ucinku"@))
    }

    open spec fn read_from(&self, row: Seq<Column>) -> bool {
        &&& col_i32(row, "parcela_id"@) == Ok::<i32, Fault>(self.parcela_id)
        &&& col_i32(row, "majitel_povinny_id"@) == Ok::<i32, Fault>(self.majitel_povinny_id)
        &&& col_text(row, "popis"@) == Ok::<Seq<char>, Fault>(self.popis@)
        &&& col_date(row, "datum_zrizeni"@) == Ok::<CalendarDate, Fault>(self.datum_zrizeni)
        &&& col_date(row, "datum_pravnich_ucinku"@) == Ok::<CalendarDate, Fault>(self.datum_pravnich_ucinku)
    }

    fn from_row(row: &DbRow) -> (r: Result<BremenoParcelaMajitel, MappingError>) {
        let parcela_id = read_i32(row, "parcela_id")?;
        let majitel_povinny_id = read_i32(row, "majitel_povinny_id")?;
        let popis = read_text(row, "popis")?;
        let datum_zrizeni = read_date(row, "datum_zrizeni")?;
        let datum_pravnich_ucinku = read_date(row, "datum_pravnich_ucinku")?;
        Ok(BremenoParcelaMajitel { parcela_id, majitel_povinny_id, popis, datum_zrizeni, datum_pravnich_ucinku })
    }
}

impl FromRow for Plomba {
    open spec fn row_fault(row: Seq<Column>) -> Option<Fault> {
        then_fault(then_fault(None, col_i32(row, "rizeni_id"@)), col_i32(row, "parcela_id"@))
    }

    open spec fn read_from(&self, row: Seq<Column>) -> bool {
        &&& col_i32(row, "rizeni_id"@) == Ok::<i32, Fault>(self.rizeni_id)
        &&& col_i32(row, "parcela_id"@) == Ok::<i32, Fault>(self.parcela_id)
    }

    fn from_row(row: &DbRow) -> (r: Result<Plomba, MappingError>) {
        let rizeni_id = read_i32(row, "rizeni_id")?;
        let parcela_id = read_i32(row, "parcela_id")?;
        Ok(Plomba { rizeni_id, parcela_id })
    }
}

impl FromRow for RizeniOperaceRow {
    open spec fn row_fault(row: Seq<Column>) -> Option<Fault> {
        then_fault(then_fault(then_fault(None, col_i32(row, "rizeni_id"@)), col_i32(row, "typ_operace_id"@)), col_date(row, "datum"@))
    }

    open spec fn read_from(&self, row: Seq<Column>) -> bool {
        &&& col_i32(row, "rizeni_id"@) == Ok::<i32, Fault>(self.rizeni_id)
        &&& col_i32(row, "typ_operace_id"@) == Ok::<i32, Fault>(self.typ_operace_id)
        &&& col_date(row, "datum"@) == Ok::<CalendarDate, Fault>(self.datum)
    }

    fn from_row(row: &DbRow) -> (r: Result<RizeniOperaceRow, MappingError>) {
        let rizeni_id = read_i32(row, "rizeni_id")?;
        let typ_operace_id = read_i32(row, "typ_operace_id")?;
        let datum = read_date(row, "datum")?;
        Ok(RizeniOperaceRow { rizeni_id, typ_operace_id, datum })
    }
}

impl FromRow for Ucast {
    open spec fn row_fault(row: Seq<Column>) -> Option<Fault> {
        then_fault(then_fault(then_fault(None, col_i32(row, "rizeni_id"@)), col_i32(row, "ucastnik_rizeni_id"@)), col_i32(row, "typ_ucastnika_id"@))
    }

    open spec fn read_from(&self, row: Seq<Column>) -> bool {
        &&& col_i32(row, "rizeni_id"@) == Ok::<i32, Fault>(self.rizeni_id)
        &&& col_i32(row, "ucastnik_rizeni_id"@) == Ok::<i32, Fault>(self.ucastnik_rizeni_id)
        &&& col_i32(row, "typ_ucastnika_id"@) == Ok::<i32, Fault>(self.typ_ucastnika_id)
    }

    fn from_row(row: &DbRow) -> (r: Result<Ucast, MappingError>) {
        let rizeni_id = read_i32(row, "rizeni_id")?;
        let ucastnik_rizeni_id = read_i32(row, "ucastnik_rizeni_id")?;
        let typ_ucastnika_id = read_i32(row, "typ_ucastnika_id")?;
        Ok(Ucast { rizeni_id, ucastnik_rizeni_id, typ_ucastnika_id })
    }
}

} // verus!
