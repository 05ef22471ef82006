//! Dates and exact decimals as the store holds them.

use vstd::prelude::*;

verus! {

/// A calendar date as the store reports it: proleptic Gregorian year, month (1-12) and
/// day of the month (1-31).
#[derive(Clone, Copy, Debug, PartialEq, Eq, Structural)]
pub struct CalendarDate {
    pub year: i32,
    pub month: u32,
    pub day: u32,
}

/// An exact decimal number `mantissa * 10^(-scale)`, as the store's NUMERIC columns hold it.
#[derive(Clone, Copy, Debug, PartialEq, Eq, Structural)]
pub struct DecimalValue {
    pub mantissa: i128,
    pub scale: u32,
}

} // verus!
