//! Facts shown when the displays are listed.
use vstd::prelude::*;

verus! {

/// The year that display identification data counts its years from.
pub const FIRST_MANUFACTURE_YEAR: u16 = 1990;

/// The calendar year of manufacture, from the year as the display reports
/// it (years since 1990).
pub fn manufacture_year(raw: u8) -> (r: u16)
    ensures
        r as int == FIRST_MANUFACTURE_YEAR as int + raw as int,
{
    FIRST_MANUFACTURE_YEAR + raw as u16
}

} // verus!
