//! Errors of the UTM to latitude/longitude conversion.
use vstd::prelude::*;

verus! {

/// Why a UTM coordinate was refused before conversion. The checks run in the
/// order of the variants, and the first one that fails is reported.
#[derive(Debug, Clone, Copy, PartialEq, Eq, Structural)]
pub enum WSG84ToLatLonError {
    EastingOutOfRange,
    NorthingOutOfRange,
    ZoneNumOutOfRange,
    ZoneLetterOutOfRange,
}

/// The message that goes with each error.
pub open spec fn spec_description(e: WSG84ToLatLonError) -> Seq<char> {
    match e {
        WSG84ToLatLonError::EastingOutOfRange => "Easting out of range, must be between 100000 and 999999"@,
        WSG84ToLatLonError::NorthingOutOfRange => "Northing out of range, must be between 0 and 10000000"@,
        WSG84ToLatLonError::ZoneNumOutOfRange => "Zone num out of range, must be between 1 and 60"@,
        WSG84ToLatLonError::ZoneLetterOutOfRange => "Zone letter out of range, must be between C and X"@,
    }
}

impl WSG84ToLatLonError {
    /// A sentence that says which input is out of range, and what range it must lie in.
    pub fn description(&self) -> (r: &'static str)
        ensures
            r@ == spec_description(*self),
    {
        match self {
            WSG84ToLatLonError::EastingOutOfRange => {
                "Easting out of range, must be between 100000 and 999999"
            },
            WSG84ToLatLonError::NorthingOutOfRange => {
                "Northing out of range, must be between 0 and 10000000"
            },
            WSG84ToLatLonError::ZoneNumOutOfRange => {
                "Zone num out of range, must be between 1 and 60"
            },
            WSG84ToLatLonError::ZoneLetterOutOfRange => {
                "Zone letter out of range, must be between C and X"
            },
        }
    }
}

} // verus!
