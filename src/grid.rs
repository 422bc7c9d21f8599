//! The UTM grid: zones' central meridians, the false origins, and the checks
//! that a UTM coordinate passes before it is converted back.
use vstd::prelude::*;
use crate::error::WSG84ToLatLonError;
use crate::floored::Floored;

verus! {

/// The easting of every zone's central meridian, in metres.
pub const FALSE_EASTING: u32 = 500000;

/// What a southern-hemisphere northing carries on top of its distance from
/// the equator, in metres.
pub const FALSE_NORTHING_SOUTH: u32 = 10000000;

/// The longitude, in degrees, of the central meridian of zone `zone`.
pub open spec fn spec_central_meridian(zone: int) -> int {
    zone * 6 - 183
}

/// Band letters from 'N' on lie north of the equator.
pub open spec fn spec_is_northern(letter: char) -> bool {
    letter >= 'N'
}

pub open spec fn spec_false_northing(letter: char) -> int {
    if spec_is_northern(letter) {
        0
    } else {
        FALSE_NORTHING_SOUTH as int
    }
}

/// An easting in [100000, 1000000).
pub open spec fn easting_in_range(easting: Floored) -> bool {
    easting.at_least(100000) && easting.below(1000000)
}

/// A northing in [0, 10000000].
pub open spec fn northing_in_range(northing: Floored) -> bool {
    northing.at_least(0) && northing.at_most(10000000)
}

pub open spec fn zone_num_in_range(zone_num: u8) -> bool {
    1 <= zone_num <= 60
}

pub open spec fn zone_letter_in_range(zone_letter: char) -> bool {
    'C' <= zone_letter <= 'X'
}

/// The first check, in the order easting, northing, zone number, zone letter,
/// that a UTM coordinate fails; `Ok` when it passes all four.
pub open spec fn spec_check_utm(
    easting: Floored,
    northing: Floored,
    zone_num: u8,
    zone_letter: char,
) -> Result<(), WSG84ToLatLonError> {
    if !easting_in_range(easting) {
        Err(WSG84ToLatLonError::EastingOutOfRange)
    } else if !northing_in_range(northing) {
        Err(WSG84ToLatLonError::NorthingOutOfRange)
    } else if !zone_num_in_range(zone_num) {
        Err(WSG84ToLatLonError::ZoneNumOutOfRange)
    } else if !zone_letter_in_range(zone_letter) {
        Err(WSG84ToLatLonError::ZoneLetterOutOfRange)
    } else {
        Ok(())
    }
}

/// The longitude, in degrees, of the central meridian of zone `zone`.
pub fn central_meridian(zone: u8) -> (r: i32)
    ensures
        r == spec_central_meridian(zone as int),
{
    zone as i32 * 6 - 183
}

/// Whether band letter `letter` lies north of the equator.
pub fn is_northern(letter: char) -> (r: bool)
    ensures
        r == spec_is_northern(letter),
{
    letter >= 'N'
}

/// What to take off a northing in band `letter` to get the distance north of
/// the equator: nothing in the north, 10000000 m in the south.
pub fn false_northing(letter: char) -> (r: u32)
    ensures
        r == spec_false_northing(letter),
{
    if is_northern(letter) {
        0
    } else {
        FALSE_NORTHING_SOUTH
    }
}

/// Checks a UTM coordinate before it is converted back to latitude and
/// longitude, and reports the first check that fails.
pub fn check_utm(
    easting: Floored,
    northing: Floored,
    zone_num: u8,
    zone_letter: char,
) -> (r: Result<(), WSG84ToLatLonError>)
    ensures
        r == spec_check_utm(easting, northing, zone_num, zone_letter),
{
    if easting.is_below(100000) || easting.is_at_least(1000000) {
        return Err(WSG84ToLatLonError::EastingOutOfRange);
    }
    if northing.is_below(0) || !northing.is_at_most(10000000) {
        return Err(WSG84ToLatLonError::NorthingOutOfRange);
    }
    if zone_num < 1 || zone_num > 60 {
        return Err(WSG84ToLatLonError::ZoneNumOutOfRange);
    }
    if zone_letter < 'C' || zone_letter > 'X' {
        return Err(WSG84ToLatLonError::ZoneLetterOutOfRange);
    }
    Ok(())
}

} // verus!
