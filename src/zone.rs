//! The zone resolver: which UTM zone number and latitude band letter a
//! geographic coordinate (in degrees) falls in.
use vstd::prelude::*;
use crate::floored::Floored;

verus! {

/// The band letters from 80°S northwards, one per 8° of latitude. The last
/// letter is written twice so that the top band reaches up to 84°N.
pub open spec fn letter_table() -> Seq<char> {
    seq!['C', 'D', 'E', 'F', 'G', 'H', 'J', 'K', 'L', 'M', 'N', 'P', 'Q', 'R', 'S', 'T', 'U', 'V', 'W', 'X', 'X']
}

/// Latitudes that have a band letter: from 80°S to 84°N, both included.
pub open spec fn has_letter(lat: Floored) -> bool {
    lat.at_least(-80) && lat.at_most(84)
}

/// The index of the 8° band that holds `lat`: `floor((lat + 80) / 8)`.
pub open spec fn band_index(lat: Floored) -> int {
    (lat.floor + 80) / 8
}

pub open spec fn spec_zone_letter(lat: Floored) -> Option<char> {
    if has_letter(lat) {
        Some(letter_table()[band_index(lat)])
    } else {
        None
    }
}

/// The zone of 6° of longitude that holds `lon`, counted from 180°W:
/// `floor((lon + 180) / 6) + 1`.
pub open spec fn standard_zone(lon: Floored) -> int {
    (lon.floor + 180) / 6 + 1
}

/// `z`, held to the range of a `u8`.
pub open spec fn saturate_u8(z: int) -> int {
    if z < 0 {
        0
    } else if z > 255 {
        255
    } else {
        z
    }
}

/// South-western Norway, which zone 32 is widened to cover.
pub open spec fn in_norway(lat: Floored, lon: Floored) -> bool {
    lat.at_least(56) && lat.below(64) && lon.at_least(3) && lon.below(12)
}

/// Svalbard, where zones 31, 33, 35 and 37 are widened over the even zones.
pub open spec fn in_svalbard(lat: Floored, lon: Floored) -> bool {
    lat.at_least(72) && lat.at_most(84) && lon.at_least(0) && lon.below(42)
}

pub open spec fn svalbard_zone(lon: Floored) -> int {
    if lon.below(9) {
        31
    } else if lon.below(21) {
        33
    } else if lon.below(33) {
        35
    } else {
        37
    }
}

pub open spec fn spec_zone_number(lat: Floored, lon: Floored) -> int {
    if in_norway(lat, lon) {
        32
    } else if in_svalbard(lat, lon) {
        svalbard_zone(lon)
    } else {
        saturate_u8(standard_zone(lon))
    }
}

/// The zone of 6° that holds `lon`, without the Norway and Svalbard
/// exceptions; held to the range of a `u8` far outside [-180, 180).
pub fn longitude_zone(lon: Floored) -> (r: u8)
    ensures
        r == saturate_u8(standard_zone(lon)),
{
    if lon.floor < -180 {
        0
    } else if lon.floor >= 1350 {
        255
    } else {
        let shifted: i64 = lon.floor + 180;
        assert(0 <= shifted < 1530);
        let z: i64 = shifted / 6 + 1;
        z as u8
    }
}

/// The UTM zone number of (`lat`, `lon`), in degrees.
pub fn zone_number(lat: Floored, lon: Floored) -> (r: u8)
    ensures
        r == spec_zone_number(lat, lon),
        lon.at_least(-180) && lon.below(180) ==> 1 <= r <= 60,
{
    if lat.is_at_least(56) && lat.is_below(64) && lon.is_at_least(3) && lon.is_below(12) {
        return 32;
    }
    if lat.is_at_least(72) && lat.is_at_most(84) && lon.is_at_least(0) {
        if lon.is_below(9) {
            return 31;
        }
        if lon.is_below(21) {
            return 33;
        }
        if lon.is_below(33) {
            return 35;
        }
        if lon.is_below(42) {
            return 37;
        }
    }
    longitude_zone(lon)
}

/// The UTM band letter of latitude `lat`, in degrees; `None` outside
/// [-80, 84].
pub fn zone_letter(lat: Floored) -> (r: Option<char>)
    ensures
        r == spec_zone_letter(lat),
{
    if lat.is_at_least(-80) && lat.is_at_most(84) {
        let letters: [char; 21] = [
            'C', 'D', 'E', 'F', 'G', 'H', 'J', 'K', 'L', 'M', 'N', 'P', 'Q', 'R', 'S', 'T', 'U',
            'V', 'W', 'X', 'X',
        ];
        let band: i64 = (lat.floor + 80) / 8;
        assert(letters@ =~= letter_table());
        Some(letters[band as usize])
    } else {
        None
    }
}

} // verus!
