//! Conversion between geographic coordinates and Universal Transverse Mercator
//! (UTM) grid coordinates on the WGS84 ellipsoid: the exact, discrete part of it.
//!
//! A real input (a latitude, a longitude, an easting, a northing) enters this
//! library as a [`floored::Floored`] value: its floor and whether it equals its floor.
//! That is exactly what every comparison against a whole-number bound reads, so
//! the zone rules and the input checks are stated and proved over it.
use vstd::prelude::*;

pub mod error;
pub mod floored;
pub mod zone;
pub mod grid;

verus! {

} // verus!
