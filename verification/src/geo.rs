//! Geographic point value type.
//!
//! A point is immutable once constructed.  The two coordinates are
//! carried as raw 64-bit patterns: the pipeline never computes with
//! them, it only moves them between the wire payload, the engine
//! request and the search collaborator's replies.

use vstd::prelude::*;

verus! {

/// A geographic point: coordinates (as raw 64-bit patterns), a height,
/// a floor number and a model identifier.
#[derive(Clone, Copy, PartialEq, Eq, Structural, Debug)]
pub struct GeoPoint {
    /// Raw bit pattern of the longitude.
    pub longitude_bits: u64,
    /// Raw bit pattern of the latitude.
    pub latitude_bits: u64,
    /// Height above ground, in model units.
    pub height: i32,
    /// Floor number inside the building model.
    pub floor: i32,
    /// Identifier of the building model the point lies in.
    pub model_id: u32,
}

} // verus!
