//! The client-side route request as the wire carries it.
//!
//! Each endpoint names either a point of interest (a non-empty
//! identifier) or a raw geographic point; the empty identifier is the
//! sentinel for "use the raw point".

use vstd::prelude::*;

use crate::geo::GeoPoint;

verus! {

/// A route-planning request as decoded from the wire (binary or JSON).
#[derive(Debug, PartialEq)]
pub struct ClientRouteRequest {
    /// Protocol version of the payload.
    pub version: u32,
    /// Requested routing mode.
    pub mode: u32,
    /// Requested routing policy.
    pub policy: u32,
    /// Whether real-time traffic should be taken into account.
    pub real_time_traffic: bool,
    /// Identifier of the start point of interest; empty means "use
    /// `start_point`".
    pub start_poi_id: String,
    /// Identifier of the end point of interest; empty means "use
    /// `end_point`".
    pub end_poi_id: String,
    /// Raw start point, used when `start_poi_id` is empty.
    pub start_point: Option<GeoPoint>,
    /// Raw end point, used when `end_poi_id` is empty.
    pub end_point: Option<GeoPoint>,
}

/// Mathematical image of a `ClientRouteRequest`.
pub struct ClientRouteRequestView {
    pub version: u32,
    pub mode: u32,
    pub policy: u32,
    pub real_time_traffic: bool,
    pub start_poi_id: Seq<char>,
    pub end_poi_id: Seq<char>,
    pub start_point: Option<GeoPoint>,
    pub end_point: Option<GeoPoint>,
}

impl View for ClientRouteRequest {
    type V = ClientRouteRequestView;

    open spec fn view(&self) -> ClientRouteRequestView {
        ClientRouteRequestView {
            version: self.version,
            mode: self.mode,
            policy: self.policy,
            real_time_traffic: self.real_time_traffic,
            start_poi_id: self.start_poi_id@,
            end_poi_id: self.end_poi_id@,
            start_point: self.start_point,
            end_point: self.end_point,
        }
    }
}

/// The start endpoint calls for a resolution exactly when its
/// identifier is non-empty.
pub open spec fn needs_start_resolution(r: ClientRouteRequestView) -> bool {
    r.start_poi_id.len() != 0
}

/// The end endpoint calls for a resolution exactly when its identifier
/// is non-empty.
pub open spec fn needs_end_resolution(r: ClientRouteRequestView) -> bool {
    r.end_poi_id.len() != 0
}

} // verus!
