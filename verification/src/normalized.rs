//! The normalized route request: what the engine consumes.
//!
//! A normalized request exists only when both endpoints are settled:
//! each is either a fully resolved point of interest or a raw
//! geographic point taken from the wire payload unchanged.

use vstd::prelude::*;

use crate::geo::GeoPoint;

verus! {

/// A resolved point of interest, ready for the engine.
#[derive(Debug, PartialEq)]
pub struct PoiInfo {
    /// Numeric identifier of the point of interest.
    pub poi_id: u64,
    /// Display name.
    pub poi_name: String,
    /// Identifier of the road the entry lies on.
    pub road_id: u64,
    /// Entry point of the point of interest.
    pub entry: GeoPoint,
    /// Identifier of the building model.
    pub model_id: u64,
}

/// Mathematical image of a `PoiInfo`.
pub struct PoiInfoView {
    pub poi_id: u64,
    pub poi_name: Seq<char>,
    pub road_id: u64,
    pub entry: GeoPoint,
    pub model_id: u64,
}

impl View for PoiInfo {
    type V = PoiInfoView;

    open spec fn view(&self) -> PoiInfoView {
        PoiInfoView {
            poi_id: self.poi_id,
            poi_name: self.poi_name@,
            road_id: self.road_id,
            entry: self.entry,
            model_id: self.model_id,
        }
    }
}

/// One settled endpoint of a normalized request.
#[derive(Debug, PartialEq)]
pub enum RouteEndpoint {
    /// A resolved point of interest.
    Poi(PoiInfo),
    /// A raw geographic point, taken from the payload unchanged.
    Point(GeoPoint),
}

/// Mathematical image of a `RouteEndpoint`.
pub enum RouteEndpointView {
    Poi(PoiInfoView),
    Point(GeoPoint),
}

impl View for RouteEndpoint {
    type V = RouteEndpointView;

    open spec fn view(&self) -> RouteEndpointView {
        match self {
            RouteEndpoint::Poi(p) => RouteEndpointView::Poi(p@),
            RouteEndpoint::Point(q) => RouteEndpointView::Point(*q),
        }
    }
}

/// The engine-ready route description.
#[derive(Debug, PartialEq)]
pub struct NormalizedRouteRequest {
    /// Protocol version, copied from the wire payload.
    pub version: u32,
    /// Routing mode, copied from the wire payload.
    pub mode: u32,
    /// Routing policy, copied from the wire payload.
    pub policy: u32,
    /// Real-time-traffic flag, copied from the wire payload.
    pub real_time_traffic: bool,
    /// Settled start endpoint.
    pub start: RouteEndpoint,
    /// Settled end endpoint.
    pub end: RouteEndpoint,
}

/// Mathematical image of a `NormalizedRouteRequest`.
pub struct NormalizedRouteRequestView {
    pub version: u32,
    pub mode: u32,
    pub policy: u32,
    pub real_time_traffic: bool,
    pub start: RouteEndpointView,
    pub end: RouteEndpointView,
}

impl View for NormalizedRouteRequest {
    type V = NormalizedRouteRequestView;

    open spec fn view(&self) -> NormalizedRouteRequestView {
        NormalizedRouteRequestView {
            version: self.version,
            mode: self.mode,
            policy: self.policy,
            real_time_traffic: self.real_time_traffic,
            start: self.start@,
            end: self.end@,
        }
    }
}

} // verus!
