//! The protocol translator: wire payload in, normalized engine
//! request out.
//!
//! Translation of one request has two halves.  First the payload
//! (binary or JSON) becomes a `ClientRouteRequest`; for the JSON form
//! the absent fields get their documented defaults.  Then, once the
//! caller has fetched the resolution outcome for each endpoint that
//! names a point of interest, `translate` builds the normalized
//! request — or fails as a whole, with no partial request surfaced.

use vstd::prelude::*;

use crate::client::{needs_end_resolution, needs_start_resolution, ClientRouteRequest,
    ClientRouteRequestView};
use crate::errors::{SearchError, TranslationError};
use crate::geo::GeoPoint;
use crate::jsonval;
use crate::normalized::{NormalizedRouteRequest, NormalizedRouteRequestView, RouteEndpoint,
    RouteEndpointView};
use crate::poi::{spec_poi_info_of, spec_poi_info_ok, poi_info_from_detail, PoiDetail,
    PoiDetailView};

verus! {

/// Outcome of one endpoint's resolution, as handed to `translate`:
/// absent when the endpoint did not call for one.
pub type ResolutionOutcome = Option<Result<PoiDetail, SearchError>>;

/// Mathematical image of a resolution outcome.
pub open spec fn spec_outcome_view(o: ResolutionOutcome) -> Option<
    Result<PoiDetailView, SearchError>,
> {
    match o {
        Option::None => Option::None,
        Option::Some(Result::Ok(d)) => Option::Some(Result::Ok(d@)),
        Option::Some(Result::Err(e)) => Option::Some(Result::Err(e)),
    }
}

/// Mathematical image of a translation result.
pub open spec fn spec_translation_view(r: Result<NormalizedRouteRequest, TranslationError>) -> Result<
    NormalizedRouteRequestView,
    TranslationError,
> {
    match r {
        Result::Ok(n) => Result::Ok(n@),
        Result::Err(e) => Result::Err(e),
    }
}

/// How one endpoint settles: a needed resolution must have come back
/// well, an endpoint without one must carry its raw point.
pub open spec fn spec_endpoint(
    needed: bool,
    raw: Option<GeoPoint>,
    res: Option<Result<PoiDetailView, SearchError>>,
) -> Result<RouteEndpointView, TranslationError> {
    if needed {
        match res {
            Option::Some(Result::Ok(d)) => if spec_poi_info_ok(d) {
                Result::Ok(RouteEndpointView::Poi(spec_poi_info_of(d)))
            } else {
                Result::Err(TranslationError::BadNumber)
            },
            Option::Some(Result::Err(e)) => Result::Err(TranslationError::PoiResolution(e)),
            Option::None => Result::Err(TranslationError::MissingField),
        }
    } else {
        match raw {
            Option::Some(q) => Result::Ok(RouteEndpointView::Point(q)),
            Option::None => Result::Err(TranslationError::MissingField),
        }
    }
}

/// The whole translation: both endpoints must settle, start first.
pub open spec fn spec_translate(
    req: ClientRouteRequestView,
    s: Option<Result<PoiDetailView, SearchError>>,
    e: Option<Result<PoiDetailView, SearchError>>,
) -> Result<NormalizedRouteRequestView, TranslationError> {
    match spec_endpoint(needs_start_resolution(req), req.start_point, s) {
        Result::Err(er) => Result::Err(er),
        Result::Ok(se) => match spec_endpoint(needs_end_resolution(req), req.end_point, e) {
            Result::Err(er) => Result::Err(er),
            Result::Ok(ee) => Result::Ok(
                NormalizedRouteRequestView {
                    version: req.version,
                    mode: req.mode,
                    policy: req.policy,
                    real_time_traffic: req.real_time_traffic,
                    start: se,
                    end: ee,
                },
            ),
        },
    }
}

fn settle_endpoint(raw: Option<GeoPoint>, res: ResolutionOutcome, needed: bool) -> (r: Result<
    RouteEndpoint,
    TranslationError,
>)
    requires
        res is Some <==> needed,
    ensures
        match r {
            Result::Ok(ep) => spec_endpoint(needed, raw, spec_outcome_view(res)) == Result::<
                RouteEndpointView,
                TranslationError,
            >::Ok(ep@),
            Result::Err(e) => spec_endpoint(needed, raw, spec_outcome_view(res)) == Result::<
                RouteEndpointView,
                TranslationError,
            >::Err(e),
        },
{
    match res {
        Option::Some(Result::Ok(d)) => match poi_info_from_detail(d) {
            Result::Ok(p) => Result::Ok(RouteEndpoint::Poi(p)),
            Result::Err(e) => Result::Err(e),
        },
        Option::Some(Result::Err(se)) => Result::Err(TranslationError::PoiResolution(se)),
        Option::None => match raw {
            Option::Some(q) => Result::Ok(RouteEndpoint::Point(q)),
            Option::None => Result::Err(TranslationError::MissingField),
        },
    }
}

/// Builds the normalized request from a decoded payload and the two
/// resolution outcomes.  Fails as a whole when either endpoint does
/// not settle; no partial request is ever surfaced.
pub fn translate(
    req: &ClientRouteRequest,
    start_res: ResolutionOutcome,
    end_res: ResolutionOutcome,
) -> (r: Result<NormalizedRouteRequest, TranslationError>)
    requires
        start_res is Some <==> needs_start_resolution(req@),
        end_res is Some <==> needs_end_resolution(req@),
    ensures
        spec_translation_view(r) == spec_translate(
            req@,
            spec_outcome_view(start_res),
            spec_outcome_view(end_res),
        ),
{
    let start = match settle_endpoint(req.start_point, start_res, !req.start_poi_id.as_str().is_empty()) {
        Result::Ok(ep) => ep,
        Result::Err(e) => {
            return Result::Err(e);
        },
    };
    let end = match settle_endpoint(req.end_point, end_res, !req.end_poi_id.as_str().is_empty()) {
        Result::Ok(ep) => ep,
        Result::Err(e) => {
            return Result::Err(e);
        },
    };
    Result::Ok(
        NormalizedRouteRequest {
            version: req.version,
            mode: req.mode,
            policy: req.policy,
            real_time_traffic: req.real_time_traffic,
            start,
            end,
        },
    )
}

/// Law: a failed resolution of either endpoint fails the whole
/// translation, so no normalized request — and with it no engine
/// request — ever comes out of a request whose resolution failed.
pub proof fn lemma_resolution_failure_stops_translation(
    req: ClientRouteRequestView,
    s: Option<Result<PoiDetailView, SearchError>>,
    e: Option<Result<PoiDetailView, SearchError>>,
)
    requires
        s is Some <==> needs_start_resolution(req),
        e is Some <==> needs_end_resolution(req),
        (s matches Option::Some(Result::Err(_))) || (e matches Option::Some(Result::Err(_))),
    ensures
        spec_translate(req, s, e) is Err,
{
}

/// Law: no partial normalized request exists.  A translation succeeds
/// only when every endpoint that called for a resolution got one back
/// whole, with numbers that parse; one failed endpoint fails the
/// request before anything is built.
pub proof fn lemma_no_partial_normalized_request(
    req: ClientRouteRequestView,
    s: Option<Result<PoiDetailView, SearchError>>,
    e: Option<Result<PoiDetailView, SearchError>>,
)
    requires
        s is Some <==> needs_start_resolution(req),
        e is Some <==> needs_end_resolution(req),
    ensures
        spec_translate(req, s, e) is Ok ==> {
            &&& needs_start_resolution(req) ==> (s matches Option::Some(Result::Ok(d))
                && spec_poi_info_ok(d))
            &&& needs_end_resolution(req) ==> (e matches Option::Some(Result::Ok(d))
                && spec_poi_info_ok(d))
        },
{
}

/// Law: for every encodable request, the binary round trip gives the
/// request back, and a successful translation chooses each endpoint's
/// variant by exactly which identifier was non-empty.
pub proof fn lemma_encode_translate_variant(
    v: ClientRouteRequestView,
    s: Option<Result<PoiDetailView, SearchError>>,
    e: Option<Result<PoiDetailView, SearchError>>,
)
    requires
        crate::codec::spec_encodable(v),
        s is Some <==> needs_start_resolution(v),
        e is Some <==> needs_end_resolution(v),
    ensures
        crate::codec::spec_decode_client(crate::codec::spec_encode_client(v)) == Option::Some(v),
        spec_translate(v, s, e) matches Result::Ok(n) ==> {
            &&& (n.start is Poi <==> v.start_poi_id.len() != 0)
            &&& (n.start is Point <==> v.start_poi_id.len() == 0)
            &&& (n.end is Poi <==> v.end_poi_id.len() != 0)
            &&& (n.end is Point <==> v.end_poi_id.len() == 0)
        },
{
    crate::codec::lemma_client_codec_round_trip(v);
}

// ---------------------------------------------------------------------
// The JSON form of the payload
// ---------------------------------------------------------------------
/// The plain values pulled out of one point object of a JSON payload.
pub struct JsonPointParts {
    /// Raw bits of the `longitude` number, when present.
    pub longitude_bits: Option<u64>,
    /// Raw bits of the `latitude` number, when present.
    pub latitude_bits: Option<u64>,
    /// The `height` number, when present.
    pub height: Option<i64>,
    /// The `floor` number, when present.
    pub floor: Option<i64>,
    /// The `modelId` number, when present.
    pub model_id: Option<u64>,
}

/// The plain values pulled out of a JSON payload.
pub struct JsonRequestParts {
    pub version: Option<u64>,
    pub mode: Option<u64>,
    pub policy: Option<u64>,
    pub real_time_traffic: Option<bool>,
    pub start_poi_id: Option<String>,
    pub end_poi_id: Option<String>,
    pub start_point: Option<JsonPointParts>,
    pub end_point: Option<JsonPointParts>,
}

/// Mathematical image of `JsonRequestParts`.
pub struct JsonRequestPartsView {
    pub version: Option<u64>,
    pub mode: Option<u64>,
    pub policy: Option<u64>,
    pub real_time_traffic: Option<bool>,
    pub start_poi_id: Option<Seq<char>>,
    pub end_poi_id: Option<Seq<char>>,
    pub start_point: Option<JsonPointParts>,
    pub end_point: Option<JsonPointParts>,
}

impl View for JsonRequestParts {
    type V = JsonRequestPartsView;

    open spec fn view(&self) -> JsonRequestPartsView {
        JsonRequestPartsView {
            version: self.version,
            mode: self.mode,
            policy: self.policy,
            real_time_traffic: self.real_time_traffic,
            start_poi_id: match self.start_poi_id {
                Option::Some(ref s) => Option::Some(s@),
                Option::None => Option::None,
            },
            end_poi_id: match self.end_poi_id {
                Option::Some(ref s) => Option::Some(s@),
                Option::None => Option::None,
            },
            start_point: self.start_point,
            end_point: self.end_point,
        }
    }
}

/// How one point object settles: `longitude`, `latitude` and `height`
/// are required, `floor` and `modelId` default to zero.
pub open spec fn spec_point_from_parts(pp: JsonPointParts) -> Result<GeoPoint, TranslationError> {
    match pp.longitude_bits {
        Option::None => Result::Err(TranslationError::MissingField),
        Option::Some(lon) => match pp.latitude_bits {
            Option::None => Result::Err(TranslationError::MissingField),
            Option::Some(lat) => match pp.height {
                Option::None => Result::Err(TranslationError::MissingField),
                Option::Some(h) => Result::Ok(
                    GeoPoint {
                        longitude_bits: lon,
                        latitude_bits: lat,
                        height: h as i32,
                        floor: match pp.floor {
                            Option::Some(f) => f as i32,
                            Option::None => 0i32,
                        },
                        model_id: match pp.model_id {
                            Option::Some(m) => m as u32,
                            Option::None => 0u32,
                        },
                    },
                ),
            },
        },
    }
}

/// How one endpoint of the JSON payload settles: a non-empty
/// identifier stands alone; an empty or absent one requires the raw
/// point object.
pub open spec fn spec_json_endpoint(id: Option<Seq<char>>, point: Option<JsonPointParts>) -> Result<
    Option<GeoPoint>,
    TranslationError,
> {
    let name = match id {
        Option::Some(s) => s,
        Option::None => Seq::<char>::empty(),
    };
    if name.len() != 0 {
        Result::Ok(Option::None)
    } else {
        match point {
            Option::None => Result::Err(TranslationError::MissingField),
            Option::Some(pp) => match spec_point_from_parts(pp) {
                Result::Ok(q) => Result::Ok(Option::Some(q)),
                Result::Err(e) => Result::Err(e),
            },
        }
    }
}

/// The request a JSON payload's parts amount to: `version` is
/// required; `mode`, `policy` and `realTimeTraffic` default to `0`,
/// `0` and `false`; the identifiers default to the empty string.
pub open spec fn spec_request_from_parts(p: JsonRequestPartsView) -> Result<
    ClientRouteRequestView,
    TranslationError,
> {
    match p.version {
        Option::None => Result::Err(TranslationError::MissingField),
        Option::Some(ver) => {
            let start_id = match p.start_poi_id {
                Option::Some(s) => s,
                Option::None => Seq::<char>::empty(),
            };
            let end_id = match p.end_poi_id {
                Option::Some(s) => s,
                Option::None => Seq::<char>::empty(),
            };
            match spec_json_endpoint(p.start_poi_id, p.start_point) {
                Result::Err(e) => Result::Err(e),
                Result::Ok(sp) => match spec_json_endpoint(p.end_poi_id, p.end_point) {
                    Result::Err(e) => Result::Err(e),
                    Result::Ok(ep) => Result::Ok(
                        ClientRouteRequestView {
                            version: ver as u32,
                            mode: match p.mode {
                                Option::Some(m) => m as u32,
                                Option::None => 0u32,
                            },
                            policy: match p.policy {
                                Option::Some(m) => m as u32,
                                Option::None => 0u32,
                            },
                            real_time_traffic: match p.real_time_traffic {
                                Option::Some(b) => b,
                                Option::None => false,
                            },
                            start_poi_id: start_id,
                            end_poi_id: end_id,
                            start_point: sp,
                            end_point: ep,
                        },
                    ),
                },
            }
        },
    }
}

/// Mathematical image of a request-building result.
pub open spec fn spec_request_view(r: Result<ClientRouteRequest, TranslationError>) -> Result<
    ClientRouteRequestView,
    TranslationError,
> {
    match r {
        Result::Ok(q) => Result::Ok(q@),
        Result::Err(e) => Result::Err(e),
    }
}

fn point_from_parts(pp: &JsonPointParts) -> (r: Result<GeoPoint, TranslationError>)
    ensures
        r == spec_point_from_parts(*pp),
{
    let lon = match pp.longitude_bits {
        Option::Some(v) => v,
        Option::None => {
            return Result::Err(TranslationError::MissingField);
        },
    };
    let lat = match pp.latitude_bits {
        Option::Some(v) => v,
        Option::None => {
            return Result::Err(TranslationError::MissingField);
        },
    };
    let h = match pp.height {
        Option::Some(v) => v,
        Option::None => {
            return Result::Err(TranslationError::MissingField);
        },
    };
    Result::Ok(
        GeoPoint {
            longitude_bits: lon,
            latitude_bits: lat,
            height: #[verifier::truncate] (h as i32),
            floor: match pp.floor {
                Option::Some(f) => #[verifier::truncate] (f as i32),
                Option::None => 0i32,
            },
            model_id: match pp.model_id {
                Option::Some(m) => #[verifier::truncate] (m as u32),
                Option::None => 0u32,
            },
        },
    )
}

/// Builds the request that a JSON payload's parts amount to.  The
/// defaults are the documented ones: a missing `mode`, `policy` or
/// `realTimeTraffic` yields `0`, `0` and `false`; a missing
/// identifier is the empty string; a missing `version` is an error.
pub fn client_request_from_parts(p: JsonRequestParts) -> (r: Result<
    ClientRouteRequest,
    TranslationError,
>)
    ensures
        spec_request_view(r) == spec_request_from_parts(p@),
        r matches Result::Ok(q) ==> {
            &&& p.mode is None ==> q.mode == 0
            &&& p.policy is None ==> q.policy == 0
            &&& p.real_time_traffic is None ==> q.real_time_traffic == false
            &&& p.start_poi_id is None ==> q.start_poi_id@.len() == 0
            &&& p.end_poi_id is None ==> q.end_poi_id@.len() == 0
        },
{
    let version = match p.version {
        Option::Some(v) => v,
        Option::None => {
            return Result::Err(TranslationError::MissingField);
        },
    };
    let start_id = match p.start_poi_id {
        Option::Some(s) => s,
        Option::None => String::new(),
    };
    let end_id = match p.end_poi_id {
        Option::Some(s) => s,
        Option::None => String::new(),
    };
    let start_point = if !start_id.as_str().is_empty() {
        Option::None
    } else {
        match p.start_point {
            Option::None => {
                return Result::Err(TranslationError::MissingField);
            },
            Option::Some(pp) => match point_from_parts(&pp) {
                Result::Ok(q) => Option::Some(q),
                Result::Err(e) => {
                    return Result::Err(e);
                },
            },
        }
    };
    let end_point = if !end_id.as_str().is_empty() {
        Option::None
    } else {
        match p.end_point {
            Option::None => {
                return Result::Err(TranslationError::MissingField);
            },
            Option::Some(pp) => match point_from_parts(&pp) {
                Result::Ok(q) => Option::Some(q),
                Result::Err(e) => {
                    return Result::Err(e);
                },
            },
        }
    };
    Result::Ok(
        ClientRouteRequest {
            version: #[verifier::truncate] (version as u32),
            mode: match p.mode {
                Option::Some(m) => #[verifier::truncate] (m as u32),
                Option::None => 0u32,
            },
            policy: match p.policy {
                Option::Some(m) => #[verifier::truncate] (m as u32),
                Option::None => 0u32,
            },
            real_time_traffic: match p.real_time_traffic {
                Option::Some(b) => b,
                Option::None => false,
            },
            start_poi_id: start_id,
            end_poi_id: end_id,
            start_point,
            end_point,
        },
    )
}

/// The point parts a JSON payload holds under `key`: the five
/// numbers, each absent when the path does not lead to one.
pub open spec fn spec_json_point_of(s: Seq<char>, key: Seq<char>) -> JsonPointParts {
    JsonPointParts {
        longitude_bits: jsonval::json_f64_bits_of2(s, key, "longitude"@),
        latitude_bits: jsonval::json_f64_bits_of2(s, key, "latitude"@),
        height: jsonval::json_i64_of2(s, key, "height"@),
        floor: jsonval::json_i64_of2(s, key, "floor"@),
        model_id: jsonval::json_u64_of2(s, key, "modelId"@),
    }
}

/// The parts a JSON payload holds: every field the translator reads,
/// each absent when the document does not carry it.
pub open spec fn spec_json_request_parts_of(s: Seq<char>) -> JsonRequestPartsView {
    JsonRequestPartsView {
        version: jsonval::json_u64_of(s, "version"@),
        mode: jsonval::json_u64_of(s, "mode"@),
        policy: jsonval::json_u64_of(s, "policy"@),
        real_time_traffic: jsonval::json_bool_of(s, "realTimeTraffic"@),
        start_poi_id: jsonval::json_str_of(s, "startPoiID"@),
        end_poi_id: jsonval::json_str_of(s, "endPoiID"@),
        start_point: Option::Some(spec_json_point_of(s, "startPoint"@)),
        end_point: Option::Some(spec_json_point_of(s, "endPoint"@)),
    }
}

fn json_point_parts(data: &str, key: &str) -> (r: JsonPointParts)
    ensures
        r == spec_json_point_of(data@, key@),
{
    JsonPointParts {
        longitude_bits: jsonval::json_f64_bits_key2(data, key, "longitude"),
        latitude_bits: jsonval::json_f64_bits_key2(data, key, "latitude"),
        height: jsonval::json_i64_key2(data, key, "height"),
        floor: jsonval::json_i64_key2(data, key, "floor"),
        model_id: jsonval::json_u64_key2(data, key, "modelId"),
    }
}

/// Reads a JSON payload into a request.  A text that is no JSON
/// document is a malformed payload; a document yields exactly the
/// request its parts amount to — absent fields get their documented
/// defaults, and an endpoint with an empty identifier must carry its
/// point object.
pub fn client_request_from_json(data: &str) -> (r: Result<ClientRouteRequest, TranslationError>)
    ensures
        !jsonval::json_text_ok(data@) ==> r == Result::<ClientRouteRequest, TranslationError>::Err(
            TranslationError::MalformedPayload,
        ),
        jsonval::json_text_ok(data@) ==> spec_request_view(r) == spec_request_from_parts(
            spec_json_request_parts_of(data@),
        ),
        r matches Result::Ok(q) ==> {
            &&& q@.start_poi_id.len() == 0 ==> q@.start_point is Some
            &&& q@.end_poi_id.len() == 0 ==> q@.end_point is Some
        },
{
    if !jsonval::json_is_document(data) {
        return Result::Err(TranslationError::MalformedPayload);
    }
    let parts = JsonRequestParts {
        version: jsonval::json_u64_key(data, "version"),
        mode: jsonval::json_u64_key(data, "mode"),
        policy: jsonval::json_u64_key(data, "policy"),
        real_time_traffic: jsonval::json_bool_key(data, "realTimeTraffic"),
        start_poi_id: jsonval::json_str_key(data, "startPoiID"),
        end_poi_id: jsonval::json_str_key(data, "endPoiID"),
        start_point: Option::Some(json_point_parts(data, "startPoint")),
        end_point: Option::Some(json_point_parts(data, "endPoint")),
    };
    proof {
        assert(parts@ == spec_json_request_parts_of(data@));
    }
    client_request_from_parts(parts)
}

} // verus!
