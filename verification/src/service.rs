//! The orchestrator: one `find_path` pipeline over translator,
//! gateway and cache.
//!
//! A request runs in three steps, between which the embedding program
//! performs the outside work.  `find_path` (or `find_path_from_json`)
//! reads the payload and says which points of interest must be
//! resolved; `find_path_translated` folds the resolution outcomes in
//! and yields the engine request bytes — or the translation error,
//! before any engine call; `find_path_completed` interprets the
//! engine's reply and, only on success, records the result in the
//! cache under its route id.

use vstd::prelude::*;

use crate::cache::RedisClientOperation;
use crate::client::{needs_end_resolution, needs_start_resolution, ClientRouteRequest};
use crate::codec::{decode_client_request, encode_server_request, spec_decode_client,
    spec_encode_server};
use crate::config::RedisConfig;
use crate::engine::EngineReply;
use crate::errors::{RouteError, SearchError, TranslationError};
use crate::jsonval;
use crate::normalized::PoiInfo;
use crate::poi::{spec_poi_info_of, spec_poi_info_ok, poi_info_from_detail, PoiDetail,
    SearchPoiInfo};
use crate::translate::{client_request_from_json, spec_outcome_view, spec_translate,
    spec_translation_view, translate, ResolutionOutcome};

verus! {

/// What the engine computed for one request: the route id the cache
/// is keyed by, and the serialized path.  Created by one engine call,
/// optionally written once to the cache, then handed to the caller.
#[derive(Debug, PartialEq)]
pub struct RouteResult {
    /// Engine-assigned identifier of the computed path.
    pub id: String,
    /// Opaque serialized path.
    pub payload: String,
}

/// Mathematical image of a `RouteResult`.
pub struct RouteResultView {
    pub id: Seq<char>,
    pub payload: Seq<char>,
}

impl View for RouteResult {
    type V = RouteResultView;

    open spec fn view(&self) -> RouteResultView {
        RouteResultView { id: self.id@, payload: self.payload@ }
    }
}

/// Mathematical image of a `Service`: its cache and the search
/// collaborator's address.
pub struct ServiceView {
    pub cache: crate::cache::CacheView,
    pub poi_url: Seq<char>,
}

/// The orchestrator: holds the cache client and the search
/// collaborator's address, shared by every request.
#[derive(Debug)]
pub struct Service {
    redis_client: RedisClientOperation,
    poi_info: SearchPoiInfo,
}

impl View for Service {
    type V = ServiceView;

    closed spec fn view(&self) -> ServiceView {
        ServiceView { cache: self.redis_client@, poi_url: self.poi_info.url@ }
    }
}

impl Service {
    /// Builds the orchestrator: a cache client over the configured
    /// topology, and the search collaborator's address.
    pub fn new(redis_config: &RedisConfig, poi_server: String) -> (r: Service)
        requires
            crate::cache::spec_cache_hosts_wf(redis_config.hosts@, redis_config.mode@),
        ensures
            r@.cache.endpoints == crate::cache::spec_cache_endpoints(
                redis_config.hosts@,
                redis_config.mode@,
            ),
            r@.cache.cluster <==> crate::cache::spec_cache_endpoints(
                redis_config.hosts@,
                redis_config.mode@,
            ).len() > 1,
            r@.cache.store == Map::<Seq<char>, Seq<char>>::empty(),
            r@.poi_url == poi_server@,
    {
        Service {
            redis_client: RedisClientOperation::new(redis_config),
            poi_info: SearchPoiInfo { url: poi_server },
        }
    }

    /// The search collaborator handle, for issuing resolution queries.
    pub fn poi_search(&self) -> (r: &SearchPoiInfo)
        ensures
            r.url@ == self@.poi_url,
    {
        &self.poi_info
    }

    /// Whether the cache fans over a cluster.
    pub fn cache_is_cluster(&self) -> (r: bool)
        ensures
            r == self@.cache.cluster,
    {
        self.redis_client.is_cluster_client()
    }

    /// A cached value by its id, without any engine call; `None` is a
    /// miss.
    pub fn get_value(&mut self, id: &String) -> (r: Option<String>)
        ensures
            *final(self) == *old(self),
            match r {
                Option::Some(v) => crate::cache::spec_cache_lookup(old(self)@.cache.store, id@)
                    == Option::Some(v@),
                Option::None => crate::cache::spec_cache_lookup(old(self)@.cache.store, id@)
                    is None,
            },
    {
        self.redis_client.get(id)
    }

    /// What one endpoint's resolution came to: a collaborator error
    /// propagates as a resolution error, a resolved detail becomes an
    /// engine-ready `PoiInfo` or fails hard on an unusable number.
    pub fn get_poi_info(&self, outcome: Result<PoiDetail, SearchError>) -> (r: Result<
        PoiInfo,
        TranslationError,
    >)
        ensures
            match outcome {
                Result::Err(e) => r == Result::<PoiInfo, TranslationError>::Err(
                    TranslationError::PoiResolution(e),
                ),
                Result::Ok(d) => {
                    if spec_poi_info_ok(d@) {
                        r matches Result::Ok(p) && p@ == spec_poi_info_of(d@)
                    } else {
                        r == Result::<PoiInfo, TranslationError>::Err(TranslationError::BadNumber)
                    }
                },
            },
    {
        match outcome {
            Result::Ok(d) => poi_info_from_detail(d),
            Result::Err(e) => Result::Err(TranslationError::PoiResolution(e)),
        }
    }

    /// First step of the pipeline, for the binary payload: decode it
    /// and name the point-of-interest identifiers that must be
    /// resolved — exactly the non-empty ones.
    pub fn find_path(&self, data: &Vec<u8>) -> (r: Result<
        (ClientRouteRequest, Option<String>, Option<String>),
        TranslationError,
    >)
        ensures
            match spec_decode_client(data@) {
                Option::None => r == Result::<
                    (ClientRouteRequest, Option<String>, Option<String>),
                    TranslationError,
                >::Err(TranslationError::MalformedPayload),
                Option::Some(v) => match r {
                    Result::Ok((req, s_id, e_id)) => {
                        &&& req@ == v
                        &&& (s_id matches Option::Some(s) && s@ == v.start_poi_id) <==> needs_start_resolution(v)
                        &&& (e_id matches Option::Some(s) && s@ == v.end_poi_id) <==> needs_end_resolution(v)
                        &&& (s_id is Some <==> needs_start_resolution(v))
                        &&& (e_id is Some <==> needs_end_resolution(v))
                    },
                    Result::Err(_) => false,
                },
            },
    {
        let req = match decode_client_request(data) {
            Result::Ok(q) => q,
            Result::Err(e) => {
                return Result::Err(e);
            },
        };
        let (s_id, e_id) = resolution_requests(&req);
        Result::Ok((req, s_id, e_id))
    }

    /// First step of the pipeline, for the JSON payload: read it with
    /// its documented defaults and name the identifiers that must be
    /// resolved — exactly the non-empty ones of exactly the request
    /// the document's parts amount to.
    pub fn find_path_from_json(&self, data: &String) -> (r: Result<
        (ClientRouteRequest, Option<String>, Option<String>),
        TranslationError,
    >)
        ensures
            !jsonval::json_text_ok(data@) ==> r == Result::<
                (ClientRouteRequest, Option<String>, Option<String>),
                TranslationError,
            >::Err(TranslationError::MalformedPayload),
            jsonval::json_text_ok(data@) ==> match crate::translate::spec_request_from_parts(
                crate::translate::spec_json_request_parts_of(data@),
            ) {
                Result::Ok(v) => match r {
                    Result::Ok((req, s_id, e_id)) => req@ == v,
                    Result::Err(_) => false,
                },
                Result::Err(e) => r == Result::<
                    (ClientRouteRequest, Option<String>, Option<String>),
                    TranslationError,
                >::Err(e),
            },
            match r {
                Result::Ok((req, s_id, e_id)) => {
                    &&& (s_id matches Option::Some(s) && s@ == req@.start_poi_id) <==> needs_start_resolution(req@)
                    &&& (e_id matches Option::Some(s) && s@ == req@.end_poi_id) <==> needs_end_resolution(req@)
                    &&& (s_id is Some <==> needs_start_resolution(req@))
                    &&& (e_id is Some <==> needs_end_resolution(req@))
                    &&& (req@.start_poi_id.len() == 0 ==> req@.start_point is Some)
                    &&& (req@.end_poi_id.len() == 0 ==> req@.end_point is Some)
                },
                Result::Err(_) => true,
            },
    {
        let req = match client_request_from_json(data.as_str()) {
            Result::Ok(q) => q,
            Result::Err(e) => {
                return Result::Err(e);
            },
        };
        let (s_id, e_id) = resolution_requests(&req);
        Result::Ok((req, s_id, e_id))
    }

    /// Second step: folds the two resolution outcomes in.  On success
    /// the engine request bytes; on any failed endpoint the
    /// translation error, and no engine request exists at all.
    pub fn find_path_translated(
        &self,
        req: &ClientRouteRequest,
        start_res: ResolutionOutcome,
        end_res: ResolutionOutcome,
    ) -> (r: Result<Vec<u8>, TranslationError>)
        requires
            start_res is Some <==> needs_start_resolution(req@),
            end_res is Some <==> needs_end_resolution(req@),
        ensures
            match spec_translate(req@, spec_outcome_view(start_res), spec_outcome_view(end_res)) {
                Result::Ok(n) => match r {
                    Result::Ok(bytes) => bytes@ == spec_encode_server(n),
                    Result::Err(_) => false,
                },
                Result::Err(e) => r == Result::<Vec<u8>, TranslationError>::Err(e),
            },
    {
        let ghost st = spec_translate(
            req@,
            spec_outcome_view(start_res),
            spec_outcome_view(end_res),
        );
        match translate(req, start_res, end_res) {
            Result::Ok(n) => {
                proof {
                    assert(st matches Result::Ok(nv) && nv == n@);
                }
                Result::Ok(encode_server_request(&n))
            },
            Result::Err(e) => Result::Err(e),
        }
    }

    /// Third step: the engine's reply.  A nonzero status surfaces as
    /// `RouteError` with that code and leaves the cache untouched; on
    /// status 0 the result is returned and recorded in the cache
    /// under its route id.
    pub fn find_path_completed(&mut self, reply: EngineReply) -> (r: Result<
        RouteResult,
        RouteError,
    >)
        requires
            reply.status == 0 ==> reply.route_id is Some && reply.payload is Some,
        ensures
            reply.status != 0 ==> r == Result::<RouteResult, RouteError>::Err(
                RouteError { code: reply.status },
            ) && *final(self) == *old(self),
            reply.status == 0 ==> match r {
                Result::Ok(res) => {
                    &&& res@.id == reply.route_id->Some_0@
                    &&& res@.payload == reply.payload->Some_0@
                    &&& final(self)@.cache.store == old(self)@.cache.store.insert(
                        res@.id,
                        res@.payload,
                    )
                    &&& final(self)@.cache.cluster == old(self)@.cache.cluster
                    &&& final(self)@.cache.endpoints == old(self)@.cache.endpoints
                    &&& final(self)@.poi_url == old(self)@.poi_url
                },
                Result::Err(_) => false,
            },
    {
        let (id, payload) = match crate::engine::RouteWrapper::find_path(reply) {
            Result::Ok(p) => p,
            Result::Err(e) => {
                return Result::Err(e);
            },
        };
        let mut value = payload;
        let _ = self.redis_client.set(&id, &mut value);
        Result::Ok(RouteResult { id, payload: value })
    }
}

/// The resolution calls a decoded request asks for: each endpoint's
/// identifier exactly when it is non-empty.
pub fn resolution_requests(req: &ClientRouteRequest) -> (r: (Option<String>, Option<String>))
    ensures
        r.0 is Some <==> needs_start_resolution(req@),
        r.0 matches Option::Some(s) ==> s@ == req@.start_poi_id,
        r.1 is Some <==> needs_end_resolution(req@),
        r.1 matches Option::Some(s) ==> s@ == req@.end_poi_id,
{
    let s_id = if !req.start_poi_id.as_str().is_empty() {
        Option::Some(req.start_poi_id.clone())
    } else {
        Option::None
    };
    let e_id = if !req.end_poi_id.as_str().is_empty() {
        Option::Some(req.end_poi_id.clone())
    } else {
        Option::None
    };
    (s_id, e_id)
}

} // verus!
