//! The orchestrated find_path pipeline, end to end over plain values.

use navi_gateway::{
    ClientRouteRequest, EngineReply, GeoPoint, PoiDetail, RedisConfig, RedisConnect, RouteError,
    RouteEndpoint, RouteWrapper, SearchError, Service, TranslationError,
};
use navi_gateway::poi::interpret_search_response;
use navi_gateway::translate::translate;

fn redis_config(hosts: &str, mode: &str) -> RedisConfig {
    RedisConfig {
        pass: String::new(),
        mode: String::from(mode),
        hosts: String::from(hosts),
        connect: RedisConnect { dial_timeout: 10, write_timeout: 10, read_timeout: 10 },
        pool: String::new(),
    }
}

fn service() -> Service {
    Service::new(&redis_config("h1:6379", ""), String::from("http://poi.example/"))
}

fn sample_detail() -> PoiDetail {
    PoiDetail {
        addressFloor: String::from("2"),
        buildFlag: String::from("1"),
        latitude: String::from("39.912554"),
        longitude: String::from("116.447209"),
        modelId: String::from("77"),
        parentPoiId: String::from("0"),
        poiId: String::from("123"),
        poiName: String::from("gate"),
        poiType: String::from("1"),
        roadId: String::from("55"),
        roadXEntr: String::from("0"),
        roadYEntr: String::from("0"),
        wroadId: String::from("0"),
        wroadXEntr: String::from("0"),
        wroadYEntr: String::from("0"),
    }
}

fn point(lon: f64, lat: f64, height: i32) -> GeoPoint {
    GeoPoint {
        longitude_bits: lon.to_bits(),
        latitude_bits: lat.to_bits(),
        height,
        floor: 0,
        model_id: 0,
    }
}

fn raw_point_request() -> ClientRouteRequest {
    ClientRouteRequest {
        version: 1,
        mode: 0,
        policy: 0,
        real_time_traffic: false,
        start_poi_id: String::new(),
        end_poi_id: String::new(),
        start_point: Some(point(116.447209, 39.912554, 0)),
        end_point: Some(point(116.452512, 39.909454, 0)),
    }
}

#[test]
fn test_init() {
    let ret = RouteWrapper::init(String::from("routinglib"));
    println!("test_init->{}", ret);
    assert_eq!(0, ret);
}

#[test]
fn init_rejects_interior_nul() {
    assert_eq!(1, RouteWrapper::init(String::from("a\0b")));
    // any NUL-free path can be handed to the loader
    assert_eq!(0, RouteWrapper::init(String::new()));
}

#[test]
fn binary_round_trip_keeps_the_request() {
    let svc = service();
    let mut req = raw_point_request();
    req.start_poi_id = String::from("123");
    req.start_point = None;
    req.mode = 3;
    req.real_time_traffic = true;
    let bytes = navi_gateway::codec::encode_client_request(&req);
    let (back, s_id, e_id) = svc.find_path(&bytes).expect("decode");
    assert_eq!(back.version, 1);
    assert_eq!(back.mode, 3);
    assert_eq!(back.policy, 0);
    assert!(back.real_time_traffic);
    assert_eq!(back.start_poi_id, "123");
    assert_eq!(back.end_poi_id, "");
    assert!(back.start_point.is_none());
    assert_eq!(back.end_point, Some(point(116.452512, 39.909454, 0)));
    assert_eq!(s_id, Some(String::from("123")));
    assert_eq!(e_id, None);
}

#[test]
fn chosen_variant_matches_nonempty_identifier() {
    // start names a point of interest, end is a raw point
    let mut req = raw_point_request();
    req.start_poi_id = String::from("123");
    req.start_point = None;
    let norm = translate(&req, Some(Ok(sample_detail())), None).expect("translate");
    assert!(matches!(norm.start, RouteEndpoint::Poi(_)));
    assert!(matches!(norm.end, RouteEndpoint::Point(_)));
}

#[test]
fn poi_resolution_failure_reaches_no_engine() {
    let svc = service();
    let mut req = raw_point_request();
    req.start_poi_id = String::from("123");
    req.start_point = None;
    let mut engine_calls = 0;
    let r = svc.find_path_translated(&req, Some(Err(SearchError { code: 1 })), None);
    if let Ok(_bytes) = &r {
        // only a successful translation yields an engine request
        engine_calls += 1;
    }
    assert_eq!(engine_calls, 0);
    assert_eq!(r, Err(TranslationError::PoiResolution(SearchError { code: 1 })));
}

#[test]
fn collaborator_http_500_is_a_resolution_error() {
    let outcome = interpret_search_response(500, &None);
    assert_eq!(outcome, Err(SearchError { code: 1 }));
    let svc = service();
    let mut req = raw_point_request();
    req.end_poi_id = String::from("9");
    req.end_point = None;
    let mut engine_calls = 0;
    let r = svc.find_path_translated(&req, None, Some(outcome));
    if r.is_ok() {
        engine_calls += 1;
    }
    assert_eq!(engine_calls, 0);
    assert_eq!(r, Err(TranslationError::PoiResolution(SearchError { code: 1 })));
}

#[test]
fn start_poi_resolved_end_point_passed_through() {
    // startPoiID "123", endPoiID "", endPoint {116.45, 39.91, 0}
    let req = ClientRouteRequest {
        version: 1,
        mode: 0,
        policy: 0,
        real_time_traffic: false,
        start_poi_id: String::from("123"),
        end_poi_id: String::new(),
        start_point: None,
        end_point: Some(point(116.45, 39.91, 0)),
    };
    let norm = translate(&req, Some(Ok(sample_detail())), None).expect("translate");
    match norm.start {
        RouteEndpoint::Poi(p) => {
            assert_eq!(p.poi_id, 123);
            assert_eq!(p.road_id, 55);
            assert_eq!(p.model_id, 77);
            assert_eq!(p.poi_name, "gate");
            assert_eq!(p.entry.floor, 2);
            assert_eq!(p.entry.height, 0);
            assert_eq!(p.entry.model_id, 77);
        }
        RouteEndpoint::Point(_) => panic!("start must be a resolved point of interest"),
    }
    match norm.end {
        RouteEndpoint::Point(q) => assert_eq!(q, point(116.45, 39.91, 0)),
        RouteEndpoint::Poi(_) => panic!("end must stay a raw point"),
    }
}

#[test]
fn engine_status_two_reaches_no_cache() {
    let mut svc = service();
    let reply = EngineReply { status: 2, route_id: None, payload: None };
    let mut cache_set_calls = 0;
    let r = svc.find_path_completed(reply);
    assert_eq!(r, Err(RouteError { code: 2 }));
    if r.is_ok() {
        cache_set_calls += 1;
    }
    assert_eq!(cache_set_calls, 0);
    // nothing was written: any id misses
    assert_eq!(svc.get_value(&String::from("r1")), None);
}

#[test]
fn engine_success_is_cached_under_route_id() {
    let mut svc = service();
    let reply = EngineReply {
        status: 0,
        route_id: Some(String::from("r1")),
        payload: Some(String::from("pathdata")),
    };
    let res = svc.find_path_completed(reply).expect("result");
    assert_eq!(res.id, "r1");
    assert_eq!(res.payload, "pathdata");
    assert_eq!(svc.get_value(&String::from("r1")), Some(String::from("pathdata")));
    assert_eq!(svc.get_value(&String::from("r2")), None);
}

#[test]
fn engine_reply_interpretation() {
    let ok = EngineReply {
        status: 0,
        route_id: Some(String::from("id9")),
        payload: Some(String::from("p")),
    };
    assert_eq!(
        RouteWrapper::find_path(ok),
        Ok((String::from("id9"), String::from("p")))
    );
    let bad = EngineReply { status: 7, route_id: None, payload: None };
    assert_eq!(RouteWrapper::find_path(bad), Err(RouteError { code: 7 }));
}

#[test]
fn get_poi_info_propagates_and_converts() {
    let svc = service();
    let err = svc.get_poi_info(Err(SearchError { code: 5 }));
    assert_eq!(err, Err(TranslationError::PoiResolution(SearchError { code: 5 })));
    let ok = svc.get_poi_info(Ok(sample_detail())).expect("info");
    assert_eq!(ok.poi_id, 123);
    let mut broken = sample_detail();
    broken.roadId = String::from("5x");
    assert_eq!(svc.get_poi_info(Ok(broken)), Err(TranslationError::BadNumber));
}

#[test]
fn malformed_binary_payload_is_refused() {
    let svc = service();
    let r = svc.find_path(&vec![1u8, 2, 3]);
    assert!(matches!(r, Err(TranslationError::MalformedPayload)));
}

#[test]
fn api_server_serves_health_and_cached_ids() {
    let mut api = navi_gateway::ApiServer::new(service());
    assert_eq!(api.health_body(), "health");
    assert!(matches!(
        api.route("GET", "/api/v1/health"),
        navi_gateway::ApiRoute::Health
    ));
    assert!(matches!(
        api.route("POST", "/api/v1/navi"),
        navi_gateway::ApiRoute::FindPath
    ));
    assert_eq!(api.get_id(&String::from("r1")), None);
    let reply = EngineReply {
        status: 0,
        route_id: Some(String::from("r1")),
        payload: Some(String::from("p")),
    };
    api.services_mut().find_path_completed(reply).expect("result");
    assert_eq!(api.get_id(&String::from("r1")), Some(String::from("p")));
}

#[test]
fn whole_pipeline_from_binary_payload() {
    let mut svc = service();
    let req = raw_point_request();
    let bytes = navi_gateway::codec::encode_client_request(&req);
    let (back, s_id, e_id) = svc.find_path(&bytes).expect("decode");
    assert_eq!(s_id, None);
    assert_eq!(e_id, None);
    let engine_request = svc.find_path_translated(&back, None, None).expect("translate");
    assert!(!engine_request.is_empty());
    let reply = EngineReply {
        status: 0,
        route_id: Some(String::from("route-1")),
        payload: Some(String::from("serialized-path")),
    };
    let res = svc.find_path_completed(reply).expect("result");
    assert_eq!(res.id, "route-1");
    assert_eq!(
        svc.get_value(&String::from("route-1")),
        Some(String::from("serialized-path"))
    );
}
