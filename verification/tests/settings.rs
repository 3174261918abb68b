//! JSON and YAML fronts, cache topology, dispatch and listings.

use navi_gateway::cache::{RedisClientManager, RedisClientOperation};
use navi_gateway::config::read_config_from_yaml;
use navi_gateway::dispatch::{route_api_request, backend_is_served, ApiRoute};
use navi_gateway::poi::parse_poi_response;
use navi_gateway::translate::client_request_from_json;
use navi_gateway::{
    DirectoryEntry, ProxyConfig, RedisConfig, RedisConnect, SearchError, ServerType, Service,
    TranslationError,
};
use std::cmp::Ordering;

fn redis_config(hosts: &str, mode: &str) -> RedisConfig {
    RedisConfig {
        pass: String::new(),
        mode: String::from(mode),
        hosts: String::from(hosts),
        connect: RedisConnect { dial_timeout: 10, write_timeout: 10, read_timeout: 10 },
        pool: String::new(),
    }
}

#[test]
fn json_missing_fields_get_defaults() {
    let payload = String::from(
        "{\"version\": 1, \
          \"startPoint\": {\"longitude\": 116.4418912826, \"latitude\": 39.9090135175, \"height\": 0}, \
          \"endPoint\": {\"longitude\": 116.4370057383, \"latitude\": 39.9152984703, \"height\": 0}}",
    );
    let svc = Service::new(&redis_config("h1:6379", ""), String::from("http://poi/"));
    let (req, s_id, e_id) = svc.find_path_from_json(&payload).expect("request");
    assert_eq!(req.mode, 0);
    assert_eq!(req.policy, 0);
    assert!(!req.real_time_traffic);
    assert_eq!(req.start_poi_id, "");
    assert_eq!(req.end_poi_id, "");
    assert_eq!(s_id, None);
    assert_eq!(e_id, None);
    let sp = req.start_point.expect("start point");
    assert_eq!(sp.longitude_bits, 116.4418912826f64.to_bits());
    assert_eq!(sp.latitude_bits, 39.9090135175f64.to_bits());
    assert_eq!(sp.height, 0);
    assert_eq!(sp.floor, 0);
    assert_eq!(sp.model_id, 0);
}

#[test]
fn json_explicit_fields_are_taken() {
    let payload = "{\"version\": 2, \"mode\": 1, \"policy\": 3, \"realTimeTraffic\": true, \
                    \"startPoiID\": \"77\", \"endPoiID\": \"88\"}";
    let req = client_request_from_json(payload).expect("request");
    assert_eq!(req.version, 2);
    assert_eq!(req.mode, 1);
    assert_eq!(req.policy, 3);
    assert!(req.real_time_traffic);
    assert_eq!(req.start_poi_id, "77");
    assert_eq!(req.end_poi_id, "88");
}

#[test]
fn json_without_version_is_missing_a_field() {
    assert_eq!(
        client_request_from_json("{\"mode\": 1}"),
        Err(TranslationError::MissingField)
    );
}

#[test]
fn json_that_is_no_json_is_malformed() {
    assert_eq!(
        client_request_from_json("this is not json"),
        Err(TranslationError::MalformedPayload)
    );
}

#[test]
fn json_empty_identifier_needs_its_point() {
    // the start identifier is empty and no start point stands in
    assert_eq!(
        client_request_from_json("{\"version\": 1, \"endPoiID\": \"5\"}"),
        Err(TranslationError::MissingField)
    );
}

#[test]
fn poi_response_parses() {
    let text = "{\"rtnCode\": \"0\", \"traceId\": \"t1\", \"body\": {\"data\": {\
        \"addressFloor\": \"2\", \"buildFlag\": \"1\", \"latitude\": \"39.912554\", \
        \"longitude\": \"116.447209\", \"modelId\": \"77\", \"parentPoiId\": \"0\", \
        \"poiId\": \"123\", \"poiName\": \"gate\", \"poiType\": \"1\", \"roadId\": \"55\", \
        \"roadXEntr\": \"0\", \"roadYEntr\": \"0\", \"wroadId\": \"0\", \
        \"wroadXEntr\": \"0\", \"wroadYEntr\": \"0\"}}}";
    let detail = parse_poi_response(text).expect("detail");
    assert_eq!(detail.poiId, "123");
    assert_eq!(detail.poiName, "gate");
    assert_eq!(detail.roadId, "55");
    assert_eq!(detail.addressFloor, "2");
    assert_eq!(detail.latitude, "39.912554");
}

#[test]
fn poi_response_missing_field_fails() {
    let text = "{\"rtnCode\": \"0\", \"traceId\": \"t1\", \"body\": {\"data\": {\
        \"poiId\": \"123\"}}}";
    assert_eq!(parse_poi_response(text), Err(SearchError { code: 1 }));
    assert_eq!(parse_poi_response("not json"), Err(SearchError { code: 1 }));
}

#[test]
fn yaml_settings_are_read() {
    let text = "server:\n  port: 7878\nredis:\n  mode: cluster\n  hosts: h1:6379,h2:6379\n  \
                Connect:\n    DialTimeout: 5\n    WriteTimeout: 6\n    ReadTimeout: 7\n";
    let mut config = redis_config("", "");
    read_config_from_yaml(text, &mut config).expect("settings");
    assert_eq!(config.mode, "cluster");
    assert_eq!(config.hosts, "h1:6379,h2:6379");
    assert_eq!(config.pass, "");
    assert_eq!(config.connect.dial_timeout, 5);
    assert_eq!(config.connect.write_timeout, 6);
    assert_eq!(config.connect.read_timeout, 7);
}

#[test]
fn yaml_password_is_taken_when_present() {
    let text = "server:\n  port: 1\nredis:\n  mode: single\n  password: p4ss\n  \
                hosts: h1:6379\n  Connect:\n    DialTimeout: 1\n    WriteTimeout: 1\n    \
                ReadTimeout: 1\n";
    let mut config = redis_config("", "");
    read_config_from_yaml(text, &mut config).expect("settings");
    assert_eq!(config.pass, "p4ss");
}

#[test]
fn yaml_missing_settings_leave_config_alone() {
    let mut config = redis_config("old:1", "oldmode");
    let r = read_config_from_yaml("server:\n  port: 7878\n", &mut config);
    assert!(r.is_err());
    assert_eq!(r.err().map(|e| e.code), Some(2));
    assert_eq!(config.hosts, "old:1");
    assert_eq!(config.mode, "oldmode");
}

#[test]
fn yaml_that_does_not_scan_fails() {
    let mut config = redis_config("", "");
    let r = read_config_from_yaml("a: [unclosed", &mut config);
    assert!(r.is_err());
    assert_eq!(r.err().map(|e| e.code), Some(1));
}

#[test]
fn single_host_makes_a_single_node_client() {
    let client = RedisClientOperation::new(&redis_config("h1:6379", ""));
    assert!(!client.is_cluster_client());
    let info = RedisClientOperation::get_redis_info(&redis_config("h1:6379", ""));
    assert_eq!(info.len(), 1);
    assert_eq!(info[0].host, "h1");
    assert_eq!(info[0].port, 6379);
}

#[test]
fn cluster_hosts_make_a_cluster_client() {
    let config = redis_config("h1:6379,h2:6379", "cluster");
    let client = RedisClientOperation::new(&config);
    assert!(client.is_cluster_client());
    let info = RedisClientOperation::get_redis_info(&config);
    assert_eq!(info.len(), 2);
    assert_eq!(info[1].host, "h2");
    assert_eq!(info[1].port, 6379);
}

#[test]
fn non_cluster_mode_uses_the_first_host_alone() {
    let info = RedisClientOperation::get_redis_info(&redis_config("h1:6379,h2:6380", ""));
    assert_eq!(info.len(), 1);
    assert_eq!(info[0].host, "h1");
}

#[test]
fn both_topologies_expose_the_same_store_behavior() {
    let mut single = RedisClientOperation::new(&redis_config("h1:6379", ""));
    let mut cluster = RedisClientOperation::new(&redis_config("h1:6379,h2:6379", "cluster"));
    let key = String::from("k");
    let mut value = String::from("v");
    assert!(single.set(&key, &mut value).is_ok());
    assert!(cluster.set(&key, &mut value).is_ok());
    assert_eq!(single.get(&key), cluster.get(&key));
    assert_eq!(single.get(&key), Some(String::from("v")));
    assert_eq!(single.get(&String::from("absent")), None);
    assert_eq!(cluster.get(&String::from("absent")), None);
}

#[test]
fn manager_stores_after_init() {
    let mut manager = RedisClientManager::default();
    manager.init(&redis_config("h1:6379", ""));
    let key = String::from("id1");
    let mut value = String::from("payload");
    assert!(manager.set(&key, &mut value).is_ok());
    assert_eq!(manager.get(&key), Some(String::from("payload")));
    let mut value2 = String::from("newer");
    assert!(manager.set(&key, &mut value2).is_ok());
    assert_eq!(manager.get(&key), Some(String::from("newer")));
    manager.uninit();
    let info = manager.get_redis_info(&redis_config("h9:1234", ""));
    assert_eq!(info[0].host, "h9");
    assert_eq!(info[0].port, 1234);
}

#[test]
fn request_lines_route_to_their_actions() {
    assert!(matches!(
        route_api_request("GET", "/api/v1/health"),
        ApiRoute::Health
    ));
    match route_api_request("GET", "/api/v1/navi:abc123") {
        ApiRoute::GetId(id) => assert_eq!(id, "abc123"),
        _ => panic!("a GET with an id must look the id up"),
    }
    assert!(matches!(
        route_api_request("GET", "/api/v1/navi"),
        ApiRoute::NotHandled
    ));
    assert!(matches!(
        route_api_request("POST", "/api/v1/navi"),
        ApiRoute::FindPath
    ));
    assert!(matches!(
        route_api_request("PUT", "/api/v1/navi"),
        ApiRoute::NotHandled
    ));
    assert!(matches!(
        route_api_request("GET", "/elsewhere"),
        ApiRoute::NotHandled
    ));
}

#[test]
fn backend_codes_select_server_types() {
    assert_eq!(ServerType::from(0), ServerType::FileServices);
    assert_eq!(ServerType::from(1), ServerType::ApiServices);
    assert_eq!(ServerType::from(7), ServerType::UnknownServices);
    assert!(backend_is_served(&ServerType::ApiServices));
    assert!(backend_is_served(&ServerType::FileServices));
    assert!(!backend_is_served(&ServerType::UnknownServices));
}

#[test]
fn proxy_configurations() {
    let dynamic = ProxyConfig::new_dynamic();
    assert!(dynamic.is_dynamic);
    assert_eq!(dynamic.url, None);
    assert_eq!(dynamic.method, None);
    assert_eq!(dynamic.authorization, None);
    let fixed = ProxyConfig::raw_url(String::from("http://x/"));
    assert!(!fixed.is_dynamic);
    assert_eq!(fixed.url, Some(String::from("http://x/")));
    assert_eq!(fixed.method, Some(String::from("GET")));
    assert_eq!(fixed.authorization, None);
}

#[test]
fn test_json() {
    let id = "21";
    let mut json = String::from("{\"data\": ");
    json += "{ \"poiId\":\"";
    json += id;
    json += "\"}}";
    println!("test_json->{}", json);
    assert_eq!(
        navi_gateway::SearchPoiInfo { url: String::new() }.query_body(&String::from(id)),
        "{\"data\": { \"poiId\":\"21\"}}"
    );
}

#[test]
fn test_anchor() {
    let s = "
a1: &DEFAULT
  b1: 4
  b2: d
  b3: 
a2: *DEFAULT
";
    let out = yaml_rust::YamlLoader::load_from_str(s).unwrap();
    let doc = &out[0];
    assert_eq!(doc["a2"]["b1"].as_i64().unwrap(), 4);
    assert_eq!(doc["a2"]["b2"].as_str().unwrap(), "d");
    println!("test_anchor={}", doc["a2"]["b2"].as_str().unwrap());
    println!("test_anchor2={}", doc["a1"]["b2"].as_str().unwrap());
}

#[test]
fn resolution_query_is_built_from_the_identifier() {
    let collaborator = navi_gateway::SearchPoiInfo { url: String::from("http://poi.example/") };
    assert_eq!(
        collaborator.query_url(),
        "http://poi.example/getPoiDetailByPoiId"
    );
    assert_eq!(
        collaborator.query_body(&String::from("21")),
        "{\"data\": { \"poiId\":\"21\"}}"
    );
}

#[test]
fn service_reports_its_cache_topology() {
    let single = Service::new(&redis_config("h1:6379", ""), String::from("http://poi/"));
    assert!(!single.cache_is_cluster());
    let cluster = Service::new(
        &redis_config("h1:6379,h2:6379", "cluster"),
        String::from("http://poi/"),
    );
    assert!(cluster.cache_is_cluster());
}

fn entry(name: &str, is_dir: bool) -> DirectoryEntry {
    DirectoryEntry {
        display_name: String::from(name),
        is_dir,
        size: String::from("1 KiB"),
        entry_path: String::from("/x"),
        created_at: String::new(),
        updated_at: String::new(),
    }
}

#[test]
fn directories_come_first_then_names() {
    let a_dir = entry("alpha", true);
    let b_dir = entry("beta", true);
    let a_file = entry("alpha", false);
    assert_eq!(a_dir.partial_cmp(&b_dir), Some(Ordering::Less));
    assert_eq!(b_dir.partial_cmp(&a_dir), Some(Ordering::Greater));
    assert_eq!(a_dir.partial_cmp(&a_dir), Some(Ordering::Equal));
    assert_eq!(a_dir.partial_cmp(&a_file), Some(Ordering::Less));
    assert_eq!(a_file.partial_cmp(&a_dir), Some(Ordering::Greater));
    assert!(a_dir == entry("alpha", true));
    assert!(a_dir != b_dir);
}
