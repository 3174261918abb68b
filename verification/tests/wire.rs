//! The wire codecs and the decimal-string parsers.

use navi_gateway::codec::{decode_client_request, encode_client_request, encode_server_request};
use navi_gateway::numparse::{parse_i32_dec, parse_u64_dec};
use navi_gateway::{
    ClientRouteRequest, GeoPoint, NormalizedRouteRequest, PoiInfo, RouteEndpoint, TranslationError,
};

fn request() -> ClientRouteRequest {
    ClientRouteRequest {
        version: 0x01020304,
        mode: 2,
        policy: 1,
        real_time_traffic: true,
        start_poi_id: String::from("abc"),
        end_poi_id: String::new(),
        start_point: None,
        end_point: Some(GeoPoint {
            longitude_bits: 116.452512f64.to_bits(),
            latitude_bits: 39.909454f64.to_bits(),
            height: -3,
            floor: 7,
            model_id: 9,
        }),
    }
}

#[test]
fn client_encoding_layout() {
    let bytes = encode_client_request(&request());
    // version, little-endian
    assert_eq!(&bytes[0..4], &[0x04, 0x03, 0x02, 0x01]);
    // mode and policy
    assert_eq!(&bytes[4..8], &[2, 0, 0, 0]);
    assert_eq!(&bytes[8..12], &[1, 0, 0, 0]);
    // traffic flag
    assert_eq!(bytes[12], 1);
    // start identifier: byte length then UTF-8
    assert_eq!(&bytes[13..21], &[3, 0, 0, 0, 0, 0, 0, 0]);
    assert_eq!(&bytes[21..24], b"abc");
    // end identifier is empty
    assert_eq!(&bytes[24..32], &[0u8; 8]);
    // start point absent, end point present
    assert_eq!(bytes[32], 0);
    assert_eq!(bytes[33], 1);
    // the end point: two coordinates, offset height and floor, model
    assert_eq!(&bytes[34..42], &116.452512f64.to_bits().to_le_bytes());
    assert_eq!(&bytes[42..50], &39.909454f64.to_bits().to_le_bytes());
    assert_eq!(&bytes[50..54], &(0x8000_0000u32 - 3).to_le_bytes());
    assert_eq!(&bytes[54..58], &(0x8000_0000u32 + 7).to_le_bytes());
    assert_eq!(&bytes[58..62], &9u32.to_le_bytes());
    assert_eq!(bytes.len(), 62);
}

#[test]
fn client_decoding_inverts_encoding() {
    let req = request();
    let bytes = encode_client_request(&req);
    let back = decode_client_request(&bytes).expect("decode");
    assert_eq!(back.version, req.version);
    assert_eq!(back.mode, req.mode);
    assert_eq!(back.policy, req.policy);
    assert_eq!(back.real_time_traffic, req.real_time_traffic);
    assert_eq!(back.start_poi_id, req.start_poi_id);
    assert_eq!(back.end_poi_id, req.end_poi_id);
    assert_eq!(back.start_point, req.start_point);
    assert_eq!(back.end_point, req.end_point);
}

#[test]
fn truncated_payload_is_refused() {
    let bytes = encode_client_request(&request());
    for cut in [0, 1, 12, 20, 33, bytes.len() - 1] {
        let r = decode_client_request(&bytes[..cut].to_vec());
        assert!(matches!(r, Err(TranslationError::MalformedPayload)));
    }
    let mut padded = bytes.clone();
    padded.push(0);
    assert!(matches!(
        decode_client_request(&padded),
        Err(TranslationError::MalformedPayload)
    ));
}

#[test]
fn server_encoding_layout() {
    let norm = NormalizedRouteRequest {
        version: 1,
        mode: 0,
        policy: 0,
        real_time_traffic: false,
        start: RouteEndpoint::Poi(PoiInfo {
            poi_id: 123,
            poi_name: String::from("gate"),
            road_id: 55,
            entry: GeoPoint {
                longitude_bits: 5,
                latitude_bits: 6,
                height: 0,
                floor: 2,
                model_id: 77,
            },
            model_id: 77,
        }),
        end: RouteEndpoint::Point(GeoPoint {
            longitude_bits: 1,
            latitude_bits: 2,
            height: 0,
            floor: 0,
            model_id: 0,
        }),
    };
    let bytes = encode_server_request(&norm);
    assert_eq!(&bytes[0..4], &1u32.to_le_bytes());
    assert_eq!(bytes[12], 0);
    // the start endpoint carries the point-of-interest tag
    assert_eq!(bytes[13], 1);
    assert_eq!(&bytes[14..22], &123u64.to_le_bytes());
    // its name, length-prefixed
    assert_eq!(&bytes[22..30], &4u64.to_le_bytes());
    assert_eq!(&bytes[30..34], b"gate");
    // the end endpoint carries the raw-point tag
    let end_tag_at = bytes.len() - 29;
    assert_eq!(bytes[end_tag_at], 2);
}

#[test]
fn decimal_parsing() {
    assert_eq!(parse_u64_dec("0"), Some(0));
    assert_eq!(parse_u64_dec("123"), Some(123));
    assert_eq!(parse_u64_dec("18446744073709551615"), Some(u64::MAX));
    assert_eq!(parse_u64_dec("18446744073709551616"), None);
    assert_eq!(parse_u64_dec(""), None);
    assert_eq!(parse_u64_dec("12a"), None);
    assert_eq!(parse_u64_dec("-1"), None);
}

#[test]
fn signed_decimal_parsing() {
    assert_eq!(parse_i32_dec("0"), Some(0));
    assert_eq!(parse_i32_dec("-5"), Some(-5));
    assert_eq!(parse_i32_dec("2147483647"), Some(i32::MAX));
    assert_eq!(parse_i32_dec("2147483648"), None);
    assert_eq!(parse_i32_dec("-2147483648"), Some(i32::MIN));
    assert_eq!(parse_i32_dec("-2147483649"), None);
    assert_eq!(parse_i32_dec("-"), None);
    assert_eq!(parse_i32_dec(""), None);
}

#[test]
fn coordinate_strings_are_parsed_as_numbers() {
    let mut detail = navi_gateway::PoiDetail {
        addressFloor: String::from("2"),
        buildFlag: String::from("1"),
        latitude: String::from("39.912554"),
        longitude: String::from("116.447209"),
        modelId: String::from("77"),
        parentPoiId: String::from("0"),
        poiId: String::from("123"),
        poiName: String::from("gate"),
        poiType: String::from("1"),
        roadId: String::from("55"),
        roadXEntr: String::from("0"),
        roadYEntr: String::from("0"),
        wroadId: String::from("0"),
        wroadXEntr: String::from("0"),
        wroadYEntr: String::from("0"),
    };
    let info = navi_gateway::poi::poi_info_from_detail(detail.clone()).expect("info");
    assert_eq!(info.entry.latitude_bits, 39.912554f64.to_bits());
    assert_eq!(info.entry.longitude_bits, 116.447209f64.to_bits());
    // an integer coordinate parses to the number it spells
    detail.latitude = String::from("12345678");
    let info = navi_gateway::poi::poi_info_from_detail(detail.clone()).expect("info");
    assert_eq!(info.entry.latitude_bits, 12345678f64.to_bits());
    assert_eq!(info.entry.latitude_bits, 0x41678C29C0000000);
    // a string that spells no number is a hard error
    detail.latitude = String::from("abcdefgh");
    assert_eq!(
        navi_gateway::poi::poi_info_from_detail(detail.clone()),
        Err(TranslationError::BadNumber)
    );
    detail.latitude = String::new();
    assert_eq!(
        navi_gateway::poi::poi_info_from_detail(detail),
        Err(TranslationError::BadNumber)
    );
}
