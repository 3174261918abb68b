//! Point-of-interest resolution.
//!
//! The search collaborator answers an HTTP query with a JSON document
//! whose numeric fields are decimal strings.  This module builds the
//! query, reads the reply, and converts a reply into an engine-ready
//! `PoiInfo`; issuing the HTTP request itself is the caller's work.

#![allow(non_snake_case)]

use vstd::prelude::*;
use vstd::string::StringExecFns;

use crate::errors::{SearchError, TranslationError};
use crate::geo::GeoPoint;
use crate::jsonval;
use crate::normalized::{PoiInfo, PoiInfoView};
use crate::numparse::{coord_bits_of_decimal, dec_ival, dec_val, is_dec_int, is_dec_nat,
    parse_coord_bits, parse_i32_dec, parse_u64_dec};

verus! {

/// Resolved attributes of one point of interest, exactly as the
/// search collaborator transmits them: every number as a decimal
/// string.
#[derive(Debug, Clone, PartialEq)]
pub struct PoiDetail {
    pub addressFloor: String,
    pub buildFlag: String,
    pub latitude: String,
    pub longitude: String,
    pub modelId: String,
    pub parentPoiId: String,
    pub poiId: String,
    pub poiName: String,
    pub poiType: String,
    pub roadId: String,
    pub roadXEntr: String,
    pub roadYEntr: String,
    pub wroadId: String,
    pub wroadXEntr: String,
    pub wroadYEntr: String,
}

/// Mathematical image of a `PoiDetail`.
pub struct PoiDetailView {
    pub addressFloor: Seq<char>,
    pub buildFlag: Seq<char>,
    pub latitude: Seq<char>,
    pub longitude: Seq<char>,
    pub modelId: Seq<char>,
    pub parentPoiId: Seq<char>,
    pub poiId: Seq<char>,
    pub poiName: Seq<char>,
    pub poiType: Seq<char>,
    pub roadId: Seq<char>,
    pub roadXEntr: Seq<char>,
    pub roadYEntr: Seq<char>,
    pub wroadId: Seq<char>,
    pub wroadXEntr: Seq<char>,
    pub wroadYEntr: Seq<char>,
}

impl View for PoiDetail {
    type V = PoiDetailView;

    open spec fn view(&self) -> PoiDetailView {
        PoiDetailView {
            addressFloor: self.addressFloor@,
            buildFlag: self.buildFlag@,
            latitude: self.latitude@,
            longitude: self.longitude@,
            modelId: self.modelId@,
            parentPoiId: self.parentPoiId@,
            poiId: self.poiId@,
            poiName: self.poiName@,
            poiType: self.poiType@,
            roadId: self.roadId@,
            roadXEntr: self.roadXEntr@,
            roadYEntr: self.roadYEntr@,
            wroadId: self.wroadId@,
            wroadXEntr: self.wroadXEntr@,
            wroadYEntr: self.wroadYEntr@,
        }
    }
}

/// Body of the collaborator's reply: the detail it carries.
#[derive(Debug, PartialEq)]
pub struct PoiDetailResponseBody {
    pub data: PoiDetail,
}

/// The collaborator's whole reply.
#[derive(Debug, PartialEq)]
pub struct PoiDetailResponse {
    pub rtnCode: String,
    pub traceId: String,
    pub body: PoiDetailResponseBody,
}

/// Handle on the search collaborator: its base address.
#[derive(Debug, Clone, Default)]
pub struct SearchPoiInfo {
    /// Base address of the collaborator, ending in `/`.
    pub url: String,
}

impl SearchPoiInfo {
    /// The address the resolution query is posted to.
    pub fn query_url(&self) -> (r: String)
        ensures
            r@ == self.url@ + "getPoiDetailByPoiId"@,
    {
        self.url.clone().concat("getPoiDetailByPoiId")
    }

    /// The JSON body of the resolution query for one identifier.
    pub fn query_body(&self, id: &String) -> (r: String)
        ensures
            r@ == "{\"data\": { \"poiId\":\""@ + id@ + "\"}}"@,
    {
        let mut body = String::from_str("{\"data\": { \"poiId\":\"");
        body.append(id.as_str());
        body.append("\"}}");
        body
    }
}

/// The string field of the reply's detail object, as the text names
/// it: the value under `body.data` at `field`.
pub open spec fn spec_detail_field(s: Seq<char>, field: Seq<char>) -> Option<Seq<char>> {
    jsonval::json_str_of3(s, "body"@, "data"@, field)
}

/// The detail a reply text carries: present exactly when the text is
/// a JSON document whose `rtnCode` and `traceId` are strings and whose
/// `body.data` object holds every detail field as a string.
pub open spec fn spec_poi_reply_of(s: Seq<char>) -> Option<PoiDetailView> {
    if ({
        &&& jsonval::json_text_ok(s)
        &&& jsonval::json_str_of(s, "rtnCode"@) is Some
        &&& jsonval::json_str_of(s, "traceId"@) is Some
        &&& spec_detail_field(s, "addressFloor"@) is Some
        &&& spec_detail_field(s, "buildFlag"@) is Some
        &&& spec_detail_field(s, "latitude"@) is Some
        &&& spec_detail_field(s, "longitude"@) is Some
        &&& spec_detail_field(s, "modelId"@) is Some
        &&& spec_detail_field(s, "parentPoiId"@) is Some
        &&& spec_detail_field(s, "poiId"@) is Some
        &&& spec_detail_field(s, "poiName"@) is Some
        &&& spec_detail_field(s, "poiType"@) is Some
        &&& spec_detail_field(s, "roadId"@) is Some
        &&& spec_detail_field(s, "roadXEntr"@) is Some
        &&& spec_detail_field(s, "roadYEntr"@) is Some
        &&& spec_detail_field(s, "wroadId"@) is Some
        &&& spec_detail_field(s, "wroadXEntr"@) is Some
        &&& spec_detail_field(s, "wroadYEntr"@) is Some
    }) {
        Option::Some(
            PoiDetailView {
                addressFloor: spec_detail_field(s, "addressFloor"@)->Some_0,
                buildFlag: spec_detail_field(s, "buildFlag"@)->Some_0,
                latitude: spec_detail_field(s, "latitude"@)->Some_0,
                longitude: spec_detail_field(s, "longitude"@)->Some_0,
                modelId: spec_detail_field(s, "modelId"@)->Some_0,
                parentPoiId: spec_detail_field(s, "parentPoiId"@)->Some_0,
                poiId: spec_detail_field(s, "poiId"@)->Some_0,
                poiName: spec_detail_field(s, "poiName"@)->Some_0,
                poiType: spec_detail_field(s, "poiType"@)->Some_0,
                roadId: spec_detail_field(s, "roadId"@)->Some_0,
                roadXEntr: spec_detail_field(s, "roadXEntr"@)->Some_0,
                roadYEntr: spec_detail_field(s, "roadYEntr"@)->Some_0,
                wroadId: spec_detail_field(s, "wroadId"@)->Some_0,
                wroadXEntr: spec_detail_field(s, "wroadXEntr"@)->Some_0,
                wroadYEntr: spec_detail_field(s, "wroadYEntr"@)->Some_0,
            },
        )
    } else {
        Option::None
    }
}

fn detail_field(text: &str, field: &str) -> (r: Option<String>)
    ensures
        match r {
            Option::Some(t) => spec_detail_field(text@, field@) == Option::Some(t@),
            Option::None => spec_detail_field(text@, field@) is None,
        },
{
    jsonval::json_str_key3(text, "body", "data", field)
}

/// Reads the collaborator's JSON reply.  Every field of the reply is
/// required; the result is exactly the detail the text carries, and
/// a missing or non-string field is a resolution failure.
pub fn parse_poi_response(text: &str) -> (r: Result<PoiDetail, SearchError>)
    ensures
        match spec_poi_reply_of(text@) {
            Option::Some(dv) => r matches Result::Ok(d) && d@ == dv,
            Option::None => r == Result::<PoiDetail, SearchError>::Err(SearchError { code: 1i32 }),
        },
        r matches Err(e) ==> e == (SearchError { code: 1i32 }),
{
    let err = SearchError { code: 1 };
    if !jsonval::json_is_document(text) {
        return Result::Err(err);
    }
    let rtn_code = match jsonval::json_str_key(text, "rtnCode") {
        Option::Some(t) => t,
        Option::None => {
            return Result::Err(err);
        },
    };
    let trace_id = match jsonval::json_str_key(text, "traceId") {
        Option::Some(t) => t,
        Option::None => {
            return Result::Err(err);
        },
    };
    let detail = PoiDetail {
        addressFloor: match detail_field(text, "addressFloor") {
            Option::Some(t) => t,
            Option::None => {
                return Result::Err(err);
            },
        },
        buildFlag: match detail_field(text, "buildFlag") {
            Option::Some(t) => t,
            Option::None => {
                return Result::Err(err);
            },
        },
        latitude: match detail_field(text, "latitude") {
            Option::Some(t) => t,
            Option::None => {
                return Result::Err(err);
            },
        },
        longitude: match detail_field(text, "longitude") {
            Option::Some(t) => t,
            Option::None => {
                return Result::Err(err);
            },
        },
        modelId: match detail_field(text, "modelId") {
            Option::Some(t) => t,
            Option::None => {
                return Result::Err(err);
            },
        },
        parentPoiId: match detail_field(text, "parentPoiId") {
            Option::Some(t) => t,
            Option::None => {
                return Result::Err(err);
            },
        },
        poiId: match detail_field(text, "poiId") {
            Option::Some(t) => t,
            Option::None => {
                return Result::Err(err);
            },
        },
        poiName: match detail_field(text, "poiName") {
            Option::Some(t) => t,
            Option::None => {
                return Result::Err(err);
            },
        },
        poiType: match detail_field(text, "poiType") {
            Option::Some(t) => t,
            Option::None => {
                return Result::Err(err);
            },
        },
        roadId: match detail_field(text, "roadId") {
            Option::Some(t) => t,
            Option::None => {
                return Result::Err(err);
            },
        },
        roadXEntr: match detail_field(text, "roadXEntr") {
            Option::Some(t) => t,
            Option::None => {
                return Result::Err(err);
            },
        },
        roadYEntr: match detail_field(text, "roadYEntr") {
            Option::Some(t) => t,
            Option::None => {
                return Result::Err(err);
            },
        },
        wroadId: match detail_field(text, "wroadId") {
            Option::Some(t) => t,
            Option::None => {
                return Result::Err(err);
            },
        },
        wroadXEntr: match detail_field(text, "wroadXEntr") {
            Option::Some(t) => t,
            Option::None => {
                return Result::Err(err);
            },
        },
        wroadYEntr: match detail_field(text, "wroadYEntr") {
            Option::Some(t) => t,
            Option::None => {
                return Result::Err(err);
            },
        },
    };
    let response = PoiDetailResponse {
        rtnCode: rtn_code,
        traceId: trace_id,
        body: PoiDetailResponseBody { data: detail },
    };
    Result::Ok(response.body.data)
}

/// What the collaborator's HTTP exchange came to: the status code and,
/// on 200, the reply body.  Any non-200 status, missing body or
/// unusable reply is a resolution failure; a usable reply yields
/// exactly the detail its text carries.
pub fn interpret_search_response(status: u16, body: &Option<String>) -> (r: Result<
    PoiDetail,
    SearchError,
>)
    ensures
        status != 200 ==> r == Result::<PoiDetail, SearchError>::Err(SearchError { code: 1i32 }),
        status == 200 && body is None ==> r == Result::<PoiDetail, SearchError>::Err(
            SearchError { code: 1i32 },
        ),
        status == 200 ==> (body matches Option::Some(t) ==> match spec_poi_reply_of(t@) {
            Option::Some(dv) => r matches Result::Ok(d) && d@ == dv,
            Option::None => r == Result::<PoiDetail, SearchError>::Err(
                SearchError { code: 1i32 },
            ),
        }),
        r matches Err(e) ==> e == (SearchError { code: 1i32 }),
{
    if status != 200 {
        return Result::Err(SearchError { code: 1 });
    }
    match body {
        Option::Some(text) => parse_poi_response(text.as_str()),
        Option::None => Result::Err(SearchError { code: 1 }),
    }
}

/// The numeric fields of a detail all parse in their expected ranges.
pub open spec fn spec_poi_info_ok(d: PoiDetailView) -> bool {
    &&& is_dec_nat(d.poiId) && dec_val(d.poiId) <= u64::MAX
    &&& is_dec_nat(d.roadId) && dec_val(d.roadId) <= u64::MAX
    &&& is_dec_nat(d.modelId) && dec_val(d.modelId) <= u32::MAX
    &&& is_dec_int(d.addressFloor) && i32::MIN <= dec_ival(d.addressFloor) <= i32::MAX
    &&& coord_bits_of_decimal(d.longitude) is Some
    &&& coord_bits_of_decimal(d.latitude) is Some
}

/// The engine-ready image of a detail whose numbers parse.
pub open spec fn spec_poi_info_of(d: PoiDetailView) -> PoiInfoView {
    PoiInfoView {
        poi_id: dec_val(d.poiId) as u64,
        poi_name: d.poiName,
        road_id: dec_val(d.roadId) as u64,
        entry: GeoPoint {
            longitude_bits: coord_bits_of_decimal(d.longitude)->Some_0,
            latitude_bits: coord_bits_of_decimal(d.latitude)->Some_0,
            height: 0i32,
            floor: dec_ival(d.addressFloor) as i32,
            model_id: dec_val(d.modelId) as u32,
        },
        model_id: dec_val(d.modelId) as u64,
    }
}

/// Converts a resolved detail into the engine-ready `PoiInfo`: every
/// decimal string is parsed as the number it spells, the coordinates'
/// raw bit patterns are carried onward, and the entry height is zero.
/// A number that does not parse is a hard translation error.
pub fn poi_info_from_detail(d: PoiDetail) -> (r: Result<PoiInfo, TranslationError>)
    ensures
        r matches Ok(p) ==> spec_poi_info_ok(d@) && p@ == spec_poi_info_of(d@),
        r matches Err(e) ==> !spec_poi_info_ok(d@) && e == TranslationError::BadNumber,
{
    let poi_id = match parse_u64_dec(d.poiId.as_str()) {
        Option::Some(v) => v,
        Option::None => {
            return Result::Err(TranslationError::BadNumber);
        },
    };
    let road_id = match parse_u64_dec(d.roadId.as_str()) {
        Option::Some(v) => v,
        Option::None => {
            return Result::Err(TranslationError::BadNumber);
        },
    };
    let model_id = match parse_u64_dec(d.modelId.as_str()) {
        Option::Some(v) => v,
        Option::None => {
            return Result::Err(TranslationError::BadNumber);
        },
    };
    if model_id > 0xFFFF_FFFFu64 {
        return Result::Err(TranslationError::BadNumber);
    }
    let floor = match parse_i32_dec(d.addressFloor.as_str()) {
        Option::Some(v) => v,
        Option::None => {
            return Result::Err(TranslationError::BadNumber);
        },
    };
    let longitude_bits = match parse_coord_bits(d.longitude.as_str()) {
        Option::Some(v) => v,
        Option::None => {
            return Result::Err(TranslationError::BadNumber);
        },
    };
    let latitude_bits = match parse_coord_bits(d.latitude.as_str()) {
        Option::Some(v) => v,
        Option::None => {
            return Result::Err(TranslationError::BadNumber);
        },
    };
    Result::Ok(
        PoiInfo {
            poi_id,
            poi_name: d.poiName,
            road_id,
            entry: GeoPoint {
                longitude_bits,
                latitude_bits,
                height: 0,
                floor,
                model_id: model_id as u32,
            },
            model_id,
        },
    )
}

} // verus!
