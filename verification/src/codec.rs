//! Binary wire codec.
//!
//! The inbound payload is a length-prefixed binary encoding of a
//! `ClientRouteRequest`: little-endian integers, one byte for the
//! traffic flag, each string as an 8-byte byte-length followed by its
//! UTF-8 bytes, and each optional point behind a one-byte presence
//! tag.  The decoder accepts exactly the encoder's output, and the
//! round trip is proved below.

use vstd::bytes::*;
use vstd::prelude::*;
use vstd::utf8::{decode_utf8, encode_utf8, encode_utf8_decode_utf8, encode_utf8_valid_utf8,
    valid_utf8};

use crate::client::{ClientRouteRequest, ClientRouteRequestView};
use crate::errors::TranslationError;
use crate::geo::GeoPoint;
use crate::normalized::{NormalizedRouteRequest, NormalizedRouteRequestView, PoiInfo, PoiInfoView,
    RouteEndpoint, RouteEndpointView};

verus! {

// ---------------------------------------------------------------------
// Specification of the encoding
// ---------------------------------------------------------------------
/// A signed 32-bit value as the wire carries it: offset by 2^31 into
/// an unsigned 32-bit value.
pub open spec fn offset_u32(x: i32) -> u32 {
    (x + 0x8000_0000int) as u32
}

/// Inverse of `offset_u32`.
pub open spec fn unoffset_i32(u: u32) -> i32 {
    (u - 0x8000_0000int) as i32
}

/// Wire bytes of a geographic point.
pub open spec fn spec_encode_point(p: GeoPoint) -> Seq<u8> {
    spec_u64_to_le_bytes(p.longitude_bits) + spec_u64_to_le_bytes(p.latitude_bits)
        + spec_u32_to_le_bytes(offset_u32(p.height)) + spec_u32_to_le_bytes(offset_u32(p.floor))
        + spec_u32_to_le_bytes(p.model_id)
}

/// Wire bytes of a string: byte length, then UTF-8 bytes.
pub open spec fn spec_encode_str(s: Seq<char>) -> Seq<u8> {
    spec_u64_to_le_bytes(encode_utf8(s).len() as u64) + encode_utf8(s)
}

/// Wire bytes of an optional point: a presence tag, then the point.
pub open spec fn spec_encode_opt_point(p: Option<GeoPoint>) -> Seq<u8> {
    match p {
        Option::None => seq![0u8],
        Option::Some(q) => seq![1u8] + spec_encode_point(q),
    }
}

/// Wire byte of the traffic flag.
pub open spec fn spec_encode_bool(b: bool) -> Seq<u8> {
    if b {
        seq![1u8]
    } else {
        seq![0u8]
    }
}

/// Wire bytes of a whole client route request.
pub open spec fn spec_encode_client(v: ClientRouteRequestView) -> Seq<u8> {
    spec_u32_to_le_bytes(v.version) + spec_u32_to_le_bytes(v.mode) + spec_u32_to_le_bytes(v.policy)
        + spec_encode_bool(v.real_time_traffic) + spec_encode_str(v.start_poi_id)
        + spec_encode_str(v.end_poi_id) + spec_encode_opt_point(v.start_point)
        + spec_encode_opt_point(v.end_point)
}

/// A view is encodable when its strings' byte lengths fit the 8-byte
/// length prefix; every in-memory string satisfies this.
pub open spec fn spec_encodable(v: ClientRouteRequestView) -> bool {
    encode_utf8(v.start_poi_id).len() <= u64::MAX && encode_utf8(v.end_poi_id).len() <= u64::MAX
}

// ---------------------------------------------------------------------
// Specification of the decoding
// ---------------------------------------------------------------------
/// One byte at `pos`.
pub open spec fn dec_u8_at(b: Seq<u8>, pos: int) -> Option<(u8, int)> {
    if 0 <= pos && pos + 1 <= b.len() {
        Option::Some((b[pos], pos + 1))
    } else {
        Option::None
    }
}

/// A little-endian 32-bit value at `pos`.
pub open spec fn dec_u32_at(b: Seq<u8>, pos: int) -> Option<(u32, int)> {
    if 0 <= pos && pos + 4 <= b.len() {
        Option::Some((spec_u32_from_le_bytes(b.subrange(pos, pos + 4)), pos + 4))
    } else {
        Option::None
    }
}

/// A little-endian 64-bit value at `pos`.
pub open spec fn dec_u64_at(b: Seq<u8>, pos: int) -> Option<(u64, int)> {
    if 0 <= pos && pos + 8 <= b.len() {
        Option::Some((spec_u64_from_le_bytes(b.subrange(pos, pos + 8)), pos + 8))
    } else {
        Option::None
    }
}

/// The traffic flag at `pos`; only the bytes 0 and 1 are accepted.
pub open spec fn dec_bool_at(b: Seq<u8>, pos: int) -> Option<(bool, int)> {
    match dec_u8_at(b, pos) {
        Option::Some((t, p)) => if t == 0 {
            Option::Some((false, p))
        } else if t == 1 {
            Option::Some((true, p))
        } else {
            Option::None
        },
        Option::None => Option::None,
    }
}

/// A length-prefixed UTF-8 string at `pos`.
pub open spec fn dec_str_at(b: Seq<u8>, pos: int) -> Option<(Seq<char>, int)> {
    match dec_u64_at(b, pos) {
        Option::Some((n, p)) => if p + n <= b.len() && valid_utf8(b.subrange(p, p + n)) {
            Option::Some((decode_utf8(b.subrange(p, p + n)), p + n))
        } else {
            Option::None
        },
        Option::None => Option::None,
    }
}

/// A geographic point at `pos`.
pub open spec fn dec_point_at(b: Seq<u8>, pos: int) -> Option<(GeoPoint, int)> {
    match dec_u64_at(b, pos) {
        Option::Some((lon, p1)) => match dec_u64_at(b, p1) {
            Option::Some((lat, p2)) => match dec_u32_at(b, p2) {
                Option::Some((h, p3)) => match dec_u32_at(b, p3) {
                    Option::Some((f, p4)) => match dec_u32_at(b, p4) {
                        Option::Some((m, p5)) => Option::Some(
                            (
                                GeoPoint {
                                    longitude_bits: lon,
                                    latitude_bits: lat,
                                    height: unoffset_i32(h),
                                    floor: unoffset_i32(f),
                                    model_id: m,
                                },
                                p5,
                            ),
                        ),
                        Option::None => Option::None,
                    },
                    Option::None => Option::None,
                },
                Option::None => Option::None,
            },
            Option::None => Option::None,
        },
        Option::None => Option::None,
    }
}

/// An optional geographic point at `pos`.
pub open spec fn dec_opt_point_at(b: Seq<u8>, pos: int) -> Option<(Option<GeoPoint>, int)> {
    match dec_u8_at(b, pos) {
        Option::Some((t, p)) => if t == 0 {
            Option::Some((Option::None, p))
        } else if t == 1 {
            match dec_point_at(b, p) {
                Option::Some((q, p2)) => Option::Some((Option::Some(q), p2)),
                Option::None => Option::None,
            }
        } else {
            Option::None
        },
        Option::None => Option::None,
    }
}

/// A whole client route request; the payload must be consumed exactly.
pub open spec fn spec_decode_client(b: Seq<u8>) -> Option<ClientRouteRequestView> {
    match dec_u32_at(b, 0) {
        Option::Some((version, p1)) => match dec_u32_at(b, p1) {
            Option::Some((mode, p2)) => match dec_u32_at(b, p2) {
                Option::Some((policy, p3)) => match dec_bool_at(b, p3) {
                    Option::Some((rtt, p4)) => match dec_str_at(b, p4) {
                        Option::Some((start_id, p5)) => match dec_str_at(b, p5) {
                            Option::Some((end_id, p6)) => match dec_opt_point_at(b, p6) {
                                Option::Some((sp, p7)) => match dec_opt_point_at(b, p7) {
                                    Option::Some((ep, p8)) => if p8 == b.len() {
                                        Option::Some(
                                            ClientRouteRequestView {
                                                version,
                                                mode,
                                                policy,
                                                real_time_traffic: rtt,
                                                start_poi_id: start_id,
                                                end_poi_id: end_id,
                                                start_point: sp,
                                                end_point: ep,
                                            },
                                        )
                                    } else {
                                        Option::None
                                    },
                                    Option::None => Option::None,
                                },
                                Option::None => Option::None,
                            },
                            Option::None => Option::None,
                        },
                        Option::None => Option::None,
                    },
                    Option::None => Option::None,
                },
                Option::None => Option::None,
            },
            Option::None => Option::None,
        },
        Option::None => Option::None,
    }
}

// ---------------------------------------------------------------------
// Round trip
// ---------------------------------------------------------------------
proof fn lemma_dec_u32(pre: Seq<u8>, x: u32, suf: Seq<u8>)
    ensures
        dec_u32_at(pre + spec_u32_to_le_bytes(x) + suf, pre.len() as int) == Option::Some(
            (x, pre.len() as int + 4),
        ),
{
    lemma_auto_spec_u32_to_from_le_bytes();
    let b = pre + spec_u32_to_le_bytes(x) + suf;
    assert(b.subrange(pre.len() as int, pre.len() as int + 4) =~= spec_u32_to_le_bytes(x));
}

proof fn lemma_dec_u64(pre: Seq<u8>, x: u64, suf: Seq<u8>)
    ensures
        dec_u64_at(pre + spec_u64_to_le_bytes(x) + suf, pre.len() as int) == Option::Some(
            (x, pre.len() as int + 8),
        ),
{
    lemma_auto_spec_u64_to_from_le_bytes();
    let b = pre + spec_u64_to_le_bytes(x) + suf;
    assert(b.subrange(pre.len() as int, pre.len() as int + 8) =~= spec_u64_to_le_bytes(x));
}

proof fn lemma_dec_bool(pre: Seq<u8>, v: bool, suf: Seq<u8>)
    ensures
        dec_bool_at(pre + spec_encode_bool(v) + suf, pre.len() as int) == Option::Some(
            (v, pre.len() as int + 1),
        ),
{
}

proof fn lemma_dec_str(pre: Seq<u8>, s: Seq<char>, suf: Seq<u8>)
    requires
        encode_utf8(s).len() <= u64::MAX,
    ensures
        dec_str_at(pre + spec_encode_str(s) + suf, pre.len() as int) == Option::Some(
            (s, pre.len() as int + 8 + encode_utf8(s).len()),
        ),
{
    broadcast use encode_utf8_valid_utf8, encode_utf8_decode_utf8;

    lemma_auto_spec_u64_to_from_le_bytes();
    let bytes = encode_utf8(s);
    let n = bytes.len() as u64;
    let b = pre + spec_encode_str(s) + suf;
    assert(b =~= (pre + spec_u64_to_le_bytes(n)) + bytes + suf);
    lemma_dec_u64(pre, n, bytes + suf);
    assert(dec_u64_at(pre + spec_u64_to_le_bytes(n) + (bytes + suf), pre.len() as int)
        == Option::Some((n, pre.len() as int + 8)));
    assert(pre + spec_u64_to_le_bytes(n) + (bytes + suf) =~= b);
    let p = pre.len() as int + 8;
    assert(b.subrange(p, p + n) =~= bytes);
}

proof fn lemma_dec_point(pre: Seq<u8>, q: GeoPoint, suf: Seq<u8>)
    ensures
        dec_point_at(pre + spec_encode_point(q) + suf, pre.len() as int) == Option::Some(
            (q, pre.len() as int + 28),
        ),
{
    let e1 = spec_u64_to_le_bytes(q.longitude_bits);
    let e2 = spec_u64_to_le_bytes(q.latitude_bits);
    let e3 = spec_u32_to_le_bytes(offset_u32(q.height));
    let e4 = spec_u32_to_le_bytes(offset_u32(q.floor));
    let e5 = spec_u32_to_le_bytes(q.model_id);
    lemma_auto_spec_u64_to_from_le_bytes();
    lemma_auto_spec_u32_to_from_le_bytes();
    let b = pre + spec_encode_point(q) + suf;
    assert(b =~= pre + e1 + (e2 + e3 + e4 + e5 + suf));
    lemma_dec_u64(pre, q.longitude_bits, e2 + e3 + e4 + e5 + suf);
    assert(b =~= (pre + e1) + e2 + (e3 + e4 + e5 + suf));
    lemma_dec_u64(pre + e1, q.latitude_bits, e3 + e4 + e5 + suf);
    assert(b =~= (pre + e1 + e2) + e3 + (e4 + e5 + suf));
    lemma_dec_u32(pre + e1 + e2, offset_u32(q.height), e4 + e5 + suf);
    assert(b =~= (pre + e1 + e2 + e3) + e4 + (e5 + suf));
    lemma_dec_u32(pre + e1 + e2 + e3, offset_u32(q.floor), e5 + suf);
    assert(b =~= (pre + e1 + e2 + e3 + e4) + e5 + suf);
    lemma_dec_u32(pre + e1 + e2 + e3 + e4, q.model_id, suf);
    assert(unoffset_i32(offset_u32(q.height)) == q.height);
    assert(unoffset_i32(offset_u32(q.floor)) == q.floor);
}

proof fn lemma_dec_opt_point(pre: Seq<u8>, p: Option<GeoPoint>, suf: Seq<u8>)
    ensures
        dec_opt_point_at(pre + spec_encode_opt_point(p) + suf, pre.len() as int) == Option::Some(
            (p, pre.len() as int + spec_encode_opt_point(p).len()),
        ),
{
    lemma_auto_spec_u64_to_from_le_bytes();
    lemma_auto_spec_u32_to_from_le_bytes();
    match p {
        Option::None => {
            let b = pre + spec_encode_opt_point(p) + suf;
            assert(b[pre.len() as int] == 0u8);
        },
        Option::Some(q) => {
            let b = pre + spec_encode_opt_point(p) + suf;
            assert(b[pre.len() as int] == 1u8);
            assert(b =~= (pre + seq![1u8]) + spec_encode_point(q) + suf);
            lemma_dec_point(pre + seq![1u8], q, suf);
        },
    }
}

/// The decoder accepts exactly what the encoder writes: decoding the
/// encoding of any encodable request view gives that view back.
#[verifier::rlimit(100)]
#[verifier::spinoff_prover]
pub proof fn lemma_client_codec_round_trip(v: ClientRouteRequestView)
    requires
        spec_encodable(v),
    ensures
        spec_decode_client(spec_encode_client(v)) == Option::Some(v),
{
    let e1 = spec_u32_to_le_bytes(v.version);
    let e2 = spec_u32_to_le_bytes(v.mode);
    let e3 = spec_u32_to_le_bytes(v.policy);
    let e4 = spec_encode_bool(v.real_time_traffic);
    let e5 = spec_encode_str(v.start_poi_id);
    let e6 = spec_encode_str(v.end_poi_id);
    let e7 = spec_encode_opt_point(v.start_point);
    let e8 = spec_encode_opt_point(v.end_point);
    let b = spec_encode_client(v);
    lemma_auto_spec_u32_to_from_le_bytes();
    lemma_auto_spec_u64_to_from_le_bytes();

    assert(b =~= Seq::<u8>::empty() + e1 + (e2 + e3 + e4 + e5 + e6 + e7 + e8));
    lemma_dec_u32(Seq::<u8>::empty(), v.version, e2 + e3 + e4 + e5 + e6 + e7 + e8);

    assert(b =~= e1 + e2 + (e3 + e4 + e5 + e6 + e7 + e8));
    lemma_dec_u32(e1, v.mode, e3 + e4 + e5 + e6 + e7 + e8);

    assert(b =~= (e1 + e2) + e3 + (e4 + e5 + e6 + e7 + e8));
    lemma_dec_u32(e1 + e2, v.policy, e4 + e5 + e6 + e7 + e8);

    assert(b =~= (e1 + e2 + e3) + e4 + (e5 + e6 + e7 + e8));
    lemma_dec_bool(e1 + e2 + e3, v.real_time_traffic, e5 + e6 + e7 + e8);

    assert(b =~= (e1 + e2 + e3 + e4) + e5 + (e6 + e7 + e8));
    lemma_dec_str(e1 + e2 + e3 + e4, v.start_poi_id, e6 + e7 + e8);

    assert(b =~= (e1 + e2 + e3 + e4 + e5) + e6 + (e7 + e8));
    lemma_dec_str(e1 + e2 + e3 + e4 + e5, v.end_poi_id, e7 + e8);

    assert(b =~= (e1 + e2 + e3 + e4 + e5 + e6) + e7 + e8);
    lemma_dec_opt_point(e1 + e2 + e3 + e4 + e5 + e6, v.start_point, e8);

    assert(b =~= (e1 + e2 + e3 + e4 + e5 + e6 + e7) + e8 + Seq::<u8>::empty());
    lemma_dec_opt_point(e1 + e2 + e3 + e4 + e5 + e6 + e7, v.end_point, Seq::<u8>::empty());
}

// ---------------------------------------------------------------------
// Executable encoder
// ---------------------------------------------------------------------
/// `offset_u32` at run time.
fn offset_exec(x: i32) -> (u: u32)
    ensures
        u == offset_u32(x),
{
    ((x as i64) + 0x8000_0000i64) as u32
}

/// `unoffset_i32` at run time.
fn unoffset_exec(u: u32) -> (x: i32)
    ensures
        x == unoffset_i32(u),
{
    ((u as i64) - 0x8000_0000i64) as i32
}

fn encode_point_into(out: &mut Vec<u8>, p: &GeoPoint)
    ensures
        final(out)@ == old(out)@ + spec_encode_point(*p),
{
    let mut b = u64_to_le_bytes(p.longitude_bits);
    out.append(&mut b);
    let mut b = u64_to_le_bytes(p.latitude_bits);
    out.append(&mut b);
    let mut b = u32_to_le_bytes(offset_exec(p.height));
    out.append(&mut b);
    let mut b = u32_to_le_bytes(offset_exec(p.floor));
    out.append(&mut b);
    let mut b = u32_to_le_bytes(p.model_id);
    out.append(&mut b);
    proof {
        assert(final(out)@ =~= old(out)@ + spec_encode_point(*p));
    }
}

fn encode_str_into(out: &mut Vec<u8>, s: &String)
    ensures
        final(out)@ == old(out)@ + spec_encode_str(s@),
        encode_utf8(s@).len() <= u64::MAX,
{
    let bytes = s.as_str().as_bytes_vec();
    let n: u64 = bytes.len() as u64;
    let mut nb = u64_to_le_bytes(n);
    out.append(&mut nb);
    let mut bb = bytes;
    out.append(&mut bb);
    proof {
        assert(final(out)@ =~= old(out)@ + spec_encode_str(s@));
    }
}

fn encode_opt_point_into(out: &mut Vec<u8>, p: &Option<GeoPoint>)
    ensures
        final(out)@ == old(out)@ + spec_encode_opt_point(*p),
{
    match p {
        Option::None => {
            out.push(0u8);
            proof {
                assert(final(out)@ =~= old(out)@ + spec_encode_opt_point(Option::<
                    GeoPoint,
                >::None));
            }
        },
        Option::Some(q) => {
            out.push(1u8);
            encode_point_into(out, q);
            proof {
                assert(final(out)@ =~= old(out)@ + spec_encode_opt_point(Option::Some(*q)));
            }
        },
    }
}

/// Writes a request in the binary wire format.
pub fn encode_client_request(r: &ClientRouteRequest) -> (out: Vec<u8>)
    ensures
        out@ == spec_encode_client(r@),
        spec_encodable(r@),
{
    let mut out: Vec<u8> = Vec::new();
    let mut b = u32_to_le_bytes(r.version);
    out.append(&mut b);
    let mut b = u32_to_le_bytes(r.mode);
    out.append(&mut b);
    let mut b = u32_to_le_bytes(r.policy);
    out.append(&mut b);
    out.push(if r.real_time_traffic {
        1u8
    } else {
        0u8
    });
    encode_str_into(&mut out, &r.start_poi_id);
    encode_str_into(&mut out, &r.end_poi_id);
    encode_opt_point_into(&mut out, &r.start_point);
    encode_opt_point_into(&mut out, &r.end_point);
    proof {
        assert(out@ =~= spec_encode_client(r@));
    }
    out
}

// ---------------------------------------------------------------------
// Executable decoder
// ---------------------------------------------------------------------
/// Relies on std's `String::from_utf8`: it succeeds exactly on valid
/// UTF-8 input and yields the string those bytes spell.
#[verifier::external_body]
fn string_from_utf8(bytes: Vec<u8>) -> (r: Option<String>)
    ensures
        r is Some <==> valid_utf8(bytes@),
        r matches Some(s) ==> s@ == decode_utf8(bytes@),
{
    String::from_utf8(bytes).ok()
}

fn read_u8(data: &Vec<u8>, pos: usize) -> (r: Option<(u8, usize)>)
    ensures
        match r {
            Option::Some((x, p)) => dec_u8_at(data@, pos as int) == Option::Some((x, p as int)),
            Option::None => dec_u8_at(data@, pos as int) is None,
        },
{
    if pos < data.len() {
        Option::Some((data[pos], pos + 1))
    } else {
        Option::None
    }
}

fn read_u32(data: &Vec<u8>, pos: usize) -> (r: Option<(u32, usize)>)
    ensures
        match r {
            Option::Some((x, p)) => dec_u32_at(data@, pos as int) == Option::Some((x, p as int)),
            Option::None => dec_u32_at(data@, pos as int) is None,
        },
{
    if data.len() >= 4 && pos <= data.len() - 4 {
        let s = vstd::slice::slice_subrange(data.as_slice(), pos, pos + 4);
        Option::Some((u32_from_le_bytes(s), pos + 4))
    } else {
        Option::None
    }
}

fn read_u64(data: &Vec<u8>, pos: usize) -> (r: Option<(u64, usize)>)
    ensures
        match r {
            Option::Some((x, p)) => dec_u64_at(data@, pos as int) == Option::Some((x, p as int)),
            Option::None => dec_u64_at(data@, pos as int) is None,
        },
{
    if data.len() >= 8 && pos <= data.len() - 8 {
        let s = vstd::slice::slice_subrange(data.as_slice(), pos, pos + 8);
        Option::Some((u64_from_le_bytes(s), pos + 8))
    } else {
        Option::None
    }
}

fn read_bool(data: &Vec<u8>, pos: usize) -> (r: Option<(bool, usize)>)
    ensures
        match r {
            Option::Some((x, p)) => dec_bool_at(data@, pos as int) == Option::Some((x, p as int)),
            Option::None => dec_bool_at(data@, pos as int) is None,
        },
{
    match read_u8(data, pos) {
        Option::Some((t, p)) => {
            if t == 0 {
                Option::Some((false, p))
            } else if t == 1 {
                Option::Some((true, p))
            } else {
                Option::None
            }
        },
        Option::None => Option::None,
    }
}

fn read_str(data: &Vec<u8>, pos: usize) -> (r: Option<(String, usize)>)
    ensures
        match r {
            Option::Some((s, p)) => dec_str_at(data@, pos as int) == Option::Some((s@, p as int)),
            Option::None => dec_str_at(data@, pos as int) is None,
        },
{
    match read_u64(data, pos) {
        Option::Some((n, p)) => {
            if n <= (data.len() - p) as u64 {
                let end = p + (n as usize);
                let bytes = vstd::slice::slice_to_vec(
                    vstd::slice::slice_subrange(data.as_slice(), p, end),
                );
                match string_from_utf8(bytes) {
                    Option::Some(s) => Option::Some((s, end)),
                    Option::None => Option::None,
                }
            } else {
                Option::None
            }
        },
        Option::None => Option::None,
    }
}

fn read_point(data: &Vec<u8>, pos: usize) -> (r: Option<(GeoPoint, usize)>)
    ensures
        match r {
            Option::Some((q, p)) => dec_point_at(data@, pos as int) == Option::Some((q, p as int)),
            Option::None => dec_point_at(data@, pos as int) is None,
        },
{
    match read_u64(data, pos) {
        Option::Some((lon, p1)) => match read_u64(data, p1) {
            Option::Some((lat, p2)) => match read_u32(data, p2) {
                Option::Some((h, p3)) => match read_u32(data, p3) {
                    Option::Some((f, p4)) => match read_u32(data, p4) {
                        Option::Some((m, p5)) => Option::Some(
                            (
                                GeoPoint {
                                    longitude_bits: lon,
                                    latitude_bits: lat,
                                    height: unoffset_exec(h),
                                    floor: unoffset_exec(f),
                                    model_id: m,
                                },
                                p5,
                            ),
                        ),
                        Option::None => Option::None,
                    },
                    Option::None => Option::None,
                },
                Option::None => Option::None,
            },
            Option::None => Option::None,
        },
        Option::None => Option::None,
    }
}

fn read_opt_point(data: &Vec<u8>, pos: usize) -> (r: Option<(Option<GeoPoint>, usize)>)
    ensures
        match r {
            Option::Some((q, p)) => dec_opt_point_at(data@, pos as int) == Option::Some(
                (q, p as int),
            ),
            Option::None => dec_opt_point_at(data@, pos as int) is None,
        },
{
    match read_u8(data, pos) {
        Option::Some((t, p)) => {
            if t == 0 {
                Option::Some((Option::None, p))
            } else if t == 1 {
                match read_point(data, p) {
                    Option::Some((q, p2)) => Option::Some((Option::Some(q), p2)),
                    Option::None => Option::None,
                }
            } else {
                Option::None
            }
        },
        Option::None => Option::None,
    }
}

/// Reads a request from the binary wire format.  The payload is
/// accepted exactly when it is a complete encoding of one request.
pub fn decode_client_request(data: &Vec<u8>) -> (r: Result<ClientRouteRequest, TranslationError>)
    ensures
        match r {
            Result::Ok(req) => spec_decode_client(data@) == Option::Some(req@),
            Result::Err(e) => spec_decode_client(data@) is None && e
                == TranslationError::MalformedPayload,
        },
{
    let step = {
        match read_u32(data, 0) {
            Option::Some((version, p1)) => match read_u32(data, p1) {
                Option::Some((mode, p2)) => match read_u32(data, p2) {
                    Option::Some((policy, p3)) => match read_bool(data, p3) {
                        Option::Some((rtt, p4)) => match read_str(data, p4) {
                            Option::Some((start_id, p5)) => match read_str(data, p5) {
                                Option::Some((end_id, p6)) => match read_opt_point(data, p6) {
                                    Option::Some((sp, p7)) => match read_opt_point(data, p7) {
                                        Option::Some((ep, p8)) => {
                                            if p8 == data.len() {
                                                Option::Some(
                                                    ClientRouteRequest {
                                                        version,
                                                        mode,
                                                        policy,
                                                        real_time_traffic: rtt,
                                                        start_poi_id: start_id,
                                                        end_poi_id: end_id,
                                                        start_point: sp,
                                                        end_point: ep,
                                                    },
                                                )
                                            } else {
                                                Option::None
                                            }
                                        },
                                        Option::None => Option::None,
                                    },
                                    Option::None => Option::None,
                                },
                                Option::None => Option::None,
                            },
                            Option::None => Option::None,
                        },
                        Option::None => Option::None,
                    },
                    Option::None => Option::None,
                },
                Option::None => Option::None,
            },
            Option::None => Option::None,
        }
    };
    match step {
        Option::Some(req) => Result::Ok(req),
        Option::None => Result::Err(TranslationError::MalformedPayload),
    }
}

// ---------------------------------------------------------------------
// The engine's wire format
// ---------------------------------------------------------------------
/// Wire bytes of a resolved point of interest.
pub open spec fn spec_encode_poi_info(p: PoiInfoView) -> Seq<u8> {
    spec_u64_to_le_bytes(p.poi_id) + spec_encode_str(p.poi_name) + spec_u64_to_le_bytes(p.road_id)
        + spec_encode_point(p.entry) + spec_u64_to_le_bytes(p.model_id)
}

/// Wire bytes of a settled endpoint: a variant tag, then the payload.
pub open spec fn spec_encode_endpoint(e: RouteEndpointView) -> Seq<u8> {
    match e {
        RouteEndpointView::Poi(p) => seq![1u8] + spec_encode_poi_info(p),
        RouteEndpointView::Point(q) => seq![2u8] + spec_encode_point(q),
    }
}

/// Wire bytes of a whole normalized request, as the engine reads it.
pub open spec fn spec_encode_server(r: NormalizedRouteRequestView) -> Seq<u8> {
    spec_u32_to_le_bytes(r.version) + spec_u32_to_le_bytes(r.mode) + spec_u32_to_le_bytes(r.policy)
        + spec_encode_bool(r.real_time_traffic) + spec_encode_endpoint(r.start)
        + spec_encode_endpoint(r.end)
}

fn encode_poi_info_into(out: &mut Vec<u8>, p: &PoiInfo)
    ensures
        final(out)@ == old(out)@ + spec_encode_poi_info(p@),
{
    let mut b = u64_to_le_bytes(p.poi_id);
    out.append(&mut b);
    encode_str_into(out, &p.poi_name);
    let mut b = u64_to_le_bytes(p.road_id);
    out.append(&mut b);
    encode_point_into(out, &p.entry);
    let mut b = u64_to_le_bytes(p.model_id);
    out.append(&mut b);
    proof {
        assert(final(out)@ =~= old(out)@ + spec_encode_poi_info(p@));
    }
}

fn encode_endpoint_into(out: &mut Vec<u8>, e: &RouteEndpoint)
    ensures
        final(out)@ == old(out)@ + spec_encode_endpoint(e@),
{
    match e {
        RouteEndpoint::Poi(p) => {
            out.push(1u8);
            encode_poi_info_into(out, p);
        },
        RouteEndpoint::Point(q) => {
            out.push(2u8);
            encode_point_into(out, q);
        },
    }
    proof {
        assert(final(out)@ =~= old(out)@ + spec_encode_endpoint(e@));
    }
}

/// Writes a normalized request in the engine's wire format.
pub fn encode_server_request(r: &NormalizedRouteRequest) -> (out: Vec<u8>)
    ensures
        out@ == spec_encode_server(r@),
{
    let mut out: Vec<u8> = Vec::new();
    let mut b = u32_to_le_bytes(r.version);
    out.append(&mut b);
    let mut b = u32_to_le_bytes(r.mode);
    out.append(&mut b);
    let mut b = u32_to_le_bytes(r.policy);
    out.append(&mut b);
    out.push(if r.real_time_traffic {
        1u8
    } else {
        0u8
    });
    encode_endpoint_into(&mut out, &r.start);
    encode_endpoint_into(&mut out, &r.end);
    proof {
        assert(out@ =~= spec_encode_server(r@));
    }
    out
}

} // verus!
