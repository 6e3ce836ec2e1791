//! Wire-codec behaviour: variant and data-value round trips, the encoding
//! mask, stray-picosecond discarding, and the clock-offset rule on decode.

use opcua_runtime::data_value::{DataValue, TimestampsToReturn};
use opcua_runtime::date_time::DateTime;
use opcua_runtime::node_id::{Identifier, NodeId};
use opcua_runtime::status::StatusCode;
use opcua_runtime::variant::{decode_variant, encode_variant, Scalar, Variant};

fn roundtrip_variant(v: Variant) -> Variant {
    let mut out: Vec<u8> = Vec::new();
    encode_variant(&v, &mut out).expect("scalar variants encode");
    let (decoded, pos) = decode_variant(&out, 0).expect("decodes");
    assert_eq!(pos, out.len());
    decoded
}

#[test]
fn variant_scalars_round_trip() {
    assert_eq!(roundtrip_variant(Variant::Empty), Variant::Empty);
    let cases = vec![
        Scalar::Boolean(true),
        Scalar::Boolean(false),
        Scalar::Byte(0xAB),
        Scalar::Int32(-123456),
        Scalar::UInt32(0xDEAD_BEEF),
        Scalar::Int64(-9_000_000_000),
        Scalar::Text(b"hello".to_vec()),
        Scalar::DateTime(DateTime::from_ticks(1_700_000_000_000_000)),
        Scalar::ByteString(vec![0, 1, 2, 254, 255]),
        Scalar::NodeId(NodeId::new_numeric(4, 99)),
        Scalar::NodeId(NodeId {
            namespace: 2,
            identifier: Identifier::Text(b"motor".to_vec()),
        }),
        Scalar::Status(StatusCode::BadTimeout),
    ];
    for s in cases {
        let v = Variant::Scalar(s);
        let back = roundtrip_variant(v.duplicate());
        assert_eq!(back, v);
    }
}

#[test]
fn variant_array_does_not_encode() {
    let v = Variant::Array(vec![Scalar::Byte(1)]);
    let mut out: Vec<u8> = Vec::new();
    assert_eq!(encode_variant(&v, &mut out), Err(StatusCode::BadEncodingError));
    assert!(out.is_empty());
}

#[test]
fn data_value_round_trip_drops_stray_picoseconds() {
    // A value with source time and picoseconds, server picoseconds without a
    // server timestamp: the stray picoseconds never reach the wire.
    let t = DateTime::from_ticks(1_700_000_000_000_000);
    let d = DataValue {
        value: Some(Variant::Scalar(Scalar::Int32(42))),
        status: Some(StatusCode::Good),
        source_timestamp: Some(t),
        source_picoseconds: Some(500),
        server_timestamp: None,
        server_picoseconds: Some(777),
    };
    let mut out: Vec<u8> = Vec::new();
    d.encode(&mut out).expect("encodes");
    let (back, pos) = DataValue::decode(&out, 0, 0).expect("decodes");
    assert_eq!(pos, out.len());
    assert_eq!(back.value, Some(Variant::Scalar(Scalar::Int32(42))));
    assert_eq!(back.status, Some(StatusCode::Good));
    assert_eq!(back.source_timestamp, Some(t));
    assert_eq!(back.source_picoseconds, Some(500));
    assert_eq!(back.server_timestamp, None);
    assert_eq!(back.server_picoseconds, None);
}

#[test]
fn data_value_round_trip_all_fields() {
    let src = DateTime::from_ticks(111_000_000);
    let srv = DateTime::from_ticks(222_000_000);
    let d = DataValue {
        value: Some(Variant::Scalar(Scalar::Text(b"pump".to_vec()))),
        status: Some(StatusCode::BadNodeIdUnknown),
        source_timestamp: Some(src),
        source_picoseconds: Some(1),
        server_timestamp: Some(srv),
        server_picoseconds: Some(2),
    };
    let mut out: Vec<u8> = Vec::new();
    d.encode(&mut out).expect("encodes");
    assert_eq!(out.len(), d.byte_len());
    let (back, _) = DataValue::decode(&out, 0, 0).expect("decodes");
    assert_eq!(back, d);
}

#[test]
fn data_value_round_trip_empty() {
    let d = DataValue::null();
    let mut out: Vec<u8> = Vec::new();
    d.encode(&mut out).expect("encodes");
    assert_eq!(out, vec![0u8]);
    let (back, _) = DataValue::decode(&out, 0, 0).expect("decodes");
    assert_eq!(back, DataValue::null());
}

#[test]
fn decode_shifts_server_timestamp_only() {
    // The ambient client offset moves the server timestamp; the source
    // timestamp is authoritative and stays.
    let t = DateTime::from_ticks(1_000_000);
    let d = DataValue {
        value: None,
        status: None,
        source_timestamp: Some(t),
        source_picoseconds: None,
        server_timestamp: Some(t),
        server_picoseconds: None,
    };
    let mut out: Vec<u8> = Vec::new();
    d.encode(&mut out).expect("encodes");
    let (back, _) = DataValue::decode(&out, 0, 250).expect("decodes");
    assert_eq!(back.source_timestamp, Some(t));
    assert_eq!(back.server_timestamp, Some(DateTime::from_ticks(1_000_250)));
}

#[test]
fn decode_truncated_input_fails() {
    let d = DataValue::value_only(Variant::Scalar(Scalar::Int64(7)));
    let mut out: Vec<u8> = Vec::new();
    d.encode(&mut out).expect("encodes");
    out.pop();
    assert!(DataValue::decode(&out, 0, 0).is_none());
}

#[test]
fn encoding_mask_reflects_presence() {
    let d = DataValue::null();
    assert_eq!(d.encoding_mask(), 0);
    let t = DateTime::from_ticks(5);
    let d = DataValue {
        value: Some(Variant::Scalar(Scalar::Byte(9))),
        status: Some(StatusCode::Good),
        source_timestamp: Some(t),
        source_picoseconds: Some(0),
        server_timestamp: Some(t),
        server_picoseconds: Some(0),
    };
    assert_eq!(d.encoding_mask(), 1 + 2 + 4 + 8 + 16 + 32);
    // A picosecond bit is never set when its paired timestamp is absent.
    let d = DataValue {
        value: None,
        status: None,
        source_timestamp: None,
        source_picoseconds: Some(10),
        server_timestamp: None,
        server_picoseconds: Some(20),
    };
    assert_eq!(d.encoding_mask(), 0);
}

#[test]
fn status_code_survives_its_bits() {
    for code in [
        StatusCode::Good,
        StatusCode::BadTimeout,
        StatusCode::BadNonceInvalid,
        StatusCode::BadSessionIdInvalid,
        StatusCode::BadSecurityChecksFailed,
        StatusCode::BadUserAccessDenied,
        StatusCode::BadServiceUnsupported,
    ] {
        assert_eq!(StatusCode::from_bits(code.bits()), code);
    }
    assert!(StatusCode::Good.is_good());
    assert!(!StatusCode::BadTimeout.is_good());
    assert!(StatusCode::BadTimeout.is_bad());
    assert!(StatusCode::BadSessionIdInvalid.is_security_error());
    assert!(!StatusCode::BadTimeout.is_security_error());
}

#[test]
fn set_timestamps_keeps_only_requested() {
    let src = DateTime::from_ticks(1);
    let srv = DateTime::from_ticks(2);
    let mut d = DataValue::value_only(Variant::Scalar(Scalar::Boolean(true)));
    d.set_timestamps(TimestampsToReturn::Source, src, srv);
    assert_eq!(d.source_timestamp, Some(src));
    assert_eq!(d.server_timestamp, None);
    d.set_timestamps(TimestampsToReturn::Both, src, srv);
    assert_eq!(d.source_timestamp, Some(src));
    assert_eq!(d.server_timestamp, Some(srv));
    d.set_timestamps(TimestampsToReturn::Neither, src, srv);
    assert_eq!(d.source_timestamp, None);
    assert_eq!(d.server_timestamp, None);
}

#[test]
fn data_value_status_defaults_good() {
    let d = DataValue::value_only(Variant::Scalar(Scalar::Byte(1)));
    assert_eq!(d.status(), StatusCode::Good);
    assert!(d.is_valid());
    let d = DataValue::new_at_status(
        Variant::Scalar(Scalar::Byte(1)),
        DateTime::from_ticks(0),
        StatusCode::BadNodeIdUnknown,
    );
    assert_eq!(d.status(), StatusCode::BadNodeIdUnknown);
    assert!(!d.is_valid());
}
