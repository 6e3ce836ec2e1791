//! The `DataValue` type and its binary wire codec.
//!
//! A data value is a value of a variable together with its status and change
//! timestamps. On the wire it is a one-byte encoding mask followed by the
//! present fields in order: value, status, source timestamp, source
//! picoseconds, server timestamp, server picoseconds. A picosecond mask bit is
//! never set when its paired timestamp is absent, and a decoder discards
//! stray picoseconds.

use vstd::prelude::*;

use crate::codec::{
    dec_i64_at,
    dec_u16_at,
    dec_u32_at,
    enc_i64,
    enc_u16,
    enc_u32,
    lemma_i64_roundtrip,
    lemma_u16_roundtrip,
    lemma_u32_roundtrip,
    read_i64,
    read_u16,
    read_u32,
    write_i64,
    write_u16,
    write_u32,
};
use crate::date_time::{spec_sat_add, DateTime};
use crate::status::StatusCode;
use crate::variant::{
    decode_variant,
    dec_variant,
    encode_variant,
    enc_variant,
    lemma_bytes_at,
    lemma_variant_roundtrip,
    variant_encodable,
    Variant,
    VariantView,
};

verus! {

/// Which timestamps a read should return.
#[derive(Clone, Copy, Debug, PartialEq, Eq, Structural)]
pub enum TimestampsToReturn {
    Source,
    Server,
    Both,
    Neither,
    Invalid,
}

/// Mathematical image of a [`DataValue`].
pub struct DataValueView {
    pub value: Option<VariantView>,
    pub status: Option<StatusCode>,
    pub source_timestamp: Option<DateTime>,
    pub source_picoseconds: Option<u16>,
    pub server_timestamp: Option<DateTime>,
    pub server_picoseconds: Option<u16>,
}

/// A value of a variable with its status and change timestamps. Every field
/// is optional; absent fields are left off the wire.
#[derive(Clone, Debug, PartialEq)]
pub struct DataValue {
    /// The value itself. Absent when the value is null.
    pub value: Option<Variant>,
    /// The status associated with the value.
    pub status: Option<StatusCode>,
    /// When the source observed the value.
    pub source_timestamp: Option<DateTime>,
    /// Ten-picosecond intervals for the source timestamp.
    pub source_picoseconds: Option<u16>,
    /// When the server observed the value.
    pub server_timestamp: Option<DateTime>,
    /// Ten-picosecond intervals for the server timestamp.
    pub server_picoseconds: Option<u16>,
}

impl View for DataValue {
    type V = DataValueView;

    open spec fn view(&self) -> DataValueView {
        DataValueView {
            value: match &self.value {
                Some(v) => Some(v@),
                None => None,
            },
            status: self.status,
            source_timestamp: self.source_timestamp,
            source_picoseconds: self.source_picoseconds,
            server_timestamp: self.server_timestamp,
            server_picoseconds: self.server_picoseconds,
        }
    }
}

/// The encoding mask of a data value: one bit per present field, with a
/// picosecond bit cleared whenever its paired timestamp is absent.
pub open spec fn mask_spec(d: DataValueView) -> u8 {
    ((if d.value is Some {
        1int
    } else {
        0int
    }) + (if d.status is Some {
        2int
    } else {
        0int
    }) + (if d.source_timestamp is Some {
        4int
    } else {
        0int
    }) + (if d.source_timestamp is Some && d.source_picoseconds is Some {
        16int
    } else {
        0int
    }) + (if d.server_timestamp is Some {
        8int
    } else {
        0int
    }) + (if d.server_timestamp is Some && d.server_picoseconds is Some {
        32int
    } else {
        0int
    })) as u8
}

/// Wire image of a data value: the mask, then each present field.
pub open spec fn enc_data_value(d: DataValueView) -> Seq<u8> {
    seq![mask_spec(d)] + (match d.value {
        Some(v) => enc_variant(v),
        None => Seq::<u8>::empty(),
    }) + (match d.status {
        Some(c) => enc_u32(c.spec_bits()),
        None => Seq::<u8>::empty(),
    }) + (match d.source_timestamp {
        Some(t) => enc_i64(t.ticks),
        None => Seq::<u8>::empty(),
    }) + (if d.source_timestamp is Some {
        match d.source_picoseconds {
            Some(p) => enc_u16(p),
            None => Seq::<u8>::empty(),
        }
    } else {
        Seq::<u8>::empty()
    }) + (match d.server_timestamp {
        Some(t) => enc_i64(t.ticks),
        None => Seq::<u8>::empty(),
    }) + (if d.server_timestamp is Some {
        match d.server_picoseconds {
            Some(p) => enc_u16(p),
            None => Seq::<u8>::empty(),
        }
    } else {
        Seq::<u8>::empty()
    })
}

/// Whether a data value has a wire image the codec can write and read back.
pub open spec fn data_value_encodable(d: DataValueView) -> bool {
    &&& match d.value {
        Some(v) => variant_encodable(v),
        None => true,
    }
    &&& match d.status {
        Some(c) => c.spec_is_canonical(),
        None => true,
    }
}

/// An optional variant read at `p` when the mask bit says it is present.
pub open spec fn dec_opt_variant(s: Seq<u8>, p: int, present: bool) -> Option<
    (Option<VariantView>, int),
> {
    if !present {
        Some((None, p))
    } else {
        match dec_variant(s, p) {
            Some((v, q)) => Some((Some(v), q)),
            None => None,
        }
    }
}

/// An optional `u32` read at `p` when the mask bit says it is present.
pub open spec fn dec_opt_u32(s: Seq<u8>, p: int, present: bool) -> Option<(Option<u32>, int)> {
    if !present {
        Some((None, p))
    } else if p + 4 <= s.len() {
        Some((Some(dec_u32_at(s, p)), p + 4))
    } else {
        None
    }
}

/// An optional `i64` read at `p` when the mask bit says it is present.
pub open spec fn dec_opt_i64(s: Seq<u8>, p: int, present: bool) -> Option<(Option<i64>, int)> {
    if !present {
        Some((None, p))
    } else if p + 8 <= s.len() {
        Some((Some(dec_i64_at(s, p)), p + 8))
    } else {
        None
    }
}

/// An optional `u16` read at `p` when the mask bit says it is present.
pub open spec fn dec_opt_u16(s: Seq<u8>, p: int, present: bool) -> Option<(Option<u16>, int)> {
    if !present {
        Some((None, p))
    } else if p + 2 <= s.len() {
        Some((Some(dec_u16_at(s, p)), p + 2))
    } else {
        None
    }
}

/// The data value starting at `pos`. The server timestamp is shifted by the
/// ambient client offset; the source timestamp never is. Picoseconds whose
/// paired timestamp is absent are discarded.
pub open spec fn dec_data_value(s: Seq<u8>, pos: int, offset: i64) -> Option<(DataValueView, int)> {
    if !(0 <= pos && pos + 1 <= s.len()) {
        None
    } else {
        let m = s[pos];
        match dec_opt_variant(s, pos + 1, m & 1 != 0) {
            None => None,
            Some((value, p1)) => match dec_opt_u32(s, p1, m & 2 != 0) {
                None => None,
                Some((status_raw, p2)) => match dec_opt_i64(s, p2, m & 4 != 0) {
                    None => None,
                    Some((src_ts, p3)) => match dec_opt_u16(s, p3, m & 16 != 0) {
                        None => None,
                        Some((src_ps, p4)) => match dec_opt_i64(s, p4, m & 8 != 0) {
                            None => None,
                            Some((srv_ts, p5)) => match dec_opt_u16(s, p5, m & 32 != 0) {
                                None => None,
                                Some((srv_ps, p6)) => Some(
                                    (
                                        DataValueView {
                                            value,
                                            status: match status_raw {
                                                Some(raw) => Some(StatusCode::spec_canon(raw)),
                                                None => None,
                                            },
                                            source_timestamp: match src_ts {
                                                Some(t) => Some(DateTime { ticks: t }),
                                                None => None,
                                            },
                                            source_picoseconds: if src_ts is Some {
                                                src_ps
                                            } else {
                                                None
                                            },
                                            server_timestamp: match srv_ts {
                                                Some(t) => Some(
                                                    DateTime {
                                                        ticks: spec_sat_add(
                                                            t as int,
                                                            offset as int,
                                                        ) as i64,
                                                    },
                                                ),
                                                None => None,
                                            },
                                            server_picoseconds: if srv_ts is Some {
                                                srv_ps
                                            } else {
                                                None
                                            },
                                        },
                                        p6,
                                    ),
                                ),
                            },
                        },
                    },
                },
            },
        }
    }
}

/// A data value with picoseconds dropped wherever the paired timestamp is
/// absent: what any decoder hands back.
pub open spec fn normalize(d: DataValueView) -> DataValueView {
    DataValueView {
        source_picoseconds: if d.source_timestamp is Some {
            d.source_picoseconds
        } else {
            None
        },
        server_picoseconds: if d.server_timestamp is Some {
            d.server_picoseconds
        } else {
            None
        },
        ..d
    }
}

/// Each bit of the encoding mask reflects exactly the presence of its field.
pub proof fn lemma_mask_bits(d: DataValueView)
    ensures
        (mask_spec(d) & 1 != 0) == (d.value is Some),
        (mask_spec(d) & 2 != 0) == (d.status is Some),
        (mask_spec(d) & 4 != 0) == (d.source_timestamp is Some),
        (mask_spec(d) & 16 != 0) == (d.source_timestamp is Some && d.source_picoseconds is Some),
        (mask_spec(d) & 8 != 0) == (d.server_timestamp is Some),
        (mask_spec(d) & 32 != 0) == (d.server_timestamp is Some && d.server_picoseconds is Some),
{
    let a0: u8 = if d.value is Some {
        1
    } else {
        0
    };
    let a1: u8 = if d.status is Some {
        1
    } else {
        0
    };
    let a2: u8 = if d.source_timestamp is Some {
        1
    } else {
        0
    };
    let a3: u8 = if d.source_timestamp is Some && d.source_picoseconds is Some {
        1
    } else {
        0
    };
    let a4: u8 = if d.server_timestamp is Some {
        1
    } else {
        0
    };
    let a5: u8 = if d.server_timestamp is Some && d.server_picoseconds is Some {
        1
    } else {
        0
    };
    assert(mask_spec(d) == (a0 + a1 * 2 + a2 * 4 + a3 * 16 + a4 * 8 + a5 * 32) as u8);
    let m: u8 = (a0 + a1 * 2 + a2 * 4 + a3 * 16 + a4 * 8 + a5 * 32) as u8;
    assert(a0 <= 1 && a1 <= 1 && a2 <= 1 && a3 <= 1 && a4 <= 1 && a5 <= 1 ==> {
        let m: u8 = (a0 + a1 * 2 + a2 * 4 + a3 * 16 + a4 * 8 + a5 * 32) as u8;
        (m & 1 != 0) == (a0 == 1) && (m & 2 != 0) == (a1 == 1) && (m & 4 != 0) == (a2 == 1) && (m
            & 16 != 0) == (a3 == 1) && (m & 8 != 0) == (a4 == 1) && (m & 32 != 0) == (a5 == 1)
    }) by (bit_vector);
}

/// The wire image of the optional value field.
pub open spec fn dv_e1(d: DataValueView) -> Seq<u8> {
    match d.value {
        Some(v) => enc_variant(v),
        None => Seq::<u8>::empty(),
    }
}

/// The wire image of the optional status field.
pub open spec fn dv_e2(d: DataValueView) -> Seq<u8> {
    match d.status {
        Some(c) => enc_u32(c.spec_bits()),
        None => Seq::<u8>::empty(),
    }
}

/// The wire image of the optional source timestamp.
pub open spec fn dv_e3(d: DataValueView) -> Seq<u8> {
    match d.source_timestamp {
        Some(t) => enc_i64(t.ticks),
        None => Seq::<u8>::empty(),
    }
}

/// The wire image of the optional source picoseconds.
pub open spec fn dv_e4(d: DataValueView) -> Seq<u8> {
    if d.source_timestamp is Some {
        match d.source_picoseconds {
            Some(p) => enc_u16(p),
            None => Seq::<u8>::empty(),
        }
    } else {
        Seq::<u8>::empty()
    }
}

/// The wire image of the optional server timestamp.
pub open spec fn dv_e5(d: DataValueView) -> Seq<u8> {
    match d.server_timestamp {
        Some(t) => enc_i64(t.ticks),
        None => Seq::<u8>::empty(),
    }
}

/// The wire image of the optional server picoseconds.
pub open spec fn dv_e6(d: DataValueView) -> Seq<u8> {
    if d.server_timestamp is Some {
        match d.server_picoseconds {
            Some(p) => enc_u16(p),
            None => Seq::<u8>::empty(),
        }
    } else {
        Seq::<u8>::empty()
    }
}

/// Offset of the status field within the wire image.
pub open spec fn dv_off1(d: DataValueView) -> int {
    1 + dv_e1(d).len() as int
}

/// Offset of the source timestamp within the wire image.
pub open spec fn dv_off2(d: DataValueView) -> int {
    dv_off1(d) + dv_e2(d).len() as int
}

/// Offset of the source picoseconds within the wire image.
pub open spec fn dv_off3(d: DataValueView) -> int {
    dv_off2(d) + dv_e3(d).len() as int
}

/// Offset of the server timestamp within the wire image.
pub open spec fn dv_off4(d: DataValueView) -> int {
    dv_off3(d) + dv_e4(d).len() as int
}

/// Offset of the server picoseconds within the wire image.
pub open spec fn dv_off5(d: DataValueView) -> int {
    dv_off4(d) + dv_e5(d).len() as int
}

/// The length of the whole wire image.
pub open spec fn dv_off6(d: DataValueView) -> int {
    dv_off5(d) + dv_e6(d).len() as int
}

/// The wire image is the mask byte followed by the six field images.
proof fn lemma_dv_shape(d: DataValueView)
    ensures
        enc_data_value(d) == seq![mask_spec(d)] + dv_e1(d) + dv_e2(d) + dv_e3(d) + dv_e4(d)
            + dv_e5(d) + dv_e6(d),
        enc_data_value(d).len() == dv_off6(d),
        enc_data_value(d)[0] == mask_spec(d),
{
    assert(enc_data_value(d) =~= seq![mask_spec(d)] + dv_e1(d) + dv_e2(d) + dv_e3(d) + dv_e4(d)
        + dv_e5(d) + dv_e6(d));
}

/// Reading the value field of a wire image yields the value written.
proof fn lemma_dv_value_field(d: DataValueView)
    requires
        data_value_encodable(d),
    ensures
        dec_opt_variant(enc_data_value(d), 1, mask_spec(d) & 1 != 0) == Some(
            (d.value, dv_off1(d)),
        ),
{
    lemma_mask_bits(d);
    lemma_dv_shape(d);
    let s = enc_data_value(d);
    if d.value is Some {
        let v = d.value->0;
        assert(s.subrange(1, dv_off1(d)) =~= enc_variant(v));
        lemma_variant_roundtrip(v, s, 1);
    }
}

/// Reading the status field of a wire image yields the bits written.
proof fn lemma_dv_status_field(d: DataValueView)
    ensures
        dec_opt_u32(enc_data_value(d), dv_off1(d), mask_spec(d) & 2 != 0) == Some(
            (
                match d.status {
                    Some(c) => Some(c.spec_bits()),
                    None => None,
                },
                dv_off2(d),
            ),
        ),
{
    lemma_mask_bits(d);
    lemma_dv_shape(d);
    let s = enc_data_value(d);
    if d.status is Some {
        let c = d.status->0;
        assert(s.subrange(dv_off1(d), dv_off2(d)) =~= enc_u32(c.spec_bits()));
        lemma_bytes_at(s, dv_off1(d), enc_u32(c.spec_bits()));
        lemma_u32_roundtrip(c.spec_bits());
        assert(dec_u32_at(s, dv_off1(d)) == c.spec_bits());
    }
}

/// Reading the source timestamp of a wire image yields the ticks written.
proof fn lemma_dv_source_ts_field(d: DataValueView)
    ensures
        dec_opt_i64(enc_data_value(d), dv_off2(d), mask_spec(d) & 4 != 0) == Some(
            (
                match d.source_timestamp {
                    Some(t) => Some(t.ticks),
                    None => None,
                },
                dv_off3(d),
            ),
        ),
{
    lemma_mask_bits(d);
    lemma_dv_shape(d);
    let s = enc_data_value(d);
    if d.source_timestamp is Some {
        let t = d.source_timestamp->0;
        assert(s.subrange(dv_off2(d), dv_off3(d)) =~= enc_i64(t.ticks));
        lemma_bytes_at(s, dv_off2(d), enc_i64(t.ticks));
        lemma_i64_roundtrip(t.ticks);
        assert(dec_i64_at(s, dv_off2(d)) == t.ticks);
    }
}

/// Reading the source picoseconds of a wire image yields the count written.
proof fn lemma_dv_source_ps_field(d: DataValueView)
    ensures
        dec_opt_u16(enc_data_value(d), dv_off3(d), mask_spec(d) & 16 != 0) == Some(
            (
                if d.source_timestamp is Some {
                    d.source_picoseconds
                } else {
                    None
                },
                dv_off4(d),
            ),
        ),
{
    lemma_mask_bits(d);
    lemma_dv_shape(d);
    let s = enc_data_value(d);
    if d.source_timestamp is Some && d.source_picoseconds is Some {
        let p = d.source_picoseconds->0;
        assert(s.subrange(dv_off3(d), dv_off4(d)) =~= enc_u16(p));
        lemma_bytes_at(s, dv_off3(d), enc_u16(p));
        lemma_u16_roundtrip(p);
        assert(dec_u16_at(s, dv_off3(d)) == p);
    }
}

/// Reading the server timestamp of a wire image yields the ticks written.
proof fn lemma_dv_server_ts_field(d: DataValueView)
    ensures
        dec_opt_i64(enc_data_value(d), dv_off4(d), mask_spec(d) & 8 != 0) == Some(
            (
                match d.server_timestamp {
                    Some(t) => Some(t.ticks),
                    None => None,
                },
                dv_off5(d),
            ),
        ),
{
    lemma_mask_bits(d);
    lemma_dv_shape(d);
    let s = enc_data_value(d);
    if d.server_timestamp is Some {
        let t = d.server_timestamp->0;
        assert(s.subrange(dv_off4(d), dv_off5(d)) =~= enc_i64(t.ticks));
        lemma_bytes_at(s, dv_off4(d), enc_i64(t.ticks));
        lemma_i64_roundtrip(t.ticks);
        assert(dec_i64_at(s, dv_off4(d)) == t.ticks);
    }
}

/// Reading the server picoseconds of a wire image yields the count written.
proof fn lemma_dv_server_ps_field(d: DataValueView)
    ensures
        dec_opt_u16(enc_data_value(d), dv_off5(d), mask_spec(d) & 32 != 0) == Some(
            (
                if d.server_timestamp is Some {
                    d.server_picoseconds
                } else {
                    None
                },
                dv_off6(d),
            ),
        ),
{
    lemma_mask_bits(d);
    lemma_dv_shape(d);
    let s = enc_data_value(d);
    if d.server_timestamp is Some && d.server_picoseconds is Some {
        let p = d.server_picoseconds->0;
        assert(s.subrange(dv_off5(d), dv_off6(d)) =~= enc_u16(p));
        lemma_bytes_at(s, dv_off5(d), enc_u16(p));
        lemma_u16_roundtrip(p);
        assert(dec_u16_at(s, dv_off5(d)) == p);
    }
}

/// Decoding the wire image of a data value, with a zero ambient offset,
/// yields the value written with stray picoseconds dropped.
#[verifier::rlimit(50)]
#[verifier::spinoff_prover]
pub proof fn lemma_data_value_roundtrip(d: DataValueView)
    requires
        data_value_encodable(d),
    ensures
        dec_data_value(enc_data_value(d), 0, 0) == Some(
            (normalize(d), enc_data_value(d).len() as int),
        ),
{
    let s = enc_data_value(d);
    lemma_mask_bits(d);
    lemma_dv_shape(d);
    lemma_dv_value_field(d);
    lemma_dv_status_field(d);
    lemma_dv_source_ts_field(d);
    lemma_dv_source_ps_field(d);
    lemma_dv_server_ts_field(d);
    lemma_dv_server_ps_field(d);
    if d.status is Some {
        let c = d.status->0;
        assert(StatusCode::spec_canon(c.spec_bits()) == c);
    }
    assert(dec_data_value(s, 0, 0) == Some((normalize(d), dv_off6(d))));
}

impl DataValue {
    /// A data value carrying only a value.
    pub fn value_only(value: Variant) -> (r: DataValue)
        ensures
            r == (DataValue {
                value: Some(value),
                status: None,
                source_timestamp: None,
                source_picoseconds: None,
                server_timestamp: None,
                server_picoseconds: None,
            }),
    {
        DataValue {
            value: Some(value),
            status: None,
            source_timestamp: None,
            source_picoseconds: None,
            server_timestamp: None,
            server_picoseconds: None,
        }
    }

    /// A good data value observed now: both timestamps are the current time.
    pub fn new_now(value: Variant) -> (r: DataValue)
        ensures
            r@.value == Some(value@),
            r@.status == Some(StatusCode::Good),
            r@.source_timestamp is Some,
            r@.server_timestamp == r@.source_timestamp,
            r@.source_picoseconds == Some(0u16),
            r@.server_picoseconds == Some(0u16),
    {
        let now = DateTime::now();
        DataValue {
            value: Some(value),
            status: Some(StatusCode::Good),
            source_timestamp: Some(now),
            source_picoseconds: Some(0),
            server_timestamp: Some(now),
            server_picoseconds: Some(0),
        }
    }

    /// A good data value observed at the given time.
    pub fn new_at(value: Variant, time: DateTime) -> (r: DataValue)
        ensures
            r == (DataValue {
                value: Some(value),
                status: Some(StatusCode::Good),
                source_timestamp: Some(time),
                source_picoseconds: Some(0u16),
                server_timestamp: Some(time),
                server_picoseconds: Some(0u16),
            }),
    {
        DataValue {
            value: Some(value),
            status: Some(StatusCode::Good),
            source_timestamp: Some(time),
            source_picoseconds: Some(0),
            server_timestamp: Some(time),
            server_picoseconds: Some(0),
        }
    }

    /// A data value with the given status, observed now.
    pub fn new_now_status(value: Variant, status: StatusCode) -> (r: DataValue)
        ensures
            r@.value == Some(value@),
            r@.status == Some(status),
            r@.source_timestamp is Some,
            r@.server_timestamp == r@.source_timestamp,
            r@.source_picoseconds == Some(0u16),
            r@.server_picoseconds == Some(0u16),
    {
        let now = DateTime::now();
        DataValue {
            value: Some(value),
            status: Some(status),
            source_timestamp: Some(now),
            source_picoseconds: Some(0),
            server_timestamp: Some(now),
            server_picoseconds: Some(0),
        }
    }

    /// A data value with the given status, observed at the given time.
    pub fn new_at_status(value: Variant, time: DateTime, status: StatusCode) -> (r: DataValue)
        ensures
            r == (DataValue {
                value: Some(value),
                status: Some(status),
                source_timestamp: Some(time),
                source_picoseconds: Some(0u16),
                server_timestamp: Some(time),
                server_picoseconds: Some(0u16),
            }),
    {
        DataValue {
            value: Some(value),
            status: Some(status),
            source_timestamp: Some(time),
            source_picoseconds: Some(0),
            server_timestamp: Some(time),
            server_picoseconds: Some(0),
        }
    }

    /// An empty data value.
    pub fn null() -> (r: DataValue)
        ensures
            r == (DataValue {
                value: None::<Variant>,
                status: None::<StatusCode>,
                source_timestamp: None::<DateTime>,
                source_picoseconds: None::<u16>,
                server_timestamp: None::<DateTime>,
                server_picoseconds: None::<u16>,
            }),
    {
        DataValue {
            value: None,
            status: None,
            source_timestamp: None,
            source_picoseconds: None,
            server_timestamp: None,
            server_picoseconds: None,
        }
    }

    /// Set the value, stamping both timestamps with the given times and
    /// zeroing the picoseconds.
    pub fn set_value(&mut self, value: Variant, source_timestamp: &DateTime, server_timestamp: &DateTime)
        ensures
            final (self)@ == (DataValueView {
                value: Some(value@),
                status: old(self)@.status,
                source_timestamp: Some(*source_timestamp),
                source_picoseconds: Some(0u16),
                server_timestamp: Some(*server_timestamp),
                server_picoseconds: Some(0u16),
            }),
    {
        self.value = Some(value);
        self.source_timestamp = Some(*source_timestamp);
        self.source_picoseconds = Some(0);
        self.server_timestamp = Some(*server_timestamp);
        self.server_picoseconds = Some(0);
    }

    /// Set the timestamps the caller asked to have returned, and clear the
    /// others.
    pub fn set_timestamps(
        &mut self,
        timestamps_to_return: TimestampsToReturn,
        source_timestamp: DateTime,
        server_timestamp: DateTime,
    )
        ensures
            final (self)@.value == old(self)@.value,
            final (self)@.status == old(self)@.status,
            timestamps_to_return == TimestampsToReturn::Source ==> final (self)@
                == (DataValueView {
                source_timestamp: Some(source_timestamp),
                source_picoseconds: Some(0u16),
                server_timestamp: None::<DateTime>,
                server_picoseconds: None::<u16>,
                ..old(self)@
            }),
            timestamps_to_return == TimestampsToReturn::Server ==> final (self)@
                == (DataValueView {
                source_timestamp: None::<DateTime>,
                source_picoseconds: None::<u16>,
                server_timestamp: Some(server_timestamp),
                server_picoseconds: Some(0u16),
                ..old(self)@
            }),
            timestamps_to_return == TimestampsToReturn::Both ==> final (self)@ == (DataValueView {
                source_timestamp: Some(source_timestamp),
                source_picoseconds: Some(0u16),
                server_timestamp: Some(server_timestamp),
                server_picoseconds: Some(0u16),
                ..old(self)@
            }),
            timestamps_to_return == TimestampsToReturn::Neither ==> final (self)@
                == (DataValueView {
                source_timestamp: None::<DateTime>,
                source_picoseconds: None::<u16>,
                server_timestamp: None::<DateTime>,
                server_picoseconds: None::<u16>,
                ..old(self)@
            }),
            timestamps_to_return == TimestampsToReturn::Invalid ==> *final (self) == *old(self),
    {
        match timestamps_to_return {
            TimestampsToReturn::Source => {
                self.source_timestamp = Some(source_timestamp);
                self.source_picoseconds = Some(0);
                self.server_timestamp = None;
                self.server_picoseconds = None;
            },
            TimestampsToReturn::Server => {
                self.source_timestamp = None;
                self.source_picoseconds = None;
                self.server_timestamp = Some(server_timestamp);
                self.server_picoseconds = Some(0);
            },
            TimestampsToReturn::Both => {
                self.source_timestamp = Some(source_timestamp);
                self.source_picoseconds = Some(0);
                self.server_timestamp = Some(server_timestamp);
                self.server_picoseconds = Some(0);
            },
            TimestampsToReturn::Neither => {
                self.source_timestamp = None;
                self.source_picoseconds = None;
                self.server_timestamp = None;
                self.server_picoseconds = None;
            },
            TimestampsToReturn::Invalid => {},
        }
    }

    /// The status of the value, or `Good` when none is set.
    pub fn status(&self) -> (r: StatusCode)
        ensures
            r == match self@.status {
                Some(s) => s,
                None => StatusCode::Good,
            },
    {
        match &self.status {
            Some(s) => *s,
            None => StatusCode::Good,
        }
    }

    /// Whether the value is known to be good.
    pub fn is_valid(&self) -> (r: bool)
        ensures
            r == match self@.status {
                Some(s) => s.spec_is_good(),
                None => true,
            },
    {
        proof {
            assert(0u32 & 0x8000_0000u32 == 0u32) by (bit_vector);
        }
        self.status().is_good()
    }

    /// The encoding mask of this data value.
    pub fn encoding_mask(&self) -> (r: u8)
        ensures
            r == mask_spec(self@),
    {
        let mut m: u8 = 0;
        if self.value.is_some() {
            m = m + 1;
        }
        if self.status.is_some() {
            m = m + 2;
        }
        if self.source_timestamp.is_some() {
            m = m + 4;
            if self.source_picoseconds.is_some() {
                m = m + 16;
            }
        }
        if self.server_timestamp.is_some() {
            m = m + 8;
            if self.server_picoseconds.is_some() {
                m = m + 32;
            }
        }
        m
    }

    /// Whether this data value has a wire image the codec can write.
    pub fn is_encodable(&self) -> (r: bool)
        ensures
            r == data_value_encodable(self@),
    {
        let value_ok = match &self.value {
            Some(v) => v.is_encodable(),
            None => true,
        };
        let status_ok = match &self.status {
            Some(c) => StatusCode::from_bits(c.bits()) == *c,
            None => true,
        };
        value_ok && status_ok
    }

    /// Append the wire image of this data value. A value the codec cannot
    /// write leaves `out` unchanged.
    #[verifier::rlimit(100)]
    #[verifier::spinoff_prover]
    pub fn encode(&self, out: &mut Vec<u8>) -> (r: Result<(), StatusCode>)
        ensures
            data_value_encodable(self@) ==> r is Ok && final (out)@ == old(out)@ + enc_data_value(
                self@,
            ),
            !data_value_encodable(self@) ==> r == Err::<(), StatusCode>(
                StatusCode::BadEncodingError,
            ) && final (out)@ == old(out)@,
    {
        if !self.is_encodable() {
            return Err(StatusCode::BadEncodingError);
        }
        out.push(self.encoding_mask());
        if let Some(v) = &self.value {
            let _ = encode_variant(v, out);
        }
        if let Some(c) = &self.status {
            write_u32(out, c.bits());
        }
        if let Some(t) = &self.source_timestamp {
            write_i64(out, t.ticks);
            if let Some(p) = &self.source_picoseconds {
                write_u16(out, *p);
            }
        }
        if let Some(t) = &self.server_timestamp {
            write_i64(out, t.ticks);
            if let Some(p) = &self.server_picoseconds {
                write_u16(out, *p);
            }
        }
        proof {
            lemma_dv_shape(self@);
            assert(out@ =~= old(out)@ + enc_data_value(self@));
        }
        Ok(())
    }

    /// Read a data value. The server timestamp is shifted by `offset`; the
    /// source timestamp is decoded with a zero offset, since source times are
    /// authoritative.
    #[verifier::rlimit(100)]
    #[verifier::spinoff_prover]
    pub fn decode(buf: &Vec<u8>, pos: usize, offset: i64) -> (r: Option<(DataValue, usize)>)
        ensures
            match dec_data_value(buf@, pos as int, offset) {
                Some(p) => r matches Some(q) && q.0@ == p.0 && q.1 == p.1,
                None => r is None,
            },
    {
        if pos >= buf.len() {
            return None;
        }
        let m = buf[pos];
        let p0 = pos + 1;
        let (value, p1): (Option<Variant>, usize) = if m & 1 != 0 {
            match decode_variant(buf, p0) {
                Some((v, q)) => (Some(v), q),
                None => {
                    return None;
                },
            }
        } else {
            (None, p0)
        };
        proof {
            assert(dec_opt_variant(buf@, p0 as int, m & 1 != 0) matches Some(w) && w.1 == p1
                && w.0 == match value {
                Some(v) => Some(v@),
                None => None::<VariantView>,
            });
        }
        let (status, p2): (Option<StatusCode>, usize) = if m & 2 != 0 {
            match read_u32(buf, p1) {
                Some((raw, q)) => (Some(StatusCode::from_bits(raw)), q),
                None => {
                    return None;
                },
            }
        } else {
            (None, p1)
        };
        proof {
            assert(dec_opt_u32(buf@, p1 as int, m & 2 != 0) matches Some(w) && w.1 == p2
                && (match w.0 {
                Some(raw) => status == Some(StatusCode::spec_canon(raw)),
                None => status is None,
            }));
        }
        let (src_ts, p3): (Option<i64>, usize) = if m & 4 != 0 {
            match read_i64(buf, p2) {
                Some((t, q)) => (Some(t), q),
                None => {
                    return None;
                },
            }
        } else {
            (None, p2)
        };
        proof {
            assert(dec_opt_i64(buf@, p2 as int, m & 4 != 0) == Some((src_ts, p3 as int)));
        }
        let (src_ps, p4): (Option<u16>, usize) = if m & 16 != 0 {
            match read_u16(buf, p3) {
                Some((v, q)) => (Some(v), q),
                None => {
                    return None;
                },
            }
        } else {
            (None, p3)
        };
        proof {
            assert(dec_opt_u16(buf@, p3 as int, m & 16 != 0) == Some((src_ps, p4 as int)));
        }
        let (srv_ts, p5): (Option<i64>, usize) = if m & 8 != 0 {
            match read_i64(buf, p4) {
                Some((t, q)) => (Some(t), q),
                None => {
                    return None;
                },
            }
        } else {
            (None, p4)
        };
        proof {
            assert(dec_opt_i64(buf@, p4 as int, m & 8 != 0) == Some((srv_ts, p5 as int)));
        }
        let (srv_ps, p6): (Option<u16>, usize) = if m & 32 != 0 {
            match read_u16(buf, p5) {
                Some((v, q)) => (Some(v), q),
                None => {
                    return None;
                },
            }
        } else {
            (None, p5)
        };
        proof {
            assert(dec_opt_u16(buf@, p5 as int, m & 32 != 0) == Some((srv_ps, p6 as int)));
        }
        let source_timestamp = match src_ts {
            Some(t) => Some(DateTime::from_ticks(t)),
            None => None,
        };
        let server_timestamp = match srv_ts {
            Some(t) => Some(DateTime::from_ticks(crate::date_time::saturating_add_i64(t, offset))),
            None => None,
        };
        Some(
            (
                DataValue {
                    value,
                    status,
                    source_picoseconds: if source_timestamp.is_some() {
                        src_ps
                    } else {
                        None
                    },
                    source_timestamp,
                    server_picoseconds: if server_timestamp.is_some() {
                        srv_ps
                    } else {
                        None
                    },
                    server_timestamp,
                },
                p6,
            ),
        )
    }

    /// The length of this data value's wire image.
    pub fn byte_len(&self) -> (r: usize)
        requires
            data_value_encodable(self@),
        ensures
            r == enc_data_value(self@).len(),
    {
        proof {
            lemma_dv_shape(self@);
        }
        let mut size: usize = 1;
        if let Some(v) = &self.value {
            size = size + v.byte_len();
        }
        if self.status.is_some() {
            size = size + 4;
        }
        if self.source_timestamp.is_some() {
            size = size + 8;
            if self.source_picoseconds.is_some() {
                size = size + 2;
            }
        }
        if self.server_timestamp.is_some() {
            size = size + 8;
            if self.server_picoseconds.is_some() {
                size = size + 2;
            }
        }
        size
    }

    /// An identical copy of the data value.
    pub fn duplicate(&self) -> (r: DataValue)
        ensures
            r@ == self@,
    {
        DataValue {
            value: match &self.value {
                Some(v) => Some(v.duplicate()),
                None => None,
            },
            status: self.status,
            source_timestamp: self.source_timestamp,
            source_picoseconds: self.source_picoseconds,
            server_timestamp: self.server_timestamp,
            server_picoseconds: self.server_picoseconds,
        }
    }
}

impl Default for DataValue {
    /// The empty data value.
    fn default() -> (r: DataValue)
        ensures
            r == (DataValue {
                value: None::<Variant>,
                status: None::<StatusCode>,
                source_timestamp: None::<DateTime>,
                source_picoseconds: None::<u16>,
                server_timestamp: None::<DateTime>,
                server_picoseconds: None::<u16>,
            }),
    {
        DataValue::null()
    }
}

impl From<Variant> for DataValue {
    /// A data value carrying only the given value.
    fn from(v: Variant) -> (r: DataValue) {
        DataValue::value_only(v)
    }
}

impl vstd::std_specs::convert::FromSpecImpl<Variant> for DataValue {
    open spec fn obeys_from_spec() -> bool {
        true
    }

    open spec fn from_spec(v: Variant) -> DataValue {
        DataValue {
            value: Some(v),
            status: None,
            source_timestamp: None,
            source_picoseconds: None,
            server_timestamp: None,
            server_picoseconds: None,
        }
    }
}

} // verus!
