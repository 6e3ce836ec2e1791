//! The `Variant` value type and its binary wire codec.
//!
//! A variant is empty, a scalar, or an array of scalars. The codec covers
//! scalar values: a one-byte type id followed by the value's body.

use vstd::prelude::*;

use crate::codec::{
    dec_i32_at,
    dec_i64_at,
    dec_u16_at,
    dec_u32_at,
    enc_i32,
    enc_i64,
    enc_u16,
    enc_u32,
    lemma_i32_roundtrip,
    lemma_i64_roundtrip,
    lemma_u16_roundtrip,
    lemma_u32_roundtrip,
    read_exact,
    read_i32,
    read_i64,
    read_u16,
    read_u32,
    write_all,
    write_i32,
    write_i64,
    write_u16,
    write_u32,
};
use crate::date_time::DateTime;
use crate::node_id::{Identifier, IdentifierView, NodeId, NodeIdView};
use crate::status::StatusCode;

verus! {

/// Mathematical image of a [`Scalar`].
#[verifier::ext_equal]
pub enum ScalarView {
    Boolean(bool),
    Byte(u8),
    Int32(i32),
    UInt32(u32),
    Int64(i64),
    Text(Seq<u8>),
    DateTime(DateTime),
    ByteString(Seq<u8>),
    NodeId(NodeIdView),
    Status(StatusCode),
}

/// A single typed value. Strings are carried as their UTF-8 bytes.
#[derive(Clone, Debug, PartialEq)]
pub enum Scalar {
    Boolean(bool),
    Byte(u8),
    Int32(i32),
    UInt32(u32),
    Int64(i64),
    Text(Vec<u8>),
    DateTime(DateTime),
    ByteString(Vec<u8>),
    NodeId(NodeId),
    Status(StatusCode),
}

impl View for Scalar {
    type V = ScalarView;

    open spec fn view(&self) -> ScalarView {
        match self {
            Scalar::Boolean(v) => ScalarView::Boolean(*v),
            Scalar::Byte(v) => ScalarView::Byte(*v),
            Scalar::Int32(v) => ScalarView::Int32(*v),
            Scalar::UInt32(v) => ScalarView::UInt32(*v),
            Scalar::Int64(v) => ScalarView::Int64(*v),
            Scalar::Text(v) => ScalarView::Text(v@),
            Scalar::DateTime(v) => ScalarView::DateTime(*v),
            Scalar::ByteString(v) => ScalarView::ByteString(v@),
            Scalar::NodeId(v) => ScalarView::NodeId(v@),
            Scalar::Status(v) => ScalarView::Status(*v),
        }
    }
}

/// Mathematical image of a [`Variant`].
#[verifier::ext_equal]
pub enum VariantView {
    Empty,
    Scalar(ScalarView),
    Array(Seq<ScalarView>),
}

/// A variant: empty, one scalar, or an array of scalars.
#[derive(Clone, Debug, PartialEq)]
pub enum Variant {
    Empty,
    Scalar(Scalar),
    Array(Vec<Scalar>),
}

impl View for Variant {
    type V = VariantView;

    open spec fn view(&self) -> VariantView {
        match self {
            Variant::Empty => VariantView::Empty,
            Variant::Scalar(s) => VariantView::Scalar(s@),
            Variant::Array(a) => VariantView::Array(Seq::new(a@.len(), |i: int| a@[i]@)),
        }
    }
}

impl Scalar {
    /// An identical copy of the scalar.
    pub fn duplicate(&self) -> (r: Scalar)
        ensures
            r@ == self@,
    {
        match self {
            Scalar::Boolean(v) => Scalar::Boolean(*v),
            Scalar::Byte(v) => Scalar::Byte(*v),
            Scalar::Int32(v) => Scalar::Int32(*v),
            Scalar::UInt32(v) => Scalar::UInt32(*v),
            Scalar::Int64(v) => Scalar::Int64(*v),
            Scalar::Text(v) => {
                let c = v.clone();
                proof {
                    assert(c@ =~= v@);
                }
                Scalar::Text(c)
            },
            Scalar::DateTime(v) => Scalar::DateTime(*v),
            Scalar::ByteString(v) => {
                let c = v.clone();
                proof {
                    assert(c@ =~= v@);
                }
                Scalar::ByteString(c)
            },
            Scalar::NodeId(v) => Scalar::NodeId(v.duplicate()),
            Scalar::Status(v) => Scalar::Status(*v),
        }
    }
}

impl Variant {
    /// An identical copy of the variant.
    pub fn duplicate(&self) -> (r: Variant)
        ensures
            r@ == self@,
    {
        match self {
            Variant::Empty => Variant::Empty,
            Variant::Scalar(s) => Variant::Scalar(s.duplicate()),
            Variant::Array(a) => {
                let mut out: Vec<Scalar> = Vec::new();
                let mut i: usize = 0;
                while i < a.len()
                    invariant
                        i <= a@.len(),
                        out@.len() == i,
                        forall|j: int| 0 <= j < i ==> out@[j]@ == a@[j]@,
                    decreases a@.len() - i,
                {
                    out.push(a[i].duplicate());
                    i += 1;
                }
                let r = Variant::Array(out);
                proof {
                    assert(Seq::new(out@.len(), |i: int| out@[i]@) =~= Seq::new(
                        a@.len(),
                        |i: int| a@[i]@,
                    ));
                }
                r
            },
        }
    }

    /// Whether the variant is empty.
    pub fn is_empty(&self) -> (r: bool)
        ensures
            r == (self@ is Empty),
    {
        match self {
            Variant::Empty => true,
            _ => false,
        }
    }
}

/// The wire type id of a scalar.
pub open spec fn scalar_type_byte(v: ScalarView) -> u8 {
    match v {
        ScalarView::Boolean(_) => 1,
        ScalarView::Byte(_) => 3,
        ScalarView::Int32(_) => 6,
        ScalarView::UInt32(_) => 7,
        ScalarView::Int64(_) => 8,
        ScalarView::Text(_) => 12,
        ScalarView::DateTime(_) => 13,
        ScalarView::ByteString(_) => 15,
        ScalarView::NodeId(_) => 17,
        ScalarView::Status(_) => 19,
    }
}

/// Wire image of a length-prefixed byte string.
pub open spec fn enc_bytes(b: Seq<u8>) -> Seq<u8> {
    enc_i32(b.len() as i32) + b
}

/// Wire image of a node id: a form byte, the namespace, the identifier.
pub open spec fn enc_node_id(n: NodeIdView) -> Seq<u8> {
    match n.identifier {
        IdentifierView::Numeric(v) => seq![2u8] + enc_u16(n.namespace) + enc_u32(v),
        IdentifierView::Text(b) => seq![3u8] + enc_u16(n.namespace) + enc_bytes(b),
    }
}

/// Wire image of a scalar's body, without the type byte.
pub open spec fn enc_scalar_body(v: ScalarView) -> Seq<u8> {
    match v {
        ScalarView::Boolean(b) => seq![
            if b {
                1u8
            } else {
                0u8
            },
        ],
        ScalarView::Byte(b) => seq![b],
        ScalarView::Int32(x) => enc_i32(x),
        ScalarView::UInt32(x) => enc_u32(x),
        ScalarView::Int64(x) => enc_i64(x),
        ScalarView::Text(b) => enc_bytes(b),
        ScalarView::DateTime(d) => enc_i64(d.ticks),
        ScalarView::ByteString(b) => enc_bytes(b),
        ScalarView::NodeId(n) => enc_node_id(n),
        ScalarView::Status(c) => enc_u32(c.spec_bits()),
    }
}

/// Wire image of a variant. Only empty and scalar variants have one.
pub open spec fn enc_variant(v: VariantView) -> Seq<u8> {
    match v {
        VariantView::Empty => seq![0u8],
        VariantView::Scalar(sv) => seq![scalar_type_byte(sv)] + enc_scalar_body(sv),
        VariantView::Array(_) => Seq::empty(),
    }
}

/// Whether a scalar has a wire image the codec can write and read back:
/// its byte lengths fit the length prefix and its status code is the
/// canonical reading of its bits.
pub open spec fn scalar_encodable(v: ScalarView) -> bool {
    match v {
        ScalarView::Text(b) => b.len() <= 0x7fff_ffff,
        ScalarView::ByteString(b) => b.len() <= 0x7fff_ffff,
        ScalarView::NodeId(n) => match n.identifier {
            IdentifierView::Numeric(_) => true,
            IdentifierView::Text(b) => b.len() <= 0x7fff_ffff,
        },
        ScalarView::Status(c) => c.spec_is_canonical(),
        _ => true,
    }
}

/// Whether a variant has a wire image: arrays do not take part in this codec.
pub open spec fn variant_encodable(v: VariantView) -> bool {
    match v {
        VariantView::Empty => true,
        VariantView::Scalar(s) => scalar_encodable(s),
        VariantView::Array(_) => false,
    }
}

/// The byte string starting at `p`: a length prefix and that many bytes.
pub open spec fn dec_bytes(s: Seq<u8>, p: int) -> Option<(Seq<u8>, int)> {
    if p + 4 <= s.len() {
        let n = dec_i32_at(s, p);
        if n < 0 {
            None
        } else if p + 4 + n <= s.len() {
            Some((s.subrange(p + 4, p + 4 + n), p + 4 + n))
        } else {
            None
        }
    } else {
        None
    }
}

/// The node id starting at `p`.
pub open spec fn dec_node_id(s: Seq<u8>, p: int) -> Option<(NodeIdView, int)> {
    if p + 1 <= s.len() {
        let f = s[p];
        if f == 2 {
            if p + 7 <= s.len() {
                Some(
                    (
                        NodeIdView {
                            namespace: dec_u16_at(s, p + 1),
                            identifier: IdentifierView::Numeric(dec_u32_at(s, p + 3)),
                        },
                        p + 7,
                    ),
                )
            } else {
                None
            }
        } else if f == 3 {
            if p + 3 <= s.len() {
                match dec_bytes(s, p + 3) {
                    Some((b, q)) => Some(
                        (
                            NodeIdView {
                                namespace: dec_u16_at(s, p + 1),
                                identifier: IdentifierView::Text(b),
                            },
                            q,
                        ),
                    ),
                    None => None,
                }
            } else {
                None
            }
        } else {
            None
        }
    } else {
        None
    }
}

/// The scalar body of wire type `t` starting at `p`.
pub open spec fn dec_scalar(t: u8, s: Seq<u8>, p: int) -> Option<(ScalarView, int)> {
    if t == 1 {
        if p + 1 <= s.len() {
            Some((ScalarView::Boolean(s[p] != 0), p + 1))
        } else {
            None
        }
    } else if t == 3 {
        if p + 1 <= s.len() {
            Some((ScalarView::Byte(s[p]), p + 1))
        } else {
            None
        }
    } else if t == 6 {
        if p + 4 <= s.len() {
            Some((ScalarView::Int32(dec_i32_at(s, p)), p + 4))
        } else {
            None
        }
    } else if t == 7 {
        if p + 4 <= s.len() {
            Some((ScalarView::UInt32(dec_u32_at(s, p)), p + 4))
        } else {
            None
        }
    } else if t == 8 {
        if p + 8 <= s.len() {
            Some((ScalarView::Int64(dec_i64_at(s, p)), p + 8))
        } else {
            None
        }
    } else if t == 12 {
        match dec_bytes(s, p) {
            Some((b, q)) => Some((ScalarView::Text(b), q)),
            None => None,
        }
    } else if t == 13 {
        if p + 8 <= s.len() {
            Some((ScalarView::DateTime(DateTime { ticks: dec_i64_at(s, p) }), p + 8))
        } else {
            None
        }
    } else if t == 15 {
        match dec_bytes(s, p) {
            Some((b, q)) => Some((ScalarView::ByteString(b), q)),
            None => None,
        }
    } else if t == 17 {
        match dec_node_id(s, p) {
            Some((n, q)) => Some((ScalarView::NodeId(n), q)),
            None => None,
        }
    } else if t == 19 {
        if p + 4 <= s.len() {
            Some((ScalarView::Status(StatusCode::spec_canon(dec_u32_at(s, p))), p + 4))
        } else {
            None
        }
    } else {
        None
    }
}

/// The variant starting at `pos`: a type byte and a scalar body.
pub open spec fn dec_variant(s: Seq<u8>, pos: int) -> Option<(VariantView, int)> {
    if 0 <= pos && pos + 1 <= s.len() {
        let t = s[pos];
        if t == 0 {
            Some((VariantView::Empty, pos + 1))
        } else {
            match dec_scalar(t, s, pos + 1) {
                Some((sv, q)) => Some((VariantView::Scalar(sv), q)),
                None => None,
            }
        }
    } else {
        None
    }
}

/// A range over an array value: the whole value, one element, or a span.
#[derive(Clone, Copy, Debug, PartialEq, Eq, Structural)]
pub enum NumericRange {
    Entire,
    Index(u32),
    Range(u32, u32),
}

impl NumericRange {
    /// Whether the range selects a part rather than the whole value.
    pub fn has_range(&self) -> (r: bool)
        ensures
            r == !(*self is Entire),
    {
        match self {
            NumericRange::Entire => false,
            _ => true,
        }
    }
}

/// The ns-0 numeric data-type id of a scalar.
pub open spec fn spec_scalar_data_type(s: ScalarView) -> u32 {
    match s {
        ScalarView::Boolean(_) => 1,
        ScalarView::Byte(_) => 3,
        ScalarView::Int32(_) => 6,
        ScalarView::UInt32(_) => 7,
        ScalarView::Int64(_) => 8,
        ScalarView::Text(_) => 12,
        ScalarView::DateTime(_) => 13,
        ScalarView::ByteString(_) => 15,
        ScalarView::NodeId(_) => 17,
        ScalarView::Status(_) => 19,
    }
}

/// The data type of a variant, when one can be inferred: that of the scalar,
/// or of an array's first element.
pub open spec fn spec_variant_data_type(v: VariantView) -> Option<u32> {
    match v {
        VariantView::Empty => None,
        VariantView::Scalar(s) => Some(spec_scalar_data_type(s)),
        VariantView::Array(a) => if a.len() > 0 {
            Some(spec_scalar_data_type(a[0]))
        } else {
            None
        },
    }
}

impl Scalar {
    /// The ns-0 numeric data-type id of the scalar.
    pub fn data_type_id(&self) -> (r: u32)
        ensures
            r == spec_scalar_data_type(self@),
    {
        match self {
            Scalar::Boolean(_) => 1,
            Scalar::Byte(_) => 3,
            Scalar::Int32(_) => 6,
            Scalar::UInt32(_) => 7,
            Scalar::Int64(_) => 8,
            Scalar::Text(_) => 12,
            Scalar::DateTime(_) => 13,
            Scalar::ByteString(_) => 15,
            Scalar::NodeId(_) => 17,
            Scalar::Status(_) => 19,
        }
    }
}

/// The part of a variant a range selects: the whole value, one array element
/// as a singleton array, or a clipped span of an array. A range into a
/// non-array, or past an array's end, selects nothing.
pub open spec fn spec_range_of(v: VariantView, range: NumericRange) -> Result<
    VariantView,
    StatusCode,
> {
    match range {
        NumericRange::Entire => Ok(v),
        NumericRange::Index(i) => match v {
            VariantView::Array(a) => if (i as int) < a.len() {
                Ok(VariantView::Array(seq![a[i as int]]))
            } else {
                Err(StatusCode::BadIndexRangeInvalid)
            },
            _ => Err(StatusCode::BadIndexRangeInvalid),
        },
        NumericRange::Range(lo, hi) => match v {
            VariantView::Array(a) => if lo <= hi && (lo as int) < a.len() {
                Ok(
                    VariantView::Array(
                        a.subrange(
                            lo as int,
                            if hi as int + 1 < a.len() {
                                hi as int + 1
                            } else {
                                a.len() as int
                            },
                        ),
                    ),
                )
            } else {
                Err(StatusCode::BadIndexRangeInvalid)
            },
            _ => Err(StatusCode::BadIndexRangeInvalid),
        },
    }
}

/// A variant with a span of an array replaced: `Index(i)` takes one scalar,
/// `Range(lo, hi)` takes an array of exactly the span's width; the span must
/// lie within the array. The whole-value range is no splice.
pub open spec fn spec_set_range(v: VariantView, range: NumericRange, w: VariantView) -> Result<
    VariantView,
    StatusCode,
> {
    match range {
        NumericRange::Entire => Err(StatusCode::BadIndexRangeInvalid),
        NumericRange::Index(i) => match (v, w) {
            (VariantView::Array(a), VariantView::Scalar(s)) => if (i as int) < a.len() {
                Ok(VariantView::Array(a.update(i as int, s)))
            } else {
                Err(StatusCode::BadIndexRangeInvalid)
            },
            _ => Err(StatusCode::BadIndexRangeInvalid),
        },
        NumericRange::Range(lo, hi) => match (v, w) {
            (VariantView::Array(a), VariantView::Array(b)) => if lo <= hi && (hi as int) < a.len() && b.len() == hi - lo + 1 {
                Ok(
                    VariantView::Array(
                        Seq::new(
                            a.len(),
                            |k: int|
                                if lo as int <= k <= hi as int {
                                    b[k - lo]
                                } else {
                                    a[k]
                                },
                        ),
                    ),
                )
            } else {
                Err(StatusCode::BadIndexRangeInvalid)
            },
            _ => Err(StatusCode::BadIndexRangeInvalid),
        },
    }
}

impl Variant {
    /// The ns-0 numeric data-type id of the value, when one can be inferred.
    pub fn data_type_id(&self) -> (r: Option<u32>)
        ensures
            r == spec_variant_data_type(self@),
    {
        match self {
            Variant::Empty => None,
            Variant::Scalar(s) => Some(s.data_type_id()),
            Variant::Array(a) => {
                if a.len() > 0 {
                    Some(a[0].data_type_id())
                } else {
                    None
                }
            },
        }
    }

    /// The part of this value a range selects.
    pub fn range_of(&self, range: NumericRange) -> (r: Result<Variant, StatusCode>)
        ensures
            match spec_range_of(self@, range) {
                Ok(v) => r matches Ok(w) && w@ == v,
                Err(e) => r == Err::<Variant, StatusCode>(e),
            },
    {
        match range {
            NumericRange::Entire => Ok(self.duplicate()),
            NumericRange::Index(i) => match self {
                Variant::Array(a) => {
                    if (i as usize) < a.len() {
                        let mut one: Vec<Scalar> = Vec::new();
                        one.push(a[i as usize].duplicate());
                        let r = Variant::Array(one);
                        proof {
                            assert(r@ matches VariantView::Array(s) && s =~= seq![
                                self@->Array_0[i as int],
                            ]);
                        }
                        Ok(r)
                    } else {
                        Err(StatusCode::BadIndexRangeInvalid)
                    }
                },
                _ => Err(StatusCode::BadIndexRangeInvalid),
            },
            NumericRange::Range(lo, hi) => match self {
                Variant::Array(a) => {
                    if lo <= hi && (lo as usize) < a.len() {
                        let end: usize = if (hi as usize) < a.len() - 1 {
                            hi as usize + 1
                        } else {
                            a.len()
                        };
                        let mut part: Vec<Scalar> = Vec::new();
                        let mut k: usize = lo as usize;
                        while k < end
                            invariant
                                lo as usize <= k <= end,
                                end <= a@.len(),
                                part@.len() == k - lo as usize,
                                forall|j: int|
                                    0 <= j < part@.len() ==> part@[j]@ == a@[lo as int + j]@,
                            decreases end - k,
                        {
                            part.push(a[k].duplicate());
                            k += 1;
                        }
                        let r = Variant::Array(part);
                        proof {
                            assert(spec_range_of(self@, range) matches Ok(v) && r@ =~= v);
                        }
                        Ok(r)
                    } else {
                        Err(StatusCode::BadIndexRangeInvalid)
                    }
                },
                _ => Err(StatusCode::BadIndexRangeInvalid),
            },
        }
    }

    /// Replace the span of this value a range selects.
    pub fn set_range_of(&mut self, range: NumericRange, value: &Variant) -> (r: Result<
        (),
        StatusCode,
    >)
        ensures
            match spec_set_range(old(self)@, range, value@) {
                Ok(v) => r is Ok && final (self)@ == v,
                Err(e) => r == Err::<(), StatusCode>(e) && *final (self) == *old(self),
            },
    {
        match range {
            NumericRange::Entire => Err(StatusCode::BadIndexRangeInvalid),
            NumericRange::Index(i) => {
                match (self, value) {
                    (Variant::Array(a), Variant::Scalar(s)) => {
                        if (i as usize) < a.len() {
                            let elem = s.duplicate();
                            a[i as usize] = elem;
                            proof {
                                assert(Seq::new(a@.len(), |k: int| a@[k]@) =~= Seq::new(
                                    old(self)@->Array_0.len(),
                                    |k: int| old(self)@->Array_0[k],
                                ).update(i as int, value@->Scalar_0));
                            }
                            Ok(())
                        } else {
                            Err(StatusCode::BadIndexRangeInvalid)
                        }
                    },
                    _ => Err(StatusCode::BadIndexRangeInvalid),
                }
            },
            NumericRange::Range(lo, hi) => {
                match (self, value) {
                    (Variant::Array(a), Variant::Array(b)) => {
                        if lo <= hi && (hi as usize) < a.len() && b.len() == ((hi - lo) as usize) + 1 {
                            let mut k: usize = 0;
                            let count: usize = b.len();
                            while k < count
                                invariant
                                    k <= count,
                                    count == b@.len(),
                                    lo + count - 1 == hi,
                                    hi < a@.len(),
                                    a@.len() == old(self)@->Array_0.len(),
                                    forall|j: int|
                                        0 <= j < a@.len() && !(lo as int <= j < lo as int
                                            + k) ==> a@[j]@ == old(self)@->Array_0[j],
                                    forall|j: int|
                                        lo as int <= j < lo as int + k ==> a@[j]@ == b@[j
                                            - lo as int]@,
                                decreases count - k,
                            {
                                let elem = b[k].duplicate();
                                a[lo as usize + k] = elem;
                                k += 1;
                            }
                            proof {
                                assert(spec_set_range(old(self)@, range, value@) matches Ok(v)
                                    && Seq::new(a@.len(), |j: int| a@[j]@) =~= v->Array_0);
                            }
                            Ok(())
                        } else {
                            Err(StatusCode::BadIndexRangeInvalid)
                        }
                    },
                    _ => Err(StatusCode::BadIndexRangeInvalid),
                }
            },
        }
    }

    /// A byte-string value as an array of bytes; anything else is left as an
    /// error.
    pub fn to_byte_array(&self) -> (r: Result<Variant, StatusCode>)
        ensures
            match self@ {
                VariantView::Scalar(s) => match s {
                    ScalarView::ByteString(b) => r matches Ok(v) && v@ == VariantView::Array(
                        Seq::new(b.len(), |i: int| ScalarView::Byte(b[i])),
                    ),
                    _ => r == Err::<Variant, StatusCode>(StatusCode::BadUnexpectedError),
                },
                _ => r == Err::<Variant, StatusCode>(StatusCode::BadUnexpectedError),
            },
    {
        match self {
            Variant::Scalar(Scalar::ByteString(b)) => {
                let mut out: Vec<Scalar> = Vec::new();
                let mut i: usize = 0;
                while i < b.len()
                    invariant
                        i <= b@.len(),
                        out@.len() == i,
                        forall|j: int| 0 <= j < i ==> out@[j]@ == ScalarView::Byte(b@[j]),
                    decreases b@.len() - i,
                {
                    out.push(Scalar::Byte(b[i]));
                    i += 1;
                }
                let r = Variant::Array(out);
                proof {
                    assert(r@->Array_0 =~= Seq::new(
                        self@->Scalar_0->ByteString_0.len(),
                        |j: int| ScalarView::Byte(self@->Scalar_0->ByteString_0[j]),
                    ));
                }
                Ok(r)
            },
            _ => Err(StatusCode::BadUnexpectedError),
        }
    }
}

/// Bytes of a slice of `s` equal the bytes of the sequence it matches.
pub proof fn lemma_bytes_at(s: Seq<u8>, pos: int, e: Seq<u8>)
    requires
        0 <= pos,
        pos + e.len() <= s.len(),
        s.subrange(pos, pos + e.len()) == e,
    ensures
        forall|k: int| pos <= k < pos + e.len() ==> #[trigger] s[k] == e[k - pos],
{
    assert forall|k: int| pos <= k < pos + e.len() implies #[trigger] s[k] == e[k - pos] by {
        assert(e[k - pos] == s.subrange(pos, pos + e.len() as int)[k - pos]);
    }
}

/// Reading a byte string where its wire image was written yields the bytes
/// written.
pub proof fn lemma_bytes_roundtrip(b: Seq<u8>, s: Seq<u8>, p: int)
    requires
        b.len() <= 0x7fff_ffff,
        0 <= p,
        p + enc_bytes(b).len() <= s.len(),
        s.subrange(p, p + enc_bytes(b).len()) == enc_bytes(b),
    ensures
        dec_bytes(s, p) == Some((b, p + enc_bytes(b).len())),
{
    let e = enc_bytes(b);
    let n = b.len() as i32;
    lemma_bytes_at(s, p, e);
    lemma_i32_roundtrip(n);
    assert(dec_i32_at(s, p) == n);
    assert(s.subrange(p + 4, p + 4 + n as int) =~= b);
}

/// Reading a variant where its wire image was written yields the variant
/// written.
pub proof fn lemma_variant_roundtrip(v: VariantView, s: Seq<u8>, pos: int)
    requires
        variant_encodable(v),
        0 <= pos,
        pos + enc_variant(v).len() <= s.len(),
        s.subrange(pos, pos + enc_variant(v).len()) == enc_variant(v),
    ensures
        dec_variant(s, pos) == Some((v, pos + enc_variant(v).len())),
{
    let e = enc_variant(v);
    lemma_bytes_at(s, pos, e);
    match v {
        VariantView::Empty => {},
        VariantView::Scalar(sv) => {
            let p = pos + 1;
            let body = enc_scalar_body(sv);
            assert(s.subrange(p, p + body.len()) =~= body);
            lemma_bytes_at(s, p, body);
            match sv {
                ScalarView::Boolean(b) => {},
                ScalarView::Byte(b) => {},
                ScalarView::Int32(x) => {
                    lemma_i32_roundtrip(x);
                    assert(dec_i32_at(s, p) == x);
                },
                ScalarView::UInt32(x) => {
                    lemma_u32_roundtrip(x);
                    assert(dec_u32_at(s, p) == x);
                },
                ScalarView::Int64(x) => {
                    lemma_i64_roundtrip(x);
                    assert(dec_i64_at(s, p) == x);
                },
                ScalarView::Text(b) => {
                    lemma_bytes_roundtrip(b, s, p);
                },
                ScalarView::DateTime(d) => {
                    lemma_i64_roundtrip(d.ticks);
                    assert(dec_i64_at(s, p) == d.ticks);
                },
                ScalarView::ByteString(b) => {
                    lemma_bytes_roundtrip(b, s, p);
                },
                ScalarView::NodeId(n) => {
                    match n.identifier {
                        IdentifierView::Numeric(id) => {
                            lemma_u16_roundtrip(n.namespace);
                            lemma_u32_roundtrip(id);
                            assert(s[p] == 2);
                            assert(dec_u16_at(s, p + 1) == n.namespace);
                            assert(dec_u32_at(s, p + 3) == id);
                        },
                        IdentifierView::Text(b) => {
                            lemma_u16_roundtrip(n.namespace);
                            assert(s[p] == 3);
                            assert(dec_u16_at(s, p + 1) == n.namespace);
                            assert(s.subrange(p + 3, p + 3 + enc_bytes(b).len())
                                =~= enc_bytes(b));
                            lemma_bytes_roundtrip(b, s, p + 3);
                        },
                    }
                },
                ScalarView::Status(c) => {
                    lemma_u32_roundtrip(c.spec_bits());
                    assert(dec_u32_at(s, p) == c.spec_bits());
                },
            }
        },
        VariantView::Array(_) => {},
    }
}

impl Variant {
    /// Whether this variant has a wire image the codec can write.
    pub fn is_encodable(&self) -> (r: bool)
        ensures
            r == variant_encodable(self@),
    {
        match self {
            Variant::Empty => true,
            Variant::Scalar(s) => match s {
                Scalar::Text(b) => b.len() <= 0x7fff_ffff,
                Scalar::ByteString(b) => b.len() <= 0x7fff_ffff,
                Scalar::NodeId(n) => match &n.identifier {
                    Identifier::Numeric(_) => true,
                    Identifier::Text(b) => b.len() <= 0x7fff_ffff,
                },
                Scalar::Status(c) => {
                    let canon = StatusCode::from_bits(c.bits());
                    canon == *c
                },
                _ => true,
            },
            Variant::Array(_) => false,
        }
    }
}

impl Variant {
    /// The length of this variant's wire image.
    pub fn byte_len(&self) -> (r: usize)
        requires
            variant_encodable(self@),
        ensures
            r == enc_variant(self@).len(),
    {
        match self {
            Variant::Empty => 1,
            Variant::Scalar(s) => match s {
                Scalar::Boolean(_) => 2,
                Scalar::Byte(_) => 2,
                Scalar::Int32(_) => 5,
                Scalar::UInt32(_) => 5,
                Scalar::Int64(_) => 9,
                Scalar::Text(b) => 5 + b.len(),
                Scalar::DateTime(_) => 9,
                Scalar::ByteString(b) => 5 + b.len(),
                Scalar::NodeId(n) => match &n.identifier {
                    Identifier::Numeric(_) => 8,
                    Identifier::Text(b) => 8 + b.len(),
                },
                Scalar::Status(_) => 5,
            },
            Variant::Array(_) => {
                proof {
                    assert(false);
                }
                0
            },
        }
    }
}

/// Append the wire image of a byte string.
pub fn write_bytes(out: &mut Vec<u8>, b: &Vec<u8>)
    requires
        b@.len() <= 0x7fff_ffff,
    ensures
        final (out)@ == old(out)@ + enc_bytes(b@),
{
    write_i32(out, b.len() as i32);
    write_all(out, b);
    proof {
        assert(out@ =~= old(out)@ + enc_bytes(b@));
    }
}

/// Append the wire image of a node id.
pub fn write_node_id(out: &mut Vec<u8>, n: &NodeId)
    requires
        scalar_encodable(ScalarView::NodeId(n@)),
    ensures
        final (out)@ == old(out)@ + enc_node_id(n@),
{
    match &n.identifier {
        Identifier::Numeric(v) => {
            out.push(2u8);
            write_u16(out, n.namespace);
            write_u32(out, *v);
            proof {
                assert(out@ =~= old(out)@ + enc_node_id(n@));
            }
        },
        Identifier::Text(b) => {
            out.push(3u8);
            write_u16(out, n.namespace);
            write_bytes(out, b);
            proof {
                assert(out@ =~= old(out)@ + enc_node_id(n@));
            }
        },
    }
}

/// Append the wire image of a variant. Arrays have none and leave `out`
/// unchanged.
pub fn encode_variant(v: &Variant, out: &mut Vec<u8>) -> (r: Result<(), StatusCode>)
    ensures
        variant_encodable(v@) ==> r is Ok && final (out)@ == old(out)@ + enc_variant(v@),
        !variant_encodable(v@) ==> r == Err::<(), StatusCode>(StatusCode::BadEncodingError)
            && final (out)@ == old(out)@,
{
    if !v.is_encodable() {
        return Err(StatusCode::BadEncodingError);
    }
    match v {
        Variant::Empty => {
            out.push(0u8);
            proof {
                assert(out@ =~= old(out)@ + enc_variant(v@));
            }
        },
        Variant::Scalar(s) => {
            match s {
                Scalar::Boolean(b) => {
                    out.push(1u8);
                    out.push(
                        if *b {
                            1u8
                        } else {
                            0u8
                        },
                    );
                },
                Scalar::Byte(b) => {
                    out.push(3u8);
                    out.push(*b);
                },
                Scalar::Int32(x) => {
                    out.push(6u8);
                    write_i32(out, *x);
                },
                Scalar::UInt32(x) => {
                    out.push(7u8);
                    write_u32(out, *x);
                },
                Scalar::Int64(x) => {
                    out.push(8u8);
                    write_i64(out, *x);
                },
                Scalar::Text(b) => {
                    out.push(12u8);
                    write_bytes(out, b);
                },
                Scalar::DateTime(d) => {
                    out.push(13u8);
                    write_i64(out, d.ticks);
                },
                Scalar::ByteString(b) => {
                    out.push(15u8);
                    write_bytes(out, b);
                },
                Scalar::NodeId(n) => {
                    out.push(17u8);
                    write_node_id(out, n);
                },
                Scalar::Status(c) => {
                    out.push(19u8);
                    write_u32(out, c.bits());
                },
            }
            proof {
                assert(out@ =~= old(out)@ + enc_variant(v@));
            }
        },
        Variant::Array(_) => {
            proof {
                assert(false);
            }
        },
    }
    Ok(())
}

/// Read a length-prefixed byte string.
pub fn read_bytes(buf: &Vec<u8>, pos: usize) -> (r: Option<(Vec<u8>, usize)>)
    ensures
        match dec_bytes(buf@, pos as int) {
            Some(p) => r matches Some(q) && q.0@ == p.0 && q.1 == p.1,
            None => r is None,
        },
{
    let (n, p) = match read_i32(buf, pos) {
        Some(x) => x,
        None => {
            return None;
        },
    };
    if n < 0 {
        return None;
    }
    let n = n as usize;
    match read_exact(buf, p, n) {
        Some((v, q)) => {
            proof {
                assert(dec_bytes(buf@, pos as int) matches Some(dp) && dp.0 == v@ && dp.1 == q);
            }
            Some((v, q))
        },
        None => None,
    }
}

/// Read a node id.
pub fn read_node_id(buf: &Vec<u8>, pos: usize) -> (r: Option<(NodeId, usize)>)
    ensures
        match dec_node_id(buf@, pos as int) {
            Some(p) => r matches Some(q) && q.0@ == p.0 && q.1 == p.1,
            None => r is None,
        },
{
    if pos >= buf.len() {
        return None;
    }
    let f = buf[pos];
    if f == 2 {
        let (ns, p1) = match read_u16(buf, pos + 1) {
            Some(x) => x,
            None => {
                return None;
            },
        };
        let (id, p2) = match read_u32(buf, p1) {
            Some(x) => x,
            None => {
                return None;
            },
        };
        proof {
            assert(dec_node_id(buf@, pos as int) matches Some(p) && p.0 == (NodeIdView {
                namespace: ns,
                identifier: IdentifierView::Numeric(id),
            }) && p.1 == p2);
        }
        Some((NodeId { namespace: ns, identifier: Identifier::Numeric(id) }, p2))
    } else if f == 3 {
        let (ns, p1) = match read_u16(buf, pos + 1) {
            Some(x) => x,
            None => {
                return None;
            },
        };
        let (b, p2) = match read_bytes(buf, p1) {
            Some(x) => x,
            None => {
                return None;
            },
        };
        Some((NodeId { namespace: ns, identifier: Identifier::Text(b) }, p2))
    } else {
        None
    }
}

/// Read a variant.
pub fn decode_variant(buf: &Vec<u8>, pos: usize) -> (r: Option<(Variant, usize)>)
    ensures
        match dec_variant(buf@, pos as int) {
            Some(p) => r matches Some(q) && q.0@ == p.0 && q.1 == p.1,
            None => r is None,
        },
{
    if pos >= buf.len() {
        return None;
    }
    let t = buf[pos];
    let p = pos + 1;
    if t == 0 {
        return Some((Variant::Empty, p));
    }
    let sc: Option<(Scalar, usize)> = if t == 1 {
        if p < buf.len() {
            Some((Scalar::Boolean(buf[p] != 0), p + 1))
        } else {
            None
        }
    } else if t == 3 {
        if p < buf.len() {
            Some((Scalar::Byte(buf[p]), p + 1))
        } else {
            None
        }
    } else if t == 6 {
        match read_i32(buf, p) {
            Some((v, q)) => Some((Scalar::Int32(v), q)),
            None => None,
        }
    } else if t == 7 {
        match read_u32(buf, p) {
            Some((v, q)) => Some((Scalar::UInt32(v), q)),
            None => None,
        }
    } else if t == 8 {
        match read_i64(buf, p) {
            Some((v, q)) => Some((Scalar::Int64(v), q)),
            None => None,
        }
    } else if t == 12 {
        match read_bytes(buf, p) {
            Some((v, q)) => Some((Scalar::Text(v), q)),
            None => None,
        }
    } else if t == 13 {
        match read_i64(buf, p) {
            Some((v, q)) => Some((Scalar::DateTime(DateTime { ticks: v }), q)),
            None => None,
        }
    } else if t == 15 {
        match read_bytes(buf, p) {
            Some((v, q)) => Some((Scalar::ByteString(v), q)),
            None => None,
        }
    } else if t == 17 {
        match read_node_id(buf, p) {
            Some((v, q)) => Some((Scalar::NodeId(v), q)),
            None => None,
        }
    } else if t == 19 {
        match read_u32(buf, p) {
            Some((v, q)) => Some((Scalar::Status(StatusCode::from_bits(v)), q)),
            None => None,
        }
    } else {
        None
    };
    match sc {
        Some((s, q)) => Some((Variant::Scalar(s), q)),
        None => None,
    }
}

} // verus!
