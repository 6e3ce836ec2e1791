//! Variables in the address space, and their builder.

use vstd::prelude::*;

use crate::attribute::{
    mask_contains,
    mask_valid,
    AttributeId,
    FromAttributesError,
    ACCESS_CURRENT_READ,
    ACCESS_CURRENT_WRITE,
    ACCESS_HISTORY_READ,
    ACCESS_HISTORY_WRITE,
    MASK_ACCESS_LEVEL,
    MASK_ARRAY_DIMENSIONS,
    MASK_DATA_TYPE,
    MASK_DESCRIPTION,
    MASK_DISPLAY_NAME,
    MASK_HISTORIZING,
    MASK_MINIMUM_SAMPLING_INTERVAL,
    MASK_USER_ACCESS_LEVEL,
    MASK_USER_WRITE_MASK,
    MASK_VALUE,
    MASK_VALUE_RANK,
    MASK_WRITE_MASK,
    spec_mask_contains,
    spec_mask_valid,
};
use crate::base::{Base, BaseView};
use crate::data_value::{DataValue, DataValueView, TimestampsToReturn};
use crate::date_time::DateTime;
use crate::node_id::{LocalizedText, NodeClass, NodeId, NodeIdView, QualifiedName};
use crate::status::StatusCode;
use crate::variant::{
    spec_range_of,
    spec_set_range,
    spec_variant_data_type,
    NumericRange,
    Scalar,
    ScalarView,
    Variant,
    VariantView,
};

verus! {

/// Mathematical image of a [`Variable`].
pub struct VariableView {
    pub base: BaseView,
    pub data_type: NodeIdView,
    pub historizing: bool,
    pub value_rank: i32,
    pub value: DataValueView,
    pub access_level: u8,
    pub user_access_level: u8,
    pub array_dimensions: Option<Seq<u32>>,
    pub minimum_sampling_interval: Option<i64>,
}

/// A variable node: a typed value with access control. The minimum sampling
/// interval is carried in whole milliseconds.
#[derive(Debug)]
pub struct Variable {
    /// The attributes every node carries.
    pub base: Base,
    /// The data type of the value.
    pub data_type: NodeId,
    /// Whether new values are kept in a historical store.
    pub historizing: bool,
    /// Scalar (-1) or the number of array dimensions.
    pub value_rank: i32,
    /// The current value.
    pub value: DataValue,
    /// What any client may do with the value.
    pub access_level: u8,
    /// What the current user may do with the value.
    pub user_access_level: u8,
    /// The lengths of the array dimensions, when the value is an array.
    pub array_dimensions: Option<Vec<u32>>,
    /// How fast the server can reasonably sample the value, in milliseconds.
    pub minimum_sampling_interval: Option<i64>,
}

impl View for Variable {
    type V = VariableView;

    open spec fn view(&self) -> VariableView {
        VariableView {
            base: self.base@,
            data_type: self.data_type@,
            historizing: self.historizing,
            value_rank: self.value_rank,
            value: self.value@,
            access_level: self.access_level,
            user_access_level: self.user_access_level,
            array_dimensions: match &self.array_dimensions {
                Some(d) => Some(d@),
                None => None,
            },
            minimum_sampling_interval: self.minimum_sampling_interval,
        }
    }
}

impl VariableView {
    /// Whether a written value is converted first: a byte string going into a
    /// one-dimensional byte-array variable becomes a byte array.
    pub open spec fn spec_converts_byte_string(self, value: VariantView) -> bool {
        &&& (self.value_rank == -3 || self.value_rank == -2 || self.value_rank == 1)
        &&& self.data_type == (NodeIdView {
            namespace: 0,
            identifier: crate::node_id::IdentifierView::Numeric(3),
        })
        &&& value matches VariantView::Scalar(ScalarView::ByteString(_))
    }

    /// The value as it is stored: converted when the byte-array rule applies.
    pub open spec fn spec_written_value(self, value: VariantView) -> VariantView {
        if self.spec_converts_byte_string(value) {
            VariantView::Array(
                Seq::new(
                    value->Scalar_0->ByteString_0.len(),
                    |i: int| ScalarView::Byte(value->Scalar_0->ByteString_0[i]),
                ),
            )
        } else {
            value
        }
    }
}

/// The attribute record a variable can be built from.
#[derive(Debug)]
pub struct VariableAttributes {
    pub specified_attributes: u32,
    pub display_name: LocalizedText,
    pub description: LocalizedText,
    pub write_mask: u32,
    pub user_write_mask: u32,
    pub value: Variant,
    pub data_type: NodeId,
    pub value_rank: i32,
    pub access_level: u8,
    pub user_access_level: u8,
    pub minimum_sampling_interval: i64,
    pub historizing: bool,
    pub array_dimensions: Option<Vec<u32>>,
}

impl Default for Variable {
    /// An empty variable: null id and type, scalar rank, readable, no value.
    fn default() -> (r: Variable)
        ensures
            r@.base.node_id.is_null(),
            r@.data_type.is_null(),
            !r@.historizing,
            r@.value_rank == -1,
            r@.value.value == Some(VariantView::Empty),
            r@.access_level == ACCESS_CURRENT_READ,
            r@.user_access_level == ACCESS_CURRENT_READ,
            r@.array_dimensions is None,
            r@.minimum_sampling_interval is None,
    {
        Variable {
            base: Base::new(
                NodeClass::Variable,
                &NodeId::null(),
                QualifiedName::new(0, String::new()),
                LocalizedText::new(String::new()),
            ),
            data_type: NodeId::null(),
            historizing: false,
            value_rank: -1,
            value: DataValue::value_only(Variant::Empty),
            access_level: ACCESS_CURRENT_READ,
            user_access_level: ACCESS_CURRENT_READ,
            array_dimensions: None,
            minimum_sampling_interval: None,
        }
    }
}

impl Variable {
    /// A new variable with the data type and value rank inferred from the
    /// value. The value must carry an inferable type: not empty, not an empty
    /// array.
    pub fn new(
        node_id: &NodeId,
        browse_name: QualifiedName,
        display_name: LocalizedText,
        value: Variant,
    ) -> (r: Variable)
        requires
            spec_variant_data_type(value@) is Some,
        ensures
            r@.base.node_id == node_id@,
            r@.base.browse_name == browse_name@,
            r@.base.display_name == display_name@,
            r@.data_type == (NodeIdView {
                namespace: 0,
                identifier: crate::node_id::IdentifierView::Numeric(
                    spec_variant_data_type(value@)->0,
                ),
            }),
            r@.value.value == Some(value@),
            !r@.historizing,
            r@.access_level == ACCESS_CURRENT_READ,
            r@.user_access_level == ACCESS_CURRENT_READ,
    {
        let data_type = match value.data_type_id() {
            Some(id) => NodeId::new_numeric(0, id),
            None => NodeId::null(),
        };
        Variable::new_data_value(node_id, browse_name, display_name, data_type, None, None, value)
    }

    /// A new variable with every attribute given.
    pub fn new_full(
        base: Base,
        data_type: NodeId,
        historizing: bool,
        value_rank: i32,
        value: DataValue,
        access_level: u8,
        user_access_level: u8,
        array_dimensions: Option<Vec<u32>>,
        minimum_sampling_interval: Option<i64>,
    ) -> (r: Variable)
        ensures
            r@.base == base@,
            r@.data_type == data_type@,
            r@.historizing == historizing,
            r@.value_rank == value_rank,
            r@.value == value@,
            r@.access_level == access_level,
            r@.user_access_level == user_access_level,
            r@.minimum_sampling_interval == minimum_sampling_interval,
    {
        Variable {
            base,
            data_type,
            historizing,
            value_rank,
            value,
            access_level,
            user_access_level,
            array_dimensions,
            minimum_sampling_interval,
        }
    }

    /// A new variable with the given id, names, type and value. The array
    /// dimensions, when not given, are taken from the value: an array's
    /// length becomes its one dimension; the value rank, when not given,
    /// follows the dimensions.
    pub fn new_data_value(
        node_id: &NodeId,
        browse_name: QualifiedName,
        display_name: LocalizedText,
        data_type: NodeId,
        value_rank: Option<i32>,
        array_dimension: Option<u32>,
        value: Variant,
    ) -> (r: Variable)
        ensures
            r@.base.node_id == node_id@,
            r@.base.browse_name == browse_name@,
            r@.base.display_name == display_name@,
            r@.data_type == data_type@,
            r@.value.value == Some(value@),
            !r@.historizing,
            r@.access_level == ACCESS_CURRENT_READ,
            r@.user_access_level == ACCESS_CURRENT_READ,
            r@.minimum_sampling_interval is None,
            r@.base.description is None,
            r@.base.write_mask == 0,
            r@.base.user_write_mask == 0,
            value_rank matches Some(vr) ==> r@.value_rank == vr,
    {
        let array_dimensions: Option<Vec<u32>> = match array_dimension {
            Some(d) => {
                let mut v: Vec<u32> = Vec::new();
                v.push(d);
                Some(v)
            },
            None => {
                match &value {
                    Variant::Array(a) => {
                        if a.len() <= u32::MAX as usize {
                            let mut v: Vec<u32> = Vec::new();
                            v.push(a.len() as u32);
                            Some(v)
                        } else {
                            None
                        }
                    },
                    _ => None,
                }
            },
        };
        let value_rank: i32 = match value_rank {
            Some(vr) => vr,
            None => {
                match &array_dimensions {
                    Some(d) => {
                        if d.len() <= i32::MAX as usize {
                            d.len() as i32
                        } else {
                            -1
                        }
                    },
                    None => -1,
                }
            },
        };
        Variable {
            base: Base::new(NodeClass::Variable, node_id, browse_name, display_name),
            data_type,
            historizing: false,
            value_rank,
            value: DataValue::value_only(value),
            access_level: ACCESS_CURRENT_READ,
            user_access_level: ACCESS_CURRENT_READ,
            array_dimensions,
            minimum_sampling_interval: None,
        }
    }

    /// Build a variable from an attribute record. The mask must carry only
    /// defined bits and must specify the display name, the access levels, the
    /// data type, historizing, the value and the value rank.
    pub fn from_attributes(
        node_id: &NodeId,
        browse_name: QualifiedName,
        attributes: VariableAttributes,
    ) -> (r: Result<Variable, FromAttributesError>)
        ensures
            !spec_mask_valid(attributes.specified_attributes) ==> (r matches Err(e) && e
                == FromAttributesError::InvalidMask),
            spec_mask_valid(attributes.specified_attributes) && !spec_mask_contains(
                attributes.specified_attributes,
                MASK_DISPLAY_NAME | MASK_ACCESS_LEVEL | MASK_USER_ACCESS_LEVEL | MASK_DATA_TYPE
                    | MASK_HISTORIZING | MASK_VALUE | MASK_VALUE_RANK,
            ) ==> (r matches Err(e) && e == FromAttributesError::MissingMandatoryValues),
            spec_mask_valid(attributes.specified_attributes) && spec_mask_contains(
                attributes.specified_attributes,
                MASK_DISPLAY_NAME | MASK_ACCESS_LEVEL | MASK_USER_ACCESS_LEVEL | MASK_DATA_TYPE
                    | MASK_HISTORIZING | MASK_VALUE | MASK_VALUE_RANK,
            ) ==> (r matches Ok(n) && n@.base.node_id == node_id@ && n@.base.browse_name
                == browse_name@ && n@.base.display_name == attributes.display_name@ && n@.data_type
                == attributes.data_type@ && n@.value.value == Some(attributes.value@)
                && n@.value_rank == attributes.value_rank && n@.historizing
                == attributes.historizing && n@.access_level == attributes.access_level
                && n@.user_access_level == attributes.user_access_level
                && n@.minimum_sampling_interval == (if spec_mask_contains(
                attributes.specified_attributes,
                MASK_MINIMUM_SAMPLING_INTERVAL,
            ) {
                Some(attributes.minimum_sampling_interval)
            } else {
                None
            })),
    {
        if !mask_valid(attributes.specified_attributes) {
            return Err(FromAttributesError::InvalidMask);
        }
        let mandatory = MASK_DISPLAY_NAME | MASK_ACCESS_LEVEL | MASK_USER_ACCESS_LEVEL
            | MASK_DATA_TYPE | MASK_HISTORIZING | MASK_VALUE | MASK_VALUE_RANK;
        if !mask_contains(attributes.specified_attributes, mandatory) {
            return Err(FromAttributesError::MissingMandatoryValues);
        }
        let mut node = Self::new_data_value(
            node_id,
            browse_name,
            attributes.display_name,
            attributes.data_type,
            None,
            None,
            attributes.value,
        );
        node.set_value_rank(attributes.value_rank);
        node.set_historizing(attributes.historizing);
        node.set_access_level(attributes.access_level);
        node.set_user_access_level(attributes.user_access_level);
        if mask_contains(attributes.specified_attributes, MASK_DESCRIPTION) {
            node.base.set_description(attributes.description);
        }
        if mask_contains(attributes.specified_attributes, MASK_WRITE_MASK) {
            node.base.set_write_mask(attributes.write_mask);
        }
        if mask_contains(attributes.specified_attributes, MASK_USER_WRITE_MASK) {
            node.base.set_user_write_mask(attributes.user_write_mask);
        }
        if mask_contains(attributes.specified_attributes, MASK_ARRAY_DIMENSIONS) {
            if let Some(dims) = attributes.array_dimensions {
                node.array_dimensions = Some(dims);
            }
        }
        if mask_contains(attributes.specified_attributes, MASK_MINIMUM_SAMPLING_INTERVAL) {
            node.set_minimum_sampling_interval(attributes.minimum_sampling_interval);
        }
        Ok(node)
    }

    /// Whether this is a valid variable node: a real data type on a valid
    /// base.
    pub fn is_valid(&self) -> (r: bool)
        ensures
            r == (!self@.data_type.is_null() && self.base.spec_is_valid()),
    {
        !self.data_type.is_null() && self.base.is_valid()
    }

    /// Read the value: the stored data value with the requested part of the
    /// value selected and only the requested timestamps kept. A failed range
    /// selection comes back as the error status with no value.
    pub fn value(
        &self,
        timestamps_to_return: TimestampsToReturn,
        index_range: NumericRange,
    ) -> (r: DataValue)
        ensures
            r@.value == match spec_range_of(
                match self@.value.value {
                    Some(v) => v,
                    None => VariantView::Empty,
                },
                index_range,
            ) {
                Ok(v) => if self@.value.value is Some {
                    Some(v)
                } else {
                    None
                },
                Err(_) => None,
            },
            self@.value.value is Some ==> r@.status == match spec_range_of(
                self@.value.value->0,
                index_range,
            ) {
                Ok(_) => self@.value.status,
                Err(e) => Some(e),
            },
            r@.source_timestamp == if timestamps_to_return == TimestampsToReturn::Server
                || timestamps_to_return == TimestampsToReturn::Neither {
                None
            } else {
                self@.value.source_timestamp
            },
            r@.server_timestamp == if timestamps_to_return == TimestampsToReturn::Source
                || timestamps_to_return == TimestampsToReturn::Neither {
                None
            } else {
                self@.value.server_timestamp
            },
    {
        let mut result = DataValue {
            value: None,
            status: None,
            source_timestamp: self.value.source_timestamp,
            source_picoseconds: self.value.source_picoseconds,
            server_timestamp: self.value.server_timestamp,
            server_picoseconds: self.value.server_picoseconds,
        };
        if let Some(v) = &self.value.value {
            match v.range_of(index_range) {
                Ok(part) => {
                    result.value = Some(part);
                    result.status = self.value.status;
                },
                Err(e) => {
                    result.status = Some(e);
                },
            }
        }
        match timestamps_to_return {
            TimestampsToReturn::Source => {
                result.server_timestamp = None;
                result.server_picoseconds = None;
            },
            TimestampsToReturn::Server => {
                result.source_timestamp = None;
                result.source_picoseconds = None;
            },
            TimestampsToReturn::Neither => {
                result.server_timestamp = None;
                result.source_timestamp = None;
                result.server_picoseconds = None;
                result.source_picoseconds = None;
            },
            TimestampsToReturn::Both => {},
            TimestampsToReturn::Invalid => {},
        }
        result
    }

    /// Set the value, stamping both timestamps `now`. A byte string written
    /// to a one-dimensional byte-array variable is converted to a byte
    /// array first.
    pub fn set_value(&mut self, index_range: NumericRange, value: Variant, now: DateTime) -> (r:
        Result<(), StatusCode>)
        ensures
            ({
                let written = old(self)@.spec_written_value(value@);
                &&& (index_range == NumericRange::Entire ==> r is Ok && final (self)@.value
                    == (DataValueView {
                    value: Some(written),
                    status: Some(StatusCode::Good),
                    server_timestamp: Some(now),
                    source_timestamp: Some(now),
                    ..old(self)@.value
                }))
                &&& (index_range != NumericRange::Entire && old(self)@.value.value is None ==> r
                    == Err::<(), StatusCode>(StatusCode::BadIndexRangeInvalid))
                &&& (index_range != NumericRange::Entire && old(self)@.value.value is Some
                    ==> match spec_set_range(old(self)@.value.value->0, index_range, written) {
                    Ok(v) => r is Ok && final (self)@.value == (DataValueView {
                        value: Some(v),
                        status: Some(StatusCode::Good),
                        server_timestamp: Some(now),
                        source_timestamp: Some(now),
                        ..old(self)@.value
                    }),
                    Err(e) => r == Err::<(), StatusCode>(e),
                })
            }),
    {
        let needs_conversion = (self.value_rank == -3 || self.value_rank == -2 || self.value_rank
            == 1) && {
            let byte_type = NodeId::new_numeric(0, 3);
            self.data_type.same(&byte_type)
        } && (match &value {
            Variant::Scalar(Scalar::ByteString(_)) => true,
            _ => false,
        });
        let value = if needs_conversion {
            match value.to_byte_array() {
                Ok(v) => v,
                Err(e) => {
                    proof {
                        assert(false);
                    }
                    return Err(e);
                },
            }
        } else {
            value
        };
        if index_range.has_range() {
            self.set_value_range(value, index_range, StatusCode::Good, &now, &now)
        } else {
            self.set_value_direct(value, StatusCode::Good, &now, &now)
        }
    }

    /// Set a part of the current value given by `index_range`; the whole
    /// value when the range is the entire one.
    pub fn set_value_range(
        &mut self,
        value: Variant,
        index_range: NumericRange,
        status_code: StatusCode,
        server_timestamp: &DateTime,
        source_timestamp: &DateTime,
    ) -> (r: Result<(), StatusCode>)
        ensures
            index_range == NumericRange::Entire ==> r is Ok && final (self)@.value
                == (DataValueView {
                value: Some(value@),
                status: Some(status_code),
                server_timestamp: Some(*server_timestamp),
                source_timestamp: Some(*source_timestamp),
                ..old(self)@.value
            }),
            index_range != NumericRange::Entire && old(self)@.value.value is None ==> r == Err::<
                (),
                StatusCode,
            >(StatusCode::BadIndexRangeInvalid),
            index_range != NumericRange::Entire && old(self)@.value.value is Some ==> match spec_set_range(
                old(self)@.value.value->0,
                index_range,
                value@,
            ) {
                Ok(v) => r is Ok && final (self)@.value == (DataValueView {
                    value: Some(v),
                    status: Some(status_code),
                    server_timestamp: Some(*server_timestamp),
                    source_timestamp: Some(*source_timestamp),
                    ..old(self)@.value
                }),
                Err(e) => r == Err::<(), StatusCode>(e),
            },
    {
        if let NumericRange::Entire = index_range {
            self.value.value = Some(value);
            self.value.status = Some(status_code);
            self.value.server_timestamp = Some(*server_timestamp);
            self.value.source_timestamp = Some(*source_timestamp);
            return Ok(());
        }
        match &mut self.value.value {
            Some(full_value) => {
                match full_value.set_range_of(index_range, &value) {
                    Ok(_) => {
                        self.value.status = Some(status_code);
                        self.value.server_timestamp = Some(*server_timestamp);
                        self.value.source_timestamp = Some(*source_timestamp);
                        Ok(())
                    },
                    Err(e) => Err(e),
                }
            },
            None => Err(StatusCode::BadIndexRangeInvalid),
        }
    }

    /// Replace the value outright with the given status and timestamps.
    pub fn set_value_direct(
        &mut self,
        value: Variant,
        status_code: StatusCode,
        server_timestamp: &DateTime,
        source_timestamp: &DateTime,
    ) -> (r: Result<(), StatusCode>)
        ensures
            r is Ok,
            final (self)@ == (VariableView {
                value: DataValueView {
                    value: Some(value@),
                    status: Some(status_code),
                    server_timestamp: Some(*server_timestamp),
                    source_timestamp: Some(*source_timestamp),
                    ..old(self)@.value
                },
                ..old(self)@
            }),
    {
        self.value.value = Some(value);
        self.value.status = Some(status_code);
        self.value.server_timestamp = Some(*server_timestamp);
        self.value.source_timestamp = Some(*source_timestamp);
        Ok(())
    }

    /// Replace the whole stored data value.
    pub fn set_data_value(&mut self, value: DataValue)
        ensures
            final (self)@ == (VariableView { value: value@, ..old(self)@ }),
    {
        self.value = value;
    }

    /// The minimum sampling interval, in milliseconds, when set.
    pub fn minimum_sampling_interval(&self) -> (r: Option<i64>)
        ensures
            r == self@.minimum_sampling_interval,
    {
        self.minimum_sampling_interval
    }

    /// Set the minimum sampling interval, in milliseconds.
    pub fn set_minimum_sampling_interval(&mut self, interval_ms: i64)
        ensures
            final (self)@ == (VariableView {
                minimum_sampling_interval: Some(interval_ms),
                ..old(self)@
            }),
    {
        self.minimum_sampling_interval = Some(interval_ms);
    }

    /// Whether services may read the value.
    pub fn is_readable(&self) -> (r: bool)
        ensures
            r == (self@.access_level & ACCESS_CURRENT_READ != 0),
    {
        self.access_level & ACCESS_CURRENT_READ != 0
    }

    /// Whether services may write the value.
    pub fn is_writable(&self) -> (r: bool)
        ensures
            r == (self@.access_level & ACCESS_CURRENT_WRITE != 0),
    {
        self.access_level & ACCESS_CURRENT_WRITE != 0
    }

    /// Grant or revoke writing in the access level.
    pub fn set_writable(&mut self, writable: bool)
        ensures
            writable ==> final (self)@ == (VariableView {
                access_level: old(self)@.access_level | ACCESS_CURRENT_WRITE,
                ..old(self)@
            }),
            !writable ==> final (self)@ == (VariableView {
                access_level: old(self)@.access_level & 0xfd,
                ..old(self)@
            }),
    {
        if writable {
            self.access_level = self.access_level | ACCESS_CURRENT_WRITE;
        } else {
            self.access_level = self.access_level & 0xfd;
        }
    }

    /// The access level.
    pub fn access_level(&self) -> (r: u8)
        ensures
            r == self@.access_level,
    {
        self.access_level
    }

    /// Set the access level.
    pub fn set_access_level(&mut self, access_level: u8)
        ensures
            final (self)@ == (VariableView { access_level, ..old(self)@ }),
    {
        self.access_level = access_level;
    }

    /// Whether the current user may read the value.
    pub fn is_user_readable(&self) -> (r: bool)
        ensures
            r == (self@.user_access_level & ACCESS_CURRENT_READ != 0),
    {
        self.user_access_level & ACCESS_CURRENT_READ != 0
    }

    /// Whether the current user may write the value.
    pub fn is_user_writable(&self) -> (r: bool)
        ensures
            r == (self@.user_access_level & ACCESS_CURRENT_WRITE != 0),
    {
        self.user_access_level & ACCESS_CURRENT_WRITE != 0
    }

    /// The user access level.
    pub fn user_access_level(&self) -> (r: u8)
        ensures
            r == self@.user_access_level,
    {
        self.user_access_level
    }

    /// Set the user access level.
    pub fn set_user_access_level(&mut self, user_access_level: u8)
        ensures
            final (self)@ == (VariableView { user_access_level, ..old(self)@ }),
    {
        self.user_access_level = user_access_level;
    }

    /// The value rank.
    pub fn value_rank(&self) -> (r: i32)
        ensures
            r == self@.value_rank,
    {
        self.value_rank
    }

    /// Set the value rank.
    pub fn set_value_rank(&mut self, value_rank: i32)
        ensures
            final (self)@ == (VariableView { value_rank, ..old(self)@ }),
    {
        self.value_rank = value_rank;
    }

    /// The `Historizing` attribute.
    pub fn historizing(&self) -> (r: bool)
        ensures
            r == self@.historizing,
    {
        self.historizing
    }

    /// Set the `Historizing` attribute.
    pub fn set_historizing(&mut self, historizing: bool)
        ensures
            final (self)@ == (VariableView { historizing, ..old(self)@ }),
    {
        self.historizing = historizing;
    }

    /// The array dimensions, when set.
    pub fn array_dimensions(&self) -> (r: Option<Vec<u32>>)
        ensures
            match r {
                Some(d) => self@.array_dimensions == Some(d@),
                None => self@.array_dimensions is None,
            },
    {
        match &self.array_dimensions {
            Some(d) => {
                let c = d.clone();
                proof {
                    assert(c@ =~= d@);
                }
                Some(c)
            },
            None => None,
        }
    }

    /// Set the array dimensions.
    pub fn set_array_dimensions(&mut self, array_dimensions: Vec<u32>)
        ensures
            final (self)@ == (VariableView {
                array_dimensions: Some(array_dimensions@),
                ..old(self)@
            }),
    {
        self.array_dimensions = Some(array_dimensions);
    }

    /// The data type.
    pub fn data_type(&self) -> (r: NodeId)
        ensures
            r@ == self@.data_type,
    {
        self.data_type.duplicate()
    }

    /// Set the data type.
    pub fn set_data_type(&mut self, data_type: NodeId)
        ensures
            final (self)@ == (VariableView { data_type: data_type@, ..old(self)@ }),
    {
        self.data_type = data_type;
    }

    /// Read an attribute of the variable.
    pub fn get_attribute_max_age(
        &self,
        timestamps_to_return: TimestampsToReturn,
        attribute_id: AttributeId,
        index_range: NumericRange,
    ) -> (r: Option<DataValue>)
        ensures
            attribute_id == AttributeId::DataType ==> (r matches Some(d) && d@.value == Some(
                VariantView::Scalar(ScalarView::NodeId(self@.data_type)),
            )),
            attribute_id == AttributeId::Historizing ==> (r matches Some(d) && d@.value == Some(
                VariantView::Scalar(ScalarView::Boolean(self@.historizing)),
            )),
            attribute_id == AttributeId::ValueRank ==> (r matches Some(d) && d@.value == Some(
                VariantView::Scalar(ScalarView::Int32(self@.value_rank)),
            )),
            attribute_id == AttributeId::AccessLevel ==> (r matches Some(d) && d@.value == Some(
                VariantView::Scalar(ScalarView::Byte(self@.access_level)),
            )),
            attribute_id == AttributeId::UserAccessLevel ==> (r matches Some(d) && d@.value == Some(
                VariantView::Scalar(ScalarView::Byte(self@.user_access_level)),
            )),
            attribute_id == AttributeId::MinimumSamplingInterval ==> match self@.minimum_sampling_interval {
                Some(ms) => r matches Some(d) && d@.value == Some(
                    VariantView::Scalar(ScalarView::Int64(ms)),
                ),
                None => r is None,
            },
    {
        match attribute_id {
            AttributeId::Value => Some(self.value(timestamps_to_return, index_range)),
            AttributeId::DataType => Some(
                DataValue::value_only(Variant::Scalar(Scalar::NodeId(self.data_type.duplicate()))),
            ),
            AttributeId::Historizing => Some(
                DataValue::value_only(Variant::Scalar(Scalar::Boolean(self.historizing))),
            ),
            AttributeId::ValueRank => Some(
                DataValue::value_only(Variant::Scalar(Scalar::Int32(self.value_rank))),
            ),
            AttributeId::AccessLevel => Some(
                DataValue::value_only(Variant::Scalar(Scalar::Byte(self.access_level))),
            ),
            AttributeId::UserAccessLevel => Some(
                DataValue::value_only(Variant::Scalar(Scalar::Byte(self.user_access_level))),
            ),
            AttributeId::ArrayDimensions => {
                match &self.array_dimensions {
                    Some(dims) => {
                        let mut out: Vec<Scalar> = Vec::new();
                        let mut i: usize = 0;
                        while i < dims.len()
                            invariant
                                i <= dims@.len(),
                                out@.len() == i,
                            decreases dims@.len() - i,
                        {
                            out.push(Scalar::UInt32(dims[i]));
                            i += 1;
                        }
                        Some(DataValue::value_only(Variant::Array(out)))
                    },
                    None => None,
                }
            },
            AttributeId::MinimumSamplingInterval => {
                match self.minimum_sampling_interval {
                    Some(ms) => Some(
                        DataValue::value_only(Variant::Scalar(Scalar::Int64(ms))),
                    ),
                    None => None,
                }
            },
            _ => self.base.get_attribute(attribute_id),
        }
    }

    /// Write an attribute of the variable, refusing a value of the wrong
    /// type.
    pub fn set_attribute(&mut self, attribute_id: AttributeId, value: Variant, now: DateTime) -> (r:
        Result<(), StatusCode>)
        ensures
            attribute_id == AttributeId::DataType ==> match value@ {
                VariantView::Scalar(ScalarView::NodeId(id)) => r is Ok && final (self)@
                    == (VariableView { data_type: id, ..old(self)@ }),
                _ => r == Err::<(), StatusCode>(StatusCode::BadTypeMismatch) && *final (self)
                    == *old(self),
            },
            attribute_id == AttributeId::Historizing ==> match value@ {
                VariantView::Scalar(ScalarView::Boolean(v)) => r is Ok && final (self)@
                    == (VariableView { historizing: v, ..old(self)@ }),
                _ => r == Err::<(), StatusCode>(StatusCode::BadTypeMismatch) && *final (self)
                    == *old(self),
            },
            attribute_id == AttributeId::ValueRank ==> match value@ {
                VariantView::Scalar(ScalarView::Int32(v)) => r is Ok && final (self)@
                    == (VariableView { value_rank: v, ..old(self)@ }),
                _ => r == Err::<(), StatusCode>(StatusCode::BadTypeMismatch) && *final (self)
                    == *old(self),
            },
            attribute_id == AttributeId::AccessLevel ==> match value@ {
                VariantView::Scalar(ScalarView::Byte(v)) => r is Ok && final (self)@
                    == (VariableView { access_level: v, ..old(self)@ }),
                _ => r == Err::<(), StatusCode>(StatusCode::BadTypeMismatch) && *final (self)
                    == *old(self),
            },
            attribute_id == AttributeId::UserAccessLevel ==> match value@ {
                VariantView::Scalar(ScalarView::Byte(v)) => r is Ok && final (self)@
                    == (VariableView { user_access_level: v, ..old(self)@ }),
                _ => r == Err::<(), StatusCode>(StatusCode::BadTypeMismatch) && *final (self)
                    == *old(self),
            },
            attribute_id == AttributeId::MinimumSamplingInterval ==> match value@ {
                VariantView::Scalar(ScalarView::Int64(v)) => r is Ok && final (self)@
                    == (VariableView { minimum_sampling_interval: Some(v), ..old(self)@ }),
                _ => r == Err::<(), StatusCode>(StatusCode::BadTypeMismatch) && *final (self)
                    == *old(self),
            },
    {
        match attribute_id {
            AttributeId::DataType => {
                if let Variant::Scalar(Scalar::NodeId(id)) = value {
                    self.data_type = id;
                    Ok(())
                } else {
                    Err(StatusCode::BadTypeMismatch)
                }
            },
            AttributeId::Historizing => {
                if let Variant::Scalar(Scalar::Boolean(v)) = value {
                    self.historizing = v;
                    Ok(())
                } else {
                    Err(StatusCode::BadTypeMismatch)
                }
            },
            AttributeId::ValueRank => {
                if let Variant::Scalar(Scalar::Int32(v)) = value {
                    self.value_rank = v;
                    Ok(())
                } else {
                    Err(StatusCode::BadTypeMismatch)
                }
            },
            AttributeId::Value => self.set_value(NumericRange::Entire, value, now),
            AttributeId::AccessLevel => {
                if let Variant::Scalar(Scalar::Byte(v)) = value {
                    self.access_level = v;
                    Ok(())
                } else {
                    Err(StatusCode::BadTypeMismatch)
                }
            },
            AttributeId::UserAccessLevel => {
                if let Variant::Scalar(Scalar::Byte(v)) = value {
                    self.user_access_level = v;
                    Ok(())
                } else {
                    Err(StatusCode::BadTypeMismatch)
                }
            },
            AttributeId::MinimumSamplingInterval => {
                if let Variant::Scalar(Scalar::Int64(v)) = value {
                    self.minimum_sampling_interval = Some(v);
                    Ok(())
                } else {
                    Err(StatusCode::BadTypeMismatch)
                }
            },
            _ => self.base.set_attribute(attribute_id, value),
        }
    }
}

/// How a builder's pending reference points.
#[derive(Clone, Copy, Debug, PartialEq, Eq, Structural)]
pub enum ReferenceDirection {
    Forward,
    Inverse,
}

/// The reference types a builder adds.
#[derive(Clone, Copy, Debug, PartialEq, Eq, Structural)]
pub enum ReferenceTypeId {
    HasTypeDefinition,
    HasModellingRule,
    HasComponent,
    HasProperty,
    Organizes,
    HasSubtype,
}

/// A reference a builder will register alongside its node.
#[derive(Clone, Debug)]
pub struct PendingReference {
    pub target: NodeId,
    pub type_id: ReferenceTypeId,
    pub direction: ReferenceDirection,
}

/// Mathematical image of a [`PendingReference`].
pub struct PendingReferenceView {
    pub target: NodeIdView,
    pub type_id: ReferenceTypeId,
    pub direction: ReferenceDirection,
}

impl View for PendingReference {
    type V = PendingReferenceView;

    open spec fn view(&self) -> PendingReferenceView {
        PendingReferenceView {
            target: self.target@,
            type_id: self.type_id,
            direction: self.direction,
        }
    }
}

/// A builder for variable nodes.
#[derive(Debug)]
pub struct VariableBuilder {
    /// The node under construction.
    pub node: Variable,
    /// References to register alongside the node.
    pub references: Vec<PendingReference>,
}

impl VariableBuilder {
    /// The references of the builder, viewed.
    pub open spec fn refs(self) -> Seq<PendingReferenceView> {
        Seq::new(self.references@.len(), |i: int| self.references@[i]@)
    }

    /// Start building a variable.
    pub fn new(node_id: &NodeId, browse_name: QualifiedName, display_name: LocalizedText) -> (r:
        VariableBuilder)
        ensures
            r.node@.base.node_id == node_id@,
            r.node@.base.browse_name == browse_name@,
            r.node@.base.display_name == display_name@,
            r.refs().len() == 0,
    {
        let mut node = Variable::default();
        node.base = Base::new(NodeClass::Variable, node_id, browse_name, display_name);
        VariableBuilder { node, references: Vec::new() }
    }

    /// Set the value. The timestamps are stamped with the given time.
    pub fn value(self, value: Variant, now: DateTime) -> (r: VariableBuilder)
        ensures
            r.node@.value.value == Some(value@),
            r.refs() == self.refs(),
    {
        let mut b = self;
        let _ = b.node.set_value_direct(value, StatusCode::Good, &now, &now);
        b
    }

    /// Set the data type.
    pub fn data_type(self, data_type: NodeId) -> (r: VariableBuilder)
        ensures
            r.node@ == (VariableView { data_type: data_type@, ..self.node@ }),
            r.refs() == self.refs(),
    {
        let mut b = self;
        b.node.set_data_type(data_type);
        b
    }

    /// Set the historizing flag.
    pub fn historizing(self, historizing: bool) -> (r: VariableBuilder)
        ensures
            r.node@ == (VariableView { historizing, ..self.node@ }),
            r.refs() == self.refs(),
    {
        let mut b = self;
        b.node.set_historizing(historizing);
        b
    }

    /// Set the access level.
    pub fn access_level(self, access_level: u8) -> (r: VariableBuilder)
        ensures
            r.node@ == (VariableView { access_level, ..self.node@ }),
            r.refs() == self.refs(),
    {
        let mut b = self;
        b.node.set_access_level(access_level);
        b
    }

    /// Set the user access level.
    pub fn user_access_level(self, user_access_level: u8) -> (r: VariableBuilder)
        ensures
            r.node@ == (VariableView { user_access_level, ..self.node@ }),
            r.refs() == self.refs(),
    {
        let mut b = self;
        b.node.set_user_access_level(user_access_level);
        b
    }

    /// Set the value rank.
    pub fn value_rank(self, value_rank: i32) -> (r: VariableBuilder)
        ensures
            r.node@ == (VariableView { value_rank, ..self.node@ }),
            r.refs() == self.refs(),
    {
        let mut b = self;
        b.node.set_value_rank(value_rank);
        b
    }

    /// Set the array dimensions.
    pub fn array_dimensions(self, array_dimensions: Vec<u32>) -> (r: VariableBuilder)
        ensures
            r.node@ == (VariableView {
                array_dimensions: Some(array_dimensions@),
                ..self.node@
            }),
            r.refs() == self.refs(),
    {
        let mut b = self;
        b.node.set_array_dimensions(array_dimensions);
        b
    }

    /// Set the write mask.
    pub fn write_mask(self, write_mask: u32) -> (r: VariableBuilder)
        ensures
            r.node@ == (VariableView {
                base: BaseView { write_mask, ..self.node@.base },
                ..self.node@
            }),
            r.refs() == self.refs(),
    {
        let mut b = self;
        b.node.base.set_write_mask(write_mask);
        b
    }

    /// Make the variable writable in both access levels.
    pub fn writable(self) -> (r: VariableBuilder)
        ensures
            r.node@ == (VariableView {
                access_level: self.node@.access_level | ACCESS_CURRENT_WRITE,
                user_access_level: self.node@.user_access_level | ACCESS_CURRENT_WRITE,
                ..self.node@
            }),
            r.refs() == self.refs(),
    {
        let mut b = self;
        let ua = b.node.user_access_level();
        b.node.set_user_access_level(ua | ACCESS_CURRENT_WRITE);
        let a = b.node.access_level();
        b.node.set_access_level(a | ACCESS_CURRENT_WRITE);
        b
    }

    /// Make the variable's history readable in both access levels.
    pub fn history_readable(self) -> (r: VariableBuilder)
        ensures
            r.node@ == (VariableView {
                access_level: self.node@.access_level | ACCESS_HISTORY_READ,
                user_access_level: self.node@.user_access_level | ACCESS_HISTORY_READ,
                ..self.node@
            }),
            r.refs() == self.refs(),
    {
        let mut b = self;
        let ua = b.node.user_access_level();
        b.node.set_user_access_level(ua | ACCESS_HISTORY_READ);
        let a = b.node.access_level();
        b.node.set_access_level(a | ACCESS_HISTORY_READ);
        b
    }

    /// Make the variable's history updatable in both access levels.
    pub fn history_updatable(self) -> (r: VariableBuilder)
        ensures
            r.node@ == (VariableView {
                access_level: self.node@.access_level | ACCESS_HISTORY_WRITE,
                user_access_level: self.node@.user_access_level | ACCESS_HISTORY_WRITE,
                ..self.node@
            }),
            r.refs() == self.refs(),
    {
        let mut b = self;
        let ua = b.node.user_access_level();
        b.node.set_user_access_level(ua | ACCESS_HISTORY_WRITE);
        let a = b.node.access_level();
        b.node.set_access_level(a | ACCESS_HISTORY_WRITE);
        b
    }

    /// Add a reference from the node.
    pub fn reference(
        self,
        target: NodeId,
        type_id: ReferenceTypeId,
        direction: ReferenceDirection,
    ) -> (r: VariableBuilder)
        ensures
            r.node == self.node,
            r.refs() == self.refs().push(
                PendingReferenceView { target: target@, type_id, direction },
            ),
    {
        let mut b = self;
        b.references.push(PendingReference { target, type_id, direction });
        proof {
            assert(b.refs() =~= self.refs().push(b.references@.last()@));
        }
        b
    }

    /// Reference the node's type definition.
    pub fn has_type_definition(self, type_id: NodeId) -> (r: VariableBuilder)
        ensures
            r.node == self.node,
            r.refs() == self.refs().push(
                PendingReferenceView {
                    target: type_id@,
                    type_id: ReferenceTypeId::HasTypeDefinition,
                    direction: ReferenceDirection::Forward,
                },
            ),
    {
        self.reference(type_id, ReferenceTypeId::HasTypeDefinition, ReferenceDirection::Forward)
    }

    /// Reference the node's modelling rule.
    pub fn has_modelling_rule(self, type_id: NodeId) -> (r: VariableBuilder)
        ensures
            r.node == self.node,
            r.refs() == self.refs().push(
                PendingReferenceView {
                    target: type_id@,
                    type_id: ReferenceTypeId::HasModellingRule,
                    direction: ReferenceDirection::Forward,
                },
            ),
    {
        self.reference(type_id, ReferenceTypeId::HasModellingRule, ReferenceDirection::Forward)
    }

    /// Reference the component the node belongs to.
    pub fn component_of(self, parent: NodeId) -> (r: VariableBuilder)
        ensures
            r.node == self.node,
            r.refs() == self.refs().push(
                PendingReferenceView {
                    target: parent@,
                    type_id: ReferenceTypeId::HasComponent,
                    direction: ReferenceDirection::Inverse,
                },
            ),
    {
        self.reference(parent, ReferenceTypeId::HasComponent, ReferenceDirection::Inverse)
    }

    /// Reference the node the variable is a property of.
    pub fn property_of(self, parent: NodeId) -> (r: VariableBuilder)
        ensures
            r.node == self.node,
            r.refs() == self.refs().push(
                PendingReferenceView {
                    target: parent@,
                    type_id: ReferenceTypeId::HasProperty,
                    direction: ReferenceDirection::Inverse,
                },
            ),
    {
        self.reference(parent, ReferenceTypeId::HasProperty, ReferenceDirection::Inverse)
    }

    /// Set the minimum sampling interval, in milliseconds.
    pub fn minimum_sampling_interval(self, interval_ms: i64) -> (r: VariableBuilder)
        ensures
            r.node@ == (VariableView {
                minimum_sampling_interval: Some(interval_ms),
                ..self.node@
            }),
            r.refs() == self.refs(),
    {
        let mut b = self;
        b.node.set_minimum_sampling_interval(interval_ms);
        b
    }

    /// Finish: the node must be valid.
    pub fn build(self) -> (r: Variable)
        requires
            !self.node@.data_type.is_null(),
            self.node.base.spec_is_valid(),
        ensures
            r == self.node,
    {
        self.node
    }
}

} // verus!
