//! Attribute ids, the attribute-specification mask, access levels and the
//! errors of building nodes from attribute records.

use vstd::prelude::*;

verus! {

/// The attributes of a node a service can read or write.
#[derive(Clone, Copy, Debug, PartialEq, Eq, Structural)]
pub enum AttributeId {
    NodeId,
    NodeClass,
    BrowseName,
    DisplayName,
    Description,
    WriteMask,
    UserWriteMask,
    IsAbstract,
    Value,
    DataType,
    ValueRank,
    ArrayDimensions,
    AccessLevel,
    UserAccessLevel,
    MinimumSamplingInterval,
    Historizing,
}

/// A variable may be read.
pub const ACCESS_CURRENT_READ: u8 = 0x1;

/// A variable may be written.
pub const ACCESS_CURRENT_WRITE: u8 = 0x2;

/// A variable's history may be read.
pub const ACCESS_HISTORY_READ: u8 = 0x4;

/// A variable's history may be updated.
pub const ACCESS_HISTORY_WRITE: u8 = 0x8;

/// Which attributes an attribute record specifies, one bit each.
pub const MASK_ACCESS_LEVEL: u32 = 0x1;

pub const MASK_ARRAY_DIMENSIONS: u32 = 0x2;

pub const MASK_CONTAINS_NO_LOOPS: u32 = 0x4;

pub const MASK_DATA_TYPE: u32 = 0x8;

pub const MASK_DESCRIPTION: u32 = 0x10;

pub const MASK_DISPLAY_NAME: u32 = 0x20;

pub const MASK_EVENT_NOTIFIER: u32 = 0x40;

pub const MASK_EXECUTABLE: u32 = 0x80;

pub const MASK_HISTORIZING: u32 = 0x100;

pub const MASK_INVERSE_NAME: u32 = 0x200;

pub const MASK_IS_ABSTRACT: u32 = 0x400;

pub const MASK_MINIMUM_SAMPLING_INTERVAL: u32 = 0x800;

pub const MASK_SYMMETRIC: u32 = 0x1000;

pub const MASK_USER_ACCESS_LEVEL: u32 = 0x2000;

pub const MASK_USER_EXECUTABLE: u32 = 0x4000;

pub const MASK_USER_WRITE_MASK: u32 = 0x8000;

pub const MASK_VALUE_RANK: u32 = 0x10000;

pub const MASK_WRITE_MASK: u32 = 0x20000;

pub const MASK_VALUE: u32 = 0x40000;

/// Every attribute bit the mask may carry.
pub const MASK_ALL: u32 = 0x7ffff;

/// Why a node could not be built from an attribute record.
#[derive(Clone, Copy, Debug, PartialEq, Eq, Structural)]
pub enum FromAttributesError {
    /// The specified-attributes mask carries undefined bits.
    InvalidMask,
    /// A mandatory attribute is missing.
    MissingMandatoryValues,
}

/// Whether the specified-attributes mask carries only defined bits.
pub open spec fn spec_mask_valid(mask: u32) -> bool {
    mask & !MASK_ALL == 0
}

/// Whether the mask specifies every attribute in `wanted`.
pub open spec fn spec_mask_contains(mask: u32, wanted: u32) -> bool {
    mask & wanted == wanted
}

/// Whether the specified-attributes mask carries only defined bits.
pub fn mask_valid(mask: u32) -> (r: bool)
    ensures
        r == spec_mask_valid(mask),
{
    mask & !MASK_ALL == 0
}

/// Whether the mask specifies every attribute in `wanted`.
pub fn mask_contains(mask: u32, wanted: u32) -> (r: bool)
    ensures
        r == spec_mask_contains(mask, wanted),
{
    mask & wanted == wanted
}

} // verus!
