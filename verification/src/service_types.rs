//! Generated-style service data types: each knows the object ids of its
//! binary, JSON and XML encodings and its data-type id. Durations are carried
//! in whole milliseconds.

use vstd::prelude::*;

use crate::date_time::DateTime;
use crate::messages::RequestHeader;
use crate::node_id::{NodeId, QualifiedName};
use crate::status::StatusCode;
use crate::variant::Variant;

verus! {

/// The object ids naming the wire encodings of the service types.
#[derive(Clone, Copy, Debug, PartialEq, Eq, Structural)]
pub enum ObjectId {
    CreateSubscriptionRequest_Encoding_DefaultBinary,
    CreateSubscriptionRequest_Encoding_DefaultJson,
    CreateSubscriptionRequest_Encoding_DefaultXml,
    DatagramConnectionTransport2DataType_Encoding_DefaultBinary,
    DatagramConnectionTransport2DataType_Encoding_DefaultJson,
    DatagramConnectionTransport2DataType_Encoding_DefaultXml,
    EndpointType_Encoding_DefaultBinary,
    EndpointType_Encoding_DefaultJson,
    EndpointType_Encoding_DefaultXml,
    JsonActionResponderMessage_Encoding_DefaultBinary,
    JsonActionResponderMessage_Encoding_DefaultJson,
    JsonActionResponderMessage_Encoding_DefaultXml,
    ParsingResult_Encoding_DefaultBinary,
    ParsingResult_Encoding_DefaultJson,
    ParsingResult_Encoding_DefaultXml,
    SecurityGroupDataType_Encoding_DefaultBinary,
    SecurityGroupDataType_Encoding_DefaultJson,
    SecurityGroupDataType_Encoding_DefaultXml,
}

/// The data-type ids of the service types.
#[derive(Clone, Copy, Debug, PartialEq, Eq, Structural)]
pub enum DataTypeId {
    CreateSubscriptionRequest,
    DatagramConnectionTransport2DataType,
    EndpointType,
    JsonActionResponderMessage,
    ParsingResult,
    SecurityGroupDataType,
}

/// A value carried opaquely with the id of its type.
#[derive(Clone, Debug, PartialEq)]
pub struct ExtensionObject {
    pub type_id: NodeId,
    pub body: Vec<u8>,
}

/// Diagnostic text for one operation.
#[derive(Clone, Debug, PartialEq)]
pub struct DiagnosticInfo {
    pub symbolic_id: i32,
    pub additional_info: String,
}

/// One role's permissions.
#[derive(Clone, Debug, PartialEq)]
pub struct RolePermissionType {
    pub role_id: NodeId,
    pub permissions: u32,
}

/// A named value.
#[derive(Clone, Debug, PartialEq)]
pub struct KeyValuePair {
    pub key: QualifiedName,
    pub value: Variant,
}

/// The request that creates a subscription.
#[derive(Clone, Debug, PartialEq)]
pub struct CreateSubscriptionRequest {
    pub request_header: RequestHeader,
    /// In whole milliseconds.
    pub requested_publishing_interval: i64,
    pub requested_lifetime_count: u32,
    pub requested_max_keep_alive_count: u32,
    pub max_notifications_per_publish: u32,
    pub publishing_enabled: bool,
    pub priority: u8,
}

impl CreateSubscriptionRequest {
    /// The id of the type's binary encoding.
    pub fn type_id(&self) -> (r: ObjectId)
        ensures
            r == ObjectId::CreateSubscriptionRequest_Encoding_DefaultBinary,
    {
        ObjectId::CreateSubscriptionRequest_Encoding_DefaultBinary
    }

    /// The id of the type's JSON encoding.
    pub fn json_type_id(&self) -> (r: ObjectId)
        ensures
            r == ObjectId::CreateSubscriptionRequest_Encoding_DefaultJson,
    {
        ObjectId::CreateSubscriptionRequest_Encoding_DefaultJson
    }

    /// The id of the type's XML encoding.
    pub fn xml_type_id(&self) -> (r: ObjectId)
        ensures
            r == ObjectId::CreateSubscriptionRequest_Encoding_DefaultXml,
    {
        ObjectId::CreateSubscriptionRequest_Encoding_DefaultXml
    }

    /// The id of the data type itself.
    pub fn data_type_id(&self) -> (r: DataTypeId)
        ensures
            r == DataTypeId::CreateSubscriptionRequest,
    {
        DataTypeId::CreateSubscriptionRequest
    }
}

/// The second datagram connection transport settings type.
#[derive(Clone, Debug, PartialEq)]
pub struct DatagramConnectionTransport2DataType {
    pub discovery_address: ExtensionObject,
    pub discovery_announce_rate: u32,
    pub discovery_max_message_size: u32,
    pub qos_category: String,
    pub datagram_qos: Option<Vec<ExtensionObject>>,
}

impl DatagramConnectionTransport2DataType {
    /// The id of the type's binary encoding.
    pub fn type_id(&self) -> (r: ObjectId)
        ensures
            r == ObjectId::DatagramConnectionTransport2DataType_Encoding_DefaultBinary,
    {
        ObjectId::DatagramConnectionTransport2DataType_Encoding_DefaultBinary
    }

    /// The id of the type's JSON encoding.
    pub fn json_type_id(&self) -> (r: ObjectId)
        ensures
            r == ObjectId::DatagramConnectionTransport2DataType_Encoding_DefaultJson,
    {
        ObjectId::DatagramConnectionTransport2DataType_Encoding_DefaultJson
    }

    /// The id of the type's XML encoding.
    pub fn xml_type_id(&self) -> (r: ObjectId)
        ensures
            r == ObjectId::DatagramConnectionTransport2DataType_Encoding_DefaultXml,
    {
        ObjectId::DatagramConnectionTransport2DataType_Encoding_DefaultXml
    }

    /// The id of the data type itself.
    pub fn data_type_id(&self) -> (r: DataTypeId)
        ensures
            r == DataTypeId::DatagramConnectionTransport2DataType,
    {
        DataTypeId::DatagramConnectionTransport2DataType
    }
}

/// One endpoint a server offers.
#[derive(Clone, Debug, PartialEq)]
pub struct EndpointType {
    pub endpoint_url: String,
    pub security_mode: crate::secure_channel::MessageSecurityMode,
    pub security_policy_uri: String,
    pub transport_profile_uri: String,
}

impl EndpointType {
    /// The id of the type's binary encoding.
    pub fn type_id(&self) -> (r: ObjectId)
        ensures
            r == ObjectId::EndpointType_Encoding_DefaultBinary,
    {
        ObjectId::EndpointType_Encoding_DefaultBinary
    }

    /// The id of the type's JSON encoding.
    pub fn json_type_id(&self) -> (r: ObjectId)
        ensures
            r == ObjectId::EndpointType_Encoding_DefaultJson,
    {
        ObjectId::EndpointType_Encoding_DefaultJson
    }

    /// The id of the type's XML encoding.
    pub fn xml_type_id(&self) -> (r: ObjectId)
        ensures
            r == ObjectId::EndpointType_Encoding_DefaultXml,
    {
        ObjectId::EndpointType_Encoding_DefaultXml
    }

    /// The id of the data type itself.
    pub fn data_type_id(&self) -> (r: DataTypeId)
        ensures
            r == DataTypeId::EndpointType,
    {
        DataTypeId::EndpointType
    }
}

/// A pub-sub connection's settings, as far as the core reads them.
#[derive(Clone, Debug, PartialEq)]
pub struct PubSubConnectionDataType {
    pub name: String,
    pub enabled: bool,
}

/// The message an action responder publishes.
#[derive(Clone, Debug, PartialEq)]
pub struct JsonActionResponderMessage {
    pub message_id: String,
    pub message_type: String,
    pub publisher_id: String,
    pub timestamp: DateTime,
    pub connection: PubSubConnectionDataType,
}

impl JsonActionResponderMessage {
    /// The id of the type's binary encoding.
    pub fn type_id(&self) -> (r: ObjectId)
        ensures
            r == ObjectId::JsonActionResponderMessage_Encoding_DefaultBinary,
    {
        ObjectId::JsonActionResponderMessage_Encoding_DefaultBinary
    }

    /// The id of the type's JSON encoding.
    pub fn json_type_id(&self) -> (r: ObjectId)
        ensures
            r == ObjectId::JsonActionResponderMessage_Encoding_DefaultJson,
    {
        ObjectId::JsonActionResponderMessage_Encoding_DefaultJson
    }

    /// The id of the type's XML encoding.
    pub fn xml_type_id(&self) -> (r: ObjectId)
        ensures
            r == ObjectId::JsonActionResponderMessage_Encoding_DefaultXml,
    {
        ObjectId::JsonActionResponderMessage_Encoding_DefaultXml
    }

    /// The id of the data type itself.
    pub fn data_type_id(&self) -> (r: DataTypeId)
        ensures
            r == DataTypeId::JsonActionResponderMessage,
    {
        DataTypeId::JsonActionResponderMessage
    }
}

/// The outcome of parsing one query node.
#[derive(Clone, Debug, PartialEq)]
pub struct ParsingResult {
    pub status_code: StatusCode,
    pub data_status_codes: Option<Vec<StatusCode>>,
    pub data_diagnostic_infos: Option<Vec<DiagnosticInfo>>,
}

impl ParsingResult {
    /// The id of the type's binary encoding.
    pub fn type_id(&self) -> (r: ObjectId)
        ensures
            r == ObjectId::ParsingResult_Encoding_DefaultBinary,
    {
        ObjectId::ParsingResult_Encoding_DefaultBinary
    }

    /// The id of the type's JSON encoding.
    pub fn json_type_id(&self) -> (r: ObjectId)
        ensures
            r == ObjectId::ParsingResult_Encoding_DefaultJson,
    {
        ObjectId::ParsingResult_Encoding_DefaultJson
    }

    /// The id of the type's XML encoding.
    pub fn xml_type_id(&self) -> (r: ObjectId)
        ensures
            r == ObjectId::ParsingResult_Encoding_DefaultXml,
    {
        ObjectId::ParsingResult_Encoding_DefaultXml
    }

    /// The id of the data type itself.
    pub fn data_type_id(&self) -> (r: DataTypeId)
        ensures
            r == DataTypeId::ParsingResult,
    {
        DataTypeId::ParsingResult
    }
}

/// A security group's settings. The key lifetime is carried in whole
/// milliseconds.
#[derive(Clone, Debug, PartialEq)]
pub struct SecurityGroupDataType {
    pub name: String,
    pub security_group_folder: Option<Vec<String>>,
    pub key_lifetime: i64,
    pub security_policy_uri: String,
    pub max_future_key_count: u32,
    pub max_past_key_count: u32,
    pub security_group_id: String,
    pub role_permissions: Option<Vec<RolePermissionType>>,
    pub group_properties: Option<Vec<KeyValuePair>>,
}

impl SecurityGroupDataType {
    /// The id of the type's binary encoding.
    pub fn type_id(&self) -> (r: ObjectId)
        ensures
            r == ObjectId::SecurityGroupDataType_Encoding_DefaultBinary,
    {
        ObjectId::SecurityGroupDataType_Encoding_DefaultBinary
    }

    /// The id of the type's JSON encoding.
    pub fn json_type_id(&self) -> (r: ObjectId)
        ensures
            r == ObjectId::SecurityGroupDataType_Encoding_DefaultJson,
    {
        ObjectId::SecurityGroupDataType_Encoding_DefaultJson
    }

    /// The id of the type's XML encoding.
    pub fn xml_type_id(&self) -> (r: ObjectId)
        ensures
            r == ObjectId::SecurityGroupDataType_Encoding_DefaultXml,
    {
        ObjectId::SecurityGroupDataType_Encoding_DefaultXml
    }

    /// The id of the data type itself.
    pub fn data_type_id(&self) -> (r: DataTypeId)
        ensures
            r == DataTypeId::SecurityGroupDataType,
    {
        DataTypeId::SecurityGroupDataType
    }
}

} // verus!
