//! Core node-manager behaviour: the namespace array built over the real hash
//! map, server values read from configuration, the built-in methods, and the
//! node types with their builders.

use opcua_runtime::attribute::{
    AttributeId, FromAttributesError, ACCESS_CURRENT_READ, ACCESS_CURRENT_WRITE,
    MASK_DISPLAY_NAME, MASK_IS_ABSTRACT,
};
use opcua_runtime::core_manager::{
    namespace_array, CoreNodeManagerImpl, HistoryCapabilities, MethodCall, ParsedReadValueId,
    ServerLimits, ServerStatusSnapshot, SubscriptionLookup,
};
use opcua_runtime::data_value::TimestampsToReturn;
use opcua_runtime::date_time::DateTime;
use opcua_runtime::node_id::{LocalizedText, NodeClass, NodeId, QualifiedName};
use opcua_runtime::object_type::{ObjectType, ObjectTypeAttributes, ObjectTypeBuilder};
use opcua_runtime::status::StatusCode;
use opcua_runtime::variable::{Variable, VariableBuilder};
use opcua_runtime::variant::{NumericRange, Scalar, Variant};

fn limits() -> ServerLimits {
    ServerLimits {
        max_array_length: 1000,
        max_string_length: 2000,
        max_byte_string_length: 3000,
        min_sampling_interval_ms: 0,
        max_browse_continuation_points: 10,
        max_query_continuation_points: 11,
        max_history_continuation_points: 12,
        max_nodes_per_read: 100,
        max_nodes_per_write: 101,
        max_nodes_per_browse: 102,
        max_nodes_per_method_call: 103,
        max_monitored_items_per_call: 104,
    }
}

fn hist() -> HistoryCapabilities {
    HistoryCapabilities {
        access_history_data: true,
        access_history_events: false,
        max_return_data_values: 10_000,
        max_return_event_values: 0,
        insert_data: true,
        replace_data: false,
        update_data: false,
        delete_raw: true,
        delete_at_time: false,
    }
}

fn snapshot() -> ServerStatusSnapshot {
    ServerStatusSnapshot {
        start_time: DateTime::from_ticks(1_000),
        state: 0,
        service_level: 255,
        seconds_till_shutdown: None,
    }
}

#[test]
fn namespace_array_fills_holes_and_last_registration_wins() {
    let pairs = vec![
        (0u16, "http://opcfoundation.org/UA/".to_string()),
        (2u16, "urn:two".to_string()),
        (0u16, "urn:zero-overridden".to_string()),
    ];
    let arr = namespace_array(&pairs).expect("namespaces registered");
    assert_eq!(arr.len(), 3);
    assert_eq!(arr[0], "urn:zero-overridden");
    assert_eq!(arr[1], "");
    assert_eq!(arr[2], "urn:two");
    assert_eq!(namespace_array(&Vec::new()), None);
}

#[test]
fn server_values_come_from_configuration() {
    let mgr = CoreNodeManagerImpl::new(limits(), hist());
    let now = DateTime::from_ticks(9_999);
    let read = |id: u32| {
        mgr.read_server_value(
            &ParsedReadValueId {
                node_id: NodeId::new_numeric(0, id),
                index_range: NumericRange::Entire,
            },
            &snapshot(),
            now,
        )
    };
    // Max array length, 11702.
    let d = read(11702).expect("answered");
    assert_eq!(d.value, Some(Variant::Scalar(Scalar::UInt32(1000))));
    assert_eq!(d.status, Some(StatusCode::Good));
    assert_eq!(d.source_timestamp, Some(DateTime::from_ticks(1_000)));
    // Current time, 2258.
    let d = read(2258).expect("answered");
    assert_eq!(d.value, Some(Variant::Scalar(Scalar::DateTime(now))));
    // History capability, 11193.
    let d = read(11193).expect("answered");
    assert_eq!(d.value, Some(Variant::Scalar(Scalar::Boolean(true))));
    // Nodes outside the base namespace or unknown ids are not answered.
    assert!(mgr
        .read_server_value(
            &ParsedReadValueId {
                node_id: NodeId::new_numeric(1, 11702),
                index_range: NumericRange::Entire,
            },
            &snapshot(),
            now,
        )
        .is_none());
    assert!(read(55555).is_none());
}

#[test]
fn refused_reads_carry_their_status() {
    let mgr = CoreNodeManagerImpl::new(limits(), hist());
    let node = ParsedReadValueId {
        node_id: NodeId::new_numeric(0, 11702),
        index_range: NumericRange::Entire,
    };
    let d = mgr.read_node_value(
        Err(StatusCode::BadUserAccessDenied),
        &node,
        &snapshot(),
        DateTime::from_ticks(0),
        opcua_runtime::data_value::DataValue::null(),
    );
    assert_eq!(d.status, Some(StatusCode::BadUserAccessDenied));
    assert_eq!(d.value, None);
}

#[test]
fn get_monitored_items_answers_ids_and_handles() {
    let mgr = CoreNodeManagerImpl::new(limits(), hist());
    let mut call = MethodCall {
        method_id: NodeId::new_numeric(0, 11492),
        args: vec![Variant::Scalar(Scalar::UInt32(1))],
        outputs: Vec::new(),
        status: StatusCode::BadUnexpectedError,
    };
    let lookup = SubscriptionLookup::Items(vec![(10, 100), (20, 200)]);
    mgr.call_builtin_method(&mut call, &lookup).expect("handled");
    assert_eq!(call.status, StatusCode::Good);
    assert_eq!(
        call.outputs,
        vec![
            Variant::Array(vec![Scalar::UInt32(10), Scalar::UInt32(20)]),
            Variant::Array(vec![Scalar::UInt32(100), Scalar::UInt32(200)]),
        ]
    );
    // Missing session and subscription are refused with the exact codes.
    let mut call2 = MethodCall {
        method_id: NodeId::new_numeric(0, 11492),
        args: Vec::new(),
        outputs: Vec::new(),
        status: StatusCode::Good,
    };
    assert_eq!(
        mgr.call_builtin_method(&mut call2, &SubscriptionLookup::NoSession),
        Err(StatusCode::BadSessionIdInvalid)
    );
    assert_eq!(
        mgr.call_builtin_method(&mut call2, &SubscriptionLookup::NoSubscription),
        Err(StatusCode::BadSubscriptionIdInvalid)
    );
    // An unknown base-namespace method is unsupported; a foreign one is left
    // alone.
    let mut unknown = MethodCall {
        method_id: NodeId::new_numeric(0, 1),
        args: Vec::new(),
        outputs: Vec::new(),
        status: StatusCode::Good,
    };
    assert_eq!(
        mgr.call_builtin_method(&mut unknown, &lookup),
        Err(StatusCode::BadNotSupported)
    );
    let mut foreign = MethodCall {
        method_id: NodeId::new_numeric(3, 11492),
        args: Vec::new(),
        outputs: Vec::new(),
        status: StatusCode::Good,
    };
    assert_eq!(mgr.call_builtin_method(&mut foreign, &lookup), Ok(()));
}

#[test]
fn refused_calls_record_their_status() {
    let mgr = CoreNodeManagerImpl::new(limits(), hist());
    let mut calls = vec![MethodCall {
        method_id: NodeId::new_numeric(0, 2),
        args: Vec::new(),
        outputs: Vec::new(),
        status: StatusCode::Good,
    }];
    mgr.call(&mut calls, &SubscriptionLookup::NoSession).expect("runs");
    assert_eq!(calls[0].status, StatusCode::BadNotSupported);
}

#[test]
fn sampler_interval_floors_at_a_hundred() {
    let mgr = CoreNodeManagerImpl::new(limits(), hist());
    assert_eq!(mgr.sampler_interval_ms(), 100);
    let mut fast = limits();
    fast.min_sampling_interval_ms = 250;
    let mgr = CoreNodeManagerImpl::new(fast, hist());
    assert_eq!(mgr.sampler_interval_ms(), 250);
}

#[test]
fn aggregates_are_organized_under_their_folder() {
    let mgr = CoreNodeManagerImpl::new(limits(), hist());
    let aggs = vec![NodeId::new_numeric(0, 2341), NodeId::new_numeric(0, 2342)];
    let refs = mgr.aggregate_references(&aggs);
    assert_eq!(refs.len(), 2);
    assert_eq!(refs[0].0, NodeId::new_numeric(0, 2997));
    assert_eq!(refs[0].1, aggs[0]);
    assert_eq!(refs[1].1, aggs[1]);
}

#[test]
fn variable_builder_chains_attributes() {
    let v = VariableBuilder::new(
        &NodeId::new_numeric(1, 1),
        QualifiedName::new(1, "speed".to_string()),
        LocalizedText::new("Speed".to_string()),
    )
    .data_type(NodeId::new_numeric(0, 6))
    .value(Variant::Scalar(Scalar::Int32(5)), DateTime::from_ticks(0))
    .value_rank(-1)
    .historizing(true)
    .writable()
    .history_readable()
    .history_updatable()
    .minimum_sampling_interval(100)
    .has_type_definition(NodeId::new_numeric(0, 63))
    .has_modelling_rule(NodeId::new_numeric(0, 78))
    .build();
    assert_eq!(v.value_rank(), -1);
    assert!(v.historizing());
    assert!(v.is_writable());
    assert!(v.is_user_writable());
    assert!(v.is_readable());
    assert_eq!(v.minimum_sampling_interval(), Some(100));
    assert_eq!(v.data_type(), NodeId::new_numeric(0, 6));
    assert!(v.is_valid());
}

#[test]
fn variable_infers_type_and_reads_back() {
    let v = Variable::new(
        &NodeId::new_numeric(1, 2),
        QualifiedName::new(1, "count".to_string()),
        LocalizedText::new("Count".to_string()),
        Variant::Scalar(Scalar::Int32(42)),
    );
    // Int32 has the base-namespace data type id 6.
    assert_eq!(v.data_type(), NodeId::new_numeric(0, 6));
    let d = v.value(TimestampsToReturn::Neither, NumericRange::Entire);
    assert_eq!(d.value, Some(Variant::Scalar(Scalar::Int32(42))));
    assert_eq!(d.source_timestamp, None);
    assert_eq!(d.server_timestamp, None);
}

#[test]
fn variable_range_reads_and_writes() {
    let mut v = Variable::new(
        &NodeId::new_numeric(1, 3),
        QualifiedName::new(1, "arr".to_string()),
        LocalizedText::new("Array".to_string()),
        Variant::Array(vec![Scalar::Byte(1), Scalar::Byte(2), Scalar::Byte(3)]),
    );
    let d = v.value(TimestampsToReturn::Neither, NumericRange::Index(1));
    assert_eq!(d.value, Some(Variant::Array(vec![Scalar::Byte(2)])));
    let d = v.value(TimestampsToReturn::Neither, NumericRange::Range(1, 2));
    assert_eq!(
        d.value,
        Some(Variant::Array(vec![Scalar::Byte(2), Scalar::Byte(3)]))
    );
    // An out-of-bounds range answers with the error as the status.
    let d = v.value(TimestampsToReturn::Neither, NumericRange::Index(9));
    assert_eq!(d.value, None);
    assert_eq!(d.status, Some(StatusCode::BadIndexRangeInvalid));
    // A ranged write splices the span.
    v.set_value_range(
        Variant::Array(vec![Scalar::Byte(8), Scalar::Byte(9)]),
        NumericRange::Range(0, 1),
        StatusCode::Good,
        &DateTime::from_ticks(1),
        &DateTime::from_ticks(1),
    )
    .expect("span fits");
    let d = v.value(TimestampsToReturn::Neither, NumericRange::Entire);
    assert_eq!(
        d.value,
        Some(Variant::Array(vec![
            Scalar::Byte(8),
            Scalar::Byte(9),
            Scalar::Byte(3)
        ]))
    );
}

#[test]
fn byte_string_written_to_byte_array_is_converted() {
    let mut v = Variable::new_data_value(
        &NodeId::new_numeric(1, 4),
        QualifiedName::new(1, "blob".to_string()),
        LocalizedText::new("Blob".to_string()),
        NodeId::new_numeric(0, 3),
        Some(1),
        None,
        Variant::Array(vec![Scalar::Byte(0)]),
    );
    v.set_value(
        NumericRange::Entire,
        Variant::Scalar(Scalar::ByteString(vec![7, 8])),
        DateTime::from_ticks(0),
    )
    .expect("converted");
    let d = v.value(TimestampsToReturn::Neither, NumericRange::Entire);
    assert_eq!(
        d.value,
        Some(Variant::Array(vec![Scalar::Byte(7), Scalar::Byte(8)]))
    );
}

#[test]
fn variable_attribute_writes_check_types() {
    let mut v = Variable::default();
    assert_eq!(
        v.set_attribute(
            AttributeId::ValueRank,
            Variant::Scalar(Scalar::Boolean(true)),
            DateTime::from_ticks(0),
        ),
        Err(StatusCode::BadTypeMismatch)
    );
    v.set_attribute(
        AttributeId::ValueRank,
        Variant::Scalar(Scalar::Int32(2)),
        DateTime::from_ticks(0),
    )
    .expect("typed correctly");
    assert_eq!(v.value_rank(), 2);
    v.set_attribute(
        AttributeId::AccessLevel,
        Variant::Scalar(Scalar::Byte(ACCESS_CURRENT_READ | ACCESS_CURRENT_WRITE)),
        DateTime::from_ticks(0),
    )
    .expect("typed correctly");
    assert!(v.is_writable());
    let d = v
        .get_attribute_max_age(
            TimestampsToReturn::Neither,
            AttributeId::ValueRank,
            NumericRange::Entire,
        )
        .expect("value rank is mandatory");
    assert_eq!(d.value, Some(Variant::Scalar(Scalar::Int32(2))));
}

#[test]
fn object_type_from_attributes_checks_the_mask() {
    let ot = ObjectTypeAttributes {
        specified_attributes: 0xffff_ffff,
        display_name: LocalizedText::new("T".to_string()),
        description: LocalizedText::new(String::new()),
        write_mask: 0,
        user_write_mask: 0,
        is_abstract: false,
    };
    assert_eq!(
        ObjectType::from_attributes(
            &NodeId::new_numeric(1, 9),
            QualifiedName::new(1, "T".to_string()),
            ot,
        )
        .unwrap_err(),
        FromAttributesError::InvalidMask
    );
    let ot = ObjectTypeAttributes {
        specified_attributes: MASK_IS_ABSTRACT,
        display_name: LocalizedText::new("T".to_string()),
        description: LocalizedText::new(String::new()),
        write_mask: 0,
        user_write_mask: 0,
        is_abstract: false,
    };
    assert_eq!(
        ObjectType::from_attributes(
            &NodeId::new_numeric(1, 9),
            QualifiedName::new(1, "T".to_string()),
            ot,
        )
        .unwrap_err(),
        FromAttributesError::MissingMandatoryValues
    );
    let ot = ObjectTypeAttributes {
        specified_attributes: MASK_DISPLAY_NAME | MASK_IS_ABSTRACT,
        display_name: LocalizedText::new("T".to_string()),
        description: LocalizedText::new(String::new()),
        write_mask: 0,
        user_write_mask: 0,
        is_abstract: true,
    };
    let node = ObjectType::from_attributes(
        &NodeId::new_numeric(1, 9),
        QualifiedName::new(1, "T".to_string()),
        ot,
    )
    .expect("mandatory attributes present");
    assert!(node.is_abstract());
    assert!(node.is_valid());
}

#[test]
fn object_type_builder_sets_flags() {
    let node = ObjectTypeBuilder::new(
        &NodeId::new_numeric(1, 11),
        QualifiedName::new(1, "MachineType".to_string()),
        LocalizedText::new("Machine type".to_string()),
    )
    .is_abstract(true)
    .write_mask(3)
    .build();
    assert!(node.is_abstract());
    assert_eq!(node.base.write_mask, 3);
}
