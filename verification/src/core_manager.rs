//! The core namespace's node manager: the server values read from
//! configuration, the namespace array, and the built-in method calls.

use vstd::prelude::*;

use crate::data_value::{DataValue, DataValueView};
use crate::date_time::DateTime;
use crate::node_id::{clone_string, Identifier, NodeId};
use crate::status::StatusCode;
use crate::variant::{spec_range_of, NumericRange, Scalar, Variant, VariantView};

verus! {

/// A table of namespace uris keyed by namespace index, backed by a hashbrown
/// map. The map type itself cannot be declared to the verifier (its allocator
/// parameter's trait is not nameable here), so the whole struct is opaque and
/// is reached only through the wrappers below.
#[verifier::external_body]
pub struct NamespaceTable {
    map: hashbrown::HashMap<u16, String>,
}

/// What a namespace table holds.
pub uninterp spec fn hb_entries(m: NamespaceTable) -> Map<u16, Seq<char>>;

/// Relies on hashbrown's `HashMap::new`: a fresh map holds nothing.
#[verifier::external_body]
fn hb_new() -> (r: NamespaceTable)
    ensures
        forall|k: u16| !hb_entries(r).contains_key(k),
{
    NamespaceTable { map: hashbrown::HashMap::new() }
}

/// Relies on hashbrown's `HashMap::insert`: the key now maps to the value,
/// nothing else changes.
#[verifier::external_body]
fn hb_insert(m: &mut NamespaceTable, k: u16, v: String)
    ensures
        hb_entries(*final (m)) == hb_entries(*old(m)).insert(k, v@),
{
    m.map.insert(k, v);
}

/// Relies on hashbrown's `HashMap::get`: the value under the key, when the
/// map holds one.
#[verifier::external_body]
fn hb_get<'a>(m: &'a NamespaceTable, k: &u16) -> (r: Option<&'a String>)
    ensures
        match r {
            Some(v) => hb_entries(*m).contains_key(*k) && v@ == hb_entries(*m)[*k],
            None => !hb_entries(*m).contains_key(*k),
        },
{
    m.map.get(k)
}

/// Relies on hashbrown's `HashMap::iter`: every returned pair is held and
/// every held key is returned, in no promised order.
#[verifier::external_body]
fn hb_pairs(m: &NamespaceTable) -> (r: Vec<(u16, String)>)
    ensures
        forall|i: int|
            0 <= i < r@.len() ==> hb_entries(*m).contains_key((#[trigger] r@[i]).0) && hb_entries(
                *m,
            )[r@[i].0] == r@[i].1@,
        forall|k: u16| #[trigger]
            hb_entries(*m).contains_key(k) ==> exists|i: int|
                0 <= i < r@.len() && (#[trigger] r@[i]).0 == k,
{
    m.map.iter().map(|(k, v)| (*k, v.clone())).collect()
}

/// The namespace map the registered pairs build up, later pairs winning.
pub open spec fn ns_map(pairs: Seq<(u16, Seq<char>)>) -> Map<u16, Seq<char>>
    decreases pairs.len(),
{
    if pairs.len() == 0 {
        Map::empty()
    } else {
        ns_map(pairs.drop_last()).insert(pairs.last().0, pairs.last().1)
    }
}

/// The namespace array: the uri under each index from zero up to the highest
/// registered, holes filled with empty strings; nothing when no namespace is
/// registered. Later registrations of an index win.
pub fn namespace_array(pairs: &Vec<(u16, String)>) -> (r: Option<Vec<String>>)
    ensures
        ({
            let m = ns_map(Seq::new(pairs@.len(), |i: int| (pairs@[i].0, pairs@[i].1@)));
            match r {
                None => pairs@.len() == 0,
                Some(arr) => {
                    &&& pairs@.len() > 0
                    &&& arr@.len() >= 1
                    &&& forall|k: u16| #[trigger] m.contains_key(k) ==> (k as int) < arr@.len()
                    &&& forall|idx: int|
                        0 <= idx < arr@.len() ==> (#[trigger] arr@[idx])@ == if m.contains_key(
                            idx as u16,
                        ) {
                            m[idx as u16]
                        } else {
                            Seq::<char>::empty()
                        }
                },
            }
        }),
{
    let ghost pview = Seq::new(pairs@.len(), |i: int| (pairs@[i].0, pairs@[i].1@));
    let mut m = hb_new();
    let mut i: usize = 0;
    while i < pairs.len()
        invariant
            i <= pairs@.len(),
            pview == Seq::new(pairs@.len(), |j: int| (pairs@[j].0, pairs@[j].1@)),
            hb_entries(m) == ns_map(pview.subrange(0, i as int)),
        decreases pairs@.len() - i,
    {
        let (k, v) = (pairs[i].0, clone_string(&pairs[i].1));
        proof {
            assert(pview.subrange(0, i + 1).drop_last() =~= pview.subrange(0, i as int));
        }
        hb_insert(&mut m, k, v);
        i += 1;
    }
    proof {
        assert(pview.subrange(0, pview.len() as int) =~= pview);
    }
    if pairs.len() == 0 {
        return None;
    }
    // Find the highest registered index.
    let entries = hb_pairs(&m);
    let mut max: u16 = 0;
    let mut j: usize = 0;
    proof {
        if pview.len() > 0 {
            assert(ns_map(pview).contains_key(pview.last().0));
        }
    }
    while j < entries.len()
        invariant
            j <= entries@.len(),
            forall|t: int| 0 <= t < j ==> (#[trigger] entries@[t]).0 <= max,
            forall|t: int|
                0 <= t < entries@.len() ==> hb_entries(m).contains_key(
                    (#[trigger] entries@[t]).0,
                ) && hb_entries(m)[entries@[t].0] == entries@[t].1@,
            forall|k: u16| #[trigger]
                hb_entries(m).contains_key(k) ==> exists|t: int|
                    0 <= t < entries@.len() && (#[trigger] entries@[t]).0 == k,
        decreases entries@.len() - j,
    {
        if entries[j].0 > max {
            max = entries[j].0;
        }
        j += 1;
    }
    proof {
        assert forall|k: u16| #[trigger] hb_entries(m).contains_key(k) implies k <= max by {
            let t = choose|t: int| 0 <= t < entries@.len() && (#[trigger] entries@[t]).0 == k;
        }
    }
    let mut arr: Vec<String> = Vec::new();
    let mut idx: u16 = 0;
    loop
        invariant_except_break
            idx <= max,
            arr@.len() == idx,
        invariant
            hb_entries(m) == ns_map(pview),
            forall|k: u16| #[trigger] hb_entries(m).contains_key(k) ==> k <= max,
            forall|t: int|
                0 <= t < arr@.len() ==> (#[trigger] arr@[t])@ == if hb_entries(m).contains_key(
                    t as u16,
                ) {
                    hb_entries(m)[t as u16]
                } else {
                    Seq::<char>::empty()
                },
        ensures
            arr@.len() == max + 1,
            hb_entries(m) == ns_map(pview),
            forall|k: u16| #[trigger] hb_entries(m).contains_key(k) ==> k <= max,
            forall|t: int|
                0 <= t < arr@.len() ==> (#[trigger] arr@[t])@ == if hb_entries(m).contains_key(
                    t as u16,
                ) {
                    hb_entries(m)[t as u16]
                } else {
                    Seq::<char>::empty()
                },
        decreases max - idx,
    {
        match hb_get(&m, &idx) {
            Some(v) => {
                arr.push(clone_string(v));
            },
            None => {
                arr.push(String::new());
            },
        }
        if idx == max {
            break ;
        }
        idx = idx + 1;
    }
    Some(arr)
}

/// The server variables of the base namespace the core answers from
/// configuration, by their well-known numeric ids.
#[derive(Clone, Copy, Debug, PartialEq, Eq, Structural)]
pub enum VariableId {
    Server_NamespaceArray,
    Server_ServiceLevel,
    Server_ServerStatus_StartTime,
    Server_ServerStatus_CurrentTime,
    Server_ServerStatus_State,
    Server_ServerStatus_SecondsTillShutdown,
    Server_ServerCapabilities_MaxArrayLength,
    Server_ServerCapabilities_MaxStringLength,
    Server_ServerCapabilities_MaxByteStringLength,
    Server_ServerCapabilities_MinSupportedSampleRate,
    Server_ServerCapabilities_MaxBrowseContinuationPoints,
    Server_ServerCapabilities_MaxQueryContinuationPoints,
    Server_ServerCapabilities_MaxHistoryContinuationPoints,
    Server_ServerCapabilities_OperationLimits_MaxNodesPerRead,
    Server_ServerCapabilities_OperationLimits_MaxNodesPerWrite,
    Server_ServerCapabilities_OperationLimits_MaxNodesPerBrowse,
    Server_ServerCapabilities_OperationLimits_MaxNodesPerMethodCall,
    Server_ServerCapabilities_OperationLimits_MaxMonitoredItemsPerCall,
    HistoryServerCapabilities_AccessHistoryDataCapability,
    HistoryServerCapabilities_AccessHistoryEventsCapability,
    HistoryServerCapabilities_MaxReturnDataValues,
    HistoryServerCapabilities_MaxReturnEventValues,
    HistoryServerCapabilities_InsertDataCapability,
    HistoryServerCapabilities_ReplaceDataCapability,
    HistoryServerCapabilities_UpdateDataCapability,
    HistoryServerCapabilities_DeleteRawCapability,
    HistoryServerCapabilities_DeleteAtTimeCapability,
}

/// The server variable a numeric base-namespace id names, when the core
/// answers it.
pub open spec fn spec_variable_id(id: u32) -> Option<VariableId> {
    if id == 2255 {
        Some(VariableId::Server_NamespaceArray)
    } else if id == 2267 {
        Some(VariableId::Server_ServiceLevel)
    } else if id == 2257 {
        Some(VariableId::Server_ServerStatus_StartTime)
    } else if id == 2258 {
        Some(VariableId::Server_ServerStatus_CurrentTime)
    } else if id == 2259 {
        Some(VariableId::Server_ServerStatus_State)
    } else if id == 2992 {
        Some(VariableId::Server_ServerStatus_SecondsTillShutdown)
    } else if id == 11702 {
        Some(VariableId::Server_ServerCapabilities_MaxArrayLength)
    } else if id == 11703 {
        Some(VariableId::Server_ServerCapabilities_MaxStringLength)
    } else if id == 12911 {
        Some(VariableId::Server_ServerCapabilities_MaxByteStringLength)
    } else if id == 2272 {
        Some(VariableId::Server_ServerCapabilities_MinSupportedSampleRate)
    } else if id == 2735 {
        Some(VariableId::Server_ServerCapabilities_MaxBrowseContinuationPoints)
    } else if id == 2736 {
        Some(VariableId::Server_ServerCapabilities_MaxQueryContinuationPoints)
    } else if id == 2737 {
        Some(VariableId::Server_ServerCapabilities_MaxHistoryContinuationPoints)
    } else if id == 11705 {
        Some(VariableId::Server_ServerCapabilities_OperationLimits_MaxNodesPerRead)
    } else if id == 11707 {
        Some(VariableId::Server_ServerCapabilities_OperationLimits_MaxNodesPerWrite)
    } else if id == 11710 {
        Some(VariableId::Server_ServerCapabilities_OperationLimits_MaxNodesPerBrowse)
    } else if id == 11712 {
        Some(VariableId::Server_ServerCapabilities_OperationLimits_MaxNodesPerMethodCall)
    } else if id == 11714 {
        Some(VariableId::Server_ServerCapabilities_OperationLimits_MaxMonitoredItemsPerCall)
    } else if id == 11193 {
        Some(VariableId::HistoryServerCapabilities_AccessHistoryDataCapability)
    } else if id == 11242 {
        Some(VariableId::HistoryServerCapabilities_AccessHistoryEventsCapability)
    } else if id == 11273 {
        Some(VariableId::HistoryServerCapabilities_MaxReturnDataValues)
    } else if id == 11274 {
        Some(VariableId::HistoryServerCapabilities_MaxReturnEventValues)
    } else if id == 11196 {
        Some(VariableId::HistoryServerCapabilities_InsertDataCapability)
    } else if id == 11197 {
        Some(VariableId::HistoryServerCapabilities_ReplaceDataCapability)
    } else if id == 11198 {
        Some(VariableId::HistoryServerCapabilities_UpdateDataCapability)
    } else if id == 11199 {
        Some(VariableId::HistoryServerCapabilities_DeleteRawCapability)
    } else if id == 11200 {
        Some(VariableId::HistoryServerCapabilities_DeleteAtTimeCapability)
    } else {
        None
    }
}

/// The server limits the core exposes as capabilities.
#[derive(Clone, Copy, Debug, PartialEq, Eq, Structural)]
pub struct ServerLimits {
    pub max_array_length: u32,
    pub max_string_length: u32,
    pub max_byte_string_length: u32,
    pub min_sampling_interval_ms: u32,
    pub max_browse_continuation_points: u32,
    pub max_query_continuation_points: u32,
    pub max_history_continuation_points: u32,
    pub max_nodes_per_read: u32,
    pub max_nodes_per_write: u32,
    pub max_nodes_per_browse: u32,
    pub max_nodes_per_method_call: u32,
    pub max_monitored_items_per_call: u32,
}

/// The history capabilities the core exposes.
#[derive(Clone, Copy, Debug, PartialEq, Eq, Structural)]
pub struct HistoryCapabilities {
    pub access_history_data: bool,
    pub access_history_events: bool,
    pub max_return_data_values: u32,
    pub max_return_event_values: u32,
    pub insert_data: bool,
    pub replace_data: bool,
    pub update_data: bool,
    pub delete_raw: bool,
    pub delete_at_time: bool,
}

/// A snapshot of the server's status values.
#[derive(Clone, Copy, Debug, PartialEq, Eq, Structural)]
pub struct ServerStatusSnapshot {
    /// When the server started.
    pub start_time: DateTime,
    /// The server state, as its wire value.
    pub state: i32,
    /// The service level.
    pub service_level: u8,
    /// Seconds until a planned shutdown, when one is planned.
    pub seconds_till_shutdown: Option<u32>,
}

/// One parsed node-and-range to read.
#[derive(Clone, Debug)]
pub struct ParsedReadValueId {
    pub node_id: NodeId,
    pub index_range: NumericRange,
}

/// The value of a server variable the core answers from configuration.
/// The namespace array is assembled separately by [`namespace_array`].
pub open spec fn spec_server_value(
    vid: VariableId,
    limits: ServerLimits,
    hist: HistoryCapabilities,
    status: ServerStatusSnapshot,
    now: DateTime,
) -> Option<VariantView> {
    match vid {
        VariableId::Server_NamespaceArray => None,
        VariableId::Server_ServiceLevel => Some(
            VariantView::Scalar(crate::variant::ScalarView::Byte(status.service_level)),
        ),
        VariableId::Server_ServerStatus_StartTime => Some(
            VariantView::Scalar(crate::variant::ScalarView::DateTime(status.start_time)),
        ),
        VariableId::Server_ServerStatus_CurrentTime => Some(
            VariantView::Scalar(crate::variant::ScalarView::DateTime(now)),
        ),
        VariableId::Server_ServerStatus_State => Some(
            VariantView::Scalar(crate::variant::ScalarView::Int32(status.state)),
        ),
        VariableId::Server_ServerStatus_SecondsTillShutdown => Some(
            match status.seconds_till_shutdown {
                Some(x) => VariantView::Scalar(crate::variant::ScalarView::UInt32(x)),
                None => VariantView::Empty,
            },
        ),
        VariableId::Server_ServerCapabilities_MaxArrayLength => Some(
            VariantView::Scalar(crate::variant::ScalarView::UInt32(limits.max_array_length)),
        ),
        VariableId::Server_ServerCapabilities_MaxStringLength => Some(
            VariantView::Scalar(crate::variant::ScalarView::UInt32(limits.max_string_length)),
        ),
        VariableId::Server_ServerCapabilities_MaxByteStringLength => Some(
            VariantView::Scalar(crate::variant::ScalarView::UInt32(limits.max_byte_string_length)),
        ),
        VariableId::Server_ServerCapabilities_MinSupportedSampleRate => Some(
            VariantView::Scalar(
                crate::variant::ScalarView::UInt32(limits.min_sampling_interval_ms),
            ),
        ),
        VariableId::Server_ServerCapabilities_MaxBrowseContinuationPoints => Some(
            VariantView::Scalar(
                crate::variant::ScalarView::UInt32(limits.max_browse_continuation_points),
            ),
        ),
        VariableId::Server_ServerCapabilities_MaxQueryContinuationPoints => Some(
            VariantView::Scalar(
                crate::variant::ScalarView::UInt32(limits.max_query_continuation_points),
            ),
        ),
        VariableId::Server_ServerCapabilities_MaxHistoryContinuationPoints => Some(
            VariantView::Scalar(
                crate::variant::ScalarView::UInt32(limits.max_history_continuation_points),
            ),
        ),
        VariableId::Server_ServerCapabilities_OperationLimits_MaxNodesPerRead => Some(
            VariantView::Scalar(crate::variant::ScalarView::UInt32(limits.max_nodes_per_read)),
        ),
        VariableId::Server_ServerCapabilities_OperationLimits_MaxNodesPerWrite => Some(
            VariantView::Scalar(crate::variant::ScalarView::UInt32(limits.max_nodes_per_write)),
        ),
        VariableId::Server_ServerCapabilities_OperationLimits_MaxNodesPerBrowse => Some(
            VariantView::Scalar(crate::variant::ScalarView::UInt32(limits.max_nodes_per_browse)),
        ),
        VariableId::Server_ServerCapabilities_OperationLimits_MaxNodesPerMethodCall => Some(
            VariantView::Scalar(
                crate::variant::ScalarView::UInt32(limits.max_nodes_per_method_call),
            ),
        ),
        VariableId::Server_ServerCapabilities_OperationLimits_MaxMonitoredItemsPerCall => Some(
            VariantView::Scalar(
                crate::variant::ScalarView::UInt32(limits.max_monitored_items_per_call),
            ),
        ),
        VariableId::HistoryServerCapabilities_AccessHistoryDataCapability => Some(
            VariantView::Scalar(crate::variant::ScalarView::Boolean(hist.access_history_data)),
        ),
        VariableId::HistoryServerCapabilities_AccessHistoryEventsCapability => Some(
            VariantView::Scalar(crate::variant::ScalarView::Boolean(hist.access_history_events)),
        ),
        VariableId::HistoryServerCapabilities_MaxReturnDataValues => Some(
            VariantView::Scalar(crate::variant::ScalarView::UInt32(hist.max_return_data_values)),
        ),
        VariableId::HistoryServerCapabilities_MaxReturnEventValues => Some(
            VariantView::Scalar(crate::variant::ScalarView::UInt32(hist.max_return_event_values)),
        ),
        VariableId::HistoryServerCapabilities_InsertDataCapability => Some(
            VariantView::Scalar(crate::variant::ScalarView::Boolean(hist.insert_data)),
        ),
        VariableId::HistoryServerCapabilities_ReplaceDataCapability => Some(
            VariantView::Scalar(crate::variant::ScalarView::Boolean(hist.replace_data)),
        ),
        VariableId::HistoryServerCapabilities_UpdateDataCapability => Some(
            VariantView::Scalar(crate::variant::ScalarView::Boolean(hist.update_data)),
        ),
        VariableId::HistoryServerCapabilities_DeleteRawCapability => Some(
            VariantView::Scalar(crate::variant::ScalarView::Boolean(hist.delete_raw)),
        ),
        VariableId::HistoryServerCapabilities_DeleteAtTimeCapability => Some(
            VariantView::Scalar(crate::variant::ScalarView::Boolean(hist.delete_at_time)),
        ),
    }
}

/// Builder for the core node manager.
#[derive(Debug)]
pub struct CoreNodeManagerBuilder;

/// The node manager of the base namespace. Samplers, subscriptions and the
/// node storage live outside the core; what remains is the logic that
/// answers server variables from configuration and runs the built-in
/// methods.
#[derive(Debug)]
pub struct CoreNodeManagerImpl {
    /// The limits exposed as capabilities.
    pub limits: ServerLimits,
    /// The exposed history capabilities.
    pub hist: HistoryCapabilities,
}

/// Mathematical image of a [`MethodCall`].
pub struct MethodCallView {
    pub method_id: crate::node_id::NodeIdView,
    pub args: Seq<VariantView>,
    pub outputs: Seq<VariantView>,
    pub status: StatusCode,
}

/// One method call to run.
#[derive(Clone, Debug)]
pub struct MethodCall {
    /// The method to call.
    pub method_id: NodeId,
    /// The input arguments.
    pub args: Vec<Variant>,
    /// The output arguments, set by the call.
    pub outputs: Vec<Variant>,
    /// The status of the call, set by the call.
    pub status: StatusCode,
}

impl View for MethodCall {
    type V = MethodCallView;

    open spec fn view(&self) -> MethodCallView {
        MethodCallView {
            method_id: self.method_id@,
            args: Seq::new(self.args@.len(), |i: int| self.args@[i]@),
            outputs: Seq::new(self.outputs@.len(), |i: int| self.outputs@[i]@),
            status: self.status,
        }
    }
}

/// What looking up the session's subscription yielded; the subscription
/// subsystem lives outside the core.
#[derive(Clone, Debug)]
pub enum SubscriptionLookup {
    NoSession,
    NoSubscription,
    Items(Vec<(u32, u32)>),
}

/// Mathematical image of a [`SubscriptionLookup`].
pub enum SubscriptionLookupView {
    NoSession,
    NoSubscription,
    Items(Seq<(u32, u32)>),
}

impl View for SubscriptionLookup {
    type V = SubscriptionLookupView;

    open spec fn view(&self) -> SubscriptionLookupView {
        match self {
            SubscriptionLookup::NoSession => SubscriptionLookupView::NoSession,
            SubscriptionLookup::NoSubscription => SubscriptionLookupView::NoSubscription,
            SubscriptionLookup::Items(v) => SubscriptionLookupView::Items(v@),
        }
    }
}

/// What one built-in method call does: the call after the run, or the exact
/// refusal. Methods outside the base namespace, or without a numeric id, are
/// left untouched; the monitored-items query answers the item ids and client
/// handles as two arrays; the resend request only flips its status; anything
/// else of the base namespace is unsupported.
pub open spec fn spec_builtin_result(pre: MethodCallView, lookup: SubscriptionLookupView) -> Result<
    MethodCallView,
    StatusCode,
> {
    match pre.method_id.identifier {
        crate::node_id::IdentifierView::Numeric(id) => {
            if pre.method_id.namespace != 0 {
                Ok(pre)
            } else if id == 11492 {
                match lookup {
                    SubscriptionLookupView::NoSession => Err(StatusCode::BadSessionIdInvalid),
                    SubscriptionLookupView::NoSubscription => Err(
                        StatusCode::BadSubscriptionIdInvalid,
                    ),
                    SubscriptionLookupView::Items(items) => Ok(
                        MethodCallView {
                            outputs: seq![
                                VariantView::Array(
                                    Seq::new(
                                        items.len(),
                                        |i: int| crate::variant::ScalarView::UInt32(items[i].0),
                                    ),
                                ),
                                VariantView::Array(
                                    Seq::new(
                                        items.len(),
                                        |i: int| crate::variant::ScalarView::UInt32(items[i].1),
                                    ),
                                ),
                            ],
                            status: StatusCode::Good,
                            ..pre
                        },
                    ),
                }
            } else if id == 12873 {
                match lookup {
                    SubscriptionLookupView::NoSession => Err(StatusCode::BadSessionIdInvalid),
                    SubscriptionLookupView::NoSubscription => Err(
                        StatusCode::BadSubscriptionIdInvalid,
                    ),
                    SubscriptionLookupView::Items(_) => Ok(
                        MethodCallView { status: StatusCode::Good, ..pre },
                    ),
                }
            } else {
                Err(StatusCode::BadNotSupported)
            }
        },
        _ => Ok(pre),
    }
}

impl CoreNodeManagerImpl {
    /// A core node manager exposing the given limits.
    pub fn new(limits: ServerLimits, hist: HistoryCapabilities) -> (r: CoreNodeManagerImpl)
        ensures
            r.limits == limits,
            r.hist == hist,
    {
        CoreNodeManagerImpl { limits, hist }
    }

    /// The name of this node manager.
    pub fn name(&self) -> (r: &'static str) {
        "core"
    }

    /// The server variable a node id names, when the core answers it: only
    /// numeric ids of the base namespace qualify.
    pub fn get_variable_id(&self, node: &NodeId) -> (r: Option<VariableId>)
        ensures
            r == match node@.identifier {
                crate::node_id::IdentifierView::Numeric(id) => if node@.namespace == 0 {
                    spec_variable_id(id)
                } else {
                    None
                },
                _ => None::<VariableId>,
            },
    {
        if node.namespace != 0 {
            return None;
        }
        let id = match &node.identifier {
            Identifier::Numeric(id) => *id,
            _ => {
                return None;
            },
        };
        if id == 2255 {
            Some(VariableId::Server_NamespaceArray)
        } else if id == 2267 {
            Some(VariableId::Server_ServiceLevel)
        } else if id == 2257 {
            Some(VariableId::Server_ServerStatus_StartTime)
        } else if id == 2258 {
            Some(VariableId::Server_ServerStatus_CurrentTime)
        } else if id == 2259 {
            Some(VariableId::Server_ServerStatus_State)
        } else if id == 2992 {
            Some(VariableId::Server_ServerStatus_SecondsTillShutdown)
        } else if id == 11702 {
            Some(VariableId::Server_ServerCapabilities_MaxArrayLength)
        } else if id == 11703 {
            Some(VariableId::Server_ServerCapabilities_MaxStringLength)
        } else if id == 12911 {
            Some(VariableId::Server_ServerCapabilities_MaxByteStringLength)
        } else if id == 2272 {
            Some(VariableId::Server_ServerCapabilities_MinSupportedSampleRate)
        } else if id == 2735 {
            Some(VariableId::Server_ServerCapabilities_MaxBrowseContinuationPoints)
        } else if id == 2736 {
            Some(VariableId::Server_ServerCapabilities_MaxQueryContinuationPoints)
        } else if id == 2737 {
            Some(VariableId::Server_ServerCapabilities_MaxHistoryContinuationPoints)
        } else if id == 11705 {
            Some(VariableId::Server_ServerCapabilities_OperationLimits_MaxNodesPerRead)
        } else if id == 11707 {
            Some(VariableId::Server_ServerCapabilities_OperationLimits_MaxNodesPerWrite)
        } else if id == 11710 {
            Some(VariableId::Server_ServerCapabilities_OperationLimits_MaxNodesPerBrowse)
        } else if id == 11712 {
            Some(VariableId::Server_ServerCapabilities_OperationLimits_MaxNodesPerMethodCall)
        } else if id == 11714 {
            Some(VariableId::Server_ServerCapabilities_OperationLimits_MaxMonitoredItemsPerCall)
        } else if id == 11193 {
            Some(VariableId::HistoryServerCapabilities_AccessHistoryDataCapability)
        } else if id == 11242 {
            Some(VariableId::HistoryServerCapabilities_AccessHistoryEventsCapability)
        } else if id == 11273 {
            Some(VariableId::HistoryServerCapabilities_MaxReturnDataValues)
        } else if id == 11274 {
            Some(VariableId::HistoryServerCapabilities_MaxReturnEventValues)
        } else if id == 11196 {
            Some(VariableId::HistoryServerCapabilities_InsertDataCapability)
        } else if id == 11197 {
            Some(VariableId::HistoryServerCapabilities_ReplaceDataCapability)
        } else if id == 11198 {
            Some(VariableId::HistoryServerCapabilities_UpdateDataCapability)
        } else if id == 11199 {
            Some(VariableId::HistoryServerCapabilities_DeleteRawCapability)
        } else if id == 11200 {
            Some(VariableId::HistoryServerCapabilities_DeleteAtTimeCapability)
        } else {
            None
        }
    }

    /// The configured value of a server variable, as a variant. The namespace
    /// array is assembled separately by [`namespace_array`].
    fn server_variant(&self, vid: VariableId, status: &ServerStatusSnapshot, now: DateTime) -> (r:
        Option<Variant>)
        ensures
            match spec_server_value(vid, self.limits, self.hist, *status, now) {
                Some(v) => r matches Some(w) && w@ == v,
                None => r is None,
            },
    {
        match vid {
            VariableId::Server_NamespaceArray => None,
            VariableId::Server_ServiceLevel => Some(
                Variant::Scalar(Scalar::Byte(status.service_level)),
            ),
            VariableId::Server_ServerStatus_StartTime => Some(
                Variant::Scalar(Scalar::DateTime(status.start_time)),
            ),
            VariableId::Server_ServerStatus_CurrentTime => Some(
                Variant::Scalar(Scalar::DateTime(now)),
            ),
            VariableId::Server_ServerStatus_State => Some(
                Variant::Scalar(Scalar::Int32(status.state)),
            ),
            VariableId::Server_ServerStatus_SecondsTillShutdown => Some(
                match status.seconds_till_shutdown {
                    Some(x) => Variant::Scalar(Scalar::UInt32(x)),
                    None => Variant::Empty,
                },
            ),
            VariableId::Server_ServerCapabilities_MaxArrayLength => Some(
                Variant::Scalar(Scalar::UInt32(self.limits.max_array_length)),
            ),
            VariableId::Server_ServerCapabilities_MaxStringLength => Some(
                Variant::Scalar(Scalar::UInt32(self.limits.max_string_length)),
            ),
            VariableId::Server_ServerCapabilities_MaxByteStringLength => Some(
                Variant::Scalar(Scalar::UInt32(self.limits.max_byte_string_length)),
            ),
            VariableId::Server_ServerCapabilities_MinSupportedSampleRate => Some(
                Variant::Scalar(Scalar::UInt32(self.limits.min_sampling_interval_ms)),
            ),
            VariableId::Server_ServerCapabilities_MaxBrowseContinuationPoints => Some(
                Variant::Scalar(Scalar::UInt32(self.limits.max_browse_continuation_points)),
            ),
            VariableId::Server_ServerCapabilities_MaxQueryContinuationPoints => Some(
                Variant::Scalar(Scalar::UInt32(self.limits.max_query_continuation_points)),
            ),
            VariableId::Server_ServerCapabilities_MaxHistoryContinuationPoints => Some(
                Variant::Scalar(Scalar::UInt32(self.limits.max_history_continuation_points)),
            ),
            VariableId::Server_ServerCapabilities_OperationLimits_MaxNodesPerRead => Some(
                Variant::Scalar(Scalar::UInt32(self.limits.max_nodes_per_read)),
            ),
            VariableId::Server_ServerCapabilities_OperationLimits_MaxNodesPerWrite => Some(
                Variant::Scalar(Scalar::UInt32(self.limits.max_nodes_per_write)),
            ),
            VariableId::Server_ServerCapabilities_OperationLimits_MaxNodesPerBrowse => Some(
                Variant::Scalar(Scalar::UInt32(self.limits.max_nodes_per_browse)),
            ),
            VariableId::Server_ServerCapabilities_OperationLimits_MaxNodesPerMethodCall => Some(
                Variant::Scalar(Scalar::UInt32(self.limits.max_nodes_per_method_call)),
            ),
            VariableId::Server_ServerCapabilities_OperationLimits_MaxMonitoredItemsPerCall => Some(
                Variant::Scalar(Scalar::UInt32(self.limits.max_monitored_items_per_call)),
            ),
            VariableId::HistoryServerCapabilities_AccessHistoryDataCapability => Some(
                Variant::Scalar(Scalar::Boolean(self.hist.access_history_data)),
            ),
            VariableId::HistoryServerCapabilities_AccessHistoryEventsCapability => Some(
                Variant::Scalar(Scalar::Boolean(self.hist.access_history_events)),
            ),
            VariableId::HistoryServerCapabilities_MaxReturnDataValues => Some(
                Variant::Scalar(Scalar::UInt32(self.hist.max_return_data_values)),
            ),
            VariableId::HistoryServerCapabilities_MaxReturnEventValues => Some(
                Variant::Scalar(Scalar::UInt32(self.hist.max_return_event_values)),
            ),
            VariableId::HistoryServerCapabilities_InsertDataCapability => Some(
                Variant::Scalar(Scalar::Boolean(self.hist.insert_data)),
            ),
            VariableId::HistoryServerCapabilities_ReplaceDataCapability => Some(
                Variant::Scalar(Scalar::Boolean(self.hist.replace_data)),
            ),
            VariableId::HistoryServerCapabilities_UpdateDataCapability => Some(
                Variant::Scalar(Scalar::Boolean(self.hist.update_data)),
            ),
            VariableId::HistoryServerCapabilities_DeleteRawCapability => Some(
                Variant::Scalar(Scalar::Boolean(self.hist.delete_raw)),
            ),
            VariableId::HistoryServerCapabilities_DeleteAtTimeCapability => Some(
                Variant::Scalar(Scalar::Boolean(self.hist.delete_at_time)),
            ),
        }
    }

    /// Read a server variable from configuration: nothing when the node is
    /// not one the core answers; else the value with the requested part
    /// selected, stamped with the server start time, or the range error as
    /// the value's status.
    pub fn read_server_value(
        &self,
        node: &ParsedReadValueId,
        status: &ServerStatusSnapshot,
        now: DateTime,
    ) -> (r: Option<DataValue>)
        ensures
            ({
                let vid = match node.node_id@.identifier {
                    crate::node_id::IdentifierView::Numeric(id) => if node.node_id@.namespace
                        == 0 {
                        spec_variable_id(id)
                    } else {
                        None
                    },
                    _ => None,
                };
                match vid {
                    None => r is None,
                    Some(v) => match spec_server_value(v, self.limits, self.hist, *status, now) {
                        None => r is None,
                        Some(value) => match spec_range_of(value, node.index_range) {
                            Ok(part) => r matches Some(d) && d@ == (DataValueView {
                                value: Some(part),
                                status: Some(StatusCode::Good),
                                source_timestamp: Some(status.start_time),
                                source_picoseconds: None,
                                server_timestamp: Some(status.start_time),
                                server_picoseconds: None,
                            }),
                            Err(e) => r matches Some(d) && d@ == (DataValueView {
                                value: None,
                                status: Some(e),
                                source_timestamp: None,
                                source_picoseconds: None,
                                server_timestamp: None,
                                server_picoseconds: None,
                            }),
                        },
                    },
                }
            }),
    {
        let vid = match self.get_variable_id(&node.node_id) {
            Some(v) => v,
            None => {
                return None;
            },
        };
        let value = match self.server_variant(vid, status, now) {
            Some(v) => v,
            None => {
                return None;
            },
        };
        match value.range_of(node.index_range) {
            Ok(part) => Some(
                DataValue {
                    value: Some(part),
                    status: Some(StatusCode::Good),
                    source_timestamp: Some(status.start_time),
                    source_picoseconds: None,
                    server_timestamp: Some(status.start_time),
                    server_picoseconds: None,
                },
            ),
            Err(e) => Some(
                DataValue {
                    value: None,
                    status: Some(e),
                    source_timestamp: None,
                    source_picoseconds: None,
                    server_timestamp: None,
                    server_picoseconds: None,
                },
            ),
        }
    }

    /// Read one node: a refused read becomes an empty value carrying the
    /// refusal, a server variable is answered from configuration, and
    /// anything else falls back to the value read from the node hierarchy
    /// outside the core.
    pub fn read_node_value(
        &self,
        validation: Result<(), StatusCode>,
        node: &ParsedReadValueId,
        status: &ServerStatusSnapshot,
        now: DateTime,
        fallback: DataValue,
    ) -> (r: DataValue)
        ensures
            validation matches Err(e) ==> r@ == (DataValueView {
                value: None,
                status: Some(e),
                source_timestamp: None,
                source_picoseconds: None,
                server_timestamp: None,
                server_picoseconds: None,
            }),
    {
        match validation {
            Err(e) => {
                let mut result = DataValue::null();
                result.status = Some(e);
                result
            },
            Ok(_) => {
                match self.read_server_value(node, status, now) {
                    Some(v) => v,
                    None => fallback,
                }
            },
        }
    }

    /// Read many nodes: each is read as [`read_node_value`], with its own
    /// validation outcome and fallback.
    pub fn read_values(
        &self,
        validations: &Vec<Result<(), StatusCode>>,
        nodes: &Vec<ParsedReadValueId>,
        status: &ServerStatusSnapshot,
        now: DateTime,
        fallbacks: Vec<DataValue>,
    ) -> (r: Vec<DataValue>)
        requires
            validations@.len() == nodes@.len(),
            fallbacks@.len() == nodes@.len(),
        ensures
            r@.len() == nodes@.len(),
            forall|i: int|
                0 <= i < r@.len() ==> match validations@[i] {
                    Err(e) => (#[trigger] r@[i])@ == (DataValueView {
                        value: None,
                        status: Some(e),
                        source_timestamp: None,
                        source_picoseconds: None,
                        server_timestamp: None,
                        server_picoseconds: None,
                    }),
                    Ok(_) => true,
                },
    {
        let mut out: Vec<DataValue> = Vec::new();
        let mut fallbacks = fallbacks;
        let mut i: usize = 0;
        while i < nodes.len()
            invariant
                i <= nodes@.len(),
                validations@.len() == nodes@.len(),
                fallbacks@.len() == nodes@.len() - i,
                out@.len() == i,
                forall|j: int|
                    0 <= j < i ==> match validations@[j] {
                        Err(e) => (#[trigger] out@[j])@ == (DataValueView {
                            value: None,
                            status: Some(e),
                            source_timestamp: None,
                            source_picoseconds: None,
                            server_timestamp: None,
                            server_picoseconds: None,
                        }),
                        Ok(_) => true,
                    },
            decreases nodes@.len() - i,
        {
            let fallback = fallbacks.remove(0);
            let validation = match &validations[i] {
                Ok(_) => Ok(()),
                Err(e) => Err(*e),
            };
            out.push(self.read_node_value(validation, &nodes[i], status, now, fallback));
            i += 1;
        }
        out
    }

    /// Whether the node is one the core samples internally: a mapped
    /// diagnostics variable.
    pub fn is_internal_sampled(&self, node: &NodeId) -> (r: bool)
        ensures
            r == match node@.identifier {
                crate::node_id::IdentifierView::Numeric(id) => node@.namespace == 0
                    && spec_variable_id(id) is Some,
                _ => false,
            },
    {
        self.get_variable_id(node).is_some()
    }

    /// Run one built-in method. `Server_GetMonitoredItems` answers the
    /// subscription's item ids and client handles; `Server_ResendData` asks
    /// the subscription to resend. Methods outside the base namespace are
    /// left untouched; unknown base-namespace methods are refused.
    pub fn call_builtin_method(
        &self,
        call: &mut MethodCall,
        lookup: &SubscriptionLookup,
    ) -> (r: Result<(), StatusCode>)
        ensures
            match spec_builtin_result(old(call)@, lookup@) {
                Ok(v) => r is Ok && final (call)@ == v,
                Err(e) => r == Err::<(), StatusCode>(e) && *final (call) == *old(call),
            },
    {
        let id = match &call.method_id.identifier {
            Identifier::Numeric(id) => *id,
            _ => {
                return Ok(());
            },
        };
        if call.method_id.namespace != 0 {
            return Ok(());
        }
        if id == 11492 {
            match lookup {
                SubscriptionLookup::NoSession => Err(StatusCode::BadSessionIdInvalid),
                SubscriptionLookup::NoSubscription => Err(StatusCode::BadSubscriptionIdInvalid),
                SubscriptionLookup::Items(items) => {
                    let mut ids: Vec<Scalar> = Vec::new();
                    let mut handles: Vec<Scalar> = Vec::new();
                    let mut i: usize = 0;
                    while i < items.len()
                        invariant
                            i <= items@.len(),
                            ids@.len() == i,
                            handles@.len() == i,
                            forall|j: int|
                                0 <= j < i ==> (#[trigger] ids@[j])@
                                    == crate::variant::ScalarView::UInt32(items@[j].0),
                            forall|j: int|
                                0 <= j < i ==> (#[trigger] handles@[j])@
                                    == crate::variant::ScalarView::UInt32(items@[j].1),
                        decreases items@.len() - i,
                    {
                        ids.push(Scalar::UInt32(items[i].0));
                        handles.push(Scalar::UInt32(items[i].1));
                        i += 1;
                    }
                    let mut outputs: Vec<Variant> = Vec::new();
                    outputs.push(Variant::Array(ids));
                    outputs.push(Variant::Array(handles));
                    call.outputs = outputs;
                    call.status = StatusCode::Good;
                    proof {
                        let expected = spec_builtin_result(old(call)@, lookup@)->Ok_0;
                        assert(call@.outputs[0]->Array_0 =~= expected.outputs[0]->Array_0);
                        assert(call@.outputs[1]->Array_0 =~= expected.outputs[1]->Array_0);
                        assert(call@.outputs[0] =~= expected.outputs[0]);
                        assert(call@.outputs[1] =~= expected.outputs[1]);
                        assert(call@.outputs =~= expected.outputs);
                        assert(call@.args =~= old(call)@.args);
                        assert(call@ == expected);
                    }
                    Ok(())
                },
            }
        } else if id == 12873 {
            match lookup {
                SubscriptionLookup::NoSession => Err(StatusCode::BadSessionIdInvalid),
                SubscriptionLookup::NoSubscription => Err(StatusCode::BadSubscriptionIdInvalid),
                SubscriptionLookup::Items(_) => {
                    call.status = StatusCode::Good;
                    proof {
                        assert(call@.args =~= old(call)@.args);
                        assert(call@.outputs =~= old(call)@.outputs);
                        assert(call@ == spec_builtin_result(old(call)@, lookup@)->Ok_0);
                    }
                    Ok(())
                },
            }
        } else {
            Err(StatusCode::BadNotSupported)
        }
    }

    /// Run many method calls: each is handled as by `call_builtin_method`,
    /// and a refusal is recorded as that call's status.
    pub fn call(&self, calls: &mut Vec<MethodCall>, lookup: &SubscriptionLookup) -> (r: Result<
        (),
        StatusCode,
    >)
        ensures
            r is Ok,
            final (calls)@.len() == old(calls)@.len(),
            forall|i: int|
                0 <= i < old(calls)@.len() ==> (#[trigger] final (calls)@[i])@ == match spec_builtin_result(
                    old(calls)@[i]@,
                    lookup@,
                ) {
                    Ok(v) => v,
                    Err(e) => MethodCallView { status: e, ..old(calls)@[i]@ },
                },
    {
        let mut i: usize = 0;
        while i < calls.len()
            invariant
                i <= calls@.len(),
                calls@.len() == old(calls)@.len(),
                forall|j: int| i <= j < calls@.len() ==> calls@[j] == old(calls)@[j],
                forall|j: int|
                    0 <= j < i ==> (#[trigger] calls@[j])@ == match spec_builtin_result(
                        old(calls)@[j]@,
                        lookup@,
                    ) {
                        Ok(v) => v,
                        Err(e) => MethodCallView { status: e, ..old(calls)@[j]@ },
                    },
            decreases calls@.len() - i,
        {
            let outcome = {
                let c = &mut calls[i];
                self.call_builtin_method(c, lookup)
            };
            if let Err(e) = outcome {
                let c = &mut calls[i];
                c.status = e;
                proof {
                    assert(calls@[i as int]@.args =~= old(calls)@[i as int]@.args);
                    assert(calls@[i as int]@.outputs =~= old(calls)@[i as int]@.outputs);
                }
            }
            i += 1;
        }
        Ok(())
    }

    /// The sampling interval the core's sampler runs at: the configured
    /// floor, or a hundred milliseconds when none is set.
    pub fn sampler_interval_ms(&self) -> (r: u32)
        ensures
            r == if self.limits.min_sampling_interval_ms > 0 {
                self.limits.min_sampling_interval_ms
            } else {
                100u32
            },
    {
        if self.limits.min_sampling_interval_ms > 0 {
            self.limits.min_sampling_interval_ms
        } else {
            100
        }
    }

    /// The references that organize the supported history aggregates under
    /// the aggregate-functions folder (node 2997 of the base namespace).
    pub fn aggregate_references(&self, aggregates: &Vec<NodeId>) -> (r: Vec<(NodeId, NodeId)>)
        ensures
            r@.len() == aggregates@.len(),
            forall|i: int|
                0 <= i < r@.len() ==> (#[trigger] r@[i]).0@ == (crate::node_id::NodeIdView {
                    namespace: 0,
                    identifier: crate::node_id::IdentifierView::Numeric(2997),
                }) && r@[i].1@ == aggregates@[i]@,
    {
        let mut out: Vec<(NodeId, NodeId)> = Vec::new();
        let mut i: usize = 0;
        while i < aggregates.len()
            invariant
                i <= aggregates@.len(),
                out@.len() == i,
                forall|j: int|
                    0 <= j < i ==> (#[trigger] out@[j]).0@ == (crate::node_id::NodeIdView {
                        namespace: 0,
                        identifier: crate::node_id::IdentifierView::Numeric(2997),
                    }) && out@[j].1@ == aggregates@[j]@,
            decreases aggregates@.len() - i,
        {
            out.push((NodeId::new_numeric(0, 2997), aggregates[i].duplicate()));
            i += 1;
        }
        out
    }
}

impl CoreNodeManagerBuilder {
    /// Build the core node manager with the given limits.
    pub fn build(self, limits: ServerLimits, hist: HistoryCapabilities) -> (r: CoreNodeManagerImpl)
        ensures
            r.limits == limits,
            r.hist == hist,
    {
        CoreNodeManagerImpl::new(limits, hist)
    }
}

} // verus!
