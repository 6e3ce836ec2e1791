//! Core runtime model of an OPC UA server/client: the secure-channel state
//! machine, the session controller's decision logic, the data-value wire
//! codec, and the type-tree subtyping engine.

pub mod attribute;
pub mod base;
pub mod client_state;
pub mod codec;
pub mod data_value;
pub mod controller;
pub mod core_manager;
pub mod date_time;
pub mod messages;
pub mod node_id;
pub mod nodeset_config;
pub mod object_type;
pub mod secure_channel;
pub mod server_state;
pub mod service_types;
pub mod session;
pub mod status;
pub mod type_tree;
pub mod variable;
pub mod variant;

use vstd::prelude::*;

verus! {

/// Clamp a requested token lifetime to the server's configured maximum.
pub fn revise_lifetime(requested: u32, server_max: u32) -> (r: u32)
    ensures
        r == if requested < server_max {
            requested
        } else {
            server_max
        },
{
    if requested < server_max {
        requested
    } else {
        server_max
    }
}

} // verus!
