//! Service message headers and the OpenSecureChannel request/response pair.

use vstd::prelude::*;

use crate::date_time::DateTime;
use crate::node_id::{NodeId, NodeIdView};
use crate::secure_channel::{ChannelSecurityToken, MessageSecurityMode};
use crate::status::StatusCode;

verus! {

/// Mathematical image of a [`RequestHeader`].
pub struct RequestHeaderView {
    pub authentication_token: NodeIdView,
    pub timestamp: DateTime,
    pub request_handle: u32,
    pub timeout_hint: u32,
}

/// The header every service request carries.
#[derive(Clone, Debug, PartialEq)]
pub struct RequestHeader {
    /// The session's opaque authentication token; null before a session
    /// exists.
    pub authentication_token: NodeId,
    /// When the client stamped the request.
    pub timestamp: DateTime,
    /// The client's handle for pairing the response.
    pub request_handle: u32,
    /// The client's per-request timeout wish, in milliseconds; zero for none.
    pub timeout_hint: u32,
}

impl View for RequestHeader {
    type V = RequestHeaderView;

    open spec fn view(&self) -> RequestHeaderView {
        RequestHeaderView {
            authentication_token: self.authentication_token@,
            timestamp: self.timestamp,
            request_handle: self.request_handle,
            timeout_hint: self.timeout_hint,
        }
    }
}

impl RequestHeader {
    /// An identical copy of the header.
    pub fn duplicate(&self) -> (r: RequestHeader)
        ensures
            r@ == self@,
    {
        RequestHeader {
            authentication_token: self.authentication_token.duplicate(),
            timestamp: self.timestamp,
            request_handle: self.request_handle,
            timeout_hint: self.timeout_hint,
        }
    }
}

/// The header every service response carries, echoing the request handle.
#[derive(Clone, Copy, Debug, PartialEq, Eq, Structural)]
pub struct ResponseHeader {
    /// The handle of the request this answers.
    pub request_handle: u32,
    /// The service-level result.
    pub service_result: StatusCode,
    /// When the server stamped the response.
    pub timestamp: DateTime,
}

impl ResponseHeader {
    /// A good response header answering `request_handle` at `now`.
    pub fn new_good(request_handle: u32, now: DateTime) -> (r: ResponseHeader)
        ensures
            r == (ResponseHeader { request_handle, service_result: StatusCode::Good, timestamp: now }),
    {
        ResponseHeader { request_handle, service_result: StatusCode::Good, timestamp: now }
    }

    /// A response header carrying a service fault.
    pub fn new_fault(request_handle: u32, status: StatusCode, now: DateTime) -> (r: ResponseHeader)
        ensures
            r == (ResponseHeader { request_handle, service_result: status, timestamp: now }),
    {
        ResponseHeader { request_handle, service_result: status, timestamp: now }
    }
}

/// Whether an OpenSecureChannel issues a first token or renews one.
#[derive(Clone, Copy, Debug, PartialEq, Eq, Structural)]
pub enum SecurityTokenRequestType {
    Issue,
    Renew,
}

/// Mathematical image of an [`OpenSecureChannelRequest`].
pub struct OpenSecureChannelRequestView {
    pub request_header: RequestHeaderView,
    pub client_protocol_version: u32,
    pub request_type: SecurityTokenRequestType,
    pub security_mode: MessageSecurityMode,
    pub client_nonce: Seq<u8>,
    pub requested_lifetime: u32,
}

/// The request that opens or renews a secure channel.
#[derive(Clone, Debug, PartialEq)]
pub struct OpenSecureChannelRequest {
    pub request_header: RequestHeader,
    /// Must match the protocol version from the Hello handshake.
    pub client_protocol_version: u32,
    pub request_type: SecurityTokenRequestType,
    pub security_mode: MessageSecurityMode,
    pub client_nonce: Vec<u8>,
    /// The token lifetime the client asks for, in milliseconds.
    pub requested_lifetime: u32,
}

impl View for OpenSecureChannelRequest {
    type V = OpenSecureChannelRequestView;

    open spec fn view(&self) -> OpenSecureChannelRequestView {
        OpenSecureChannelRequestView {
            request_header: self.request_header@,
            client_protocol_version: self.client_protocol_version,
            request_type: self.request_type,
            security_mode: self.security_mode,
            client_nonce: self.client_nonce@,
            requested_lifetime: self.requested_lifetime,
        }
    }
}

/// Mathematical image of an [`OpenSecureChannelResponse`].
pub struct OpenSecureChannelResponseView {
    pub response_header: ResponseHeader,
    pub server_protocol_version: u32,
    pub security_token: ChannelSecurityToken,
    pub server_nonce: Seq<u8>,
}

/// The response granting or renewing a channel security token.
#[derive(Clone, Debug, PartialEq)]
pub struct OpenSecureChannelResponse {
    pub response_header: ResponseHeader,
    pub server_protocol_version: u32,
    pub security_token: ChannelSecurityToken,
    pub server_nonce: Vec<u8>,
}

impl View for OpenSecureChannelResponse {
    type V = OpenSecureChannelResponseView;

    open spec fn view(&self) -> OpenSecureChannelResponseView {
        OpenSecureChannelResponseView {
            response_header: self.response_header,
            server_protocol_version: self.server_protocol_version,
            security_token: self.security_token,
            server_nonce: self.server_nonce@,
        }
    }
}

/// Mathematical image of a [`SecurityHeader`].
pub enum SecurityHeaderView {
    Asymmetric { sender_certificate: Seq<u8> },
    Symmetric { token_id: u32 },
}

/// The security header of an incoming chunk: asymmetric on
/// OpenSecureChannel, symmetric elsewhere.
#[derive(Clone, Debug, PartialEq)]
pub enum SecurityHeader {
    Asymmetric { sender_certificate: Vec<u8> },
    Symmetric { token_id: u32 },
}

impl View for SecurityHeader {
    type V = SecurityHeaderView;

    open spec fn view(&self) -> SecurityHeaderView {
        match self {
            SecurityHeader::Asymmetric { sender_certificate } => SecurityHeaderView::Asymmetric {
                sender_certificate: sender_certificate@,
            },
            SecurityHeader::Symmetric { token_id } => SecurityHeaderView::Symmetric {
                token_id: *token_id,
            },
        }
    }
}

} // verus!
