//! The client side of the secure-channel state: the monotonic request-handle
//! counter, the client/server clock offset, and the issue/renew exchange.

use vstd::prelude::*;

use crate::date_time::{apply_offset, spec_sat_add, spec_sat_sub, saturating_add_i64, saturating_sub_i64, DateTime};
use crate::messages::{
    OpenSecureChannelRequest,
    OpenSecureChannelResponse,
    RequestHeader,
    SecurityTokenRequestType,
};
use crate::node_id::{NodeId, NodeIdView};
use crate::secure_channel::{
    ChannelSecurityToken,
    MessageSecurityMode,
    SecureChannel,
    SecureChannelView,
    SecurityPolicy,
};
use crate::status::StatusCode;

verus! {

/// The first request handle a client hands out.
pub const FIRST_REQUEST_HANDLE: u32 = 1;

/// Mathematical image of a [`ClientChannelState`].
pub struct ClientChannelStateView {
    pub client_offset: i64,
    pub ignore_clock_skew: bool,
    pub authentication_token: NodeIdView,
    pub request_handle: u32,
}

impl ClientChannelStateView {
    /// The clock skew one response reveals: the difference between the
    /// server's response timestamp and the client's clock, when skew is being
    /// compensated and the server stamped a time; zero otherwise.
    pub open spec fn spec_skew(self, response_ts: DateTime, now: DateTime) -> int {
        if self.ignore_clock_skew && response_ts.ticks != 0 {
            spec_sat_sub(response_ts.ticks as int, now.ticks as int)
        } else {
            0
        }
    }
}

/// The client's per-channel state: clock offset, session authentication
/// token, and the next request handle.
#[derive(Debug)]
pub struct ClientChannelState {
    /// Accumulated client/server clock offset, in microsecond ticks.
    pub client_offset: i64,
    /// Whether to compensate for clock skew against the server.
    pub ignore_clock_skew: bool,
    /// The session authentication token stamped on request headers.
    pub authentication_token: NodeId,
    /// The next request handle; handles are strictly increasing.
    pub request_handle: u32,
}

impl View for ClientChannelState {
    type V = ClientChannelStateView;

    open spec fn view(&self) -> ClientChannelStateView {
        ClientChannelStateView {
            client_offset: self.client_offset,
            ignore_clock_skew: self.ignore_clock_skew,
            authentication_token: self.authentication_token@,
            request_handle: self.request_handle,
        }
    }
}

impl ClientChannelState {
    /// A fresh client state: zero offset, null token, first handle.
    pub fn new(ignore_clock_skew: bool) -> (r: ClientChannelState)
        ensures
            r@.client_offset == 0,
            r@.ignore_clock_skew == ignore_clock_skew,
            r@.authentication_token.is_null(),
            r@.request_handle == FIRST_REQUEST_HANDLE,
    {
        ClientChannelState {
            client_offset: 0,
            ignore_clock_skew,
            authentication_token: NodeId::null(),
            request_handle: FIRST_REQUEST_HANDLE,
        }
    }

    /// Hand out the next request handle.
    ///
    /// Across any number of calls the returned handles are strictly
    /// increasing: each call returns the current counter and leaves the
    /// counter one above it.
    pub fn next_request_handle(&mut self) -> (r: u32)
        requires
            old(self)@.request_handle < u32::MAX,
        ensures
            r == old(self)@.request_handle,
            final (self)@ == (ClientChannelStateView {
                request_handle: (old(self)@.request_handle + 1) as u32,
                ..old(self)@
            }),
            final (self)@.request_handle > r,
    {
        let h = self.request_handle;
        self.request_handle = self.request_handle + 1;
        h
    }

    /// Replace the session authentication token.
    pub fn set_auth_token(&mut self, token: NodeId)
        ensures
            final (self)@ == (ClientChannelStateView {
                authentication_token: token@,
                ..old(self)@
            }),
    {
        self.authentication_token = token;
    }

    /// Add a newly measured skew to the accumulated client offset.
    pub fn set_client_offset(&mut self, offset: i64)
        ensures
            final (self)@ == (ClientChannelStateView {
                client_offset: spec_sat_add(
                    old(self)@.client_offset as int,
                    offset as int,
                ) as i64,
                ..old(self)@
            }),
    {
        self.client_offset = saturating_add_i64(self.client_offset, offset);
    }

    /// Build the header for the next request: the current time shifted by the
    /// client offset, a fresh handle, and the session token.
    ///
    /// A zero client offset leaves the timestamp exactly the given time.
    pub fn make_request_header(&mut self, timeout_ms: u32, now: DateTime) -> (r: RequestHeader)
        requires
            old(self)@.request_handle < u32::MAX,
        ensures
            r@.authentication_token == old(self)@.authentication_token,
            r@.timestamp.ticks == spec_sat_add(now.ticks as int, old(self)@.client_offset as int),
            old(self)@.client_offset == 0 ==> r@.timestamp == now,
            r@.request_handle == old(self)@.request_handle,
            r@.timeout_hint == timeout_ms,
            final (self)@ == (ClientChannelStateView {
                request_handle: (old(self)@.request_handle + 1) as u32,
                ..old(self)@
            }),
    {
        let timestamp = apply_offset(now, self.client_offset);
        let handle = self.next_request_handle();
        RequestHeader {
            authentication_token: self.authentication_token.duplicate(),
            timestamp,
            request_handle: handle,
            timeout_hint: timeout_ms,
        }
    }

    /// Begin an issue or renew: place a fresh local nonce on the channel and
    /// build the OpenSecureChannel request. The nonce bytes come from the
    /// caller; drawing them from a random source happens outside the core.
    pub fn begin_issue_or_renew_secure_channel(
        &mut self,
        channel: &mut SecureChannel,
        request_type: SecurityTokenRequestType,
        requested_lifetime: u32,
        timeout_ms: u32,
        client_nonce: Vec<u8>,
        now: DateTime,
    ) -> (r: OpenSecureChannelRequest)
        requires
            old(self)@.request_handle < u32::MAX,
        ensures
            final (channel)@ == (SecureChannelView {
                local_nonce: client_nonce@,
                ..old(channel)@
            }),
            r@.request_type == request_type,
            r@.security_mode == old(channel)@.security_mode,
            r@.client_nonce == client_nonce@,
            r@.requested_lifetime == requested_lifetime,
            r@.client_protocol_version == 0,
            r@.request_header.request_handle == old(self)@.request_handle,
            r@.request_header.timeout_hint == timeout_ms,
            old(self)@.client_offset == 0 ==> r@.request_header.timestamp == now,
            final (self)@ == (ClientChannelStateView {
                request_handle: (old(self)@.request_handle + 1) as u32,
                ..old(self)@
            }),
    {
        let nonce_copy = client_nonce.clone();
        proof {
            assert(nonce_copy@ =~= client_nonce@);
        }
        channel.set_local_nonce(nonce_copy);
        let security_mode = channel.security_mode();
        let request_header = self.make_request_header(timeout_ms, now);
        OpenSecureChannelRequest {
            request_header,
            client_protocol_version: 0,
            request_type,
            security_mode,
            client_nonce,
            requested_lifetime,
        }
    }

    /// Finish an issue or renew: fold the measured clock skew into the
    /// accumulated offset, install the granted token (its creation time moved
    /// back by the skew), and derive keys under a signing mode.
    ///
    /// Fails exactly when a signing mode is negotiated and the server nonce
    /// does not have the policy's length; the token is installed either way,
    /// as the transport has already accepted it.
    pub fn end_issue_or_renew_secure_channel(
        &mut self,
        channel: &mut SecureChannel,
        response: &OpenSecureChannelResponse,
        now: DateTime,
    ) -> (r: Result<(), StatusCode>)
        requires
            old(channel)@.local_nonce.len() >= old(channel)@.security_policy.spec_nonce_len(),
        ensures
            ({
                let skew = old(self)@.spec_skew(response@.response_header.timestamp, now);
                let token = ChannelSecurityToken {
                    created_at: DateTime {
                        ticks: spec_sat_sub(
                            response@.security_token.created_at.ticks as int,
                            skew,
                        ) as i64,
                    },
                    ..response@.security_token
                };
                let offset = spec_sat_add(old(self)@.client_offset as int, skew) as i64;
                let wants = old(channel)@.security_policy != SecurityPolicy::NoSecurity && (old(
                    channel,
                )@.security_mode == MessageSecurityMode::Sign || old(channel)@.security_mode
                    == MessageSecurityMode::SignAndEncrypt);
                let c1 = SecureChannelView {
                    client_offset: offset,
                    token,
                    prev_token: Some(old(channel)@.token),
                    ..old(channel)@
                };
                &&& final (self)@ == (ClientChannelStateView {
                    client_offset: offset,
                    ..old(self)@
                })
                &&& !wants ==> r is Ok && final (channel)@ == c1
                &&& wants && response@.server_nonce.len() == old(
                    channel,
                )@.security_policy.spec_nonce_len() ==> r is Ok && final (channel)@
                    == (SecureChannelView {
                    remote_nonce: response@.server_nonce,
                    derived_keys: Some((old(channel)@.local_nonce, response@.server_nonce)),
                    ..c1
                })
                &&& wants && response@.server_nonce.len() != old(
                    channel,
                )@.security_policy.spec_nonce_len() ==> r == Err::<(), StatusCode>(
                    StatusCode::BadNonceInvalid,
                ) && final (channel)@ == c1
            }),
    {
        let mut token = response.security_token;
        let skew: i64 = if self.ignore_clock_skew && !response.response_header.timestamp.is_null() {
            saturating_sub_i64(response.response_header.timestamp.ticks, now.ticks)
        } else {
            0
        };
        token.created_at = DateTime::from_ticks(saturating_sub_i64(token.created_at.ticks, skew));
        self.set_client_offset(skew);
        channel.set_client_offset(self.client_offset);
        channel.set_security_token(token);
        let policy = channel.security_policy();
        let mode = channel.security_mode();
        if policy != SecurityPolicy::NoSecurity && (mode == MessageSecurityMode::Sign || mode
            == MessageSecurityMode::SignAndEncrypt) {
            let nonce_copy = response.server_nonce.clone();
            proof {
                assert(nonce_copy@ =~= response.server_nonce@);
            }
            if let Err(e) = channel.set_remote_nonce(nonce_copy) {
                return Err(e);
            }
            let derived = channel.derive_keys();
            proof {
                assert(derived is Ok);
            }
        }
        Ok(())
    }
}

} // verus!
