//! The server side of the secure-channel state machine: issue-vs-renew token
//! logic, protocol-version and security-mode checks, nonce policing, and the
//! fresh-id counters.

use vstd::prelude::*;

use crate::date_time::DateTime;
use crate::messages::{
    OpenSecureChannelRequestView,
    OpenSecureChannelResponse,
    OpenSecureChannelResponseView,
    ResponseHeader,
    SecurityHeader,
    SecurityHeaderView,
    SecurityTokenRequestType,
    OpenSecureChannelRequest,
};
use crate::secure_channel::{
    ChannelSecurityToken,
    SecureChannel,
    SecureChannelView,
    SecurityPolicy,
};
use crate::status::StatusCode;

verus! {

/// The per-connection server state that polices OpenSecureChannel.
#[derive(Clone, Copy, Debug, PartialEq, Eq, Structural)]
pub struct ServerChannelState {
    /// Whether a token has been issued on this connection.
    pub issued: bool,
    /// How many renews have been processed.
    pub renew_count: u32,
    /// The next fresh channel id.
    pub next_channel_id: u32,
    /// The last token id handed out; token ids start at one.
    pub last_token_id: u32,
}

/// What processing one OpenSecureChannel yields: a response, a service fault
/// that keeps the connection open, or a fatal error that closes it.
#[derive(Clone, Debug, PartialEq)]
pub enum OpenChannelOutcome {
    Response(OpenSecureChannelResponse),
    Fault(StatusCode),
    Fatal(StatusCode),
}

/// Mathematical image of an [`OpenChannelOutcome`].
pub enum OpenChannelOutcomeView {
    Response(OpenSecureChannelResponseView),
    Fault(StatusCode),
    Fatal(StatusCode),
}

impl View for OpenChannelOutcome {
    type V = OpenChannelOutcomeView;

    open spec fn view(&self) -> OpenChannelOutcomeView {
        match self {
            OpenChannelOutcome::Response(r) => OpenChannelOutcomeView::Response(r@),
            OpenChannelOutcome::Fault(s) => OpenChannelOutcomeView::Fault(*s),
            OpenChannelOutcome::Fatal(s) => OpenChannelOutcomeView::Fatal(*s),
        }
    }
}

/// Everything one OpenSecureChannel step reads: the security header's
/// certificate (absent when the header is not asymmetric), the protocol
/// version from Hello, the request, the configured lifetime cap, the server's
/// fresh nonce and the current time.
pub struct OpenInput {
    pub header_cert: Option<Seq<u8>>,
    pub hello_version: u32,
    pub request: OpenSecureChannelRequestView,
    pub max_lifetime: u32,
    pub server_nonce: Seq<u8>,
    pub now: DateTime,
}

/// The lifetime granted: the request's wish clamped to the server's cap.
pub open spec fn spec_revised_lifetime(requested: u32, max: u32) -> u32 {
    if requested < max {
        requested
    } else {
        max
    }
}

/// A renew reuses the previous nonce: invalid under a real policy.
pub open spec fn spec_nonce_reused(chan: SecureChannelView, req: OpenSecureChannelRequestView) -> bool {
    chan.security_policy != SecurityPolicy::NoSecurity && req.client_nonce == chan.remote_nonce
}

/// Whether the negotiated policy and requested mode call for key derivation.
pub open spec fn spec_wants_keys(
    policy: SecurityPolicy,
    mode: crate::secure_channel::MessageSecurityMode,
) -> bool {
    policy != SecurityPolicy::NoSecurity && (mode == crate::secure_channel::MessageSecurityMode::Sign
        || mode == crate::secure_channel::MessageSecurityMode::SignAndEncrypt)
}

/// The complete relation between the state before an OpenSecureChannel step
/// and the state, channel and outcome after it.
pub open spec fn open_transition(
    pre_s: ServerChannelState,
    pre_c: SecureChannelView,
    inp: OpenInput,
    post_s: ServerChannelState,
    post_c: SecureChannelView,
    out: OpenChannelOutcomeView,
) -> bool {
    let req = inp.request;
    let is_renew = req.request_type == SecurityTokenRequestType::Renew;
    if inp.header_cert is None {
        // Not an asymmetric security header: fatal, nothing changes.
        out == OpenChannelOutcomeView::Fatal(StatusCode::BadUnexpectedError) && post_s == pre_s
            && post_c == pre_c
    } else if req.client_protocol_version != inp.hello_version {
        out == OpenChannelOutcomeView::Fault(StatusCode::BadProtocolVersionUnsupported) && post_s
            == pre_s && post_c == pre_c
    } else if is_renew && spec_nonce_reused(pre_c, req) {
        out == OpenChannelOutcomeView::Fault(StatusCode::BadNonceInvalid) && post_s == pre_s
            && post_c == pre_c
    } else if is_renew && !pre_s.issued {
        out == OpenChannelOutcomeView::Fatal(StatusCode::BadUnexpectedError) && post_s == pre_s
            && post_c == pre_c
    } else {
        let cert = inp.header_cert->0;
        // An Issue consumes a fresh channel id, a Renew counts itself,
        // whatever happens next.
        let counted = ServerChannelState {
            issued: pre_s.issued,
            renew_count: if is_renew {
                (pre_s.renew_count + 1) as u32
            } else {
                pre_s.renew_count
            },
            next_channel_id: if is_renew {
                pre_s.next_channel_id
            } else {
                (pre_s.next_channel_id + 1) as u32
            },
            last_token_id: pre_s.last_token_id,
        };
        let channel_id = if is_renew {
            pre_c.token.channel_id
        } else {
            pre_s.next_channel_id
        };
        if !req.security_mode.spec_is_valid() {
            out == OpenChannelOutcomeView::Fault(StatusCode::BadSecurityModeRejected) && post_s
                == counted && post_c == pre_c
        } else {
            let token_id = (pre_s.last_token_id + 1) as u32;
            let granted = ServerChannelState { issued: true, last_token_id: token_id, ..counted };
            let c1 = SecureChannelView {
                security_mode: req.security_mode,
                token: ChannelSecurityToken {
                    channel_id,
                    token_id,
                    ..pre_c.token
                },
                ..pre_c
            };
            if cert.len() == 0 {
                out == OpenChannelOutcomeView::Fatal(StatusCode::BadCertificateInvalid) && post_s
                    == granted && post_c == c1
            } else {
                let revised = spec_revised_lifetime(req.requested_lifetime, inp.max_lifetime);
                let c2 = SecureChannelView {
                    remote_cert: Some(cert),
                    token: ChannelSecurityToken { revised_lifetime: revised, ..c1.token },
                    ..c1
                };
                if pre_c.security_policy != SecurityPolicy::NoSecurity && req.client_nonce.len()
                    != pre_c.security_policy.spec_nonce_len() {
                    out == OpenChannelOutcomeView::Fault(StatusCode::BadNonceInvalid) && post_s
                        == granted && post_c == c2
                } else {
                    let c3 = SecureChannelView {
                        remote_nonce: req.client_nonce,
                        local_nonce: inp.server_nonce,
                        ..c2
                    };
                    let c4 = if spec_wants_keys(pre_c.security_policy, req.security_mode) {
                        SecureChannelView {
                            derived_keys: Some((inp.server_nonce, req.client_nonce)),
                            ..c3
                        }
                    } else {
                        c3
                    };
                    let cf = SecureChannelView {
                        token: ChannelSecurityToken { created_at: inp.now, ..c4.token },
                        ..c4
                    };
                    out == OpenChannelOutcomeView::Response(
                        OpenSecureChannelResponseView {
                            response_header: ResponseHeader {
                                request_handle: req.request_header.request_handle,
                                service_result: StatusCode::Good,
                                timestamp: inp.now,
                            },
                            server_protocol_version: 0,
                            security_token: cf.token,
                            server_nonce: inp.server_nonce,
                        },
                    ) && post_s == granted && post_c == cf
                }
            }
        }
    }
}

/// The input view an exec call corresponds to.
pub open spec fn spec_open_input(
    security_header: SecurityHeaderView,
    hello_version: u32,
    request: OpenSecureChannelRequestView,
    max_lifetime: u32,
    server_nonce: Seq<u8>,
    now: DateTime,
) -> OpenInput {
    OpenInput {
        header_cert: match security_header {
            SecurityHeaderView::Asymmetric { sender_certificate } => Some(sender_certificate),
            SecurityHeaderView::Symmetric { .. } => None,
        },
        hello_version,
        request,
        max_lifetime,
        server_nonce,
        now,
    }
}

/// The security token of a successful outcome.
pub open spec fn out_token(out: OpenChannelOutcomeView) -> ChannelSecurityToken {
    match out {
        OpenChannelOutcomeView::Response(r) => r.security_token,
        _ => ChannelSecurityToken {
            channel_id: 0,
            token_id: 0,
            created_at: DateTime { ticks: 0 },
            revised_lifetime: 0,
        },
    }
}

/// One successful step hands out the next token id, records it, and on a
/// renew keeps the channel id.
pub proof fn lemma_open_step(
    pre_s: ServerChannelState,
    pre_c: SecureChannelView,
    inp: OpenInput,
    post_s: ServerChannelState,
    post_c: SecureChannelView,
    out: OpenChannelOutcomeView,
)
    requires
        open_transition(pre_s, pre_c, inp, post_s, post_c, out),
        out is Response,
        pre_s.last_token_id < u32::MAX,
    ensures
        out_token(out).token_id == pre_s.last_token_id + 1,
        post_s.last_token_id == pre_s.last_token_id + 1,
        post_s.issued,
        post_c.token == out_token(out),
        inp.request.request_type == SecurityTokenRequestType::Renew ==> out_token(out).channel_id
            == pre_c.token.channel_id,
        inp.request.request_type == SecurityTokenRequestType::Issue ==> out_token(out).channel_id
            == pre_s.next_channel_id,
{
}

/// Whether a run of inputs, states, channels and outcomes is a chain of
/// successful OpenSecureChannel steps.
pub open spec fn open_trace(
    states: Seq<ServerChannelState>,
    chans: Seq<SecureChannelView>,
    inps: Seq<OpenInput>,
    outs: Seq<OpenChannelOutcomeView>,
) -> bool {
    &&& states.len() == inps.len() + 1
    &&& chans.len() == inps.len() + 1
    &&& outs.len() == inps.len()
    &&& forall|i: int|
        0 <= i < inps.len() ==> open_transition(
            states[i],
            chans[i],
            inps[i],
            states[i + 1],
            chans[i + 1],
            #[trigger] outs[i],
        )
    &&& forall|i: int| 0 <= i < outs.len() ==> (#[trigger] outs[i]) is Response
    &&& forall|i: int| 0 <= i < inps.len() ==> (#[trigger] states[i]).last_token_id < u32::MAX
}

/// Along a successful run, the token counter advances by one each step.
proof fn lemma_trace_counter(
    states: Seq<ServerChannelState>,
    chans: Seq<SecureChannelView>,
    inps: Seq<OpenInput>,
    outs: Seq<OpenChannelOutcomeView>,
    k: int,
)
    requires
        open_trace(states, chans, inps, outs),
        0 <= k <= inps.len(),
    ensures
        states[k].last_token_id == states[0].last_token_id + k,
    decreases k,
{
    if k > 0 {
        lemma_trace_counter(states, chans, inps, outs, k - 1);
        lemma_open_step(
            states[k - 1],
            chans[k - 1],
            inps[k - 1],
            states[k],
            chans[k],
            outs[k - 1],
        );
    }
}

/// Along a successful run that issues once and then only renews, every
/// granted token carries the channel id granted by the issue.
proof fn lemma_trace_channel_id(
    states: Seq<ServerChannelState>,
    chans: Seq<SecureChannelView>,
    inps: Seq<OpenInput>,
    outs: Seq<OpenChannelOutcomeView>,
    k: int,
)
    requires
        open_trace(states, chans, inps, outs),
        forall|i: int|
            1 <= i < inps.len() ==> (#[trigger] inps[i]).request.request_type
                == SecurityTokenRequestType::Renew,
        0 <= k < outs.len(),
    ensures
        out_token(outs[k]).channel_id == out_token(outs[0]).channel_id,
        chans[k + 1].token.channel_id == out_token(outs[0]).channel_id,
    decreases k,
{
    lemma_open_step(states[k], chans[k], inps[k], states[k + 1], chans[k + 1], outs[k]);
    if k > 0 {
        lemma_trace_channel_id(states, chans, inps, outs, k - 1);
    }
}

/// Across any run of OpenSecureChannel requests processed by one server
/// state, the granted token ids are strictly increasing; and when the run
/// issues once and then only renews, the channel id never changes. A second
/// issue deliberately re-issues a fresh channel id, so stability is stated
/// for runs whose later requests are renews.
pub proof fn lemma_open_trace_tokens(
    states: Seq<ServerChannelState>,
    chans: Seq<SecureChannelView>,
    inps: Seq<OpenInput>,
    outs: Seq<OpenChannelOutcomeView>,
)
    requires
        open_trace(states, chans, inps, outs),
        forall|i: int|
            1 <= i < inps.len() ==> (#[trigger] inps[i]).request.request_type
                == SecurityTokenRequestType::Renew,
    ensures
        forall|i: int, j: int|
            0 <= i < j < outs.len() ==> out_token(#[trigger] outs[i]).token_id < out_token(
                #[trigger] outs[j],
            ).token_id,
        forall|i: int|
            0 <= i < outs.len() ==> out_token(#[trigger] outs[i]).channel_id == out_token(
                outs[0],
            ).channel_id,
{
    assert forall|i: int, j: int|
        0 <= i < j < outs.len() implies out_token(#[trigger] outs[i]).token_id < out_token(
        #[trigger] outs[j],
    ).token_id by {
        lemma_trace_counter(states, chans, inps, outs, i);
        lemma_trace_counter(states, chans, inps, outs, j);
        lemma_open_step(states[i], chans[i], inps[i], states[i + 1], chans[i + 1], outs[i]);
        lemma_open_step(states[j], chans[j], inps[j], states[j + 1], chans[j + 1], outs[j]);
    }
    assert forall|i: int|
        0 <= i < outs.len() implies out_token(#[trigger] outs[i]).channel_id == out_token(
        outs[0],
    ).channel_id by {
        lemma_trace_channel_id(states, chans, inps, outs, i);
    }
}

impl ServerChannelState {
    /// A fresh state: nothing issued, ids starting at `first_channel_id`.
    pub fn new(first_channel_id: u32) -> (r: ServerChannelState)
        ensures
            r == (ServerChannelState {
                issued: false,
                renew_count: 0u32,
                next_channel_id: first_channel_id,
                last_token_id: 0u32,
            }),
    {
        ServerChannelState {
            issued: false,
            renew_count: 0,
            next_channel_id: first_channel_id,
            last_token_id: 0,
        }
    }

    /// Hand out a fresh channel id.
    pub fn create_secure_channel_id(&mut self) -> (r: u32)
        requires
            old(self).next_channel_id < u32::MAX,
        ensures
            r == old(self).next_channel_id,
            *final (self) == (ServerChannelState {
                next_channel_id: (old(self).next_channel_id + 1) as u32,
                ..*old(self)
            }),
    {
        let id = self.next_channel_id;
        self.next_channel_id = self.next_channel_id + 1;
        id
    }

    /// Hand out the next token id; token ids are strictly increasing.
    pub fn create_token_id(&mut self) -> (r: u32)
        requires
            old(self).last_token_id < u32::MAX,
        ensures
            r == old(self).last_token_id + 1,
            r > old(self).last_token_id,
            *final (self) == (ServerChannelState { last_token_id: r, ..*old(self) }),
    {
        self.last_token_id = self.last_token_id + 1;
        self.last_token_id
    }

    /// Process one OpenSecureChannel request against the channel.
    ///
    /// The caller supplies the server's fresh nonce (drawn outside the core)
    /// and the current time. The entire behaviour is
    /// [`open_transition`]: issue-vs-renew, protocol-version check, nonce
    /// reuse policing, mode check, certificate and nonce validation, lifetime
    /// clamping and key derivation.
    pub fn open_secure_channel(
        &mut self,
        channel: &mut SecureChannel,
        security_header: &SecurityHeader,
        hello_version: u32,
        request: &OpenSecureChannelRequest,
        max_lifetime: u32,
        server_nonce: Vec<u8>,
        now: DateTime,
    ) -> (out: OpenChannelOutcome)
        requires
            old(self).last_token_id < u32::MAX,
            old(self).next_channel_id < u32::MAX,
            old(self).renew_count < u32::MAX,
            server_nonce@.len() == old(channel)@.security_policy.spec_nonce_len(),
        ensures
            open_transition(
                *old(self),
                old(channel)@,
                spec_open_input(
                    security_header@,
                    hello_version,
                    request@,
                    max_lifetime,
                    server_nonce@,
                    now,
                ),
                *final (self),
                final (channel)@,
                out@,
            ),
    {
        let cert: &Vec<u8> = match security_header {
            SecurityHeader::Asymmetric { sender_certificate } => sender_certificate,
            SecurityHeader::Symmetric { .. } => {
                return OpenChannelOutcome::Fatal(StatusCode::BadUnexpectedError);
            },
        };
        if request.client_protocol_version != hello_version {
            return OpenChannelOutcome::Fault(StatusCode::BadProtocolVersionUnsupported);
        }
        let channel_id: u32 = match request.request_type {
            SecurityTokenRequestType::Issue => self.create_secure_channel_id(),
            SecurityTokenRequestType::Renew => {
                // A renew must not reuse the nonce of the last issue or renew
                // under a real policy.
                if channel.security_policy() != SecurityPolicy::NoSecurity
                    && crate::node_id::bytes_equal(&request.client_nonce, channel.remote_nonce()) {
                    return OpenChannelOutcome::Fault(StatusCode::BadNonceInvalid);
                }
                if !self.issued {
                    return OpenChannelOutcome::Fatal(StatusCode::BadUnexpectedError);
                }
                self.renew_count = self.renew_count + 1;
                channel.secure_channel_id()
            },
        };
        if !request.security_mode.is_valid() {
            return OpenChannelOutcome::Fault(StatusCode::BadSecurityModeRejected);
        }
        self.issued = true;
        channel.set_security_mode(request.security_mode);
        let token_id = self.create_token_id();
        channel.set_token_id(token_id);
        channel.set_secure_channel_id(channel_id);
        let cert_copy = cert.clone();
        proof {
            assert(cert_copy@ =~= cert@);
        }
        if let Err(e) = channel.set_remote_cert(cert_copy) {
            return OpenChannelOutcome::Fatal(e);
        }
        let revised_lifetime = if request.requested_lifetime < max_lifetime {
            request.requested_lifetime
        } else {
            max_lifetime
        };
        channel.set_token_lifetime(revised_lifetime);
        let client_nonce = request.client_nonce.clone();
        proof {
            assert(client_nonce@ =~= request.client_nonce@);
        }
        if let Err(e) = channel.set_remote_nonce(client_nonce) {
            return OpenChannelOutcome::Fault(e);
        }
        channel.set_local_nonce(server_nonce);
        let policy = channel.security_policy();
        let mode = channel.security_mode();
        if policy != SecurityPolicy::NoSecurity && (mode
            == crate::secure_channel::MessageSecurityMode::Sign || mode
            == crate::secure_channel::MessageSecurityMode::SignAndEncrypt) {
            let derived = channel.derive_keys();
            proof {
                assert(derived is Ok);
            }
        }
        channel.set_token_created_at(now);
        let server_nonce_copy = channel.local_nonce().clone();
        proof {
            assert(server_nonce_copy@ =~= channel@.local_nonce);
        }
        OpenChannelOutcome::Response(
            OpenSecureChannelResponse {
                response_header: ResponseHeader::new_good(request.request_header.request_handle, now),
                server_protocol_version: 0,
                security_token: ChannelSecurityToken {
                    channel_id,
                    token_id,
                    created_at: now,
                    revised_lifetime,
                },
                server_nonce: server_nonce_copy,
            },
        )
    }
}

} // verus!
