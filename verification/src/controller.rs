//! The session controller's decision logic: request dispatch, the validation
//! and fault rules, per-request deadlines, diagnostics counters, and the
//! event-loop transitions. The surrounding loop that performs transport I/O
//! and awaits handler futures lives outside the core; it feeds events in and
//! carries the decided actions out.

use vstd::prelude::*;

use crate::date_time::{spec_sat_add, saturating_add_i64, DateTime};
use crate::messages::{
    OpenSecureChannelRequest,
    OpenSecureChannelResponse,
    RequestHeader,
    ResponseHeader,
    SecurityHeader,
};
use crate::node_id::NodeId;
use crate::secure_channel::SecureChannel;
use crate::server_state::{OpenChannelOutcome, ServerChannelState};
use crate::session::{SessionManager, UserToken};
use crate::status::StatusCode;

verus! {

/// The per-request deadline when neither the client nor the server asks for
/// one: a full day, in milliseconds.
pub const FALLBACK_TIMEOUT_MS: u32 = 86_400_000;

/// A service response paired with the request id it answers.
#[derive(Clone, Debug, PartialEq)]
pub struct Response {
    pub message: ResponseMessage,
    pub request_id: u32,
}

/// The responses the controller produces. Service payloads beyond the secure
/// channel handshake are carried by their headers; assembling full payloads
/// is the message handler's business.
#[derive(Clone, Debug, PartialEq)]
pub enum ResponseMessage {
    OpenSecureChannel(OpenSecureChannelResponse),
    ServiceFault(ResponseHeader),
    Service(ResponseHeader),
}

impl ResponseMessage {
    /// The header of the response.
    pub open spec fn spec_response_header(self) -> ResponseHeader {
        match self {
            ResponseMessage::OpenSecureChannel(r) => r.response_header,
            ResponseMessage::ServiceFault(h) => h,
            ResponseMessage::Service(h) => h,
        }
    }

    /// The header of the response.
    pub fn response_header(&self) -> (r: ResponseHeader)
        ensures
            r == self.spec_response_header(),
    {
        match self {
            ResponseMessage::OpenSecureChannel(r) => r.response_header,
            ResponseMessage::ServiceFault(h) => *h,
            ResponseMessage::Service(h) => *h,
        }
    }
}

/// The requests the controller dispatches. Ordinary service requests beyond
/// the built-in ones are carried by their headers and handed to the message
/// handler after validation.
#[derive(Clone, Debug)]
pub enum RequestMessage {
    OpenSecureChannel(OpenSecureChannelRequest),
    CloseSecureChannel(RequestHeader),
    CreateSession(RequestHeader),
    ActivateSession(RequestHeader, UserToken),
    CloseSession(RequestHeader, bool),
    GetEndpoints(RequestHeader),
    FindServers(RequestHeader),
    FindServersOnNetwork(RequestHeader),
    RegisterServer(RequestHeader),
    RegisterServer2(RequestHeader),
    Service(RequestHeader),
}

/// An incoming request: the id pairing it with its response, its security
/// header, and the message.
#[derive(Clone, Debug)]
pub struct Request {
    pub request_id: u32,
    pub security_header: SecurityHeader,
    pub message: RequestMessage,
}

/// Counters of rejected requests; security rejections count twice.
#[derive(Clone, Copy, Debug, PartialEq, Eq, Structural)]
pub struct Diagnostics {
    /// Whether counting is on.
    pub enabled: bool,
    /// Requests rejected for any reason.
    pub rejected_requests: u64,
    /// Requests rejected for a security reason.
    pub security_rejected_requests: u64,
}

impl Diagnostics {
    /// Fresh counters.
    pub fn new(enabled: bool) -> (r: Diagnostics)
        ensures
            r == (Diagnostics { enabled, rejected_requests: 0u64, security_rejected_requests: 0u64 }),
    {
        Diagnostics { enabled, rejected_requests: 0, security_rejected_requests: 0 }
    }

    /// Count one rejected request.
    pub fn inc_rejected(&mut self)
        requires
            old(self).rejected_requests < u64::MAX,
        ensures
            *final (self) == (Diagnostics {
                rejected_requests: (old(self).rejected_requests + 1) as u64,
                ..*old(self)
            }),
    {
        self.rejected_requests = self.rejected_requests + 1;
    }

    /// Count one security-rejected request.
    pub fn inc_security_rejected(&mut self)
        requires
            old(self).security_rejected_requests < u64::MAX,
        ensures
            *final (self) == (Diagnostics {
                security_rejected_requests: (old(self).security_rejected_requests + 1) as u64,
                ..*old(self)
            }),
    {
        self.security_rejected_requests = self.security_rejected_requests + 1;
    }

    /// The counters after one response with the given status is recorded:
    /// a bad status counts as rejected, and the security codes count as
    /// security-rejected too. Nothing is counted while disabled.
    pub open spec fn spec_recorded(self, status: StatusCode) -> Diagnostics {
        if self.enabled && (status.spec_bits() & 0x8000_0000u32) != 0 {
            Diagnostics {
                rejected_requests: (self.rejected_requests + 1) as u64,
                security_rejected_requests: if status.spec_is_security_error() {
                    (self.security_rejected_requests + 1) as u64
                } else {
                    self.security_rejected_requests
                },
                ..self
            }
        } else {
            self
        }
    }

    /// Record one outgoing response in the counters.
    pub fn record_response(&mut self, status: StatusCode)
        requires
            old(self).rejected_requests < u64::MAX,
            old(self).security_rejected_requests < u64::MAX,
        ensures
            *final (self) == old(self).spec_recorded(status),
    {
        if self.enabled && status.is_bad() {
            self.inc_rejected();
            if status.is_security_error() {
                self.inc_security_rejected();
            }
        }
    }
}

/// The deadline for one service request: the client's hint, raised to the
/// server's clamp when one is configured, with a one-day fallback when both
/// are zero.
pub open spec fn spec_request_timeout_ms(timeout_hint: u32, max_timeout_ms: u32) -> u32 {
    let t = if max_timeout_ms == 0 {
        timeout_hint
    } else if max_timeout_ms > timeout_hint {
        max_timeout_ms
    } else {
        timeout_hint
    };
    if t == 0 {
        FALLBACK_TIMEOUT_MS
    } else {
        t
    }
}

/// When a service request dispatched at `now` times out.
pub fn request_deadline(timeout_hint: u32, max_timeout_ms: u32, now: DateTime) -> (r: DateTime)
    ensures
        r.ticks == spec_sat_add(
            now.ticks as int,
            1000 * (spec_request_timeout_ms(timeout_hint, max_timeout_ms) as int),
        ),
{
    let timeout = if max_timeout_ms == 0 {
        timeout_hint
    } else if max_timeout_ms > timeout_hint {
        max_timeout_ms
    } else {
        timeout_hint
    };
    let timeout = if timeout == 0 {
        FALLBACK_TIMEOUT_MS
    } else {
        timeout
    };
    DateTime { ticks: saturating_add_i64(now.ticks, 1000 * (timeout as i64)) }
}

/// Build the response for a finished service call: its message on success, a
/// service fault carrying its status on failure.
pub fn from_result(
    result: Result<ResponseMessage, StatusCode>,
    request_handle: u32,
    request_id: u32,
    now: DateTime,
) -> (r: Response)
    ensures
        match result {
            Ok(m) => r == (Response { message: m, request_id }),
            Err(e) => r == (Response {
                message: ResponseMessage::ServiceFault(
                    ResponseHeader { request_handle, service_result: e, timestamp: now },
                ),
                request_id,
            }),
        },
{
    match result {
        Ok(m) => Response { message: m, request_id },
        Err(e) => Response {
            message: ResponseMessage::ServiceFault(
                ResponseHeader::new_fault(request_handle, e, now),
            ),
            request_id,
        },
    }
}

/// One server's application description, as FindServers answers it.
#[derive(Clone, Debug, PartialEq)]
pub struct ApplicationDescription {
    /// The server's application uri.
    pub application_uri: String,
}

impl View for ApplicationDescription {
    type V = Seq<char>;

    open spec fn view(&self) -> Seq<char> {
        self.application_uri@
    }
}

/// The descriptions a FindServers filter keeps: those whose application uri
/// is among the requested ones.
pub open spec fn kept_by_uris(uris: Seq<Seq<char>>) -> spec_fn(Seq<char>) -> bool {
    |uri: Seq<char>| uris.contains(uri)
}

/// The mathematical image of a uri list.
pub open spec fn uris_view(u: Seq<String>) -> Seq<Seq<char>> {
    Seq::new(u.len(), |i: int| u[i]@)
}

/// Whether a uri is among the requested ones.
fn uri_listed(uris: &Vec<String>, uri: &String) -> (r: bool)
    ensures
        r == uris_view(uris@).contains(uri@),
{
    let mut i: usize = 0;
    while i < uris.len()
        invariant
            i <= uris@.len(),
            forall|j: int| 0 <= j < i ==> uris_view(uris@)[j] != uri@,
        decreases uris@.len() - i,
    {
        if crate::node_id::strings_equal(&uris[i], uri) {
            proof {
                assert(uris_view(uris@)[i as int] == uri@);
            }
            return true;
        }
        i += 1;
    }
    proof {
        assert(forall|j: int| 0 <= j < uris_view(uris@).len() ==> uris_view(uris@)[j] != uri@);
    }
    false
}

/// Filter the application descriptions a FindServers answer carries: when the
/// request names uris, only servers with one of those uris are kept; an
/// absent or empty list keeps them all.
pub fn filter_servers(
    servers: Vec<ApplicationDescription>,
    server_uris: &Option<Vec<String>>,
) -> (r: Vec<ApplicationDescription>)
    ensures
        ({
            let pre = Seq::new(servers@.len(), |i: int| servers@[i]@);
            let post = Seq::new(r@.len(), |i: int| r@[i]@);
            match server_uris {
                None => post == pre,
                Some(u) => if u@.len() == 0 {
                    post == pre
                } else {
                    post == pre.filter(kept_by_uris(uris_view(u@)))
                },
            }
        }),
{
    let uris = match server_uris {
        None => {
            return servers;
        },
        Some(u) => u,
    };
    if uris.len() == 0 {
        return servers;
    }
    let ghost pred: spec_fn(Seq<char>) -> bool = kept_by_uris(uris_view(uris@));
    let mut kept: Vec<ApplicationDescription> = Vec::new();
    let mut i: usize = 0;
    while i < servers.len()
        invariant
            i <= servers@.len(),
            pred == kept_by_uris(uris_view(uris@)),
            Seq::new(kept@.len(), |j: int| kept@[j]@) == Seq::new(
                i as nat,
                |j: int| servers@[j]@,
            ).filter(pred),
        decreases servers@.len() - i,
    {
        let ghost prefix = Seq::new(i as nat, |j: int| servers@[j]@);
        let keep = uri_listed(uris, &servers[i].application_uri);
        proof {
            assert(keep == pred(servers@[i as int]@));
            assert(Seq::new((i + 1) as nat, |j: int| servers@[j]@) =~= prefix.push(
                servers@[i as int]@,
            ));
            prefix.lemma_filter_push(servers@[i as int]@, pred);
        }
        if keep {
            kept.push(
                ApplicationDescription {
                    application_uri: crate::node_id::clone_string(&servers[i].application_uri),
                },
            );
            proof {
                assert(Seq::new(kept@.len(), |j: int| kept@[j]@) =~= prefix.filter(pred).push(
                    servers@[i as int]@,
                ));
            }
        }
        i += 1;
        proof {
            assert(Seq::new(kept@.len(), |j: int| kept@[j]@) =~= Seq::new(
                i as nat,
                |j: int| servers@[j]@,
            ).filter(pred));
        }
    }
    proof {
        assert(Seq::new(servers@.len() as nat, |j: int| servers@[j]@) =~= Seq::new(
            servers@.len(),
            |j: int| servers@[j]@,
        ));
    }
    kept
}

/// A command from outside the connection.
#[derive(Clone, Copy, Debug, PartialEq, Eq, Structural)]
pub enum ControllerCommand {
    Close,
}

/// What one transport poll yielded. Incoming messages are dispatched through
/// `process_request` separately.
#[derive(Clone, Copy, Debug, PartialEq, Eq, Structural)]
pub enum TransportPollResult {
    RecoverableError { status: StatusCode, request_id: u32, request_handle: u32 },
    FatalError(StatusCode),
    Closed,
    Idle,
}

/// One event of the controller loop: the deadline timer fired, a command
/// arrived (or the command channel closed), a pending service call finished
/// or panicked, or the transport was polled.
#[derive(Clone, Copy, Debug, PartialEq, Eq, Structural)]
pub enum ControllerEvent {
    DeadlineFired,
    Command(ControllerCommand),
    CommandChannelClosed,
    PendingCompleted(StatusCode, u32, u32),
    PendingPanicked,
    Transport(TransportPollResult),
}

/// What the loop should do with one event.
#[derive(Clone, Copy, Debug, PartialEq, Eq, Structural)]
pub enum EventAction {
    /// Nothing: poll again.
    Continue,
    /// Send a service fault for the given request handle and id.
    SendFault(StatusCode, u32, u32),
    /// Send a transport error message bearing the code, and close.
    Fatal(StatusCode),
    /// The transport is gone: leave the loop.
    Stop,
}

/// The action one controller event decides, before diagnostics.
pub open spec fn spec_event_action(event: ControllerEvent) -> EventAction {
    match event {
        ControllerEvent::DeadlineFired => EventAction::Fatal(StatusCode::BadTimeout),
        ControllerEvent::Command(ControllerCommand::Close) => EventAction::Fatal(
            StatusCode::BadServerHalted,
        ),
        ControllerEvent::CommandChannelClosed => EventAction::Fatal(StatusCode::BadServerHalted),
        ControllerEvent::PendingCompleted(status, handle, id) => EventAction::SendFault(
            status,
            handle,
            id,
        ),
        ControllerEvent::PendingPanicked => EventAction::Fatal(StatusCode::BadInternalError),
        ControllerEvent::Transport(TransportPollResult::RecoverableError {
            status,
            request_id,
            request_handle,
        }) => EventAction::SendFault(status, request_handle, request_id),
        ControllerEvent::Transport(TransportPollResult::FatalError(s)) => EventAction::Fatal(s),
        ControllerEvent::Transport(TransportPollResult::Closed) => EventAction::Stop,
        ControllerEvent::Transport(TransportPollResult::Idle) => EventAction::Continue,
    }
}

/// Decide what to do with one controller-loop event: a fired deadline or a
/// close command ends the connection with the matching code, a finished
/// pending call is answered, a panicked one becomes an internal error, and
/// transport results are passed through. Completed responses are recorded in
/// the diagnostics.
pub fn handle_event(diagnostics: &mut Diagnostics, event: ControllerEvent) -> (r: EventAction)
    requires
        old(diagnostics).rejected_requests < u64::MAX,
        old(diagnostics).security_rejected_requests < u64::MAX,
    ensures
        r == spec_event_action(event),
        match event {
            ControllerEvent::PendingCompleted(status, _, _) => *final (diagnostics) == old(
                diagnostics,
            ).spec_recorded(status),
            _ => *final (diagnostics) == *old(diagnostics),
        },
{
    match event {
        ControllerEvent::DeadlineFired => EventAction::Fatal(StatusCode::BadTimeout),
        ControllerEvent::Command(ControllerCommand::Close) => EventAction::Fatal(
            StatusCode::BadServerHalted,
        ),
        ControllerEvent::CommandChannelClosed => EventAction::Fatal(StatusCode::BadServerHalted),
        ControllerEvent::PendingCompleted(status, handle, id) => {
            diagnostics.record_response(status);
            EventAction::SendFault(status, handle, id)
        },
        ControllerEvent::PendingPanicked => EventAction::Fatal(StatusCode::BadInternalError),
        ControllerEvent::Transport(TransportPollResult::RecoverableError {
            status,
            request_id,
            request_handle,
        }) => EventAction::SendFault(status, request_handle, request_id),
        ControllerEvent::Transport(TransportPollResult::FatalError(s)) => EventAction::Fatal(s),
        ControllerEvent::Transport(TransportPollResult::Closed) => EventAction::Stop,
        ControllerEvent::Transport(TransportPollResult::Idle) => EventAction::Continue,
    }
}

/// The server configuration the controller reads.
#[derive(Clone, Copy, Debug, PartialEq, Eq, Structural)]
pub struct ServerConfig {
    /// The channel-establishment deadline, in milliseconds.
    pub hello_timeout_ms: u32,
    /// The per-request deadline clamp; zero honors the client's hint.
    pub max_timeout_ms: u32,
    /// The upper bound for a granted token lifetime, in milliseconds.
    pub max_secure_channel_token_lifetime_ms: u32,
    /// How long a session may sit idle, in milliseconds.
    pub session_timeout_ms: u32,
    /// Whether diagnostics counters are kept.
    pub diagnostics_enabled: bool,
}

/// A validated service request handed to the message handler: who asked, by
/// when it must be answered, and how to pair the response.
#[derive(Clone, Debug, PartialEq)]
pub struct PendingRequest {
    pub request_id: u32,
    pub request_handle: u32,
    pub deadline: DateTime,
    pub session_id: u32,
    pub user_token: UserToken,
}

/// What dispatching one request decides.
#[derive(Clone, Debug, PartialEq)]
pub enum Dispatch {
    /// Send the response; the connection stays open.
    Respond(Response),
    /// Send the response, then close the connection.
    RespondClose(Response),
    /// Close the connection without a response.
    Close,
    /// Hand the request to the message handler under the given deadline.
    Pending(PendingRequest),
}

/// The renewal deadline of the channel's active token, saturating instead of
/// demanding bounds: used to move the connection deadline after a handshake.
pub fn renewal_deadline_saturating(channel: &SecureChannel) -> (r: DateTime)
    ensures
        r.ticks == spec_sat_add(
            channel@.token.created_at.ticks as int,
            750 * (channel@.token.revised_lifetime as int),
        ),
{
    DateTime {
        ticks: saturating_add_i64(
            channel.token.created_at.ticks,
            750 * (channel.token.revised_lifetime as i64),
        ),
    }
}

/// The per-connection controller state the core owns: the channel, the
/// issue/renew state machine, the session table, the diagnostics counters and
/// the connection deadline. Transport and handler futures live outside.
#[derive(Debug)]
pub struct SessionController {
    /// The connection's secure channel.
    pub channel: SecureChannel,
    /// The issue/renew state machine.
    pub channel_state: ServerChannelState,
    /// The session table. One table may serve many connections; the model
    /// gives each controller its own.
    pub session_manager: SessionManager,
    /// The rejected-request counters.
    pub diagnostics: Diagnostics,
    /// The configuration the controller reads.
    pub config: ServerConfig,
    /// When the connection times out: hello timeout first, then the token
    /// renewal deadline.
    pub deadline: DateTime,
    /// Whether the connection is being torn down.
    pub closing: bool,
}

impl SessionController {
    /// A controller for a fresh connection: deadline one hello-timeout out.
    pub fn new(config: ServerConfig, first_channel_id: u32, now: DateTime) -> (r: SessionController)
        ensures
            r.channel_state == (ServerChannelState {
                issued: false,
                renew_count: 0u32,
                next_channel_id: first_channel_id,
                last_token_id: 0u32,
            }),
            r.session_manager@.sessions.len() == 0,
            r.session_manager@.next_session_id == 1,
            r.diagnostics == (Diagnostics {
                enabled: config.diagnostics_enabled,
                rejected_requests: 0u64,
                security_rejected_requests: 0u64,
            }),
            r.config == config,
            r.deadline.ticks == spec_sat_add(now.ticks as int, 1000 * (config.hello_timeout_ms as int)),
            !r.closing,
            r.channel@.security_policy == crate::secure_channel::SecurityPolicy::NoSecurity,
    {
        SessionController {
            channel: SecureChannel::new(),
            channel_state: ServerChannelState::new(first_channel_id),
            session_manager: SessionManager::new(),
            diagnostics: Diagnostics::new(config.diagnostics_enabled),
            config,
            deadline: DateTime {
                ticks: saturating_add_i64(now.ticks, 1000 * (config.hello_timeout_ms as i64)),
            },
            closing: false,
        }
    }

    /// Build the response for a finished service call and record it in the
    /// diagnostics: a failure becomes a service fault and counts as rejected,
    /// a security failure as security-rejected too.
    pub fn process_service_result(
        &mut self,
        result: Result<ResponseMessage, StatusCode>,
        request_handle: u32,
        request_id: u32,
        now: DateTime,
    ) -> (r: Response)
        requires
            old(self).diagnostics.rejected_requests < u64::MAX,
            old(self).diagnostics.security_rejected_requests < u64::MAX,
        ensures
            match result {
                Ok(m) => r == (Response { message: m, request_id }) && *final (self) == *old(self),
                Err(e) => r == (Response {
                    message: ResponseMessage::ServiceFault(
                        ResponseHeader { request_handle, service_result: e, timestamp: now },
                    ),
                    request_id,
                }) && *final (self) == (SessionController {
                    diagnostics: old(self).diagnostics.spec_recorded(e),
                    ..*old(self)
                }),
            },
    {
        if let Err(e) = &result {
            self.diagnostics.record_response(*e);
        }
        from_result(result, request_handle, request_id, now)
    }

    /// Dispatch one incoming request.
    ///
    /// OpenSecureChannel runs the issue/renew state machine and, unless it is
    /// fatal, moves the connection deadline to the token renewal deadline.
    /// CloseSecureChannel closes without a response. The session services
    /// work the session table. Discovery beyond GetEndpoints and FindServers
    /// is unsupported. Every other service passes the validation ladder and
    /// is handed to the message handler under a per-request deadline.
    ///
    /// The server nonce and the fresh authentication token come from the
    /// caller; drawing them from a random source happens outside the core.
    #[verifier::rlimit(100)]
    #[verifier::spinoff_prover]
    pub fn process_request(
        &mut self,
        request: Request,
        hello_version: u32,
        server_nonce: Vec<u8>,
        fresh_auth_token: NodeId,
        now: DateTime,
    ) -> (r: Dispatch)
        requires
            old(self).channel_state.last_token_id < u32::MAX,
            old(self).channel_state.next_channel_id < u32::MAX,
            old(self).channel_state.renew_count < u32::MAX,
            old(self).session_manager@.next_session_id < u32::MAX,
            old(self).diagnostics.rejected_requests < u64::MAX,
            old(self).diagnostics.security_rejected_requests < u64::MAX,
            server_nonce@.len() == old(self).channel@.security_policy.spec_nonce_len(),
        ensures
            match request.message {
                RequestMessage::OpenSecureChannel(req) => ({
                    &&& crate::server_state::open_transition(
                        old(self).channel_state,
                        old(self).channel@,
                        crate::server_state::spec_open_input(
                            request.security_header@,
                            hello_version,
                            req@,
                            old(self).config.max_secure_channel_token_lifetime_ms,
                            server_nonce@,
                            now,
                        ),
                        final (self).channel_state,
                        final (self).channel@,
                        match r {
                            Dispatch::Respond(resp) => match resp.message {
                                ResponseMessage::OpenSecureChannel(m) => crate::server_state::OpenChannelOutcomeView::Response(
                                    m@,
                                ),
                                ResponseMessage::ServiceFault(h) => crate::server_state::OpenChannelOutcomeView::Fault(
                                    h.service_result,
                                ),
                                _ => crate::server_state::OpenChannelOutcomeView::Fault(
                                    StatusCode::Good,
                                ),
                            },
                            Dispatch::RespondClose(resp) => crate::server_state::OpenChannelOutcomeView::Fatal(
                                resp.message.spec_response_header().service_result,
                            ),
                            _ => crate::server_state::OpenChannelOutcomeView::Fault(
                                StatusCode::Good,
                            ),
                        },
                    )
                    &&& (r is Respond ==> final (self).deadline.ticks == spec_sat_add(
                        final (self).channel@.token.created_at.ticks as int,
                        750 * (final (self).channel@.token.revised_lifetime as int),
                    ) && final (self).diagnostics == old(self).diagnostics)
                    &&& (r is RespondClose ==> final (self).deadline == old(self).deadline && final (self).diagnostics == (Diagnostics {
                        rejected_requests: (old(self).diagnostics.rejected_requests + 1) as u64,
                        security_rejected_requests: (old(self).diagnostics.security_rejected_requests + 1) as u64,
                        ..old(self).diagnostics
                    }))
                    &&& (r is Respond || r is RespondClose)
                    &&& (r matches Dispatch::Respond(resp) ==> resp.request_id
                        == request.request_id && (resp.message matches ResponseMessage::ServiceFault(
                        h,
                    ) ==> h.request_handle == req@.request_header.request_handle && h.timestamp
                        == now))
                    &&& (r matches Dispatch::RespondClose(resp) ==> resp.request_id
                        == request.request_id && (resp.message matches ResponseMessage::ServiceFault(
                        h,
                    ) && h.request_handle == req@.request_header.request_handle && h.timestamp
                        == now))
                    &&& final (self).session_manager@ == old(self).session_manager@
                }),
                RequestMessage::CloseSecureChannel(_) => r == Dispatch::Close && *final (self)
                    == *old(self),
                RequestMessage::CreateSession(h) => ({
                    &&& final (self).session_manager@.sessions == old(self).session_manager@.sessions.push(
                        crate::session::SessionView {
                            session_id: old(self).session_manager@.next_session_id,
                            authentication_token: fresh_auth_token@,
                            bound_channel_id: 0,
                            activated: false,
                            last_activity: now,
                            timeout_ms: old(self).config.session_timeout_ms,
                            user_token: Seq::<char>::empty(),
                        },
                    )
                    &&& r == Dispatch::Respond(
                        Response {
                            message: ResponseMessage::Service(
                                ResponseHeader {
                                    request_handle: h@.request_handle,
                                    service_result: StatusCode::Good,
                                    timestamp: now,
                                },
                            ),
                            request_id: request.request_id,
                        },
                    )
                }),
                RequestMessage::GetEndpoints(h) => r == Dispatch::Respond(
                    Response {
                        message: ResponseMessage::Service(
                            ResponseHeader {
                                request_handle: h@.request_handle,
                                service_result: StatusCode::Good,
                                timestamp: now,
                            },
                        ),
                        request_id: request.request_id,
                    },
                ) && *final (self) == *old(self),
                RequestMessage::FindServers(h) => r == Dispatch::Respond(
                    Response {
                        message: ResponseMessage::Service(
                            ResponseHeader {
                                request_handle: h@.request_handle,
                                service_result: StatusCode::Good,
                                timestamp: now,
                            },
                        ),
                        request_id: request.request_id,
                    },
                ) && *final (self) == *old(self),
                RequestMessage::FindServersOnNetwork(h) => r == Dispatch::Respond(
                    Response {
                        message: ResponseMessage::ServiceFault(
                            ResponseHeader {
                                request_handle: h@.request_handle,
                                service_result: StatusCode::BadServiceUnsupported,
                                timestamp: now,
                            },
                        ),
                        request_id: request.request_id,
                    },
                ) && *final (self) == *old(self),
                RequestMessage::RegisterServer(h) => r == Dispatch::Respond(
                    Response {
                        message: ResponseMessage::ServiceFault(
                            ResponseHeader {
                                request_handle: h@.request_handle,
                                service_result: StatusCode::BadServiceUnsupported,
                                timestamp: now,
                            },
                        ),
                        request_id: request.request_id,
                    },
                ) && *final (self) == *old(self),
                RequestMessage::RegisterServer2(h) => r == Dispatch::Respond(
                    Response {
                        message: ResponseMessage::ServiceFault(
                            ResponseHeader {
                                request_handle: h@.request_handle,
                                service_result: StatusCode::BadServiceUnsupported,
                                timestamp: now,
                            },
                        ),
                        request_id: request.request_id,
                    },
                ) && *final (self) == *old(self),
                RequestMessage::Service(h) => ({
                    let outcome = crate::session::spec_validate(
                        old(self).session_manager@,
                        h@.authentication_token,
                        old(self).channel@.token.channel_id,
                        now,
                    );
                    &&& final (self).session_manager@ == outcome.0
                    &&& match outcome.1 {
                        Err(e) => r == Dispatch::Respond(
                            Response {
                                message: ResponseMessage::ServiceFault(
                                    ResponseHeader {
                                        request_handle: h@.request_handle,
                                        service_result: e,
                                        timestamp: now,
                                    },
                                ),
                                request_id: request.request_id,
                            },
                        ) && final (self).diagnostics == (Diagnostics {
                            rejected_requests: (old(self).diagnostics.rejected_requests
                                + 1) as u64,
                            security_rejected_requests: (old(self).diagnostics.security_rejected_requests + 1) as u64,
                            ..old(self).diagnostics
                        }),
                        Ok(ok) => r matches Dispatch::Pending(p) && p.request_id
                            == request.request_id && p.request_handle == h@.request_handle
                            && p.session_id == ok.0 && p.user_token@ == ok.1 && p.deadline.ticks
                            == spec_sat_add(
                            now.ticks as int,
                            1000 * (spec_request_timeout_ms(
                                h@.timeout_hint,
                                old(self).config.max_timeout_ms,
                            ) as int),
                        ) && final (self).diagnostics == old(self).diagnostics,
                    }
                }),
                RequestMessage::ActivateSession(h, identity) => ({
                    let found = crate::session::find_session(
                        old(self).session_manager@.sessions,
                        h@.authentication_token,
                    );
                    match found {
                        Some(i) => ({
                            &&& final (self).session_manager@.sessions == old(
                                self,
                            ).session_manager@.sessions.update(
                                i,
                                crate::session::SessionView {
                                    bound_channel_id: old(self).channel@.token.channel_id,
                                    activated: true,
                                    last_activity: now,
                                    user_token: identity@,
                                    ..old(self).session_manager@.sessions[i]
                                },
                            )
                            &&& r == Dispatch::Respond(
                                Response {
                                    message: ResponseMessage::Service(
                                        ResponseHeader {
                                            request_handle: h@.request_handle,
                                            service_result: StatusCode::Good,
                                            timestamp: now,
                                        },
                                    ),
                                    request_id: request.request_id,
                                },
                            )
                            &&& final (self).diagnostics == old(self).diagnostics
                        }),
                        None => ({
                            &&& final (self).session_manager@ == old(self).session_manager@
                            &&& r == Dispatch::Respond(
                                Response {
                                    message: ResponseMessage::ServiceFault(
                                        ResponseHeader {
                                            request_handle: h@.request_handle,
                                            service_result: StatusCode::BadSessionIdInvalid,
                                            timestamp: now,
                                        },
                                    ),
                                    request_id: request.request_id,
                                },
                            )
                            &&& final (self).diagnostics == old(self).diagnostics.spec_recorded(
                                StatusCode::BadSessionIdInvalid,
                            )
                        }),
                    }
                }),
                RequestMessage::CloseSession(h, _) => ({
                    let found = crate::session::find_session(
                        old(self).session_manager@.sessions,
                        h@.authentication_token,
                    );
                    match found {
                        Some(i) => ({
                            &&& final (self).session_manager@.sessions == old(
                                self,
                            ).session_manager@.sessions.remove(i)
                            &&& r == Dispatch::Respond(
                                Response {
                                    message: ResponseMessage::Service(
                                        ResponseHeader {
                                            request_handle: h@.request_handle,
                                            service_result: StatusCode::Good,
                                            timestamp: now,
                                        },
                                    ),
                                    request_id: request.request_id,
                                },
                            )
                            &&& final (self).diagnostics == old(self).diagnostics
                        }),
                        None => ({
                            &&& final (self).session_manager@ == old(self).session_manager@
                            &&& r == Dispatch::Respond(
                                Response {
                                    message: ResponseMessage::ServiceFault(
                                        ResponseHeader {
                                            request_handle: h@.request_handle,
                                            service_result: StatusCode::BadSessionIdInvalid,
                                            timestamp: now,
                                        },
                                    ),
                                    request_id: request.request_id,
                                },
                            )
                            &&& final (self).diagnostics == old(self).diagnostics.spec_recorded(
                                StatusCode::BadSessionIdInvalid,
                            )
                        }),
                    }
                }),
            },
    {
        match request.message {
            RequestMessage::OpenSecureChannel(req) => {
                let out = self.channel_state.open_secure_channel(
                    &mut self.channel,
                    &request.security_header,
                    hello_version,
                    &req,
                    self.config.max_secure_channel_token_lifetime_ms,
                    server_nonce,
                    now,
                );
                match out {
                    OpenChannelOutcome::Response(resp) => {
                        self.deadline = renewal_deadline_saturating(&self.channel);
                        Dispatch::Respond(
                            Response {
                                message: ResponseMessage::OpenSecureChannel(resp),
                                request_id: request.request_id,
                            },
                        )
                    },
                    OpenChannelOutcome::Fault(e) => {
                        self.deadline = renewal_deadline_saturating(&self.channel);
                        Dispatch::Respond(
                            Response {
                                message: ResponseMessage::ServiceFault(
                                    ResponseHeader::new_fault(
                                        req.request_header.request_handle,
                                        e,
                                        now,
                                    ),
                                ),
                                request_id: request.request_id,
                            },
                        )
                    },
                    OpenChannelOutcome::Fatal(e) => {
                        self.diagnostics.inc_rejected();
                        self.diagnostics.inc_security_rejected();
                        Dispatch::RespondClose(
                            Response {
                                message: ResponseMessage::ServiceFault(
                                    ResponseHeader::new_fault(
                                        req.request_header.request_handle,
                                        e,
                                        now,
                                    ),
                                ),
                                request_id: request.request_id,
                            },
                        )
                    },
                }
            },
            RequestMessage::CloseSecureChannel(_) => Dispatch::Close,
            RequestMessage::CreateSession(h) => {
                self.session_manager.create_session(
                    fresh_auth_token,
                    self.config.session_timeout_ms,
                    now,
                );
                Dispatch::Respond(
                    Response {
                        message: ResponseMessage::Service(
                            ResponseHeader::new_good(h.request_handle, now),
                        ),
                        request_id: request.request_id,
                    },
                )
            },
            RequestMessage::ActivateSession(h, identity) => {
                let res = self.session_manager.activate_session(
                    &h.authentication_token,
                    self.channel.secure_channel_id(),
                    identity,
                    now,
                );
                match res {
                    Ok(_) => Dispatch::Respond(
                        Response {
                            message: ResponseMessage::Service(
                                ResponseHeader::new_good(h.request_handle, now),
                            ),
                            request_id: request.request_id,
                        },
                    ),
                    Err(e) => {
                        let resp = self.process_service_result(
                            Err(e),
                            h.request_handle,
                            request.request_id,
                            now,
                        );
                        Dispatch::Respond(resp)
                    },
                }
            },
            RequestMessage::CloseSession(h, _delete_subscriptions) => {
                let res = self.session_manager.close_session(&h.authentication_token);
                match res {
                    Ok(_) => Dispatch::Respond(
                        Response {
                            message: ResponseMessage::Service(
                                ResponseHeader::new_good(h.request_handle, now),
                            ),
                            request_id: request.request_id,
                        },
                    ),
                    Err(e) => {
                        let resp = self.process_service_result(
                            Err(e),
                            h.request_handle,
                            request.request_id,
                            now,
                        );
                        Dispatch::Respond(resp)
                    },
                }
            },
            RequestMessage::GetEndpoints(h) => Dispatch::Respond(
                Response {
                    message: ResponseMessage::Service(
                        ResponseHeader::new_good(h.request_handle, now),
                    ),
                    request_id: request.request_id,
                },
            ),
            RequestMessage::FindServers(h) => Dispatch::Respond(
                Response {
                    message: ResponseMessage::Service(
                        ResponseHeader::new_good(h.request_handle, now),
                    ),
                    request_id: request.request_id,
                },
            ),
            RequestMessage::FindServersOnNetwork(h) => Dispatch::Respond(
                Response {
                    message: ResponseMessage::ServiceFault(
                        ResponseHeader::new_fault(
                            h.request_handle,
                            StatusCode::BadServiceUnsupported,
                            now,
                        ),
                    ),
                    request_id: request.request_id,
                },
            ),
            RequestMessage::RegisterServer(h) => Dispatch::Respond(
                Response {
                    message: ResponseMessage::ServiceFault(
                        ResponseHeader::new_fault(
                            h.request_handle,
                            StatusCode::BadServiceUnsupported,
                            now,
                        ),
                    ),
                    request_id: request.request_id,
                },
            ),
            RequestMessage::RegisterServer2(h) => Dispatch::Respond(
                Response {
                    message: ResponseMessage::ServiceFault(
                        ResponseHeader::new_fault(
                            h.request_handle,
                            StatusCode::BadServiceUnsupported,
                            now,
                        ),
                    ),
                    request_id: request.request_id,
                },
            ),
            RequestMessage::Service(h) => {
                let channel_id = self.channel.secure_channel_id();
                let res = self.session_manager.validate_request(
                    &h.authentication_token,
                    channel_id,
                    now,
                );
                match res {
                    Err(e) => {
                        self.diagnostics.inc_rejected();
                        self.diagnostics.inc_security_rejected();
                        Dispatch::Respond(
                            Response {
                                message: ResponseMessage::ServiceFault(
                                    ResponseHeader::new_fault(h.request_handle, e, now),
                                ),
                                request_id: request.request_id,
                            },
                        )
                    },
                    Ok(v) => {
                        let deadline = request_deadline(
                            h.timeout_hint,
                            self.config.max_timeout_ms,
                            now,
                        );
                        Dispatch::Pending(
                            PendingRequest {
                                request_id: request.request_id,
                                request_handle: h.request_handle,
                                deadline,
                                session_id: v.session_id,
                                user_token: v.user_token,
                            },
                        )
                    },
                }
            },
        }
    }
}

} // verus!
