//! Controller behaviour: the validation ladder, per-request deadlines,
//! diagnostics counters, dispatch of the built-in services, and the event
//! loop's decisions.

use opcua_runtime::controller::{
    filter_servers, handle_event, request_deadline, ApplicationDescription, ControllerCommand,
    ControllerEvent, Diagnostics, Dispatch, EventAction, Request, RequestMessage, ResponseMessage,
    ServerConfig, SessionController, TransportPollResult, FALLBACK_TIMEOUT_MS,
};
use opcua_runtime::date_time::DateTime;
use opcua_runtime::messages::{
    OpenSecureChannelRequest, RequestHeader, SecurityHeader, SecurityTokenRequestType,
};
use opcua_runtime::secure_channel::MessageSecurityMode;
use opcua_runtime::node_id::NodeId;
use opcua_runtime::session::{SessionManager, UserToken};
use opcua_runtime::status::StatusCode;

fn config() -> ServerConfig {
    ServerConfig {
        hello_timeout_ms: 5_000,
        max_timeout_ms: 0,
        max_secure_channel_token_lifetime_ms: 3_600_000,
        session_timeout_ms: 60_000,
        diagnostics_enabled: true,
    }
}

fn header(token: NodeId, handle: u32, timeout_hint: u32) -> RequestHeader {
    RequestHeader {
        authentication_token: token,
        timestamp: DateTime::from_ticks(0),
        request_handle: handle,
        timeout_hint,
    }
}

fn service_request(token: NodeId, handle: u32, timeout_hint: u32, id: u32) -> Request {
    Request {
        request_id: id,
        security_header: SecurityHeader::Symmetric { token_id: 1 },
        message: RequestMessage::Service(header(token, handle, timeout_hint)),
    }
}

#[test]
fn request_without_session_is_security_rejected() {
    let now = DateTime::from_ticks(0);
    let mut c = SessionController::new(config(), 1, now);
    let req = service_request(NodeId::null(), 7, 0, 42);
    let out = c.process_request(req, 0, Vec::new(), NodeId::null(), now);
    match out {
        Dispatch::Respond(resp) => {
            assert_eq!(resp.request_id, 42);
            let h = resp.message.response_header();
            assert_eq!(h.service_result, StatusCode::BadSessionIdInvalid);
            assert_eq!(h.request_handle, 7);
        }
        other => panic!("expected a fault response, got {:?}", other),
    }
    assert_eq!(c.diagnostics.rejected_requests, 1);
    assert_eq!(c.diagnostics.security_rejected_requests, 1);
}

#[test]
fn per_request_timeout_hint_sets_the_deadline() {
    // timeout_hint 100 ms, no server clamp: the deadline is 100 ms out, and
    // the timeout event answers with the matching handle and id.
    let now = DateTime::from_ticks(1_000_000);
    let d = request_deadline(100, 0, now);
    assert_eq!(d.ticks, 1_000_000 + 100_000);

    let mut c = SessionController::new(config(), 1, now);
    let token = NodeId::new_numeric(1, 777);
    c.session_manager
        .create_session(token.duplicate(), 60_000, now);
    c.session_manager
        .activate_session(&token, 0, UserToken { user: String::new() }, now)
        .expect("session exists");
    let req = service_request(token, 9, 100, 5);
    let out = c.process_request(req, 0, Vec::new(), NodeId::null(), now);
    let pending = match out {
        Dispatch::Pending(p) => p,
        other => panic!("expected a pending dispatch, got {:?}", other),
    };
    assert_eq!(pending.deadline.ticks, now.ticks + 100_000);
    assert_eq!(pending.request_handle, 9);
    assert_eq!(pending.request_id, 5);

    // The deadline branch synthesizes a timeout fault for that request.
    let mut diag = Diagnostics::new(true);
    let action = handle_event(
        &mut diag,
        ControllerEvent::PendingCompleted(StatusCode::BadTimeout, pending.request_handle, pending.request_id),
    );
    assert_eq!(
        action,
        EventAction::SendFault(StatusCode::BadTimeout, 9, 5)
    );
    assert_eq!(diag.rejected_requests, 1);
}

#[test]
fn request_deadline_clamps_and_falls_back() {
    let now = DateTime::from_ticks(0);
    // A configured clamp raises short hints.
    assert_eq!(request_deadline(100, 30_000, now).ticks, 30_000_000);
    // A longer hint wins over the clamp.
    assert_eq!(request_deadline(60_000, 30_000, now).ticks, 60_000_000);
    // Both zero: a full day.
    assert_eq!(
        request_deadline(0, 0, now).ticks,
        1_000 * FALLBACK_TIMEOUT_MS as i64
    );
}

#[test]
fn session_ladder_rejects_in_order() {
    let now = DateTime::from_ticks(0);
    let mut mgr = SessionManager::new();
    let token = NodeId::new_numeric(1, 5);
    // Missing session.
    assert_eq!(
        mgr.validate_request(&token, 1, now).unwrap_err(),
        StatusCode::BadSessionIdInvalid
    );
    // Present but not activated.
    let sid = mgr.create_session(token.duplicate(), 1_000, now);
    assert_eq!(sid, 1);
    assert_eq!(
        mgr.validate_request(&token, 1, now).unwrap_err(),
        StatusCode::BadSessionNotActivated
    );
    // Activated on channel 1; a request on channel 2 is refused.
    mgr.activate_session(&token, 1, UserToken { user: "alice".to_string() }, now)
        .expect("session exists");
    assert_eq!(
        mgr.validate_request(&token, 2, now).unwrap_err(),
        StatusCode::BadSecureChannelIdInvalid
    );
    // On the right channel the request passes and carries the identity.
    let v = mgr.validate_request(&token, 1, now).expect("valid");
    assert_eq!(v.session_id, 1);
    assert_eq!(v.user_token.user, "alice");
    // Timed out: destroyed and refused.
    let late = DateTime::from_ticks(1_000 * 1_000 + 1_000_001);
    assert_eq!(
        mgr.validate_request(&token, 1, late).unwrap_err(),
        StatusCode::BadSessionIdInvalid
    );
    assert_eq!(mgr.len(), 0);
}

#[test]
fn close_session_removes_it() {
    let now = DateTime::from_ticks(0);
    let mut mgr = SessionManager::new();
    let token = NodeId::new_numeric(1, 6);
    mgr.create_session(token.duplicate(), 1_000, now);
    assert_eq!(mgr.close_session(&token), Ok(1));
    assert_eq!(mgr.len(), 0);
    assert_eq!(
        mgr.close_session(&token).unwrap_err(),
        StatusCode::BadSessionIdInvalid
    );
}

#[test]
fn unsupported_discovery_services_fault() {
    let now = DateTime::from_ticks(0);
    let mut c = SessionController::new(config(), 1, now);
    for (id, message) in [
        (1u32, RequestMessage::FindServersOnNetwork(header(NodeId::null(), 1, 0))),
        (2u32, RequestMessage::RegisterServer(header(NodeId::null(), 2, 0))),
        (3u32, RequestMessage::RegisterServer2(header(NodeId::null(), 3, 0))),
    ] {
        let req = Request {
            request_id: id,
            security_header: SecurityHeader::Symmetric { token_id: 1 },
            message,
        };
        match c.process_request(req, 0, Vec::new(), NodeId::null(), now) {
            Dispatch::Respond(resp) => {
                assert_eq!(
                    resp.message.response_header().service_result,
                    StatusCode::BadServiceUnsupported
                );
            }
            other => panic!("expected a fault response, got {:?}", other),
        }
    }
}

#[test]
fn close_secure_channel_closes_without_response() {
    let now = DateTime::from_ticks(0);
    let mut c = SessionController::new(config(), 1, now);
    let req = Request {
        request_id: 1,
        security_header: SecurityHeader::Symmetric { token_id: 1 },
        message: RequestMessage::CloseSecureChannel(header(NodeId::null(), 1, 0)),
    };
    assert_eq!(
        c.process_request(req, 0, Vec::new(), NodeId::null(), now),
        Dispatch::Close
    );
}

#[test]
fn create_session_through_the_controller() {
    let now = DateTime::from_ticks(0);
    let mut c = SessionController::new(config(), 1, now);
    let fresh = NodeId::new_numeric(1, 4242);
    let req = Request {
        request_id: 10,
        security_header: SecurityHeader::Symmetric { token_id: 1 },
        message: RequestMessage::CreateSession(header(NodeId::null(), 3, 0)),
    };
    match c.process_request(req, 0, Vec::new(), fresh.duplicate(), now) {
        Dispatch::Respond(resp) => {
            assert_eq!(resp.message.response_header().service_result, StatusCode::Good);
        }
        other => panic!("expected a response, got {:?}", other),
    }
    assert_eq!(c.session_manager.len(), 1);
    // The created session is reachable under the fresh token once activated.
    c.session_manager
        .activate_session(&fresh, 0, UserToken { user: String::new() }, now)
        .expect("session exists");
    assert!(c.session_manager.validate_request(&fresh, 0, now).is_ok());
}

#[test]
fn controller_events_decide_the_loop() {
    let mut diag = Diagnostics::new(true);
    assert_eq!(
        handle_event(&mut diag, ControllerEvent::DeadlineFired),
        EventAction::Fatal(StatusCode::BadTimeout)
    );
    assert_eq!(
        handle_event(&mut diag, ControllerEvent::Command(ControllerCommand::Close)),
        EventAction::Fatal(StatusCode::BadServerHalted)
    );
    assert_eq!(
        handle_event(&mut diag, ControllerEvent::CommandChannelClosed),
        EventAction::Fatal(StatusCode::BadServerHalted)
    );
    assert_eq!(
        handle_event(&mut diag, ControllerEvent::PendingPanicked),
        EventAction::Fatal(StatusCode::BadInternalError)
    );
    assert_eq!(
        handle_event(
            &mut diag,
            ControllerEvent::Transport(TransportPollResult::RecoverableError {
                status: StatusCode::BadSequenceNumberInvalid,
                request_id: 4,
                request_handle: 8,
            })
        ),
        EventAction::SendFault(StatusCode::BadSequenceNumberInvalid, 8, 4)
    );
    assert_eq!(
        handle_event(
            &mut diag,
            ControllerEvent::Transport(TransportPollResult::FatalError(
                StatusCode::BadTcpMessageTooLarge
            ))
        ),
        EventAction::Fatal(StatusCode::BadTcpMessageTooLarge)
    );
    assert_eq!(
        handle_event(&mut diag, ControllerEvent::Transport(TransportPollResult::Closed)),
        EventAction::Stop
    );
    assert_eq!(
        handle_event(&mut diag, ControllerEvent::Transport(TransportPollResult::Idle)),
        EventAction::Continue
    );
}

#[test]
fn good_responses_do_not_count_as_rejected() {
    let mut diag = Diagnostics::new(true);
    diag.record_response(StatusCode::Good);
    assert_eq!(diag.rejected_requests, 0);
    diag.record_response(StatusCode::BadNodeIdUnknown);
    assert_eq!(diag.rejected_requests, 1);
    assert_eq!(diag.security_rejected_requests, 0);
    diag.record_response(StatusCode::BadUserAccessDenied);
    assert_eq!(diag.rejected_requests, 2);
    assert_eq!(diag.security_rejected_requests, 1);
    // Disabled counters stay put.
    let mut off = Diagnostics::new(false);
    off.record_response(StatusCode::BadUserAccessDenied);
    assert_eq!(off.rejected_requests, 0);
}

#[test]
fn open_secure_channel_moves_the_connection_deadline() {
    let now = DateTime::from_ticks(0);
    let mut c = SessionController::new(config(), 1, now);
    // Before any handshake the deadline is the hello timeout.
    assert_eq!(c.deadline.ticks, 5_000_000);
    let req = Request {
        request_id: 1,
        security_header: SecurityHeader::Asymmetric { sender_certificate: vec![1] },
        message: RequestMessage::OpenSecureChannel(OpenSecureChannelRequest {
            request_header: header(NodeId::null(), 1, 0),
            client_protocol_version: 0,
            request_type: SecurityTokenRequestType::Issue,
            security_mode: MessageSecurityMode::NoSecurity,
            client_nonce: Vec::new(),
            requested_lifetime: 1_000,
        }),
    };
    match c.process_request(req, 0, Vec::new(), NodeId::null(), now) {
        Dispatch::Respond(resp) => match resp.message {
            ResponseMessage::OpenSecureChannel(m) => {
                assert_eq!(m.security_token.token_id, 1);
            }
            other => panic!("expected a handshake response, got {:?}", other),
        },
        other => panic!("expected a response, got {:?}", other),
    }
    // One second granted: renewal is due 750 ms in.
    assert_eq!(c.deadline.ticks, 750_000);
}

#[test]
fn activate_and_close_through_the_dispatcher() {
    let now = DateTime::from_ticks(0);
    let mut c = SessionController::new(config(), 1, now);
    let token = NodeId::new_numeric(1, 21);
    // Activating an unknown session faults.
    let req = Request {
        request_id: 1,
        security_header: SecurityHeader::Symmetric { token_id: 1 },
        message: RequestMessage::ActivateSession(
            header(token.duplicate(), 4, 0),
            UserToken { user: "bob".to_string() },
        ),
    };
    match c.process_request(req, 0, Vec::new(), NodeId::null(), now) {
        Dispatch::Respond(resp) => {
            assert_eq!(
                resp.message.response_header().service_result,
                StatusCode::BadSessionIdInvalid
            );
            assert_eq!(resp.message.response_header().request_handle, 4);
        }
        other => panic!("expected a fault response, got {:?}", other),
    }
    // Create, activate with an identity, then use and close the session.
    c.session_manager
        .create_session(token.duplicate(), 60_000, now);
    let req = Request {
        request_id: 2,
        security_header: SecurityHeader::Symmetric { token_id: 1 },
        message: RequestMessage::ActivateSession(
            header(token.duplicate(), 5, 0),
            UserToken { user: "bob".to_string() },
        ),
    };
    match c.process_request(req, 0, Vec::new(), NodeId::null(), now) {
        Dispatch::Respond(resp) => {
            assert_eq!(resp.message.response_header().service_result, StatusCode::Good);
        }
        other => panic!("expected a response, got {:?}", other),
    }
    let v = c
        .session_manager
        .validate_request(&token, 0, now)
        .expect("activated on channel 0");
    assert_eq!(v.user_token.user, "bob");
    let req = Request {
        request_id: 3,
        security_header: SecurityHeader::Symmetric { token_id: 1 },
        message: RequestMessage::CloseSession(header(token.duplicate(), 6, 0), true),
    };
    match c.process_request(req, 0, Vec::new(), NodeId::null(), now) {
        Dispatch::Respond(resp) => {
            assert_eq!(resp.message.response_header().service_result, StatusCode::Good);
        }
        other => panic!("expected a response, got {:?}", other),
    }
    assert_eq!(c.session_manager.len(), 0);
    // Closing again faults.
    let req = Request {
        request_id: 4,
        security_header: SecurityHeader::Symmetric { token_id: 1 },
        message: RequestMessage::CloseSession(header(token, 7, 0), false),
    };
    match c.process_request(req, 0, Vec::new(), NodeId::null(), now) {
        Dispatch::Respond(resp) => {
            assert_eq!(
                resp.message.response_header().service_result,
                StatusCode::BadSessionIdInvalid
            );
        }
        other => panic!("expected a fault response, got {:?}", other),
    }
}

#[test]
fn find_servers_filters_by_requested_uris() {
    let servers = vec![
        ApplicationDescription { application_uri: "urn:alpha".to_string() },
        ApplicationDescription { application_uri: "urn:beta".to_string() },
        ApplicationDescription { application_uri: "urn:gamma".to_string() },
    ];
    // Named uris keep only the matching descriptions.
    let uris = Some(vec!["urn:gamma".to_string(), "urn:alpha".to_string()]);
    let kept = filter_servers(servers, &uris);
    assert_eq!(kept.len(), 2);
    assert_eq!(kept[0].application_uri, "urn:alpha");
    assert_eq!(kept[1].application_uri, "urn:gamma");
    // An absent or empty list keeps everything.
    let servers = vec![ApplicationDescription { application_uri: "urn:alpha".to_string() }];
    assert_eq!(filter_servers(servers, &None).len(), 1);
    let servers = vec![ApplicationDescription { application_uri: "urn:alpha".to_string() }];
    assert_eq!(filter_servers(servers, &Some(Vec::new())).len(), 1);
}
