//! Secure-channel behaviour: issue and renew, nonce policing, token renewal
//! deadlines, and the client's clock-offset and request-handle rules.

use opcua_runtime::client_state::ClientChannelState;
use opcua_runtime::date_time::{apply_offset, DateTime};
use opcua_runtime::messages::{
    OpenSecureChannelRequest, OpenSecureChannelResponse, RequestHeader, ResponseHeader,
    SecurityHeader, SecurityTokenRequestType,
};
use opcua_runtime::node_id::NodeId;
use opcua_runtime::secure_channel::{
    ChannelSecurityToken, MessageSecurityMode, SecureChannel, SecurityPolicy,
};
use opcua_runtime::server_state::{OpenChannelOutcome, ServerChannelState};
use opcua_runtime::status::StatusCode;

const SERVER_MAX_LIFETIME: u32 = 7_200_000;

fn open_request(
    request_type: SecurityTokenRequestType,
    mode: MessageSecurityMode,
    client_nonce: Vec<u8>,
    requested_lifetime: u32,
) -> OpenSecureChannelRequest {
    OpenSecureChannelRequest {
        request_header: RequestHeader {
            authentication_token: NodeId::null(),
            timestamp: DateTime::from_ticks(0),
            request_handle: 1,
            timeout_hint: 0,
        },
        client_protocol_version: 0,
        request_type,
        security_mode: mode,
        client_nonce,
        requested_lifetime,
    }
}

fn asymmetric_header() -> SecurityHeader {
    SecurityHeader::Asymmetric {
        sender_certificate: vec![1, 2, 3],
    }
}

#[test]
fn issue_then_renew() {
    let mut state = ServerChannelState::new(1);
    let mut channel = SecureChannel::new();
    let now = DateTime::from_ticks(1_000_000);

    let req = open_request(
        SecurityTokenRequestType::Issue,
        MessageSecurityMode::NoSecurity,
        Vec::new(),
        3_600_000,
    );
    let out = state.open_secure_channel(
        &mut channel,
        &asymmetric_header(),
        0,
        &req,
        SERVER_MAX_LIFETIME,
        Vec::new(),
        now,
    );
    match out {
        OpenChannelOutcome::Response(resp) => {
            assert_eq!(resp.security_token.channel_id, 1);
            assert_eq!(resp.security_token.token_id, 1);
            assert_eq!(resp.security_token.revised_lifetime, 3_600_000);
        }
        other => panic!("expected a response, got {:?}", other),
    }
    assert!(state.issued);
    assert_eq!(state.renew_count, 0);

    let req = open_request(
        SecurityTokenRequestType::Renew,
        MessageSecurityMode::NoSecurity,
        Vec::new(),
        3_600_000,
    );
    let out = state.open_secure_channel(
        &mut channel,
        &asymmetric_header(),
        0,
        &req,
        SERVER_MAX_LIFETIME,
        Vec::new(),
        now,
    );
    match out {
        OpenChannelOutcome::Response(resp) => {
            assert_eq!(resp.security_token.channel_id, 1);
            assert_eq!(resp.security_token.token_id, 2);
        }
        other => panic!("expected a response, got {:?}", other),
    }
    assert_eq!(state.renew_count, 1);
}

#[test]
fn renew_before_issue_is_fatal() {
    let mut state = ServerChannelState::new(1);
    let mut channel = SecureChannel::new();
    let req = open_request(
        SecurityTokenRequestType::Renew,
        MessageSecurityMode::NoSecurity,
        Vec::new(),
        3_600_000,
    );
    let out = state.open_secure_channel(
        &mut channel,
        &asymmetric_header(),
        0,
        &req,
        SERVER_MAX_LIFETIME,
        Vec::new(),
        DateTime::from_ticks(0),
    );
    assert_eq!(out, OpenChannelOutcome::Fatal(StatusCode::BadUnexpectedError));
    assert!(!state.issued);
}

#[test]
fn nonce_reuse_on_renew_under_sign() {
    let mut state = ServerChannelState::new(1);
    let mut channel = SecureChannel::new();
    channel.set_security_policy(SecurityPolicy::Basic256Sha256);
    let client_nonce: Vec<u8> = (0..32u8).collect();
    let server_nonce: Vec<u8> = (100..132u8).collect();
    let now = DateTime::from_ticks(0);

    let req = open_request(
        SecurityTokenRequestType::Issue,
        MessageSecurityMode::Sign,
        client_nonce.clone(),
        3_600_000,
    );
    let out = state.open_secure_channel(
        &mut channel,
        &asymmetric_header(),
        0,
        &req,
        SERVER_MAX_LIFETIME,
        server_nonce.clone(),
        now,
    );
    assert!(matches!(out, OpenChannelOutcome::Response(_)));

    // A renew reusing the previous nonce is refused, but not fatally.
    let req = open_request(
        SecurityTokenRequestType::Renew,
        MessageSecurityMode::Sign,
        client_nonce,
        3_600_000,
    );
    let out = state.open_secure_channel(
        &mut channel,
        &asymmetric_header(),
        0,
        &req,
        SERVER_MAX_LIFETIME,
        server_nonce.clone(),
        now,
    );
    assert_eq!(out, OpenChannelOutcome::Fault(StatusCode::BadNonceInvalid));

    // The channel stays usable: a renew with a fresh nonce succeeds.
    let fresh: Vec<u8> = (50..82u8).collect();
    let req = open_request(
        SecurityTokenRequestType::Renew,
        MessageSecurityMode::Sign,
        fresh,
        3_600_000,
    );
    let out = state.open_secure_channel(
        &mut channel,
        &asymmetric_header(),
        0,
        &req,
        SERVER_MAX_LIFETIME,
        server_nonce,
        now,
    );
    match out {
        OpenChannelOutcome::Response(resp) => {
            assert_eq!(resp.security_token.channel_id, 1);
            assert_eq!(resp.security_token.token_id, 2);
        }
        other => panic!("expected a response, got {:?}", other),
    }
}

#[test]
fn protocol_version_mismatch_is_a_fault() {
    let mut state = ServerChannelState::new(1);
    let mut channel = SecureChannel::new();
    let mut req = open_request(
        SecurityTokenRequestType::Issue,
        MessageSecurityMode::NoSecurity,
        Vec::new(),
        1000,
    );
    req.client_protocol_version = 7;
    let out = state.open_secure_channel(
        &mut channel,
        &asymmetric_header(),
        0,
        &req,
        SERVER_MAX_LIFETIME,
        Vec::new(),
        DateTime::from_ticks(0),
    );
    assert_eq!(
        out,
        OpenChannelOutcome::Fault(StatusCode::BadProtocolVersionUnsupported)
    );
}

#[test]
fn invalid_mode_is_rejected() {
    let mut state = ServerChannelState::new(1);
    let mut channel = SecureChannel::new();
    let req = open_request(
        SecurityTokenRequestType::Issue,
        MessageSecurityMode::Invalid,
        Vec::new(),
        1000,
    );
    let out = state.open_secure_channel(
        &mut channel,
        &asymmetric_header(),
        0,
        &req,
        SERVER_MAX_LIFETIME,
        Vec::new(),
        DateTime::from_ticks(0),
    );
    assert_eq!(
        out,
        OpenChannelOutcome::Fault(StatusCode::BadSecurityModeRejected)
    );
}

#[test]
fn empty_certificate_is_fatal() {
    let mut state = ServerChannelState::new(1);
    let mut channel = SecureChannel::new();
    let req = open_request(
        SecurityTokenRequestType::Issue,
        MessageSecurityMode::NoSecurity,
        Vec::new(),
        1000,
    );
    let header = SecurityHeader::Asymmetric {
        sender_certificate: Vec::new(),
    };
    let out = state.open_secure_channel(
        &mut channel,
        &header,
        0,
        &req,
        SERVER_MAX_LIFETIME,
        Vec::new(),
        DateTime::from_ticks(0),
    );
    assert_eq!(out, OpenChannelOutcome::Fatal(StatusCode::BadCertificateInvalid));
}

#[test]
fn symmetric_header_is_fatal() {
    let mut state = ServerChannelState::new(1);
    let mut channel = SecureChannel::new();
    let req = open_request(
        SecurityTokenRequestType::Issue,
        MessageSecurityMode::NoSecurity,
        Vec::new(),
        1000,
    );
    let header = SecurityHeader::Symmetric { token_id: 1 };
    let out = state.open_secure_channel(
        &mut channel,
        &header,
        0,
        &req,
        SERVER_MAX_LIFETIME,
        Vec::new(),
        DateTime::from_ticks(0),
    );
    assert_eq!(out, OpenChannelOutcome::Fatal(StatusCode::BadUnexpectedError));
}

#[test]
fn lifetime_is_clamped_to_server_maximum() {
    let mut state = ServerChannelState::new(1);
    let mut channel = SecureChannel::new();
    let req = open_request(
        SecurityTokenRequestType::Issue,
        MessageSecurityMode::NoSecurity,
        Vec::new(),
        u32::MAX,
    );
    let out = state.open_secure_channel(
        &mut channel,
        &asymmetric_header(),
        0,
        &req,
        SERVER_MAX_LIFETIME,
        Vec::new(),
        DateTime::from_ticks(0),
    );
    match out {
        OpenChannelOutcome::Response(resp) => {
            assert_eq!(resp.security_token.revised_lifetime, SERVER_MAX_LIFETIME);
        }
        other => panic!("expected a response, got {:?}", other),
    }
}

#[test]
fn renewal_deadline_is_three_quarters_in() {
    // One hour granted: the renewal point lies 45 minutes in, and strictly
    // after creation exactly when the lifetime is positive.
    let token = ChannelSecurityToken {
        channel_id: 1,
        token_id: 1,
        created_at: DateTime::from_ticks(1_000),
        revised_lifetime: 3_600_000,
    };
    let d = token.renewal_deadline();
    assert_eq!(d.ticks, 1_000 + 750 * 3_600_000i64);
    let zero = ChannelSecurityToken {
        revised_lifetime: 0,
        ..token
    };
    assert_eq!(zero.renewal_deadline().ticks, 1_000);
}

#[test]
fn old_token_verifies_within_grace_window() {
    let mut channel = SecureChannel::new();
    channel.set_secure_channel_id(1);
    channel.set_token_id(1);
    channel.set_security_token(ChannelSecurityToken {
        channel_id: 1,
        token_id: 2,
        created_at: DateTime::from_ticks(0),
        revised_lifetime: 1_000,
    });
    // Grace window: a quarter of the new lifetime, 250 ms = 250_000 ticks.
    assert!(channel.token_usable(2, DateTime::from_ticks(999_999_999)));
    assert!(channel.token_usable(1, DateTime::from_ticks(250_000)));
    assert!(!channel.token_usable(1, DateTime::from_ticks(250_001)));
    assert!(!channel.token_usable(3, DateTime::from_ticks(0)));
}

#[test]
fn zero_offset_leaves_timestamp_unchanged() {
    let t = DateTime::from_ticks(123_456_789);
    assert_eq!(apply_offset(t, 0), t);
    let mut client = ClientChannelState::new(false);
    let header = client.make_request_header(500, t);
    assert_eq!(header.timestamp, t);
    assert_eq!(header.timeout_hint, 500);
}

#[test]
fn request_handles_strictly_increase() {
    let mut client = ClientChannelState::new(false);
    let mut last = 0u32;
    for _ in 0..100 {
        let h = client.next_request_handle();
        assert!(h > last);
        last = h;
    }
}

#[test]
fn client_offset_accumulates_skew() {
    let mut client = ClientChannelState::new(true);
    client.set_client_offset(1_000);
    client.set_client_offset(-250);
    assert_eq!(client.client_offset, 750);
    let now = DateTime::from_ticks(10_000);
    let header = client.make_request_header(0, now);
    assert_eq!(header.timestamp.ticks, 10_750);
}

#[test]
fn begin_issue_places_local_nonce() {
    let mut client = ClientChannelState::new(false);
    let mut channel = SecureChannel::new();
    channel.set_security_mode(MessageSecurityMode::Sign);
    let nonce: Vec<u8> = (0..32u8).collect();
    let req = client.begin_issue_or_renew_secure_channel(
        &mut channel,
        SecurityTokenRequestType::Issue,
        60_000,
        5_000,
        nonce.clone(),
        DateTime::from_ticks(0),
    );
    assert_eq!(channel.local_nonce(), &nonce);
    assert_eq!(req.client_nonce, nonce);
    assert_eq!(req.security_mode, MessageSecurityMode::Sign);
    assert_eq!(req.client_protocol_version, 0);
}

#[test]
fn end_issue_applies_clock_skew() {
    let mut client = ClientChannelState::new(true);
    let mut channel = SecureChannel::new();
    let response = OpenSecureChannelResponse {
        response_header: ResponseHeader::new_good(1, DateTime::from_ticks(5_000)),
        server_protocol_version: 0,
        security_token: ChannelSecurityToken {
            channel_id: 1,
            token_id: 1,
            created_at: DateTime::from_ticks(5_000),
            revised_lifetime: 1_000,
        },
        server_nonce: Vec::new(),
    };
    // The client clock reads 2_000 when the server stamped 5_000: skew 3_000.
    let r = client.end_issue_or_renew_secure_channel(
        &mut channel,
        &response,
        DateTime::from_ticks(2_000),
    );
    assert!(r.is_ok());
    assert_eq!(client.client_offset, 3_000);
    assert_eq!(channel.client_offset, 3_000);
    // The installed token's creation time is moved back onto the client clock.
    assert_eq!(channel.token.created_at.ticks, 2_000);
    assert_eq!(channel.token.token_id, 1);
}
