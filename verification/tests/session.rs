use bringup::errors::DecodeError;
use bringup::errors::SessionError;
use bringup::errors::TlsError;
use bringup::errors::TransportError;
use bringup::link::Address;
use bringup::session::CertificatePolicy;
use bringup::session::SessionAction;
use bringup::session::SessionBuffers;
use bringup::session::SessionEndpoint;
use bringup::session::SessionEvent;
use bringup::session::SessionPhase;
use bringup::session::TransportOutcomes;
use bringup::session::exchange;
use bringup::session::session_step;

fn example_endpoint() -> SessionEndpoint {
    SessionEndpoint::new(Address::new(203, 0, 113, 10), 443, "example.test".to_string())
}

const REQUEST: &[u8] = b"GET / HTTP/1.1\r\nHost: example.test\r\n\r\n";

fn all_good_outcomes(response: &[u8]) -> TransportOutcomes {
    TransportOutcomes {
        connect_ok: true,
        handshake_ok: true,
        write_ok: true,
        flush_ok: true,
        read: Some(response.to_vec()),
    }
}

#[test]
fn successful_exchange_returns_the_exact_decoded_response() {
    let response: &[u8] = b"HTTP/1.1 200 OK\r\n\r\nresponse body data";
    assert_eq!(response.len(), 37);
    let outcome = exchange(
        &example_endpoint(),
        CertificatePolicy::AcceptAnyServerIdentity,
        512,
        REQUEST,
        &all_good_outcomes(response),
    );
    assert_eq!(
        outcome.result,
        Ok("HTTP/1.1 200 OK\r\n\r\nresponse body data".to_string())
    );
    assert_eq!(outcome.actions.len(), 5);
    assert!(matches!(
        &outcome.actions[0],
        SessionAction::Connect { host, port: 443 } if *host == Address::new(203, 0, 113, 10)
    ));
    assert!(matches!(
        &outcome.actions[1],
        SessionAction::Handshake { server_name, policy: CertificatePolicy::AcceptAnyServerIdentity }
            if server_name == "example.test"
    ));
    assert!(matches!(&outcome.actions[2], SessionAction::Write { data } if data == REQUEST));
    assert!(matches!(&outcome.actions[3], SessionAction::Flush));
    assert!(matches!(&outcome.actions[4], SessionAction::Read { capacity: 512 }));
}

#[test]
fn failing_connect_aborts_before_any_handshake() {
    let mut outcomes = all_good_outcomes(b"never sent");
    outcomes.connect_ok = false;
    let outcome = exchange(
        &example_endpoint(),
        CertificatePolicy::VerifyServerIdentity,
        512,
        REQUEST,
        &outcomes,
    );
    assert_eq!(
        outcome.result,
        Err(SessionError::Transport(TransportError::ConnectFailed))
    );
    assert_eq!(outcome.actions.len(), 1);
    assert!(matches!(&outcome.actions[0], SessionAction::Connect { .. }));
    assert!(
        !outcome
            .actions
            .iter()
            .any(|a| matches!(a, SessionAction::Handshake { .. }))
    );
}

#[test]
fn failing_handshake_aborts_before_any_write() {
    let mut outcomes = all_good_outcomes(b"never sent");
    outcomes.handshake_ok = false;
    let outcome = exchange(
        &example_endpoint(),
        CertificatePolicy::VerifyServerIdentity,
        512,
        REQUEST,
        &outcomes,
    );
    assert_eq!(outcome.result, Err(SessionError::Tls(TlsError::HandshakeFailed)));
    assert_eq!(outcome.actions.len(), 2);
    assert!(!outcome.actions.iter().any(|a| matches!(a, SessionAction::Write { .. })));
}

#[test]
fn failing_write_aborts_before_any_flush() {
    let mut outcomes = all_good_outcomes(b"never sent");
    outcomes.write_ok = false;
    let outcome = exchange(
        &example_endpoint(),
        CertificatePolicy::VerifyServerIdentity,
        512,
        REQUEST,
        &outcomes,
    );
    assert_eq!(
        outcome.result,
        Err(SessionError::Transport(TransportError::WriteFailed))
    );
    assert_eq!(outcome.actions.len(), 3);
}

#[test]
fn failing_flush_aborts_before_any_read() {
    let mut outcomes = all_good_outcomes(b"never sent");
    outcomes.flush_ok = false;
    let outcome = exchange(
        &example_endpoint(),
        CertificatePolicy::VerifyServerIdentity,
        512,
        REQUEST,
        &outcomes,
    );
    assert_eq!(
        outcome.result,
        Err(SessionError::Transport(TransportError::FlushFailed))
    );
    assert_eq!(outcome.actions.len(), 4);
}

#[test]
fn failing_read_aborts_the_exchange() {
    let mut outcomes = all_good_outcomes(b"");
    outcomes.read = None;
    let outcome = exchange(
        &example_endpoint(),
        CertificatePolicy::VerifyServerIdentity,
        512,
        REQUEST,
        &outcomes,
    );
    assert_eq!(
        outcome.result,
        Err(SessionError::Transport(TransportError::ReadFailed))
    );
    assert_eq!(outcome.actions.len(), 5);
}

#[test]
fn response_that_is_not_text_yields_invalid_text() {
    let outcome = exchange(
        &example_endpoint(),
        CertificatePolicy::VerifyServerIdentity,
        512,
        REQUEST,
        &all_good_outcomes(&[0x80, 0x80, 0x80]),
    );
    assert_eq!(
        outcome.result,
        Err(SessionError::Decode(DecodeError::InvalidText))
    );
}

#[test]
fn oversized_response_is_truncated_to_the_capacity() {
    let outcome = exchange(
        &example_endpoint(),
        CertificatePolicy::VerifyServerIdentity,
        8,
        REQUEST,
        &all_good_outcomes(b"0123456789abcdef"),
    );
    assert_eq!(outcome.result, Ok("01234567".to_string()));
}

#[test]
fn session_steps_walk_the_protocol_in_order() {
    assert_eq!(
        session_step(SessionPhase::Connect, &SessionEvent::ConnectDone { ok: true }),
        Ok(SessionPhase::Handshake)
    );
    assert_eq!(
        session_step(SessionPhase::Handshake, &SessionEvent::HandshakeDone { ok: true }),
        Ok(SessionPhase::Write)
    );
    assert_eq!(
        session_step(SessionPhase::Write, &SessionEvent::WriteDone { ok: true }),
        Ok(SessionPhase::Flush)
    );
    assert_eq!(
        session_step(SessionPhase::Flush, &SessionEvent::FlushDone { ok: true }),
        Ok(SessionPhase::Read)
    );
    assert_eq!(
        session_step(SessionPhase::Read, &SessionEvent::ReadDone { data: Some(vec![65]) }),
        Ok(SessionPhase::Complete)
    );
}

#[test]
fn session_steps_abort_with_the_error_of_their_phase() {
    assert_eq!(
        session_step(SessionPhase::Connect, &SessionEvent::ConnectDone { ok: false }),
        Err(SessionError::Transport(TransportError::ConnectFailed))
    );
    assert_eq!(
        session_step(SessionPhase::Handshake, &SessionEvent::HandshakeDone { ok: false }),
        Err(SessionError::Tls(TlsError::HandshakeFailed))
    );
    assert_eq!(
        session_step(SessionPhase::Write, &SessionEvent::WriteDone { ok: false }),
        Err(SessionError::Transport(TransportError::WriteFailed))
    );
    assert_eq!(
        session_step(SessionPhase::Flush, &SessionEvent::FlushDone { ok: false }),
        Err(SessionError::Transport(TransportError::FlushFailed))
    );
    assert_eq!(
        session_step(SessionPhase::Read, &SessionEvent::ReadDone { data: None }),
        Err(SessionError::Transport(TransportError::ReadFailed))
    );
}

#[test]
fn record_buffers_below_the_largest_record_cannot_handshake() {
    let good = SessionBuffers {
        tls_read_capacity: 16384,
        tls_write_capacity: 16384,
        socket_read_capacity: 4096,
        socket_write_capacity: 4096,
    };
    assert!(good.check_handshake_capable());

    let short_read = SessionBuffers { tls_read_capacity: 16383, ..good };
    assert!(!short_read.check_handshake_capable());

    let short_write = SessionBuffers { tls_write_capacity: 16383, ..good };
    assert!(!short_write.check_handshake_capable());
}

#[test]
fn endpoint_keeps_what_it_was_built_from() {
    let endpoint = example_endpoint();
    assert_eq!(endpoint.host_address, Address::new(203, 0, 113, 10));
    assert_eq!(endpoint.port, 443);
    assert_eq!(endpoint.server_name, "example.test");
}
