//! The single-shot secure session: one transport connection, one
//! cryptographic handshake on top of it, one request written and
//! flushed, one read, one decoding.
//!
//! The protocol order and the failure branching live here, verified;
//! the transport work itself is outside.  [`session_step`] decides,
//! from the current [`SessionPhase`] and one observed [`SessionEvent`],
//! the next phase or the aborting error.  [`exchange`] runs the whole
//! protocol over what the transport did at each suspension point, and
//! also yields the exact list of operations it handed to the
//! transport.  No retry logic exists here by design: the exchange is
//! single-shot, and a caller wanting resilience must wrap it.

use vstd::prelude::*;
use vstd::slice::slice_to_vec;
use vstd::utf8::decode_utf8;
use vstd::utf8::valid_utf8;
use crate::errors::DecodeError;
use crate::errors::SessionError;
use crate::errors::TlsError;
use crate::errors::TransportError;
use crate::link::Address;
use crate::response::ResponseBuffer;

verus! {

/// Where the exchange is sent.  Immutable once constructed.
pub struct SessionEndpoint {
    /// The host to open the raw connection to.
    pub host_address: Address,
    /// The port to open the raw connection to.
    pub port: u16,
    /// The name announced during the handshake, so the server can
    /// present the matching certificate.
    pub server_name: String,
}

impl SessionEndpoint {
    pub fn new(host_address: Address, port: u16, server_name: String) -> (r: SessionEndpoint)
        ensures
            r.host_address == host_address,
            r.port == port,
            r.server_name@ == server_name@,
    {
        SessionEndpoint { host_address, port, server_name }
    }
}

/// How the peer's identity is treated during the handshake.  There is
/// deliberately no default: accepting any server identity removes the
/// guarantee the handshake exists to provide, so a configuration must
/// name its choice out loud.
#[derive(Clone, Copy, PartialEq, Eq, Structural, Debug)]
pub enum CertificatePolicy {
    /// Verify the certificate chain against the server name.
    VerifyServerIdentity,
    /// Accept any server identity.  Loudly insecure; for controlled
    /// testing only.
    AcceptAnyServerIdentity,
}

/// The four fixed-capacity byte regions of one session: two TLS record
/// buffers and two raw-socket buffers.  Owned exclusively by the one
/// active session for its whole duration; never shared, never resized.
#[derive(Clone, Copy, PartialEq, Eq, Structural, Debug)]
pub struct SessionBuffers {
    pub tls_read_capacity: usize,
    pub tls_write_capacity: usize,
    pub socket_read_capacity: usize,
    pub socket_write_capacity: usize,
}

/// The largest negotiable TLS record size: each TLS record buffer must
/// hold at least this much, or the handshake fails.
pub const MIN_TLS_RECORD_CAPACITY: usize = 16384;

impl SessionBuffers {
    /// Both TLS record buffers hold the largest negotiable record.
    /// The socket buffers are sized independently and may be smaller.
    pub open spec fn handshake_capable(self) -> bool {
        &&& self.tls_read_capacity >= MIN_TLS_RECORD_CAPACITY
        &&& self.tls_write_capacity >= MIN_TLS_RECORD_CAPACITY
    }

    /// Checks the record buffers against the largest negotiable
    /// record, so a doomed handshake can be reported at configuration
    /// time.
    pub fn check_handshake_capable(&self) -> (r: bool)
        ensures
            r == self.handshake_capable(),
    {
        self.tls_read_capacity >= MIN_TLS_RECORD_CAPACITY
            && self.tls_write_capacity >= MIN_TLS_RECORD_CAPACITY
    }
}

/// The suspension points of the exchange, in protocol order, plus the
/// terminal state of a completed transport conversation.
#[derive(Clone, Copy, PartialEq, Eq, Structural, Debug)]
pub enum SessionPhase {
    /// Opening the raw transport connection.
    Connect,
    /// Performing the cryptographic handshake.
    Handshake,
    /// Writing the request bytes fully.
    Write,
    /// Flushing what was written.
    Flush,
    /// The single read of the response.
    Read,
    /// Every transport step completed; only decoding remains.
    Complete,
}

/// The outcome of one suspension point, as an embedding observed it.
pub enum SessionEvent {
    ConnectDone { ok: bool },
    HandshakeDone { ok: bool },
    WriteDone { ok: bool },
    FlushDone { ok: bool },
    /// The bytes the single read delivered, or `None` when it failed.
    ReadDone { data: Option<Vec<u8>> },
}

/// The event that belongs to a phase.
pub open spec fn expects(phase: SessionPhase, event: SessionEvent) -> bool {
    match (phase, event) {
        (SessionPhase::Connect, SessionEvent::ConnectDone { .. }) => true,
        (SessionPhase::Handshake, SessionEvent::HandshakeDone { .. }) => true,
        (SessionPhase::Write, SessionEvent::WriteDone { .. }) => true,
        (SessionPhase::Flush, SessionEvent::FlushDone { .. }) => true,
        (SessionPhase::Read, SessionEvent::ReadDone { .. }) => true,
        _ => false,
    }
}

/// The next phase, or the aborting error, for each phase and outcome.
/// Every failure is fatal to the exchange; nothing is retried.
pub open spec fn step_spec(phase: SessionPhase, event: SessionEvent) -> Result<SessionPhase, SessionError>
    recommends
        expects(phase, event),
{
    match (phase, event) {
        (SessionPhase::Connect, SessionEvent::ConnectDone { ok }) => if ok {
            Ok(SessionPhase::Handshake)
        } else {
            Err(SessionError::Transport(TransportError::ConnectFailed))
        },
        (SessionPhase::Handshake, SessionEvent::HandshakeDone { ok }) => if ok {
            Ok(SessionPhase::Write)
        } else {
            Err(SessionError::Tls(TlsError::HandshakeFailed))
        },
        (SessionPhase::Write, SessionEvent::WriteDone { ok }) => if ok {
            Ok(SessionPhase::Flush)
        } else {
            Err(SessionError::Transport(TransportError::WriteFailed))
        },
        (SessionPhase::Flush, SessionEvent::FlushDone { ok }) => if ok {
            Ok(SessionPhase::Read)
        } else {
            Err(SessionError::Transport(TransportError::FlushFailed))
        },
        (SessionPhase::Read, SessionEvent::ReadDone { data }) => if data is Some {
            Ok(SessionPhase::Complete)
        } else {
            Err(SessionError::Transport(TransportError::ReadFailed))
        },
        _ => arbitrary(),
    }
}

/// One decision of the session protocol: from the current phase and
/// the observed outcome to the next phase or the aborting error.
pub fn session_step(phase: SessionPhase, event: &SessionEvent) -> (r: Result<SessionPhase, SessionError>)
    requires
        expects(phase, *event),
    ensures
        r == step_spec(phase, *event),
{
    match (phase, event) {
        (SessionPhase::Connect, SessionEvent::ConnectDone { ok }) => if *ok {
            Ok(SessionPhase::Handshake)
        } else {
            Err(SessionError::Transport(TransportError::ConnectFailed))
        },
        (SessionPhase::Handshake, SessionEvent::HandshakeDone { ok }) => if *ok {
            Ok(SessionPhase::Write)
        } else {
            Err(SessionError::Tls(TlsError::HandshakeFailed))
        },
        (SessionPhase::Write, SessionEvent::WriteDone { ok }) => if *ok {
            Ok(SessionPhase::Flush)
        } else {
            Err(SessionError::Transport(TransportError::WriteFailed))
        },
        (SessionPhase::Flush, SessionEvent::FlushDone { ok }) => if *ok {
            Ok(SessionPhase::Read)
        } else {
            Err(SessionError::Transport(TransportError::FlushFailed))
        },
        (SessionPhase::Read, SessionEvent::ReadDone { data }) => if data.is_some() {
            Ok(SessionPhase::Complete)
        } else {
            Err(SessionError::Transport(TransportError::ReadFailed))
        },
        _ => {
            proof {
                assert(false);
            }
            Err(SessionError::Transport(TransportError::ConnectFailed))
        },
    }
}

/// What the transport and the TLS layer did at each suspension point
/// of one exchange, as an embedding observed it.  Steps past the first
/// failing one never happen, so their entries are never consulted.
pub struct TransportOutcomes {
    pub connect_ok: bool,
    pub handshake_ok: bool,
    pub write_ok: bool,
    pub flush_ok: bool,
    /// The bytes the single read delivered, or `None` when it failed.
    pub read: Option<Vec<u8>>,
}

/// One operation the exchange hands to the transport, with everything
/// the transport needs to perform it.
pub enum SessionAction {
    /// Open the raw connection to this host and port.
    Connect { host: Address, port: u16 },
    /// Perform the handshake, announcing this server name and applying
    /// this certificate policy.
    Handshake { server_name: String, policy: CertificatePolicy },
    /// Write these bytes fully.
    Write { data: Vec<u8> },
    /// Flush what was written.
    Flush,
    /// Read once, into a region of this capacity.
    Read { capacity: usize },
}

/// How many operations the exchange hands to the transport before the
/// first failure aborts it (all five when nothing before the read
/// fails; the read itself is the fifth, attempted even when it fails).
pub open spec fn attempted_count(outcomes: TransportOutcomes) -> int {
    if !outcomes.connect_ok {
        1
    } else if !outcomes.handshake_ok {
        2
    } else if !outcomes.write_ok {
        3
    } else if !outcomes.flush_ok {
        4
    } else {
        5
    }
}

/// The `j`-th operation handed to the transport, in protocol order.
pub open spec fn action_matches(
    action: SessionAction,
    j: int,
    endpoint: SessionEndpoint,
    policy: CertificatePolicy,
    request: Seq<u8>,
    response_capacity: usize,
) -> bool {
    if j == 0 {
        action matches SessionAction::Connect { host, port }
            && host == endpoint.host_address && port == endpoint.port
    } else if j == 1 {
        action matches SessionAction::Handshake { server_name, policy: chosen }
            && server_name@ == endpoint.server_name@ && chosen == policy
    } else if j == 2 {
        action matches SessionAction::Write { data } && data@ == request
    } else if j == 3 {
        action is Flush
    } else if j == 4 {
        action matches SessionAction::Read { capacity } && capacity == response_capacity
    } else {
        false
    }
}

/// What the exchange returns: on success exactly the text the stored
/// response bytes decode to, otherwise the error of the first failing
/// step.
pub open spec fn exchange_result(outcomes: TransportOutcomes, response_capacity: usize) -> Result<
    Seq<char>,
    SessionError,
> {
    if !outcomes.connect_ok {
        Err(SessionError::Transport(TransportError::ConnectFailed))
    } else if !outcomes.handshake_ok {
        Err(SessionError::Tls(TlsError::HandshakeFailed))
    } else if !outcomes.write_ok {
        Err(SessionError::Transport(TransportError::WriteFailed))
    } else if !outcomes.flush_ok {
        Err(SessionError::Transport(TransportError::FlushFailed))
    } else {
        match outcomes.read {
            Option::None => Err(SessionError::Transport(TransportError::ReadFailed)),
            Option::Some(data) => {
                let stored = if data@.len() <= response_capacity {
                    data@
                } else {
                    data@.take(response_capacity as int)
                };
                if valid_utf8(stored) {
                    Ok(decode_utf8(stored))
                } else {
                    Err(SessionError::Decode(DecodeError::InvalidText))
                }
            },
        }
    }
}

/// What one whole exchange produced.
pub struct ExchangeOutcome {
    /// The decoded response text, or the error of the first failing
    /// step.
    pub result: Result<String, SessionError>,
    /// The operations handed to the transport, in order.  An operation
    /// past the first failing one is never handed out.
    pub actions: Vec<SessionAction>,
}

/// Runs the whole single-shot exchange over what the transport did at
/// each suspension point, as an embedding runs it over a live
/// connection.
///
/// The first failing step aborts the exchange with its error and no
/// further operation is handed to the transport; a read that delivers
/// more than the response capacity is truncated, not an error; and the
/// stored bytes decode to exactly the returned text, or to
/// `InvalidText`.
pub fn exchange(
    endpoint: &SessionEndpoint,
    policy: CertificatePolicy,
    response_capacity: usize,
    request: &[u8],
    outcomes: &TransportOutcomes,
) -> (r: ExchangeOutcome)
    ensures
        exchange_result(*outcomes, response_capacity) matches Ok(text) ==> r.result matches Ok(s)
            && s@ == text,
        exchange_result(*outcomes, response_capacity) matches Err(e) ==> r.result == Err::<
            String,
            SessionError,
        >(e),
        r.actions@.len() == attempted_count(*outcomes),
        forall|j: int|
            0 <= j < r.actions@.len() ==> action_matches(
                #[trigger] r.actions@[j],
                j,
                *endpoint,
                policy,
                request@,
                response_capacity,
            ),
{
    let mut actions: Vec<SessionAction> = Vec::new();

    actions.push(SessionAction::Connect { host: endpoint.host_address, port: endpoint.port });
    match session_step(SessionPhase::Connect, &(SessionEvent::ConnectDone { ok: outcomes.connect_ok })) {
        Ok(_) => {},
        Err(e) => {
            return ExchangeOutcome { result: Err(e), actions };
        },
    }

    actions.push(SessionAction::Handshake { server_name: endpoint.server_name.clone(), policy });
    match session_step(
        SessionPhase::Handshake,
        &(SessionEvent::HandshakeDone { ok: outcomes.handshake_ok }),
    ) {
        Ok(_) => {},
        Err(e) => {
            return ExchangeOutcome { result: Err(e), actions };
        },
    }

    actions.push(SessionAction::Write { data: slice_to_vec(request) });
    match session_step(SessionPhase::Write, &(SessionEvent::WriteDone { ok: outcomes.write_ok })) {
        Ok(_) => {},
        Err(e) => {
            return ExchangeOutcome { result: Err(e), actions };
        },
    }

    actions.push(SessionAction::Flush);
    match session_step(SessionPhase::Flush, &(SessionEvent::FlushDone { ok: outcomes.flush_ok })) {
        Ok(_) => {},
        Err(e) => {
            return ExchangeOutcome { result: Err(e), actions };
        },
    }

    actions.push(SessionAction::Read { capacity: response_capacity });
    match &outcomes.read {
        Option::None => {
            ExchangeOutcome {
                result: Err(SessionError::Transport(TransportError::ReadFailed)),
                actions,
            }
        },
        Option::Some(data) => {
            let mut buffer = ResponseBuffer::new(response_capacity);
            buffer.receive(data.as_slice());
            match buffer.decode() {
                Ok(text) => ExchangeOutcome { result: Ok(text), actions },
                Err(decode_error) => {
                    ExchangeOutcome {
                        result: Err(SessionError::Decode(decode_error)),
                        actions,
                    }
                },
            }
        },
    }
}

} // verus!
