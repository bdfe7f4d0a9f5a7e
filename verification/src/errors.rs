//! The error taxonomy of the bring-up and the secure session.
//!
//! Bring-up errors ([`AssociationError`], [`LinkError`]) are fatal to the
//! whole run.  Session errors ([`TransportError`], [`TlsError`],
//! [`DecodeError`]) abort the single exchange; the session performs no
//! retries of its own.

use vstd::prelude::*;

verus! {

/// Failure of the bounded-retry wireless association.
#[derive(Clone, Copy, PartialEq, Eq, Structural, Debug)]
pub enum AssociationError {
    /// Every configured attempt failed.
    Exhausted,
}

/// Failure of the address-acquisition wait.
#[derive(Clone, Copy, PartialEq, Eq, Structural, Debug)]
pub enum LinkError {
    /// No address appeared within the configured total timeout.
    Timeout,
}

/// Failure of the raw transport connection.
#[derive(Clone, Copy, PartialEq, Eq, Structural, Debug)]
pub enum TransportError {
    ConnectFailed,
    WriteFailed,
    FlushFailed,
    ReadFailed,
}

/// Failure of the cryptographic negotiation on top of the transport.
#[derive(Clone, Copy, PartialEq, Eq, Structural, Debug)]
pub enum TlsError {
    HandshakeFailed,
}

/// Failure to interpret the response bytes as text.
#[derive(Clone, Copy, PartialEq, Eq, Structural, Debug)]
pub enum DecodeError {
    /// The response bytes are not a valid text encoding.
    InvalidText,
}

/// Any way the single request/response exchange can abort.
#[derive(Clone, Copy, PartialEq, Eq, Structural, Debug)]
pub enum SessionError {
    Transport(TransportError),
    Tls(TlsError),
    Decode(DecodeError),
}

impl AssociationError {
    /// A short description for the log sink.
    pub fn describe(&self) -> (r: &'static str)
        ensures
            r@ == "association attempts exhausted"@,
    {
        "association attempts exhausted"
    }
}

impl LinkError {
    /// A short description for the log sink.
    pub fn describe(&self) -> (r: &'static str)
        ensures
            r@ == "no address within the total timeout"@,
    {
        "no address within the total timeout"
    }
}

impl SessionError {
    /// A short description of the failing phase for the log sink.
    pub fn describe(&self) -> (r: &'static str)
        ensures
            *self == SessionError::Transport(TransportError::ConnectFailed) ==> r@ == "transport connect failed"@,
            *self == SessionError::Transport(TransportError::WriteFailed) ==> r@ == "transport write failed"@,
            *self == SessionError::Transport(TransportError::FlushFailed) ==> r@ == "transport flush failed"@,
            *self == SessionError::Transport(TransportError::ReadFailed) ==> r@ == "transport read failed"@,
            *self == SessionError::Tls(TlsError::HandshakeFailed) ==> r@ == "handshake failed"@,
            *self == SessionError::Decode(DecodeError::InvalidText) ==> r@ == "response is not valid text"@,
    {
        match self {
            SessionError::Transport(TransportError::ConnectFailed) => "transport connect failed",
            SessionError::Transport(TransportError::WriteFailed) => "transport write failed",
            SessionError::Transport(TransportError::FlushFailed) => "transport flush failed",
            SessionError::Transport(TransportError::ReadFailed) => "transport read failed",
            SessionError::Tls(TlsError::HandshakeFailed) => "handshake failed",
            SessionError::Decode(DecodeError::InvalidText) => "response is not valid text",
        }
    }
}

} // verus!
