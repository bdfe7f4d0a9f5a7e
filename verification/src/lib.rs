//! Verified core of a wireless bring-up and single-exchange client.
//!
//! The library models the three phases that carry the control-flow
//! complexity of bringing a constrained device from "radio off" to one
//! completed encrypted request/response exchange:
//!
//! - bounded-retry wireless association ([`association`]),
//! - timeout-bounded address acquisition ([`link`]),
//! - the single-shot secure session protocol ([`session`]).
//!
//! Every decision these phases make is a verified function from plain
//! state and event values to the next state and action.  The radio, the
//! network stack and the TLS transport themselves live outside the
//! library: an embedding performs each suspension point (association
//! request, delay, poll, connect, handshake, write, flush, read) and
//! hands the outcome back as a plain value.

pub mod association;
pub mod errors;
pub mod link;
pub mod random;
pub mod response;
pub mod session;
