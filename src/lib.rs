//! Offer/answer negotiation of a peer-to-peer media session over a
//! signaling channel: the wire data model, session identifiers, and the
//! verified coordinator that sequences the handshake.

pub mod signals;
pub mod session_ids;
pub mod coordinator;
pub mod laws;
