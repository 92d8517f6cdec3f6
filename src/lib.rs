//! Peer-to-peer netplay transport: the wire codecs, framing, the
//! data-channel send state machine and the offer/answer negotiation.
pub mod channel;
pub mod framing;
pub mod hooks;
pub mod ipc;
pub mod negotiation;
pub mod protocol;
pub mod shadow;
pub mod signaling;
pub mod wire;
