//! SnapPipe: the verified core of a ticket-gated QUIC relay.

pub mod bytes;
pub mod counter;
pub mod keys;
pub mod net;
pub mod node;
pub mod quic;
pub mod rate_limit;
pub mod relay;
pub mod session;
pub mod ticket;
pub mod trust;
