//! Peer discovery and liveness tracking for nodes on one broadcast domain.
//!
//! Nodes announce themselves with periodic beacons; each node keeps a peer
//! registry whose liveness state machine tolerates duplicate and
//! out-of-order messages, and a tie-break on identifiers decides which side
//! of a pair opens the secure connection.
pub mod net;
pub mod peers;
pub mod ident;
pub mod ping;
pub mod quic;
pub mod actor;
pub mod cert;
pub mod codec;
