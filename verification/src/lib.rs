//! Observation of a peer-to-peer chain network.
//!
//! Two things are measured that no single node's state shows. The chain
//! tracker in [`chain`] follows the tip that a node announces and notices
//! when the chain switches to a competing branch; the search in [`ancestor`]
//! then finds the header at which the two branches part. The probe in
//! [`probe`] watches which peer relays which block or transaction, and
//! reports when the share of peers that have relayed a message passes a
//! percentile and when a peer relays a block late.
//!
//! Nothing here reads a clock, a socket or a file. Callers hand in what they
//! observed and send on what comes back.

pub mod ancestor;
pub mod cache;
pub mod chain;
pub mod hash;
pub mod peers;
pub mod probe;
pub mod propagation;
pub mod store;
pub mod table;
pub mod text;
pub mod wire;
