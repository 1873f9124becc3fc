//! Bootstrap and live-synchronization layer for a policy-enforcement agent.
//!
//! The crate models the handshake against a remote authorization authority
//! ("Lock Master"): service discovery, OAuth dynamic client registration,
//! client-credentials token acquisition and policy-bundle retrieval, plus a
//! live-sync state machine and a revocation status cache.  All protocol
//! decisions are verified; the network itself is driven by the host, which
//! feeds each response back into the bootstrap state machine.

pub mod errors;
pub mod json;
pub mod documents;
pub mod codec;
pub mod credential;
pub mod cache;
pub mod bootstrap;
pub mod sync;
