//! Orchestration of a threshold-account ceremony: distributed key generation
//! in two rounds, followed by threshold signing (commit, partial sign,
//! aggregate, submit) over a single pinned message per session.
//!
//! The elliptic-curve primitives that produce contributions, partial
//! signatures and the aggregate signature are external collaborators: each
//! round here validates its inputs, assembles the exact request such a
//! primitive needs, and records the artifacts the primitive hands back.
pub mod artifacts;
pub mod callvalue;
pub mod commands;
pub mod dkg;
pub mod errors;
pub mod hexcodec;
pub mod signing;
pub mod store;
