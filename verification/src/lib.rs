//! A distributed mutual-exclusion and state-replication primitive built on a
//! compare-and-swap-capable object store with one named pointer per ledger.
//!
//! The verified core covers three pieces:
//! - `codec`: the lease codec, which packs a byte payload and a 64-bit lease
//!   identifier into a single-entry tree whose entry name is the hex-encoded
//!   little-endian lease;
//! - `ledger`: the monotonic ledger, whose remote side is modelled as a linear
//!   chain of commits advanced only by compare-and-swap pushes;
//! - `lease`: the leased exclusive-lock protocol layered on the ledger —
//!   acquisition polling, renewal, theft after timeout, and release.

pub mod codec;
pub mod ledger;
pub mod lease;
