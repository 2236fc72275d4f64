//! Core logic of a sideloading assistant: a single authenticated session
//! slot, an out-of-band challenge-code handshake, team resolution with
//! expiry detection, a TTL cache for slow-changing remote lists, a staged
//! workflow tracker with per-stage progress events, and best-effort bulk
//! cleanup accounting.
//!
//! All network, storage and UI work stays outside this crate; the library
//! takes the outcomes of such calls as plain values and decides what
//! happens next.

pub mod cache;
pub mod certs;
pub mod challenge;
pub mod cleanup;
pub mod operation;
pub mod resolver;
pub mod session;
pub mod sideload;
pub mod text;
