//! Administrative control plane of a directory service.
//!
//! The library decides, per mutation command, whether the authenticated
//! caller may act (capability checks and protected-invariant rules),
//! validates and transforms the input, and sequences the calls against an
//! abstract storage backend.  It also contains the idempotent bootstrap
//! logic that brings the directory to a consistent baseline state on every
//! process start.

pub mod avatar;
pub mod backend;
pub mod bootstrap;
pub mod errors;
pub mod model;
pub mod mutation;
pub mod types;
