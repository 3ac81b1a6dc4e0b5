//! A small provisioning library for a cloud compute provider's REST API.
//!
//! The heart of the library is the long-running-operation (LRO) lifecycle:
//! a mutating request yields an `Operation` handle; its scope (zonal,
//! regional or global) is resolved from its canonical self-link; a wait URL
//! is composed from that scope; and a poller state machine drives the
//! operation to its terminal status under a deadline with bounded backoff.
//! An orchestrator state machine sequences network and instance creation
//! and teardown over those pieces.

pub mod errors;
pub mod instance;
pub mod operation;
pub mod orchestrator;
pub mod poller;
pub mod scope;
pub mod strutil;
pub mod vpc;

pub use errors::LroError;
