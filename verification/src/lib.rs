//! Webhook adapter that lets an ExternalDNS-style reconciler manage records
//! on a Technitium DNS server through its REST API.
//!
//! This crate holds the verified core: the record model, the codec between
//! the webhook record model and the backend's typed records, the
//! form-urlencoded request builders, the response-envelope classification,
//! the change applier, and the session / zone-bootstrap state machines.
//! Network transport and JSON (de)serialization live outside the crate.

pub mod app;
pub mod applier;
pub mod bootstrap;
pub mod codec;
pub mod config;
pub mod encoding;
pub mod handlers;
pub mod models;
pub mod session;
pub mod technitium;

use vstd::prelude::*;

verus! {

/// Seconds every outbound backend request is allowed to take.
pub const HTTP_TIMEOUT_SECS: u64 = 10;

} // verus!
