//! The Technitium backend API: its typed record and zone model, and the
//! session client that prepares and classifies its calls.

pub mod client;
pub mod models;
