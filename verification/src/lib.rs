//! Client library for a remote telemetry backend.
//!
//! The crate models the JSON data that the backend exchanges, builds the
//! outgoing HTTP requests, and decodes raw responses into typed values or
//! typed errors.  Sending a request over the network is left to the caller.

pub mod json;
pub mod api;
