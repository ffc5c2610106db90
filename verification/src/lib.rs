//! A typed client library for a transactional-email provider's HTTP API.
//!
//! The library builds authenticated JSON requests for sending templated
//! email and for creating, reading and updating email templates, and it
//! classifies HTTP responses into typed success values or a structured
//! error taxonomy.  The HTTP transport itself is a collaborator of the
//! caller: every operation is split into a verified request builder and a
//! verified response classifier, and the caller performs the exchange in
//! between.

pub mod config;
pub mod endpoints;
pub mod errors;
pub mod client;
pub mod codec;
pub mod json;
pub mod laws;
pub mod models;
