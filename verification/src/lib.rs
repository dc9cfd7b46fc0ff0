//! A generic resource-synchronization client for collection-oriented
//! remote services: list a collection, fetch one resource by id,
//! create-or-replace (upsert) by presence check, and commit pending
//! changes with an apply call.
//!
//! The library itself performs no I/O. Each operation is split into a
//! request builder, which says exactly which request to send, and a
//! response interpreter, which classifies the transport's answer. A thin
//! driver owns the HTTP client and shuttles values between the two.

pub mod client;
pub mod codec;
pub mod errors;
pub mod http;
pub mod laws;
pub mod resource;
