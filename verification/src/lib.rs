//! Ingestion pipeline for framed columnar-stream messages.
//!
//! The library collects a sequence of framed messages (header and body byte
//! sequences), classifies each body's framing for diagnostics, decodes each
//! non-empty body as a self-describing columnar stream, checks the decoded
//! schema against a fixed expected contract, and aggregates message, byte,
//! batch and row counts into a result that can be serialized as an
//! acknowledgment payload.

pub mod ack;
pub mod decoder;
pub mod laws;
pub mod processor;
pub mod schema;
pub mod sniffer;
pub mod validator;
