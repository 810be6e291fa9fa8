//! Request-ingestion core of a small inference front end.
//!
//! The heart of the library is a three-stage pipeline for the binary-payload
//! endpoint: decompress a snappy-compressed body, validate it as UTF-8 text,
//! parse the text as JSON, and wrap the outcome in a uniform response
//! envelope.  Each stage has its own typed failure, and every function that
//! makes a decision carries a contract saying exactly which outcome each
//! input produces.  Configuration, context wiring, the route table and the
//! reranking stub are specified alongside.

pub mod app_context;
pub mod config;
pub mod envelope;
pub mod logging;
pub mod pipeline;
pub mod server;
pub mod text;
