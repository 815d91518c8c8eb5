//! A client library for a realtime event gateway: a REST request builder to
//! resolve the gateway endpoint, an opcode-framed envelope codec, and a
//! heartbeat-driven protocol engine that keeps one connection alive, detects
//! zombied links, and shuts down cooperatively.

pub mod client;
pub mod codec;
pub mod connector;
pub mod engine;
pub mod guild;
pub mod log;
pub mod request;
pub mod shutdown;
pub mod text;
pub mod user;
