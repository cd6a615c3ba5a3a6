//! A verified client library for the OpenAI HTTP API.
//!
//! The library decides what is sent and what an answer means; the
//! transport (HTTP, server-sent events, WebSocket) is driven by the caller,
//! which hands each request described here to the network and hands each
//! answer back to the functions that interpret it.
pub mod text;
pub mod http;
pub mod client;
pub mod endpoints;
pub mod stream;
pub mod audio;
pub mod embedding;
pub mod realtime;
