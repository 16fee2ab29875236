//! Client-side engine for a remote text-to-speech service.
//!
//! The crate verifies the pure core of the client: decoding of the
//! service's polymorphic error envelope, construction of an immutable
//! client configuration with case-insensitive headers, assembly and
//! classification of dispatched requests, and the relay of streamed
//! response bodies to a sink or through a pull-style reader.

pub mod config;
pub mod error;
pub mod headers;
pub mod job;
pub mod json;
pub mod relay;
pub mod request;
pub mod stream;
pub mod tts;
pub mod voice;
