//! A verified client library for a webcomic metadata service.
//!
//! The library covers the computational core of the client: resolving the
//! resource URL for a request target, decoding a response body into a typed
//! record, mapping that record to a display entity, rendering the entity as
//! plain text or as a JSON document, and the fail-fast stage policy of the
//! whole pipeline. Network and file I/O live outside the library.

pub mod decode;
pub mod error;
pub mod model;
pub mod pipeline;
pub mod render;
pub mod resolve;
pub mod text;
