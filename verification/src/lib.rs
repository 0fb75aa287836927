//! Typed client for a Unity-Catalog-style metadata REST service.
//!
//! The crate is split into a transport layer, which plans HTTP requests and
//! classifies HTTP responses, and resource clients for catalogs, schemas and
//! tables built on top of it.  Network I/O itself is left to the embedding
//! application: every decision the client makes — which URL to call, which
//! body to send, how to read a status code — is a verified function over
//! plain values.

pub mod clients;
pub mod codec;
pub mod errors;
pub mod model;
pub mod oss;
pub mod request;
pub mod resource;
