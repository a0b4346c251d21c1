//! Session core of a client for a Chroma vector-database server.
//!
//! The library decides; it performs no I/O. Each operation of the session is
//! split in two: a method that says which request has to be sent (or that
//! none is needed, because the session's cache already holds the answer), and
//! a method that takes the decoded response and updates the cache. The code
//! that owns the connection sends the request in between.

pub mod json;
pub mod error;
pub mod options;
pub mod target;
pub mod collection;
pub mod cache;
pub mod request;
pub mod client;
pub mod laws;

pub use cache::CollectionCache;
pub use client::{ChromaClient, CreateStep, HeartbeatResponse};
pub use collection::{ChromaCollection, CollectionRecord};
pub use error::ChromaError;
pub use json::JsonObject;
pub use options::{resolve_endpoint, ChromaAuthMethod, ChromaClientOptions, ChromaTokenHeader};
pub use request::{ApiRequest, CreateCollectionBody};
pub use target::ApiTarget;
