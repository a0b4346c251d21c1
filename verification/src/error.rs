//! The failures that a session reports.

use vstd::prelude::*;

verus! {

/// Why an operation of the session failed. The session recovers from none of
/// these and retries nothing: each one reaches the caller as it was reported.
#[derive(Debug)]
pub enum ChromaError {
    /// The server refused a name or the shape of the metadata.
    Validation(String),
    /// The collection exists already and the caller asked to create it anew.
    Conflict(String),
    /// No collection of that name exists.
    NotFound(String),
    /// The index configuration could not be put into its wire form.
    Configuration(String),
    /// The network, the authentication or a timeout failed.
    Transport(String),
    /// The response did not have the expected shape.
    Decode(String),
}

} // verus!
