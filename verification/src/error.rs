use vstd::prelude::*;

verus! {

/// The error taxonomy of the scan engine.
///
/// Configuration problems (`InvalidBaseUrl`, `MissingCredentials`) and an
/// unknown object type surface before any page is fetched; `MalformedResponse`
/// aborts an in-progress scan when a page body cannot be decoded; `FetchFailed`
/// is reserved for the transport layer around the library to report an
/// unrecoverable HTTP failure in the same vocabulary.
#[derive(Clone, Copy, Debug, PartialEq, Eq, Structural)]
pub enum FdwError {
    UnknownObject,
    MissingCredentials,
    InvalidBaseUrl,
    MalformedResponse,
    FetchFailed,
}

} // verus!
