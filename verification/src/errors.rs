use vstd::prelude::*;

verus! {

/// The failure taxonomy of the mirror core.
///
/// `CacheUnavailable` and `MalformedKey` reject a request before any upstream
/// call; the `Upstream*` variants report a failed fetch; `StorageFailure`
/// reports a blob read or write that failed for a reason other than absence.
#[derive(Clone, Copy, Debug, PartialEq, Eq, Structural)]
pub enum CacheError {
    /// The upstream registry could not be reached (transport failure).
    UpstreamUnavailable,
    /// The upstream registry answered that the resource does not exist.
    UpstreamNotFound,
    /// The upstream registry answered, but not with a usable response.
    UpstreamProtocolError,
    /// The metadata store could not be reached.
    CacheUnavailable,
    /// A blob read or write failed (other than the blob being absent).
    StorageFailure,
    /// The requested key fails structural validation.
    MalformedKey,
}

} // verus!
