use vstd::prelude::*;

verus! {

/// Why a recognition call failed.
#[derive(Clone, Debug, PartialEq, Eq)]
pub enum OcrError {
    /// The requested backend does not exist on this platform.
    UnsupportedPlatform,
    /// The backend exists but could not be used (for the remote service:
    /// it was given no endpoint).
    BackendUnavailable,
    /// The backend did not answer before the configured deadline.
    Timeout,
    /// The remote service could not be reached or refused the request.
    NetworkError(String),
    /// The image could not be decoded or has no pixels.
    InvalidImage(String),
    /// The backend's answer could not be read.
    SerializationError(String),
}

} // verus!
