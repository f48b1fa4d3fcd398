use vstd::prelude::*;

verus! {

/// Why a provider operation failed. Every failure of a remote call surfaces
/// as one of these; none is retried or swallowed inside the reconciler.
#[derive(Debug)]
pub enum ProviderError {
    /// The request could not be sent or no response was received.
    TransportError,
    /// The provider answered with a non-success status; carries the status
    /// and the provider's error body where one was available.
    ProviderRejected { status: u16, body: String },
    /// A success response body did not have the expected shape.
    DecodeError,
}

impl ProviderError {
    /// True when the failure means the request never got a response, the
    /// only kind a caller might blindly retry.
    pub fn is_transport(&self) -> (b: bool)
        ensures
            b == (*self is TransportError),
    {
        match self {
            ProviderError::TransportError => true,
            _ => false,
        }
    }
}

} // verus!
