//! The failures a request can end in.

use vstd::prelude::*;

verus! {

/// Why a request could not be served.
#[derive(Clone, Copy, Debug, PartialEq, Eq, Structural)]
pub enum ProxyError {
    /// No origin record answers to the key, or the key names no role of it.
    NotFound,
    /// The metadata store could not be queried.
    StoreUnavailable,
    /// The origin could not be reached, or the body stream broke off.
    OriginUnreachable,
    /// The origin answered with a status outside 2xx.
    UpstreamNon2xx,
    /// The origin's content type disagrees with the stored one.
    ContentTypeMismatch,
    /// The transcoder failed or produced no output.
    TranscodeFailed,
    /// The artifact could not be stored in the cache directory.
    CacheWriteFailed,
}

/// Whether an error is reported as a gateway failure (resolution and fetch)
/// rather than as a local server failure.
pub open spec fn gateway_class(e: ProxyError) -> bool {
    match e {
        ProxyError::NotFound | ProxyError::StoreUnavailable | ProxyError::OriginUnreachable
        | ProxyError::UpstreamNon2xx | ProxyError::ContentTypeMismatch => true,
        ProxyError::TranscodeFailed | ProxyError::CacheWriteFailed => false,
    }
}

impl ProxyError {
    /// Whether the error is reported as a gateway failure.
    pub fn is_gateway_class(&self) -> (r: bool)
        ensures
            r == gateway_class(*self),
    {
        match self {
            ProxyError::NotFound | ProxyError::StoreUnavailable | ProxyError::OriginUnreachable
            | ProxyError::UpstreamNon2xx | ProxyError::ContentTypeMismatch => true,
            ProxyError::TranscodeFailed | ProxyError::CacheWriteFailed => false,
        }
    }

    /// The HTTP status that reports the error: 502 for gateway failures, 500 otherwise.
    pub fn status_code(&self) -> (r: u16)
        ensures
            gateway_class(*self) ==> r == 502,
            !gateway_class(*self) ==> r == 500,
    {
        if self.is_gateway_class() {
            502
        } else {
            500
        }
    }
}

} // verus!
