//! Reconciling the content type an origin reports with the stored one.

use vstd::prelude::*;
use crate::error::ProxyError;
use crate::text::str_eq;

verus! {

/// Whether an origin reporting `observed` (or no content type at all) may
/// deliver an asset stored as `declared`: the two must be equal, except that
/// `image/png` is transport for `image/apng`.
pub open spec fn type_accepted(declared: Seq<char>, observed: Option<Seq<char>>) -> bool {
    match observed {
        None => true,
        Some(o) => o == declared || (o == "image/png"@ && declared == "image/apng"@),
    }
}

/// The view of an optional string.
pub open spec fn opt_view(s: Option<&str>) -> Option<Seq<char>> {
    match s {
        Some(t) => Some(t@),
        None => None,
    }
}

/// Checks the origin's content type against the stored one.
pub fn check_content_type(declared: &str, observed: Option<&str>) -> (r: Result<(), ProxyError>)
    ensures
        r is Ok <==> type_accepted(declared@, opt_view(observed)),
        r is Err ==> r == Err::<(), ProxyError>(ProxyError::ContentTypeMismatch),
{
    match observed {
        None => Ok(()),
        Some(o) => {
            if str_eq(o, declared) {
                Ok(())
            } else if str_eq(o, "image/png") && str_eq(declared, "image/apng") {
                Ok(())
            } else {
                Err(ProxyError::ContentTypeMismatch)
            }
        },
    }
}

} // verus!
