//! Trusted view of the HTTP client's failure type.
//!
//! The HTTP call itself is made outside this crate; what reaches the library
//! is the failure value, which is opaque to Verus. Its diagnostic rendering
//! is given a name so that the error classification can state exactly what it
//! sanitizes.

use vstd::prelude::*;

verus! {

/// `ureq::Error` declared for Verus; values of it are opaque.
#[verifier::external_type_specification]
#[verifier::external_body]
pub struct ExUreqError(ureq::Error);

/// The characters of the diagnostic rendering of a failed HTTP call. The
/// rendering is a function of the failure value alone.
pub uninterp spec fn transport_error_text(error: ureq::Error) -> Seq<char>;

/// Relies on the `Debug` rendering of `ureq::Error`: a pure description of
/// the failure value (status, status text and URL of a response, or the kind,
/// message and URL of a transport failure).
#[verifier::external_body]
pub(crate) fn render_transport_error(error: &ureq::Error) -> (r: String)
    ensures
        r@ == transport_error_text(*error),
{
    format!("{error:?}")
}

} // verus!
