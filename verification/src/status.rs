//! HTTP status codes, as far as a fetch looks at them.

use vstd::prelude::*;

verus! {

/// The success class of HTTP: the codes from 200 to 299.
pub open spec fn spec_is_success(code: u16) -> bool {
    200 <= code <= 299
}

/// Tells whether a response with this status code counts as a success.
/// Every other code, the informational and redirection classes included,
/// fails the fetch.
#[verifier::when_used_as_spec(spec_is_success)]
pub fn is_success(code: u16) -> (ok: bool)
    ensures
        ok == spec_is_success(code),
{
    200 <= code && code <= 299
}

} // verus!
