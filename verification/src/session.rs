//! Trusted declarations for the transport collaborator's easy API.
//!
//! Everything here is believed, not verified: each item names the
//! curl function it relies on. Only session configuration and reset
//! stand here; the blocking network exchange itself is performed by
//! unverified driver code outside this crate.

use vstd::prelude::*;

verus! {

/// Declares the transport collaborator's easy-session type so a
/// handle can own one; its inside stays opaque here.
#[verifier::external_type_specification]
#[verifier::external_body]
pub struct ExEasy(curl::easy::Easy);

/// Relies on curl::easy::Easy::new: allocates a fresh easy session
/// (and performs the collaborator's process-wide setup on first use).
#[verifier::external_body]
pub(crate) fn new_session() -> curl::easy::Easy {
    curl::easy::Easy::new()
}

/// Relies on curl::easy::Easy::url: stores the target URL on the
/// session, failing only when the collaborator rejects the string.
#[verifier::external_body]
pub(crate) fn session_set_url(s: &mut curl::easy::Easy, url: &str) -> Result<(), ()> {
    s.url(url).map_err(|_| ())
}

/// Relies on curl::easy::Easy::custom_request: stores the verb to use
/// on the session.
#[verifier::external_body]
pub(crate) fn session_set_verb(s: &mut curl::easy::Easy, verb: &str) -> Result<(), ()> {
    s.custom_request(verb).map_err(|_| ())
}

/// Relies on curl::easy::Easy::post_fields_copy: copies the request
/// body onto the session.
#[verifier::external_body]
pub(crate) fn session_set_body(s: &mut curl::easy::Easy, body: &[u8]) -> Result<(), ()> {
    s.post_fields_copy(body).map_err(|_| ())
}

/// Relies on curl::init: performs libcurl's process-wide setup; the
/// collaborator keeps it safe to reach more than once, so the
/// stricter one-shot rule is enforced by this crate's guard.
#[verifier::external_body]
pub(crate) fn transport_global_init() {
    curl::init()
}

/// Relies on curl::easy::Easy::reset: returns the session's options
/// to their defaults, clearing URL, verb and body.
#[verifier::external_body]
pub(crate) fn session_reset(s: &mut curl::easy::Easy) {
    s.reset()
}

} // verus!
