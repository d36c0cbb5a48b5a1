//! One reusable transport session, wrapped for a single exchange.
//!
//! A `TransportHandle` owns exactly one easy session of the transport
//! collaborator. It is configured immediately before an exchange and
//! reset before it returns to the pool, so a reused handle never leaks
//! the target of a prior request into the next. The network exchange
//! itself is a blocking operation that unverified driver code performs
//! on the embedded session; this module only configures and resets it.

use vstd::prelude::*;
use crate::error::Error;
use crate::method::HTTPMethod;
use crate::session::{new_session, session_set_url, session_set_verb, session_set_body, session_reset};

verus! {

/// The abstract state of a handle: its pool identity, and the target
/// and verb of the exchange it is currently configured for, if any.
pub struct HandleView {
    pub id: nat,
    pub url: Option<Seq<char>>,
    pub verb: Option<Seq<char>>,
}

/// One reusable transport session plus the bookkeeping this crate
/// needs: a pool identity and the target it is configured for.
pub struct TransportHandle {
    id: usize,
    session: curl::easy::Easy,
    url: Option<String>,
    verb: Option<String>,
}

impl View for TransportHandle {
    type V = HandleView;

    closed spec fn view(&self) -> HandleView {
        HandleView {
            id: self.id as nat,
            url: match self.url {
                Option::Some(u) => Some(u@),
                Option::None => None,
            },
            verb: match self.verb {
                Option::Some(v) => Some(v@),
                Option::None => None,
            },
        }
    }
}

impl TransportHandle {
    /// Creates an empty handle around a fresh session; used by the
    /// pool when it grows.
    pub(crate) fn new(id: usize) -> (r: TransportHandle)
        ensures
            r@.id == id as nat,
            r@.url is None,
            r@.verb is None,
    {
        TransportHandle { id, session: new_session(), url: None, verb: None }
    }

    /// The handle's pool identity.
    pub fn id(&self) -> (r: usize)
        ensures
            r as nat == self@.id,
    {
        self.id
    }

    /// Configures the handle for one exchange. A URL the collaborator
    /// rejects is a caller mistake; any further configuration failure
    /// is internal to the collaborator. A handle that failed to
    /// configure is left unconfigured.
    pub fn configure(&mut self, url: &String, method: &HTTPMethod, body: Option<&Vec<u8>>) -> (r:
        Result<(), Error>)
        requires
            *method != HTTPMethod::Invalid,
        ensures
            final(self)@.id == old(self)@.id,
            r is Ok ==> final(self)@.url == Some(url@),
            r is Ok ==> final(self)@.verb == Some(method.format_spec()),
            r is Err ==> final(self)@.url is None,
            r is Err ==> final(self)@.verb is None,
            r is Err ==> (r == Err::<(), Error>(Error::BadParameter) || r == Err::<(), Error>(
                Error::TransportInternal,
            )),
    {
        self.url = None;
        self.verb = None;
        match session_set_url(&mut self.session, url.as_str()) {
            Result::Err(_) => {
                return Err(Error::BadParameter);
            },
            Result::Ok(_) => {
            },
        }
        let verb = method.format();
        match session_set_verb(&mut self.session, verb.as_str()) {
            Result::Err(_) => {
                return Err(Error::TransportInternal);
            },
            Result::Ok(_) => {
            },
        }
        match body {
            Option::Some(b) => {
                match session_set_body(&mut self.session, b.as_slice()) {
                    Result::Err(_) => {
                        return Err(Error::TransportInternal);
                    },
                    Result::Ok(_) => {
                    },
                }
            },
            Option::None => {
            },
        }
        self.url = Some(url.clone());
        self.verb = Some(verb);
        Ok(())
    }

    /// Resets the handle for reuse: the session returns to its
    /// defaults and the recorded target is cleared.
    pub(crate) fn reset(&mut self)
        ensures
            final(self)@.id == old(self)@.id,
            final(self)@.url is None,
            final(self)@.verb is None,
    {
        session_reset(&mut self.session);
        self.url = None;
        self.verb = None;
    }

    /// Hands the embedded session to unverified driver code, which
    /// performs the blocking network exchange on it.
    #[verifier::external_body]
    pub fn session_mut(&mut self) -> &mut curl::easy::Easy {
        &mut self.session
    }
}

} // verus!
