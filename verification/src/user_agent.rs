//! The public façade: a connection-pooled user agent.
//!
//! A `UserAgent` owns a base URL and a handle pool. One logical
//! dispatch is the sequence begin (validate, acquire, configure) →
//! exchange (performed by driver code outside this crate, on the
//! handle's session) → finish (classify the raw outcome, release the
//! handle). The handle is released whether the exchange succeeded or
//! failed, so no outcome leaks a pool slot.

use vstd::prelude::*;
use vstd::string::StringExecFns;
use crate::error::Error;
use crate::method::HTTPMethod;
use crate::pool::{AcquireOutcome, HandlePool, ReleaseOutcome};
use crate::status::HTTPStatusCode;
use crate::transport::TransportHandle;

verus! {

/// How a dispatch began: with a handle configured for the exchange,
/// or with the caller queued until one is released.
pub enum DispatchStart {
    Started(TransportHandle),
    MustWait,
}

/// The connection-pooled user agent.
pub struct UserAgent {
    base_url: String,
    pool: HandlePool,
    closed: bool,
}

/// What one raw transport outcome means for the caller: no status at
/// all is a transport failure; a status accompanied by a transport
/// error is an internal collaborator failure; otherwise the 2xx/3xx
/// range is success carrying the body, codes outside every known
/// bucket are unusual, and every other status is an ordinary HTTP
/// failure carrying its code.
pub open spec fn outcome_spec(status: Option<i32>, transport_error: Option<u32>, body: Seq<u8>) -> Result<
    Seq<u8>,
    Error,
> {
    match status {
        Option::None => Err(Error::TransportNoResponse),
        Option::Some(c) => if transport_error is Some {
            Err(Error::TransportInternal)
        } else if HTTPStatusCode::classify_spec(Some(c)).is_success() {
            Ok(body)
        } else if HTTPStatusCode::classify_spec(Some(c)).is_unusual() {
            Err(Error::UnusualHttpCode(c))
        } else {
            Err(Error::HttpCode(c))
        },
    }
}

/// Maps one raw transport outcome to the caller's result, exactly as
/// `outcome_spec` says, for every status and every transport error.
pub fn classify_outcome(status: Option<i32>, transport_error: Option<u32>, body: Vec<u8>) -> (r:
    Result<Vec<u8>, Error>)
    ensures
        outcome_spec(status, transport_error, body@) matches Ok(b) ==> (r matches Ok(v) && v@
            == b),
        outcome_spec(status, transport_error, body@) matches Err(e) ==> r == Err::<Vec<u8>, Error>(
            e,
        ),
{
    match status {
        Option::None => Err(Error::TransportNoResponse),
        Option::Some(c) => {
            if transport_error.is_some() {
                Err(Error::TransportInternal)
            } else {
                let classified = HTTPStatusCode::classify(Some(c));
                if classified.is_success_code() {
                    Ok(body)
                } else if classified.is_unusual_code() {
                    Err(Error::UnusualHttpCode(c))
                } else {
                    Err(Error::HttpCode(c))
                }
            }
        },
    }
}

impl UserAgent {
    /// The base URL every dispatched path is appended to.
    pub closed spec fn base_url_spec(&self) -> Seq<char> {
        self.base_url@
    }

    /// Whether the agent has been shut down.
    pub closed spec fn is_closed(&self) -> bool {
        self.closed
    }

    /// The agent's pool, for stating how dispatching moves handles.
    pub closed spec fn pool(&self) -> HandlePool {
        self.pool
    }

    /// The agent is well-formed whenever its pool is.
    pub open spec fn wf(&self) -> bool {
        self.pool().wf()
    }

    /// A request is dispatchable when the agent is open, the verb is
    /// not the sentinel, and the path is non-empty.
    pub open spec fn valid_request(&self, method: HTTPMethod, path: Seq<char>) -> bool {
        &&& !self.is_closed()
        &&& method != HTTPMethod::Invalid
        &&& path.len() > 0
    }

    /// A fresh agent over an empty pool of the given capacity.
    pub fn new(base_url: String, capacity: usize) -> (r: UserAgent)
        ensures
            r.wf(),
            !r.is_closed(),
            r.base_url_spec() == base_url@,
            r.pool().idle_ids().len() == 0,
            r.pool().busy_ids().len() == 0,
            r.pool().waiting().len() == 0,
            r.pool().capacity_spec() == capacity as nat,
    {
        UserAgent { base_url, pool: HandlePool::new(capacity), closed: false }
    }

    /// Read access to the pool, for callers that inspect its counts.
    pub fn pool_ref(&self) -> (r: &HandlePool)
        ensures
            *r == self.pool(),
    {
        &self.pool
    }

    /// Begins one dispatch: rejects an invalid request outright
    /// (`BadParameter`, and a closed agent fails fast the same way);
    /// otherwise acquires a handle — or queues the caller — and
    /// configures it with the base URL joined to the path, the verb,
    /// and the body. A handle the collaborator refuses to configure is
    /// released back to the pool before the error returns; nothing is
    /// handed off then, since a queued caller would already have been
    /// granted the handle instead.
    pub fn begin_dispatch(
        &mut self,
        method: &HTTPMethod,
        path: &str,
        body: Option<&Vec<u8>>,
        waiter: u64,
    ) -> (r: Result<DispatchStart, Error>)
        requires
            old(self).wf(),
        ensures
            final(self).wf(),
            final(self).is_closed() == old(self).is_closed(),
            final(self).base_url_spec() == old(self).base_url_spec(),
            final(self).pool().capacity_spec() == old(self).pool().capacity_spec(),
            !old(self).valid_request(*method, path@) ==> r == Err::<DispatchStart, Error>(
                Error::BadParameter,
            ) && final(self).pool() == old(self).pool(),
            old(self).valid_request(*method, path@) && old(self).pool().idle_ids().len() == 0 && old(self).pool().total() == old(self).pool().capacity_spec() ==> r == Ok::<
                DispatchStart,
                Error,
            >(DispatchStart::MustWait) && final(self).pool().waiting() == old(self).pool().waiting().push(waiter) && final(self).pool().idle_ids() == old(self).pool().idle_ids() && final(self).pool().busy_ids() == old(self).pool().busy_ids(),
            old(self).valid_request(*method, path@) && (old(self).pool().idle_ids().len() > 0 || old(self).pool().total() < old(self).pool().capacity_spec()) ==> (r matches Ok(
                DispatchStart::Started(h),
            ) ==> !old(self).pool().busy_ids().contains(h@.id) && final(self).pool().busy_ids()
                == old(self).pool().busy_ids().push(h@.id) && final(self).pool().waiting() == old(self).pool().waiting() && h@.url == Some(old(self).base_url_spec() + path@) && h@.verb
                == Some(method.format_spec())),
            old(self).valid_request(*method, path@) && (old(self).pool().idle_ids().len() > 0 || old(self).pool().total() < old(self).pool().capacity_spec()) ==> r != Ok::<
                DispatchStart,
                Error,
            >(DispatchStart::MustWait),
            old(self).valid_request(*method, path@) && old(self).pool().idle_ids().len() > 0 ==> (
            r matches Ok(DispatchStart::Started(h)) ==> h@.id == old(self).pool().idle_ids().last()
                && final(self).pool().idle_ids() == old(self).pool().idle_ids().drop_last()
                && final(self).pool().total() == old(self).pool().total()),
            old(self).valid_request(*method, path@) && old(self).pool().idle_ids().len() == 0 && old(self).pool().total() < old(self).pool().capacity_spec() ==> (r matches Ok(
                DispatchStart::Started(h),
            ) ==> h@.id == old(self).pool().total() && final(self).pool().idle_ids().len() == 0
                && final(self).pool().total() == old(self).pool().total() + 1),
            old(self).valid_request(*method, path@) ==> (r matches Err(e) ==> (e
                == Error::BadParameter || e == Error::TransportInternal) && final(self).pool().waiting() == old(self).pool().waiting() && final(self).pool().busy_ids().len()
                == old(self).pool().busy_ids().len()),
    {
        if self.closed || path.is_empty() {
            return Err(Error::BadParameter);
        }
        let is_invalid = match method {
            HTTPMethod::Invalid => true,
            _ => false,
        };
        if is_invalid {
            return Err(Error::BadParameter);
        }
        match self.pool.acquire(waiter) {
            AcquireOutcome::MustWait => Ok(DispatchStart::MustWait),
            AcquireOutcome::Granted(mut h) => {
                let target = self.base_url.clone().concat(path);
                match h.configure(&target, method, body) {
                    Ok(_) => Ok(DispatchStart::Started(h)),
                    Err(e) => {
                        proof {
                            let ids = self.pool().busy_ids();
                            assert(ids[ids.len() - 1] == h@.id);
                            assert(ids.contains(h@.id));
                        }
                        let rel = self.pool.release(h);
                        proof {
                            assert(rel is Idled);
                        }
                        Err(e)
                    },
                }
            },
        }
    }

    /// Finishes one dispatch: classifies the raw outcome of the
    /// exchange into the caller's result and releases the handle —
    /// success or failure, the handle always returns to the pool or
    /// goes straight to the first queued caller.
    pub fn finish_dispatch(
        &mut self,
        handle: TransportHandle,
        status: Option<i32>,
        body: Vec<u8>,
        transport_error: Option<u32>,
    ) -> (r: (Result<Vec<u8>, Error>, ReleaseOutcome))
        requires
            old(self).wf(),
            old(self).pool().busy_ids().contains(handle@.id),
        ensures
            final(self).wf(),
            final(self).is_closed() == old(self).is_closed(),
            final(self).base_url_spec() == old(self).base_url_spec(),
            final(self).pool().capacity_spec() == old(self).pool().capacity_spec(),
            outcome_spec(status, transport_error, body@) matches Ok(b) ==> (r.0 matches Ok(v) && v@
                == b),
            outcome_spec(status, transport_error, body@) matches Err(e) ==> r.0 == Err::<
                Vec<u8>,
                Error,
            >(e),
            old(self).pool().waiting().len() > 0 ==> (r.1 matches ReleaseOutcome::HandedOff(w, h)
                && w == old(self).pool().waiting()[0] && h@.id == handle@.id && h@.url is None
                && h@.verb is None && final(self).pool().waiting() == old(self).pool().waiting().drop_first() && final(self).pool().busy_ids() == old(self).pool().busy_ids()),
            old(self).pool().waiting().len() == 0 ==> (r.1 is Idled && final(self).pool().waiting()
                == old(self).pool().waiting() && final(self).pool().idle_ids() == old(self).pool().idle_ids().push(handle@.id) && final(self).pool().busy_ids().len() + 1 == old(self).pool().busy_ids().len()),
    {
        let result = classify_outcome(status, transport_error, body);
        let rel = self.pool.release(handle);
        (result, rel)
    }

    /// Releases a handle whose dispatch never reached an exchange.
    pub fn release_handle(&mut self, handle: TransportHandle) -> (r: ReleaseOutcome)
        requires
            old(self).wf(),
            old(self).pool().busy_ids().contains(handle@.id),
        ensures
            final(self).wf(),
            final(self).is_closed() == old(self).is_closed(),
            final(self).base_url_spec() == old(self).base_url_spec(),
            final(self).pool().capacity_spec() == old(self).pool().capacity_spec(),
            old(self).pool().waiting().len() > 0 ==> (r matches ReleaseOutcome::HandedOff(w, h)
                && w == old(self).pool().waiting()[0] && h@.id == handle@.id && h@.url is None
                && h@.verb is None && final(self).pool().waiting() == old(self).pool().waiting().drop_first() && final(self).pool().busy_ids() == old(self).pool().busy_ids()),
            old(self).pool().waiting().len() == 0 ==> (r is Idled && final(self).pool().waiting()
                == old(self).pool().waiting() && final(self).pool().idle_ids() == old(self).pool().idle_ids().push(handle@.id) && final(self).pool().busy_ids().len() + 1 == old(self).pool().busy_ids().len()),
    {
        self.pool.release(handle)
    }

    /// Abandons a queued caller's wait for a handle; no handle is
    /// lost, and later waiters keep their order.
    pub fn cancel_wait(&mut self, waiter: u64) -> (r: bool)
        requires
            old(self).wf(),
        ensures
            final(self).wf(),
            final(self).is_closed() == old(self).is_closed(),
            final(self).base_url_spec() == old(self).base_url_spec(),
            final(self).pool().capacity_spec() == old(self).pool().capacity_spec(),
            final(self).pool().idle_ids() == old(self).pool().idle_ids(),
            final(self).pool().busy_ids() == old(self).pool().busy_ids(),
            r == old(self).pool().waiting().contains(waiter),
            old(self).pool().waiting().index_of_first(waiter) matches Some(k) ==> final(self).pool().waiting() == old(self).pool().waiting().remove(k),
            !old(self).pool().waiting().contains(waiter) ==> final(self).pool().waiting() == old(self).pool().waiting(),
    {
        self.pool.cancel_wait(waiter)
    }

    /// Shuts the agent down once every in-flight dispatch has
    /// finished: every pooled session is released back to the
    /// collaborator, and from now on dispatching fails fast with
    /// `BadParameter` instead of attempting an exchange.
    pub fn close(&mut self)
        requires
            old(self).wf(),
            old(self).pool().busy_ids().len() == 0,
        ensures
            final(self).wf(),
            final(self).is_closed(),
            final(self).base_url_spec() == old(self).base_url_spec(),
            final(self).pool().capacity_spec() == old(self).pool().capacity_spec(),
            final(self).pool().idle_ids().len() == 0,
            final(self).pool().busy_ids().len() == 0,
            final(self).pool().waiting().len() == 0,
    {
        self.pool.drain();
        self.closed = true;
    }
}

} // verus!
