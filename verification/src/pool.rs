//! A bounded pool of reusable transport handles.
//!
//! The pool partitions its handles into an idle set (ready for use)
//! and a busy set (held by a caller), grows lazily up to a hard
//! capacity, and queues callers that find it exhausted. A released
//! handle is reset and either handed directly to the caller that has
//! waited longest (first come, first served) or returned to the idle
//! set. `acquire` and `release` are the only mutators of the two sets,
//! and each preserves the pool invariant: the idle and busy counts sum
//! to the number of handles created, which never exceeds capacity, and
//! no handle is ever in both sets, so a granted handle is never one
//! another caller still holds.

use vstd::prelude::*;
use crate::transport::TransportHandle;

verus! {

/// What `acquire` decided: a handle granted to the caller, or an
/// instruction to wait for one (the caller has been queued).
pub enum AcquireOutcome {
    Granted(TransportHandle),
    MustWait,
}

/// What `release` decided: the handle went back to the idle set, or
/// it was handed directly to the queued caller that came first.
pub enum ReleaseOutcome {
    Idled,
    HandedOff(u64, TransportHandle),
}

/// The bounded, partitioned set of transport handles.
pub struct HandlePool {
    idle: Vec<TransportHandle>,
    busy: Vec<usize>,
    capacity: usize,
    waiters: Vec<u64>,
}

impl HandlePool {
    /// The identities of the handles ready for use, youngest grant
    /// candidate last.
    pub closed spec fn idle_ids(&self) -> Seq<nat> {
        self.idle@.map_values(|h: TransportHandle| h@.id)
    }

    /// The identities of the handles currently held by callers.
    pub closed spec fn busy_ids(&self) -> Seq<nat> {
        self.busy@.map_values(|i: usize| i as nat)
    }

    /// The queued callers, first come first.
    pub closed spec fn waiting(&self) -> Seq<u64> {
        self.waiters@
    }

    /// The hard bound on how many handles may exist.
    pub closed spec fn capacity_spec(&self) -> nat {
        self.capacity as nat
    }

    /// How many handles exist: every handle is idle or busy, never
    /// both, never neither.
    pub open spec fn total(&self) -> nat {
        self.idle_ids().len() + self.busy_ids().len()
    }

    /// The pool invariant: idle and busy identities are pairwise
    /// distinct and disjoint, each below the number of handles
    /// created, that number never exceeds capacity, and every idle
    /// handle is reset.
    pub closed spec fn wf(&self) -> bool {
        &&& self.idle@.len() + self.busy@.len() <= self.capacity
        &&& (forall|i: int, j: int|
            0 <= i < j < self.idle@.len() ==> self.idle@[i]@.id != self.idle@[j]@.id)
        &&& (forall|i: int, j: int| 0 <= i < j < self.busy@.len() ==> self.busy@[i] != self.busy@[j])
        &&& (forall|i: int, j: int|
            0 <= i < self.idle@.len() && 0 <= j < self.busy@.len() ==> self.idle@[i]@.id != (
            self.busy@[j] as nat))
        &&& (forall|i: int|
            0 <= i < self.idle@.len() ==> self.idle@[i]@.id < self.idle@.len() + self.busy@.len())
        &&& (forall|i: int|
            0 <= i < self.busy@.len() ==> (self.busy@[i] as nat) < self.idle@.len()
                + self.busy@.len())
        &&& (forall|i: int|
            0 <= i < self.idle@.len() ==> self.idle@[i]@.url is None && self.idle@[i]@.verb
                is None)
        &&& (self.waiters@.len() > 0 ==> self.idle@.len() == 0 && self.busy@.len()
            == self.capacity)
    }

    /// An empty pool with the given hard capacity.
    pub fn new(capacity: usize) -> (r: HandlePool)
        ensures
            r.wf(),
            r.idle_ids().len() == 0,
            r.busy_ids().len() == 0,
            r.waiting().len() == 0,
            r.capacity_spec() == capacity as nat,
    {
        HandlePool { idle: Vec::new(), busy: Vec::new(), capacity, waiters: Vec::new() }
    }

    /// How many handles are ready for use.
    pub fn idle_count(&self) -> (r: usize)
        ensures
            r as nat == self.idle_ids().len(),
    {
        self.idle.len()
    }

    /// How many handles callers currently hold.
    pub fn busy_count(&self) -> (r: usize)
        ensures
            r as nat == self.busy_ids().len(),
    {
        self.busy.len()
    }

    /// How many callers are queued for a handle.
    pub fn waiting_count(&self) -> (r: usize)
        ensures
            r as nat == self.waiting().len(),
    {
        self.waiters.len()
    }

    /// The hard bound on how many handles may exist.
    pub fn capacity(&self) -> (r: usize)
        ensures
            r as nat == self.capacity_spec(),
    {
        self.capacity
    }

    /// Takes a handle for the caller: an idle one if any exists, a
    /// freshly created one while the pool is below capacity, and
    /// otherwise none — the caller is queued behind every earlier
    /// waiter. A granted handle is reset and is never one that
    /// another caller still holds.
    pub fn acquire(&mut self, waiter: u64) -> (r: AcquireOutcome)
        requires
            old(self).wf(),
        ensures
            final(self).wf(),
            final(self).capacity_spec() == old(self).capacity_spec(),
            r matches AcquireOutcome::Granted(h) ==> !old(self).busy_ids().contains(h@.id)
                && h@.url is None && h@.verb is None && final(self).busy_ids() == old(
                self).busy_ids().push(h@.id) && final(self).waiting() == old(self).waiting()
                && old(self).waiting().len() == 0,
            old(self).idle_ids().len() > 0 ==> (r matches AcquireOutcome::Granted(h) && h@.id
                == old(self).idle_ids().last() && final(self).idle_ids() == old(self).idle_ids().drop_last() && final(self).total() == old(self).total()),
            old(self).idle_ids().len() == 0 && old(self).total() < old(self).capacity_spec() ==> (
            r matches AcquireOutcome::Granted(h) && h@.id == old(self).total() && final(self).idle_ids().len() == 0 && final(self).total() == old(self).total() + 1),
            old(self).idle_ids().len() == 0 && old(self).total() == old(self).capacity_spec() ==> (
            r is MustWait && final(self).idle_ids() == old(self).idle_ids() && final(self).busy_ids() == old(self).busy_ids() && final(self).waiting() == old(self).waiting().push(waiter)),
    {
        let ghost pre = *self;
        if self.idle.len() > 0 {
            let h = self.idle.pop().unwrap();
            let hid = h.id();
            self.busy.push(hid);
            proof {
                assert(final(self).idle_ids() =~= pre.idle_ids().drop_last());
                assert(final(self).busy_ids() =~= pre.busy_ids().push(h@.id));
            }
            AcquireOutcome::Granted(h)
        } else if self.busy.len() < self.capacity {
            let fresh: usize = self.busy.len();
            let h = TransportHandle::new(fresh);
            self.busy.push(fresh);
            proof {
                assert(final(self).idle_ids() =~= pre.idle_ids());
                assert(final(self).busy_ids() =~= pre.busy_ids().push(h@.id));
            }
            AcquireOutcome::Granted(h)
        } else {
            self.waiters.push(waiter);
            proof {
                assert(final(self).idle_ids() =~= pre.idle_ids());
                assert(final(self).busy_ids() =~= pre.busy_ids());
            }
            AcquireOutcome::MustWait
        }
    }

    /// Returns a held handle. The handle is reset; if callers are
    /// queued, it is handed directly to the one that came first, who
    /// leaves the queue and now holds it — so waiters are served in
    /// their arrival order and a release never overtakes them.
    /// Otherwise the handle rejoins the idle set.
    pub fn release(&mut self, handle: TransportHandle) -> (r: ReleaseOutcome)
        requires
            old(self).wf(),
            old(self).busy_ids().contains(handle@.id),
        ensures
            final(self).wf(),
            final(self).capacity_spec() == old(self).capacity_spec(),
            old(self).waiting().len() > 0 ==> (r matches ReleaseOutcome::HandedOff(w, h) && w
                == old(self).waiting()[0] && h@.id == handle@.id && h@.url is None && h@.verb
                is None && final(self).waiting() == old(self).waiting().drop_first() && final(self).idle_ids() == old(self).idle_ids() && final(self).busy_ids() == old(self).busy_ids()),
            old(self).waiting().len() == 0 ==> (r is Idled && final(self).waiting() == old(self).waiting() && final(self).idle_ids() == old(self).idle_ids().push(handle@.id) && final(self).busy_ids().len() + 1 == old(self).busy_ids().len() && (forall|x: nat|
                final(self).busy_ids().contains(x) <==> (#[trigger] old(self).busy_ids().contains(
                    x,
                ) && x != handle@.id))),
    {
        let mut h = handle;
        h.reset();
        if self.waiters.len() > 0 {
            let w = self.waiters.remove(0);
            proof {
                assert(final(self).waiting() =~= old(self).waiting().drop_first());
            }
            ReleaseOutcome::HandedOff(w, h)
        } else {
            let ghost pre = *self;
            let hid = h.id();
            let at = self.find_busy(hid);
            self.busy.remove(at);
            self.idle.push(h);
            proof {
                assert(final(self).idle_ids() =~= pre.idle_ids().push(h@.id));
                assert(final(self).busy_ids() =~= pre.busy_ids().remove(at as int));
                assert forall|x: nat|
                    final(self).busy_ids().contains(x) <==> (#[trigger] pre.busy_ids().contains(x)
                        && x != h@.id) by {
                    lemma_remove_distinct_contains(pre.busy_ids(), at as int, x);
                }
            }
            ReleaseOutcome::Idled
        }
    }

    /// The index of a held handle's identity in the busy set.
    fn find_busy(&self, hid: usize) -> (r: usize)
        requires
            self.wf(),
            self.busy_ids().contains(hid as nat),
        ensures
            r < self.busy_ids().len(),
            self.busy_ids()[r as int] == hid as nat,
    {
        let ghost target = choose|k: int|
            0 <= k < self.busy_ids().len() && self.busy_ids()[k] == hid as nat;
        let mut i: usize = 0;
        while i < self.busy.len()
            invariant
                self.busy_ids().contains(hid as nat),
                0 <= i <= self.busy@.len(),
                forall|j: int| 0 <= j < i ==> self.busy@[j] != hid,
            decreases self.busy@.len() - i,
        {
            if self.busy[i] == hid {
                return i;
            }
            i = i + 1;
        }
        proof {
            assert(0 <= target < self.busy@.len() && self.busy@[target] == hid);
            assert(false);
        }
        unreached()
    }

    /// Abandons a caller's wait. The caller's earliest queue entry is
    /// withdrawn, later waiters move up, and no handle is lost: the
    /// idle and busy sets are untouched, so a handle released later
    /// goes to the next waiter or back to the idle set.
    pub fn cancel_wait(&mut self, waiter: u64) -> (r: bool)
        requires
            old(self).wf(),
        ensures
            final(self).wf(),
            final(self).capacity_spec() == old(self).capacity_spec(),
            final(self).idle_ids() == old(self).idle_ids(),
            final(self).busy_ids() == old(self).busy_ids(),
            r == old(self).waiting().contains(waiter),
            old(self).waiting().index_of_first(waiter) matches Some(k) ==> final(self).waiting()
                == old(self).waiting().remove(k),
            !old(self).waiting().contains(waiter) ==> final(self).waiting() == old(self).waiting(),
    {
        proof {
            old(self).waiting().index_of_first_ensures(waiter);
        }
        let mut i: usize = 0;
        while i < self.waiters.len()
            invariant
                *self == *old(self),
                old(self).wf(),
                0 <= i <= self.waiters@.len(),
                forall|j: int| 0 <= j < i ==> self.waiters@[j] != waiter,
            decreases self.waiters@.len() - i,
        {
            if self.waiters[i] == waiter {
                proof {
                    let s = old(self).waiting();
                    assert(s[i as int] == waiter);
                    assert(s.contains(waiter));
                    s.index_of_first_ensures(waiter);
                    let k = s.index_of_first(waiter).unwrap();
                    if k < i as int {
                        assert(s[k] == waiter);
                        assert(false);
                    }
                    if k > i as int {
                        assert(s[i as int] != waiter);
                        assert(false);
                    }
                }
                self.waiters.remove(i);
                proof {
                    if self.waiters@.len() > 0 {
                        assert(old(self).waiters@.len() > 0);
                    }
                    assert(self.wf());
                }
                return true;
            }
            i = i + 1;
        }
        false
    }

    /// Empties a pool no caller is using any more: every session is
    /// released back to the collaborator and the queue is cleared.
    pub(crate) fn drain(&mut self)
        requires
            old(self).wf(),
            old(self).busy_ids().len() == 0,
        ensures
            final(self).wf(),
            final(self).capacity_spec() == old(self).capacity_spec(),
            final(self).idle_ids().len() == 0,
            final(self).busy_ids().len() == 0,
            final(self).waiting().len() == 0,
    {
        self.idle = Vec::new();
        self.waiters = Vec::new();
        proof {
            assert(final(self).busy_ids() =~= old(self).busy_ids());
        }
    }
}

/// The pool invariant, stated for every reachable pool: the idle and
/// busy counts always sum to the number of handles created, which
/// never exceeds the hard capacity; and callers queue only while the
/// pool is exhausted — every handle exists and is busy.
pub proof fn lemma_pool_bounds(p: &HandlePool)
    requires
        p.wf(),
    ensures
        p.total() == p.idle_ids().len() + p.busy_ids().len(),
        p.total() <= p.capacity_spec(),
        p.waiting().len() > 0 ==> p.idle_ids().len() == 0 && p.total() == p.capacity_spec(),
{
}

/// No handle is in both sets: an idle handle's identity never appears
/// among the busy ones, so a granted handle is never one that another
/// caller still holds.
pub proof fn lemma_pool_disjoint(p: &HandlePool, x: nat)
    requires
        p.wf(),
    ensures
        !(p.idle_ids().contains(x) && p.busy_ids().contains(x)),
{
    if p.idle_ids().contains(x) && p.busy_ids().contains(x) {
        let i = choose|i: int| 0 <= i < p.idle_ids().len() && p.idle_ids()[i] == x;
        let j = choose|j: int| 0 <= j < p.busy_ids().len() && p.busy_ids()[j] == x;
        assert(false);
    }
}

/// In a duplicate-free sequence, removing the entry at one index
/// removes exactly that value from the sequence's members.
proof fn lemma_remove_distinct_contains(s: Seq<nat>, at: int, x: nat)
    requires
        0 <= at < s.len(),
        forall|i: int, j: int| 0 <= i < j < s.len() ==> s[i] != s[j],
    ensures
        s.remove(at).contains(x) <==> (s.contains(x) && x != s[at]),
{
    let t = s.remove(at);
    if t.contains(x) {
        let k = choose|k: int| 0 <= k < t.len() && t[k] == x;
        if k < at {
            assert(s[k] == x);
        } else {
            assert(s[k + 1] == x);
        }
        assert(s.contains(x));
        assert(x != s[at]);
    }
    if s.contains(x) && x != s[at] {
        let k = choose|k: int| 0 <= k < s.len() && s[k] == x;
        if k < at {
            assert(t[k] == x);
        } else {
            assert(t[k - 1] == x);
        }
        assert(t.contains(x));
    }
}

} // verus!
