//! The per-client concurrency limiter: at most `limit` operations are
//! admitted at once; the others wait in arrival order. A slot is released
//! when an admitted operation has its response (not when its stream drains).
use vstd::prelude::*;

verus! {

/// How many streaming requests one client has in flight at most.
pub const MAX_CONCURRENT_REQUESTS: usize = 4;

/// The abstract state of a limiter.
pub struct LimiterState {
    pub limit: nat,
    pub in_flight: nat,
    pub waiting: Seq<u64>,
}

/// The state after a request for `ticket`, and whether it was admitted.
pub open spec fn request_spec(s: LimiterState, ticket: u64) -> (LimiterState, bool) {
    if s.in_flight < s.limit {
        (LimiterState { in_flight: s.in_flight + 1, ..s }, true)
    } else {
        (LimiterState { waiting: s.waiting.push(ticket), ..s }, false)
    }
}

/// The state after an admitted operation has its response, and the waiting
/// ticket admitted in its place, if any.
pub open spec fn release_spec(s: LimiterState) -> (LimiterState, Option<u64>) {
    if s.waiting.len() > 0 {
        (LimiterState { waiting: s.waiting.drop_first(), ..s }, Some(s.waiting[0]))
    } else {
        (LimiterState { in_flight: (s.in_flight - 1) as nat, ..s }, None)
    }
}

/// The state after requests for `tickets`, in order.
pub open spec fn requests_spec(s: LimiterState, tickets: Seq<u64>) -> LimiterState
    decreases tickets.len(),
{
    if tickets.len() == 0 {
        s
    } else {
        requests_spec(request_spec(s, tickets[0]).0, tickets.drop_first())
    }
}

/// Admission control of one client: counts admitted operations and queues the
/// others by ticket, first come first served.
pub struct RateLimiter {
    limit: usize,
    in_flight: usize,
    waiting: Vec<u64>,
}

impl View for RateLimiter {
    type V = LimiterState;

    closed spec fn view(&self) -> LimiterState {
        LimiterState {
            limit: self.limit as nat,
            in_flight: self.in_flight as nat,
            waiting: self.waiting@,
        }
    }
}

/// A limiter state is sound: some slot exists, no more operations run than
/// there are slots, and nobody waits while a slot is free.
pub open spec fn limiter_wf(s: LimiterState) -> bool {
    &&& s.limit > 0
    &&& s.in_flight <= s.limit
    &&& s.waiting.len() > 0 ==> s.in_flight == s.limit
}

impl RateLimiter {
    /// The state is sound (see `limiter_wf`).
    pub open spec fn well_formed(&self) -> bool {
        limiter_wf(self@)
    }

    /// A limiter with `limit` slots, all free.
    pub fn new(limit: usize) -> (r: RateLimiter)
        requires
            limit > 0,
        ensures
            r.well_formed(),
            r@ == (LimiterState { limit: limit as nat, in_flight: 0, waiting: Seq::empty() }),
    {
        RateLimiter { limit, in_flight: 0, waiting: Vec::new() }
    }

    pub fn limit(&self) -> (r: usize)
        ensures
            r == self@.limit,
    {
        self.limit
    }

    /// Operations admitted and not yet released.
    pub fn in_flight(&self) -> (r: usize)
        ensures
            r == self@.in_flight,
    {
        self.in_flight
    }

    /// Tickets waiting for a slot, oldest first.
    pub fn waiting(&self) -> (r: Vec<u64>)
        ensures
            r@ == self@.waiting,
    {
        self.waiting.clone()
    }

    /// Asks for a slot for `ticket`: admitted at once if one is free, else
    /// queued behind the earlier tickets. Admission never fails.
    pub fn request(&mut self, ticket: u64) -> (admitted: bool)
        requires
            old(self).well_formed(),
        ensures
            final(self).well_formed(),
            (final(self)@, admitted) == request_spec(old(self)@, ticket),
    {
        if self.in_flight < self.limit {
            self.in_flight = self.in_flight + 1;
            true
        } else {
            self.waiting.push(ticket);
            false
        }
    }

    /// An admitted operation has its response: its slot goes to the oldest
    /// waiting ticket, which is returned, or becomes free.
    pub fn release(&mut self) -> (next: Option<u64>)
        requires
            old(self).well_formed(),
            old(self)@.in_flight > 0,
        ensures
            final(self).well_formed(),
            (final(self)@, next) == release_spec(old(self)@),
    {
        if self.waiting.len() > 0 {
            let ghost before = self.waiting@;
            let t = self.waiting.remove(0);
            proof {
                assert(self.waiting@ =~= before.drop_first());
            }
            Some(t)
        } else {
            self.in_flight = self.in_flight - 1;
            None
        }
    }

    /// A waiting request is abandoned by its caller before admission.
    pub fn cancel(&mut self, ticket: u64) -> (found: bool)
        requires
            old(self).well_formed(),
        ensures
            final(self).well_formed(),
            found == old(self)@.waiting.contains(ticket),
            final(self)@.limit == old(self)@.limit,
            found ==> exists|i: int|
                0 <= i < old(self)@.waiting.len() && old(self)@.waiting[i] == ticket
                    && final(self)@.waiting == old(self)@.waiting.remove(i)
                    && final(self)@.in_flight == old(self)@.in_flight,
            !found ==> final(self)@ == old(self)@,
    {
        let mut i: usize = 0;
        while i < self.waiting.len()
            invariant
                self.well_formed(),
                self@ == old(self)@,
                i <= self.waiting@.len(),
                forall|j: int| 0 <= j < i ==> self.waiting@[j] != ticket,
            decreases self.waiting@.len() - i,
        {
            if self.waiting[i] == ticket {
                let ghost before = self.waiting@;
                self.waiting.remove(i);
                proof {
                    assert(self@.waiting == old(self)@.waiting.remove(i as int));
                    assert(before[i as int] == ticket);
                }
                return true;
            }
            i = i + 1;
        }
        false
    }
}

/// However many requests arrive at a fresh limiter with `limit` slots, at
/// most `limit` are admitted; of `k > limit` requests the first `limit` run
/// and the other `k - limit` wait, in arrival order.
pub proof fn lemma_admission_bounded(limit: nat, tickets: Seq<u64>)
    requires
        limit > 0,
    ensures
        ({
            let s = requests_spec(
                LimiterState { limit, in_flight: 0, waiting: Seq::empty() },
                tickets,
            );
            &&& limiter_wf(s)
            &&& s.in_flight == if tickets.len() < limit { tickets.len() } else { limit }
            &&& s.waiting == if tickets.len() <= limit {
                Seq::empty()
            } else {
                tickets.subrange(limit as int, tickets.len() as int)
            }
        }),
{
    lemma_requests_from(limit, 0, tickets, Seq::empty());
    assert(Seq::<u64>::empty() + tickets.subrange(0, tickets.len() as int) =~= tickets);
}

proof fn lemma_requests_from(limit: nat, in_flight: nat, tickets: Seq<u64>, waiting: Seq<u64>)
    requires
        limiter_wf(LimiterState { limit, in_flight, waiting }),
        waiting.len() > 0 ==> in_flight == limit,
    ensures
        ({
            let s = requests_spec(LimiterState { limit, in_flight, waiting }, tickets);
            let free = (limit - in_flight) as nat;
            &&& limiter_wf(s)
            &&& s.limit == limit
            &&& s.in_flight == if tickets.len() < free { in_flight + tickets.len() } else { limit }
            &&& s.waiting == if tickets.len() <= free {
                waiting
            } else {
                waiting + tickets.subrange(free as int, tickets.len() as int)
            }
        }),
    decreases tickets.len(),
{
    if tickets.len() > 0 {
        let s0 = LimiterState { limit, in_flight, waiting };
        let s1 = request_spec(s0, tickets[0]).0;
        lemma_requests_from(limit, s1.in_flight, tickets.drop_first(), s1.waiting);
        let free = (limit - in_flight) as nat;
        if in_flight < limit {
            if tickets.len() > free {
                assert(tickets.drop_first().subrange((free - 1) as int, tickets.len() - 1)
                    =~= tickets.subrange(free as int, tickets.len() as int));
            }
        } else {
            assert(waiting.push(tickets[0]) + tickets.drop_first().subrange(0, tickets.len() - 1)
                =~= waiting + tickets.subrange(0, tickets.len() as int));
        }
    }
}

/// A released slot goes to the oldest waiting ticket: waiting requests are
/// admitted only as admitted ones complete, in arrival order.
pub proof fn lemma_release_admits_oldest(s: LimiterState)
    requires
        limiter_wf(s),
        s.in_flight > 0,
    ensures
        limiter_wf(release_spec(s).0),
        s.waiting.len() > 0 ==> release_spec(s).1 == Some(s.waiting[0])
            && release_spec(s).0.in_flight == s.in_flight,
        s.waiting.len() == 0 ==> release_spec(s).1 is None && release_spec(s).0.in_flight
            == s.in_flight - 1,
{
}

} // verus!
