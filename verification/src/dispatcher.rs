use vstd::prelude::*;
use crate::rate_limit::RateLimit;

verus! {

/// One occurrence the dispatcher loop reacts to: the scheduled refill fired,
/// a call envelope arrived on the inbound endpoint, or the inbound endpoint
/// was closed because every handle was dropped.
pub enum Event<C> {
    Refill,
    Arrival(C),
    Closed,
}

/// The mathematical state of the dispatcher: the token bucket, the scheduled
/// refill deadline, the pending queue in arrival order, and whether the
/// inbound endpoint has closed.
pub struct DispatcherModel<C> {
    pub burst: nat,
    pub interval_ns: nat,
    pub tokens: nat,
    pub next_refill_ns: Option<nat>,
    pub pending: Seq<C>,
    pub closed: bool,
}

impl<C> DispatcherModel<C> {
    /// Invariant: the bucket never holds more than `burst` tokens, a refill is
    /// scheduled only while the bucket is not full, and the refill interval is
    /// positive.
    pub open spec fn wf(self) -> bool {
        &&& self.interval_ns >= 1
        &&& self.tokens <= self.burst
        &&& (self.next_refill_ns is Some ==> self.tokens < self.burst)
    }

    /// The state of a freshly started dispatcher: a full bucket, no scheduled
    /// refill, an empty queue, an open endpoint.
    pub open spec fn init(burst: nat, interval_ns: nat) -> DispatcherModel<C> {
        DispatcherModel {
            burst,
            interval_ns,
            tokens: burst,
            next_refill_ns: None,
            pending: Seq::empty(),
            closed: false,
        }
    }

    /// Scheduling a refill at time `now_ns`: a deadline is computed only when
    /// tokens are missing and none is scheduled yet; an existing deadline is
    /// never moved, so a burst of arrivals cannot starve the refill.
    pub open spec fn schedule(self, now_ns: nat) -> DispatcherModel<C> {
        if self.tokens < self.burst && self.next_refill_ns is None {
            DispatcherModel { next_refill_ns: Some((now_ns + self.interval_ns) as nat), ..self }
        } else {
            self
        }
    }

    /// The effect of one event: a refill adds a token (capped at `burst`) and
    /// clears the deadline, an arrival is appended to the pending queue, and
    /// closing is recorded.
    pub open spec fn apply(self, e: Event<C>) -> DispatcherModel<C> {
        match e {
            Event::Refill => DispatcherModel {
                tokens: if self.tokens + 1 <= self.burst { (self.tokens + 1) as nat } else { self.burst },
                next_refill_ns: None,
                ..self
            },
            Event::Arrival(c) => DispatcherModel { pending: self.pending.push(c), ..self },
            Event::Closed => DispatcherModel { closed: true, ..self },
        }
    }

    /// A batch is released exactly when calls are pending and a token is
    /// available.
    pub open spec fn can_release(self) -> bool {
        self.pending.len() > 0 && self.tokens > 0
    }

    /// Releasing a batch consumes one token — one token authorizes one handler
    /// invocation regardless of batch size — and drains the entire queue.
    pub open spec fn release(self) -> DispatcherModel<C> {
        DispatcherModel { tokens: (self.tokens - 1) as nat, pending: Seq::empty(), ..self }
    }

    /// One iteration of the dispatcher loop: handle the event, then release a
    /// batch if one is due.
    pub open spec fn step(self, e: Event<C>) -> DispatcherModel<C> {
        let s = self.apply(e);
        if s.can_release() {
            s.release()
        } else {
            s
        }
    }

    /// The batch released by one iteration, if any: always the entire pending
    /// queue, in arrival order.
    pub open spec fn step_batch(self, e: Event<C>) -> Option<Seq<C>> {
        let s = self.apply(e);
        if s.can_release() {
            Some(s.pending)
        } else {
            None
        }
    }

    /// The loop terminates exactly when the endpoint has closed and the queue
    /// has been drained.
    pub open spec fn done(self) -> bool {
        self.closed && self.pending.len() == 0
    }

    /// The state after a whole sequence of events.
    pub open spec fn run(self, events: Seq<Event<C>>) -> DispatcherModel<C>
        decreases events.len(),
    {
        if events.len() == 0 {
            self
        } else {
            self.step(events[0]).run(events.drop_first())
        }
    }

    /// How many batches a sequence of events releases.
    pub open spec fn released_during(self, events: Seq<Event<C>>) -> nat
        decreases events.len(),
    {
        if events.len() == 0 {
            0
        } else {
            (if self.step_batch(events[0]) is Some { 1nat } else { 0nat })
                + self.step(events[0]).released_during(events.drop_first())
        }
    }
}

/// The arrival events of a sequence of call envelopes, in order.
pub open spec fn arrival_events<C>(calls: Seq<C>) -> Seq<Event<C>> {
    calls.map_values(|c: C| Event::Arrival(c))
}

/// Token accounting: across any stretch of the loop in which no refill
/// fires, each released batch consumes exactly one token, tokens never
/// appear from nowhere, and the scheduled refill deadline is never moved —
/// arrivals cannot starve the refill.
pub proof fn lemma_no_refill_token_accounting<C>(s: DispatcherModel<C>, events: Seq<Event<C>>)
    requires
        s.wf(),
        forall|i: int| 0 <= i < events.len() ==> !((#[trigger] events[i]) is Refill),
    ensures
        s.run(events).wf(),
        s.run(events).tokens + s.released_during(events) == s.tokens,
        s.released_during(events) <= s.tokens,
        s.run(events).next_refill_ns == s.next_refill_ns,
        s.run(events).burst == s.burst,
        s.run(events).interval_ns == s.interval_ns,
    decreases events.len(),
{
    if events.len() > 0 {
        let e = events[0];
        let s1 = s.step(e);
        let rest = events.drop_first();
        assert(!(e is Refill));
        assert(s1.wf());
        assert forall|i: int| 0 <= i < rest.len() implies !((#[trigger] rest[i]) is Refill) by {
            assert(rest[i] == events[i + 1]);
        }
        lemma_no_refill_token_accounting(s1, rest);
    }
}

/// Burst absorption: a freshly started dispatcher holds a full bucket, so
/// before the first refill fires at most `burst` batches are released — and
/// each of them costs exactly one token, whatever else arrives in between.
pub proof fn lemma_burst_absorption<C>(burst: nat, interval_ns: nat, events: Seq<Event<C>>)
    requires
        interval_ns >= 1,
        forall|i: int| 0 <= i < events.len() ==> !((#[trigger] events[i]) is Refill),
    ensures
        DispatcherModel::<C>::init(burst, interval_ns).released_during(events) <= burst,
        DispatcherModel::<C>::init(burst, interval_ns).run(events).tokens == burst
            - DispatcherModel::<C>::init(burst, interval_ns).released_during(events),
{
    lemma_no_refill_token_accounting(DispatcherModel::<C>::init(burst, interval_ns), events);
}

/// Refill spacing: a refill deadline computed at time `now` lies one full
/// interval in the future, and it survives any stretch of arrivals, releases
/// and closure until the refill itself fires. The loop sleeps until the
/// deadline before it produces the refill, so two consecutive refills — and
/// with an empty bucket, two consecutive releases — are at least one refill
/// interval apart.
pub proof fn lemma_refill_spacing<C>(s: DispatcherModel<C>, now_ns: nat, events: Seq<Event<C>>)
    requires
        s.wf(),
        s.tokens < s.burst,
        s.next_refill_ns is None,
        forall|i: int| 0 <= i < events.len() ==> !((#[trigger] events[i]) is Refill),
    ensures
        s.schedule(now_ns).next_refill_ns == Some((now_ns + s.interval_ns) as nat),
        now_ns + s.interval_ns > now_ns,
        s.schedule(now_ns).run(events).next_refill_ns == Some((now_ns + s.interval_ns) as nat),
{
    lemma_no_refill_token_accounting(s.schedule(now_ns), events);
}

proof fn lemma_calls_accumulate<C>(s: DispatcherModel<C>, calls: Seq<C>)
    requires
        s.wf(),
        s.tokens == 0,
    ensures
        s.run(arrival_events(calls)) == (DispatcherModel { pending: s.pending + calls, ..s }),
    decreases calls.len(),
{
    if calls.len() == 0 {
        assert(arrival_events(calls).len() == 0);
        assert(s.pending + calls =~= s.pending);
    } else {
        let e = arrival_events(calls)[0];
        assert(e == Event::Arrival(calls[0]));
        let s1 = s.step(e);
        assert(s1 == (DispatcherModel { pending: s.pending.push(calls[0]), ..s }));
        assert(arrival_events(calls).drop_first() =~= arrival_events(calls.drop_first()));
        lemma_calls_accumulate(s1, calls.drop_first());
        assert(s.pending.push(calls[0]) + calls.drop_first() =~= s.pending + calls);
    }
}

/// Batch coalescing: while no token is available, arriving calls accumulate
/// in the queue without any release; the single refill that then fires
/// releases all of them to one handler invocation, as one batch in arrival
/// order. (With `burst == 0` no token can ever exist, so nothing would be
/// released at all; the law therefore speaks of `burst >= 1`.)
pub proof fn lemma_batch_coalescing<C>(s: DispatcherModel<C>, calls: Seq<C>)
    requires
        s.wf(),
        s.tokens == 0,
        s.pending.len() == 0,
        s.burst >= 1,
        calls.len() > 0,
    ensures
        s.run(arrival_events(calls)).pending == calls,
        s.run(arrival_events(calls)).tokens == 0,
        s.run(arrival_events(calls)).step_batch(Event::Refill) == Some(calls),
        s.run(arrival_events(calls)).step(Event::Refill).pending.len() == 0,
        s.run(arrival_events(calls)).step(Event::Refill).tokens == 0,
{
    lemma_calls_accumulate(s, calls);
    assert(s.pending + calls =~= calls);
    let s1 = s.run(arrival_events(calls));
    assert(s1.apply(Event::Refill).tokens == 1);
    assert(s1.apply(Event::Refill).can_release());
}

/// The dispatcher's concrete state, owned exclusively by the dispatch loop.
/// All interaction from callers goes through message passing; nothing outside
/// the loop mutates this directly.
pub struct Dispatcher<C> {
    pub rate: RateLimit,
    pub tokens: u64,
    pub next_refill_ns: Option<u64>,
    pub pending: Vec<C>,
    pub closed: bool,
}

impl<C> View for Dispatcher<C> {
    type V = DispatcherModel<C>;

    open spec fn view(&self) -> DispatcherModel<C> {
        DispatcherModel {
            burst: self.rate.burst as nat,
            interval_ns: self.rate.refill_interval_ns as nat,
            tokens: self.tokens as nat,
            next_refill_ns: match self.next_refill_ns {
                Some(t) => Some(t as nat),
                None => None,
            },
            pending: self.pending@,
            closed: self.closed,
        }
    }
}

impl<C> Dispatcher<C> {
    /// Starts a dispatcher with a full bucket, so that up to `burst` batches
    /// are released immediately after a period of inactivity.
    pub fn new(rate: RateLimit) -> (d: Dispatcher<C>)
        requires
            rate.wf(),
        ensures
            d@ == DispatcherModel::<C>::init(rate.burst as nat, rate.refill_interval_ns as nat),
            d@.wf(),
    {
        Dispatcher {
            rate,
            tokens: rate.burst,
            next_refill_ns: None,
            pending: Vec::new(),
            closed: false,
        }
    }

    /// Computes the deadline the loop must sleep until, if any. The deadline
    /// is fixed once set: new arrivals never push it back, which would starve
    /// refills under continuous load.
    pub fn schedule_refill(&mut self, now_ns: u64) -> (deadline: Option<u64>)
        requires
            old(self)@.wf(),
            now_ns + old(self).rate.refill_interval_ns <= u64::MAX,
        ensures
            final(self)@ == old(self)@.schedule(now_ns as nat),
            final(self)@.wf(),
            deadline == final(self).next_refill_ns,
            final(self)@.next_refill_ns is Some <==> final(self)@.tokens < final(self)@.burst,
    {
        if self.tokens < self.rate.burst && self.next_refill_ns.is_none() {
            self.next_refill_ns = Some(now_ns + self.rate.refill_interval_ns);
        }
        self.next_refill_ns
    }

    /// Handles one event; the queue keeps arrival order, so batch arguments
    /// are later handed to the handler in the order the calls were enqueued.
    pub fn apply_event(&mut self, e: Event<C>)
        requires
            old(self)@.wf(),
        ensures
            final(self)@ == old(self)@.apply(e),
            final(self)@.wf(),
    {
        match e {
            Event::Refill => {
                if self.tokens < self.rate.burst {
                    self.tokens = self.tokens + 1;
                }
                self.next_refill_ns = None;
            }
            Event::Arrival(c) => {
                self.pending.push(c);
            }
            Event::Closed => {
                self.closed = true;
            }
        }
    }

    /// Releases a batch if calls are pending and a token is available:
    /// consumes exactly one token and drains the entire queue, maximizing
    /// aggregation per handler invocation. Otherwise leaves the state alone.
    pub fn take_batch(&mut self) -> (batch: Option<Vec<C>>)
        requires
            old(self)@.wf(),
        ensures
            final(self)@.wf(),
            old(self)@.can_release() ==> (batch matches Some(b) && b@ == old(self)@.pending
                && final(self)@ == old(self)@.release()),
            !old(self)@.can_release() ==> batch is None && final(self)@ == old(self)@,
    {
        if !self.pending.is_empty() && self.tokens > 0 {
            self.tokens = self.tokens - 1;
            let mut batch: Vec<C> = Vec::new();
            core::mem::swap(&mut batch, &mut self.pending);
            Some(batch)
        } else {
            None
        }
    }

    /// One full iteration of the dispatch loop: handle the event, then
    /// release a batch if one is due.
    pub fn step(&mut self, e: Event<C>) -> (batch: Option<Vec<C>>)
        requires
            old(self)@.wf(),
        ensures
            final(self)@ == old(self)@.step(e),
            final(self)@.wf(),
            old(self)@.step_batch(e) matches Some(s) ==> batch matches Some(b) && b@ == s,
            old(self)@.step_batch(e) is None ==> batch is None,
    {
        self.apply_event(e);
        self.take_batch()
    }

    /// True exactly when the loop may terminate: the endpoint has closed and
    /// every pending call has been dispatched.
    pub fn is_done(&self) -> (r: bool)
        ensures
            r == self@.done(),
    {
        self.closed && self.pending.is_empty()
    }
}

} // verus!
