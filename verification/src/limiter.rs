//! Holding back the start of operations: a bucket of permits that time
//! refills, and the throttle built on it.

use vstd::prelude::*;
use crate::config::Throttle;

verus! {

/// The length of the refill period of a per-second limit, in milliseconds.
pub const SECOND_MS: u64 = 1000;

/// Why a permit was not granted.
#[derive(Clone, Copy, Debug, PartialEq, Eq, Structural)]
pub enum TryAcquireError {
    /// Every permit of the current period is taken.
    NoPermits,
}

/// A bucket of permits. A permit is used up by the operation that takes it;
/// only the passing of a period brings the bucket back to its capacity.
#[derive(Clone, Copy, Debug, PartialEq, Eq, Structural)]
pub struct RateLimiter {
    permits: usize,
    capacity: usize,
    period_ms: u64,
}

impl RateLimiter {
    /// The permits that can be taken before the next refill.
    pub closed spec fn available(&self) -> usize {
        self.permits
    }

    /// The permits that a refill makes available.
    pub closed spec fn capacity(&self) -> usize {
        self.capacity
    }

    /// The time between two refills, in milliseconds.
    pub closed spec fn period(&self) -> u64 {
        self.period_ms
    }

    /// The bucket never holds more than its capacity.
    pub open spec fn wf(&self) -> bool {
        &&& self.available() <= self.capacity()
        &&& self.capacity() >= 1
        &&& self.period() >= 1
    }

    /// A limiter of `per_second` operations a second. It starts empty: the
    /// first permits come with the first refill.
    pub fn new(per_second: usize) -> (limiter: Self)
        requires
            per_second >= 1,
        ensures
            limiter.wf(),
            limiter.available() == 0,
            limiter.capacity() == per_second,
            limiter.period() == SECOND_MS,
    {
        RateLimiter { permits: 0, capacity: per_second, period_ms: SECOND_MS }
    }

    /// A limiter of one operation every `delay_ms` milliseconds. It starts empty.
    pub fn with_delay(delay_ms: u64) -> (limiter: Self)
        requires
            delay_ms >= 1,
        ensures
            limiter.wf(),
            limiter.available() == 0,
            limiter.capacity() == 1,
            limiter.period() == delay_ms,
    {
        RateLimiter { permits: 0, capacity: 1, period_ms: delay_ms }
    }

    /// The time between two refills, in milliseconds.
    pub fn period_ms(&self) -> (ms: u64)
        ensures
            ms == self.period(),
    {
        self.period_ms
    }

    /// The permits that can be taken now.
    pub fn available_permits(&self) -> (n: usize)
        ensures
            n == self.available(),
    {
        self.permits
    }

    /// A period has passed: the bucket is full again. Permits that were not
    /// taken in the last period do not add up.
    pub fn refill(&mut self)
        requires
            old(self).wf(),
        ensures
            final(self).wf(),
            final(self).available() == old(self).capacity(),
            final(self).available() == permits_after(
                old(self).available() as nat,
                old(self).capacity() as nat,
                seq![LimiterEvent::Refill],
            ),
            final(self).capacity() == old(self).capacity(),
            final(self).period() == old(self).period(),
    {
        proof {
            one_event(self.permits as nat, self.capacity as nat, LimiterEvent::Refill);
        }
        let missing = self.capacity - self.permits;
        self.permits = self.permits + missing;
    }

    /// Takes one permit, if one is left.
    pub fn try_acquire_owned(&mut self) -> (permit: Result<(), TryAcquireError>)
        requires
            old(self).wf(),
        ensures
            final(self).wf(),
            final(self).capacity() == old(self).capacity(),
            final(self).period() == old(self).period(),
            match permit {
                Ok(()) => old(self).available() >= 1
                    && final(self).available() == old(self).available() - 1,
                Err(e) => e == TryAcquireError::NoPermits && old(self).available() == 0
                    && final(self).available() == 0,
            },
            final(self).available() == permits_after(
                old(self).available() as nat,
                old(self).capacity() as nat,
                seq![LimiterEvent::Acquire],
            ),
            permit is Ok == (granted(
                old(self).available() as nat,
                old(self).capacity() as nat,
                seq![LimiterEvent::Acquire],
            ) == 1),
    {
        proof {
            one_event(self.permits as nat, self.capacity as nat, LimiterEvent::Acquire);
        }
        if self.permits > 0 {
            self.permits = self.permits - 1;
            Ok(())
        } else {
            Err(TryAcquireError::NoPermits)
        }
    }

    /// Gives back a permit that was taken but not used for an operation. A
    /// refill that came in between has already made up for it, so the bucket
    /// stays within its capacity.
    pub fn give_back(&mut self)
        requires
            old(self).wf(),
        ensures
            final(self).wf(),
            final(self).capacity() == old(self).capacity(),
            final(self).period() == old(self).period(),
            final(self).available() == if old(self).available() < old(self).capacity() {
                (old(self).available() + 1) as usize
            } else {
                old(self).available()
            },
    {
        if self.permits < self.capacity {
            self.permits = self.permits + 1;
        }
    }
}

/// Something that happens to a limiter.
pub enum LimiterEvent {
    /// A period has passed.
    Refill,
    /// An operation asks for a permit.
    Acquire,
}

/// The permits left after a run of events, starting with `permits` in a
/// bucket of the given capacity.
pub open spec fn permits_after(permits: nat, capacity: nat, events: Seq<LimiterEvent>) -> nat
    decreases events.len(),
{
    if events.len() == 0 {
        permits
    } else {
        let before = permits_after(permits, capacity, events.drop_last());
        match events.last() {
            LimiterEvent::Refill => capacity,
            LimiterEvent::Acquire => if before >= 1 {
                (before - 1) as nat
            } else {
                0
            },
        }
    }
}

/// The number of operations that got a permit in a run of events.
pub open spec fn granted(permits: nat, capacity: nat, events: Seq<LimiterEvent>) -> nat
    decreases events.len(),
{
    if events.len() == 0 {
        0
    } else {
        let before = permits_after(permits, capacity, events.drop_last());
        granted(permits, capacity, events.drop_last()) + match events.last() {
            LimiterEvent::Refill => 0nat,
            LimiterEvent::Acquire => if before >= 1 {
                1nat
            } else {
                0nat
            },
        }
    }
}

/// What a single event does to a bucket: a refill fills it and grants
/// nothing; a request takes one permit and is granted where one is left.
pub proof fn one_event(permits: nat, capacity: nat, event: LimiterEvent)
    ensures
        permits_after(permits, capacity, seq![event]) == match event {
            LimiterEvent::Refill => capacity,
            LimiterEvent::Acquire => if permits >= 1 {
                (permits - 1) as nat
            } else {
                0nat
            },
        },
        granted(permits, capacity, seq![event]) == match event {
            LimiterEvent::Refill => 0nat,
            LimiterEvent::Acquire => if permits >= 1 {
                1nat
            } else {
                0nat
            },
        },
{
    let run = seq![event];
    assert(run.drop_last() =~= Seq::<LimiterEvent>::empty());
    assert(run.last() == event);
    assert(permits_after(permits, capacity, run.drop_last()) == permits);
    assert(granted(permits, capacity, run.drop_last()) == 0);
}

/// The number of refills in a run of events.
pub open spec fn refills(events: Seq<LimiterEvent>) -> nat
    decreases events.len(),
{
    if events.len() == 0 {
        0
    } else {
        refills(events.drop_last()) + match events.last() {
            LimiterEvent::Refill => 1nat,
            LimiterEvent::Acquire => 0nat,
        }
    }
}

/// However the requests fall, the operations that start in a run of events
/// are at most the permits at hand at its beginning plus one bucket for each
/// period that passes: the rate is bounded by the capacity per period.
pub proof fn starts_are_bounded(permits: nat, capacity: nat, events: Seq<LimiterEvent>)
    requires
        permits <= capacity,
    ensures
        permits_after(permits, capacity, events) <= capacity,
        granted(permits, capacity, events) + permits_after(permits, capacity, events) <= permits
            + capacity * refills(events),
    decreases events.len(),
{
    if events.len() > 0 {
        let earlier = events.drop_last();
        starts_are_bounded(permits, capacity, earlier);
        assert(capacity * (refills(earlier) + 1) == capacity * refills(earlier) + capacity)
            by (nonlinear_arith);
    }
}

/// One period of a saturated limiter: a refill followed by `capacity`
/// requests.
pub open spec fn busy_period(capacity: nat) -> Seq<LimiterEvent> {
    seq![LimiterEvent::Refill] + Seq::new(capacity, |i: int| LimiterEvent::Acquire)
}

/// A run of `periods` saturated periods.
pub open spec fn busy_run(capacity: nat, periods: nat) -> Seq<LimiterEvent>
    decreases periods,
{
    if periods == 0 {
        Seq::<LimiterEvent>::empty()
    } else {
        busy_run(capacity, (periods - 1) as nat) + busy_period(capacity)
    }
}

proof fn run_appended(permits: nat, capacity: nat, head: Seq<LimiterEvent>, tail: Seq<LimiterEvent>)
    ensures
        permits_after(permits, capacity, head + tail) == permits_after(
            permits_after(permits, capacity, head),
            capacity,
            tail,
        ),
        granted(permits, capacity, head + tail) == granted(permits, capacity, head) + granted(
            permits_after(permits, capacity, head),
            capacity,
            tail,
        ),
    decreases tail.len(),
{
    if tail.len() == 0 {
        assert(head + tail =~= head);
    } else {
        assert((head + tail).drop_last() =~= head + tail.drop_last());
        assert((head + tail).last() == tail.last());
        run_appended(permits, capacity, head, tail.drop_last());
    }
}

proof fn acquires_drain(permits: nat, capacity: nat, n: nat)
    requires
        n <= permits,
    ensures
        permits_after(permits, capacity, Seq::new(n, |i: int| LimiterEvent::Acquire)) == permits
            - n,
        granted(permits, capacity, Seq::new(n, |i: int| LimiterEvent::Acquire)) == n,
    decreases n,
{
    let all = Seq::new(n, |i: int| LimiterEvent::Acquire);
    if n > 0 {
        let fewer = Seq::new((n - 1) as nat, |i: int| LimiterEvent::Acquire);
        assert(all.drop_last() =~= fewer);
        acquires_drain(permits, capacity, (n - 1) as nat);
    }
}

/// Where requests never run out, exactly `capacity` operations start in each
/// period: over any number of periods the observed rate is the configured one.
pub proof fn saturated_rate_is_exact(permits: nat, capacity: nat, periods: nat)
    requires
        permits <= capacity,
    ensures
        granted(permits, capacity, busy_run(capacity, periods)) == capacity * periods,
        periods >= 1 ==> permits_after(permits, capacity, busy_run(capacity, periods)) == 0,
        periods == 0 ==> permits_after(permits, capacity, busy_run(capacity, periods)) == permits,
    decreases periods,
{
    if periods > 0 {
        let head = busy_run(capacity, (periods - 1) as nat);
        let period = busy_period(capacity);
        saturated_rate_is_exact(permits, capacity, (periods - 1) as nat);
        run_appended(permits, capacity, head, period);
        let at = permits_after(permits, capacity, head);
        let refill = seq![LimiterEvent::Refill];
        let asks = Seq::new(capacity, |i: int| LimiterEvent::Acquire);
        run_appended(at, capacity, refill, asks);
        assert(refill.drop_last() =~= Seq::<LimiterEvent>::empty());
        assert(granted(at, capacity, refill.drop_last()) == 0);
        assert(permits_after(at, capacity, refill) == capacity);
        assert(granted(at, capacity, refill) == 0);
        acquires_drain(capacity, capacity, capacity);
        assert(capacity * periods == capacity * (periods - 1) + capacity) by (nonlinear_arith)
            requires
                periods >= 1,
        ;
    }
}

/// A window of ten seconds holds nine to eleven refills of a per-second
/// limiter. Where requests never run out, the operations that start in such
/// a window are between eight and twelve times the configured rate.
pub proof fn ten_second_window_holds_the_rate(permits: nat, capacity: nat, refills_in_window: nat)
    requires
        permits <= capacity,
        9 <= refills_in_window <= 11,
    ensures
        8 * capacity <= granted(permits, capacity, busy_run(capacity, refills_in_window)) <= 12
            * capacity,
{
    saturated_rate_is_exact(permits, capacity, refills_in_window);
    assert(8 * capacity <= capacity * refills_in_window <= 12 * capacity) by (nonlinear_arith)
        requires
            9 <= refills_in_window <= 11,
    ;
}

/// The throttle of a run, with the limiter that its policy needs.
#[derive(Clone, Copy, Debug, PartialEq, Eq, Structural)]
pub struct Throttler {
    throttle: Throttle,
    limiter: Option<RateLimiter>,
}

impl Throttler {
    pub closed spec fn policy(&self) -> Throttle {
        self.throttle
    }

    pub closed spec fn limiter(&self) -> Option<RateLimiter> {
        self.limiter
    }

    /// A concurrency cap has no limiter; the two paced policies have one of
    /// their rate.
    pub open spec fn wf(&self) -> bool {
        &&& self.policy().valid()
        &&& match self.policy() {
            Throttle::Concurrent(_) => self.limiter() is None,
            Throttle::PerSecond(n) => self.limiter() matches Some(l) && l.wf() && l.capacity() == n
                && l.period() == SECOND_MS,
            Throttle::Delay(ms) => self.limiter() matches Some(l) && l.wf() && l.capacity() == 1
                && l.period() == ms,
        }
    }

    /// The operations, out of `ready` that wait, that may start while
    /// `in_flight` are running.
    pub open spec fn may_start(&self, in_flight: usize, ready: usize) -> usize {
        let room = match self.policy() {
            Throttle::Concurrent(n) => if in_flight <= n {
                (n - in_flight) as usize
            } else {
                0
            },
            _ => match self.limiter() {
                Some(l) => l.available(),
                None => 0,
            },
        };
        if ready <= room {
            ready
        } else {
            room
        }
    }

    pub fn new(throttle: Throttle) -> (throttler: Self)
        requires
            throttle.valid(),
        ensures
            throttler.wf(),
            throttler.policy() == throttle,
            throttler.limiter() matches Some(l) ==> l.available() == 0,
    {
        let limiter = match throttle {
            Throttle::Concurrent(_) => None,
            Throttle::PerSecond(n) => Some(RateLimiter::new(n)),
            Throttle::Delay(ms) => Some(RateLimiter::with_delay(ms)),
        };
        Throttler { throttle, limiter }
    }

    /// The time between two refills, for the policies that are paced.
    pub fn refill_period_ms(&self) -> (ms: Option<u64>)
        requires
            self.wf(),
        ensures
            ms == match self.policy() {
                Throttle::Concurrent(_) => None,
                Throttle::PerSecond(_) => Some(SECOND_MS),
                Throttle::Delay(d) => Some(d),
            },
    {
        match &self.limiter {
            Some(l) => Some(l.period_ms()),
            None => None,
        }
    }

    /// A refill period has passed.
    pub fn refill(&mut self)
        requires
            old(self).wf(),
        ensures
            final(self).wf(),
            final(self).policy() == old(self).policy(),
            match old(self).limiter() {
                Some(l) => final(self).limiter() matches Some(m) && m.available() == l.capacity(),
                None => final(self).limiter() is None,
            },
    {
        match &mut self.limiter {
            Some(l) => {
                l.refill();
            },
            None => {},
        }
    }

    /// Gives back a permit that was taken for an operation that did not
    /// start. A concurrency cap has no permits to give back.
    pub fn give_back(&mut self)
        requires
            old(self).wf(),
        ensures
            final(self).wf(),
            final(self).policy() == old(self).policy(),
            match old(self).limiter() {
                Some(l) => final(self).limiter() matches Some(m) && m.available() == if l.available()
                    < l.capacity() {
                    (l.available() + 1) as usize
                } else {
                    l.available()
                },
                None => final(self).limiter() is None,
            },
    {
        match &mut self.limiter {
            Some(l) => {
                l.give_back();
            },
            None => {},
        }
    }

    /// Decides how many of the `ready` operations start now, given that
    /// `in_flight` are running. Under a concurrency cap the running and the
    /// started together stay within the cap. Under a paced policy each start
    /// uses up a permit of the current period.
    pub fn throttle(&mut self, in_flight: usize, ready: usize) -> (started: usize)
        requires
            old(self).wf(),
        ensures
            final(self).wf(),
            final(self).policy() == old(self).policy(),
            started == old(self).may_start(in_flight, ready),
            started <= ready,
            match old(self).limiter() {
                Some(l) => final(self).limiter() matches Some(m) && m.available() == l.available()
                    - started,
                None => final(self).limiter() is None,
            },
    {
        match self.throttle {
            Throttle::Concurrent(n) => {
                let room = if in_flight <= n {
                    n - in_flight
                } else {
                    0
                };
                if ready <= room {
                    ready
                } else {
                    room
                }
            },
            _ => {
                let mut started: usize = 0;
                match &mut self.limiter {
                    Some(l) => {
                        let ghost before = *l;
                        let mut open = true;
                        while open && started < ready
                            invariant
                                l.wf(),
                                !open ==> l.available() == 0,
                                before.wf(),
                                started <= ready,
                                started <= before.available(),
                                l.available() == before.available() - started,
                                l.capacity() == before.capacity(),
                                l.period() == before.period(),
                            decreases
                                    ready - started,
                                    if open {
                                        1int
                                    } else {
                                        0int
                                    },
                        {
                            match l.try_acquire_owned() {
                                Ok(()) => {
                                    started = started + 1;
                                },
                                Err(_) => {
                                    open = false;
                                },
                            }
                        }
                        started
                    },
                    None => 0,
                }
            },
        }
    }
}

/// Under a concurrency cap the operations that run and those that start
/// never exceed the cap together.
pub proof fn concurrency_stays_within_cap(t: Throttler, in_flight: usize, ready: usize)
    requires
        t.wf(),
        t.policy() is Concurrent,
        in_flight <= t.policy()->Concurrent_0,
    ensures
        in_flight + t.may_start(in_flight, ready) <= t.policy()->Concurrent_0,
{
}

/// Under a paced policy no more operations start than permits are left in
/// the current period, however many are ready and however few are running.
pub proof fn pace_stays_within_permits(t: Throttler, in_flight: usize, ready: usize)
    requires
        t.wf(),
        !(t.policy() is Concurrent),
    ensures
        t.limiter() matches Some(l) && t.may_start(in_flight, ready) <= l.available()
            && l.available() <= l.capacity(),
{
}

/// What the source of operations gave when it was asked for the next one.
#[derive(Clone, Copy, Debug, PartialEq, Eq, Structural)]
pub enum Pulled {
    /// A new operation.
    Item,
    /// Nothing yet.
    Pending,
    /// The source has ended.
    Ended,
}

/// What the running operations gave when they were asked for a result.
#[derive(Clone, Copy, Debug, PartialEq, Eq, Structural)]
pub enum Finished {
    /// One operation has finished.
    Item,
    /// Operations are running, none has finished.
    Pending,
    /// No operation is running.
    Empty,
}

/// What a rate-limited stream answers when it is polled.
#[derive(Clone, Copy, Debug, PartialEq, Eq, Structural)]
pub enum Polled {
    /// The result of one operation.
    Item,
    /// Nothing yet.
    Pending,
    /// The stream has ended.
    Ended,
}

/// The bookkeeping of a stream of operations whose starts a throttle holds
/// back. The throttle is handed to each step, so several streams can share
/// one and observe one rate.
#[derive(Clone, Copy, Debug, PartialEq, Eq, Structural)]
pub struct RateLimited {
    in_progress: usize,
    reserved: bool,
    done: bool,
}

impl RateLimited {
    /// The number of operations that have started and not yet finished.
    pub closed spec fn in_progress(&self) -> usize {
        self.in_progress
    }

    /// Whether a permit is held for an operation that the source has yet to give.
    pub closed spec fn reserved(&self) -> bool {
        self.reserved
    }

    /// Whether the source has ended.
    pub closed spec fn source_done(&self) -> bool {
        self.done
    }

    pub fn new() -> (stream: Self)
        ensures
            stream.in_progress() == 0,
            !stream.reserved(),
            !stream.source_done(),
    {
        RateLimited { in_progress: 0, reserved: false, done: false }
    }

    /// Asks the throttle whether the next operation of the source may start:
    /// under a concurrency cap, while fewer operations than the cap are
    /// running; under a paced policy, by taking a permit. The source may be
    /// asked for an operation only where this returns `true`. Nothing is
    /// granted while an earlier grant is not yet answered with
    /// [`RateLimited::pulled`], or after the source has ended.
    pub fn reserve(&mut self, throttler: &mut Throttler) -> (go: bool)
        requires
            old(throttler).wf(),
        ensures
            final(throttler).wf(),
            final(throttler).policy() == old(throttler).policy(),
            go == (!old(self).reserved() && !old(self).source_done() && old(throttler).may_start(
                old(self).in_progress(),
                1,
            ) == 1),
            final(self).reserved() == (go || old(self).reserved()),
            match old(throttler).limiter() {
                Some(l) => final(throttler).limiter() matches Some(m) && m.available()
                    == l.available() - if go {
                    1int
                } else {
                    0int
                },
                None => final(throttler).limiter() is None,
            },
            final(self).in_progress() == old(self).in_progress(),
            final(self).source_done() == old(self).source_done(),
    {
        if self.done || self.reserved {
            return false;
        }
        let go = throttler.throttle(self.in_progress, 1) == 1;
        self.reserved = go;
        go
    }

    /// Records what the source gave after a grant. An operation starts, and
    /// keeps its permit; otherwise the permit goes back. Returns whether to
    /// reserve again. Without a grant nothing changes.
    pub fn pulled(&mut self, throttler: &mut Throttler, got: Pulled) -> (again: bool)
        requires
            old(throttler).wf(),
            old(self).in_progress() < usize::MAX,
        ensures
            final(throttler).wf(),
            final(throttler).policy() == old(throttler).policy(),
            !final(self).reserved(),
            again == (old(self).reserved() && got == Pulled::Item),
            final(self).in_progress() == old(self).in_progress() + if again {
                1int
            } else {
                0int
            },
            final(self).source_done() == (old(self).source_done() || (old(self).reserved() && got
                == Pulled::Ended)),
            match old(throttler).limiter() {
                Some(l) => final(throttler).limiter() matches Some(m) && m.available() == if old(self).reserved() && got != Pulled::Item && l.available() < l.capacity() {
                    (l.available() + 1) as usize
                } else {
                    l.available()
                },
                None => final(throttler).limiter() is None,
            },
    {
        if !self.reserved {
            return false;
        }
        self.reserved = false;
        match got {
            Pulled::Item => {
                self.in_progress = self.in_progress + 1;
                true
            },
            Pulled::Pending => {
                throttler.give_back();
                false
            },
            Pulled::Ended => {
                throttler.give_back();
                self.done = true;
                false
            },
        }
    }

    /// What a poll of the running operations stands for.
    pub open spec fn answer(&self, queue: Finished) -> Polled {
        match queue {
            Finished::Item => Polled::Item,
            Finished::Pending => Polled::Pending,
            Finished::Empty => if self.source_done() {
                Polled::Ended
            } else {
                Polled::Pending
            },
        }
    }

    /// Answers a poll, given what the running operations gave: a finished
    /// operation is handed on; with none running, the stream has ended only
    /// where the source has.
    pub fn poll_next(&mut self, queue: Finished) -> (polled: Polled)
        ensures
            polled == old(self).answer(queue),
            final(self).in_progress() == if queue == Finished::Item && old(self).in_progress() >= 1 {
                (old(self).in_progress() - 1) as usize
            } else {
                old(self).in_progress()
            },
            final(self).reserved() == old(self).reserved(),
            final(self).source_done() == old(self).source_done(),
    {
        match queue {
            Finished::Item => {
                if self.in_progress >= 1 {
                    self.in_progress = self.in_progress - 1;
                }
                Polled::Item
            },
            Finished::Pending => Polled::Pending,
            Finished::Empty => if self.done {
                Polled::Ended
            } else {
                Polled::Pending
            },
        }
    }

    /// The bounds on the number of results still to come, from the bounds of
    /// the source: each running operation adds one to both. The lower bound
    /// stops at the largest number; the upper bound is unknown beyond it.
    pub fn size_hint(&self, source: (usize, Option<usize>)) -> (hint: (usize, Option<usize>))
        ensures
            hint.0 == if source.0 + self.in_progress() <= usize::MAX {
                (source.0 + self.in_progress()) as usize
            } else {
                usize::MAX
            },
            hint.1 == match source.1 {
                Some(x) => if x + self.in_progress() <= usize::MAX {
                    Some((x + self.in_progress()) as usize)
                } else {
                    None
                },
                None => None,
            },
    {
        let queue_len = self.in_progress;
        let lower = source.0.saturating_add(queue_len);
        let upper = match source.1 {
            Some(x) => x.checked_add(queue_len),
            None => None,
        };
        (lower, upper)
    }

    /// True once the source has ended and no operation is running.
    pub fn is_terminated(&self) -> (over: bool)
        ensures
            over == (self.source_done() && self.in_progress() == 0),
    {
        self.done && self.in_progress == 0
    }
}

} // verus!
