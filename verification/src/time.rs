//! Async time: durations, instants, one-shot timers and repeating intervals,
//! all built on clock subscriptions driven through the reactor.

use vstd::prelude::*;
use crate::host::{Host, streams_preserved, timers_preserved};
use crate::runtime::{AsyncPollable, BindingState, Poll, Reactor, RtFuture, WaitFor};

verus! {

/// A span of time, in nanoseconds.
#[derive(Clone, Copy, Debug, PartialEq, Eq, Structural)]
pub struct Duration {
    nanos: u64,
}

impl View for Duration {
    type V = nat;

    closed spec fn view(&self) -> nat {
        self.nanos as nat
    }
}

impl Duration {
    /// A duration of the given number of nanoseconds.
    pub fn from_nanos(nanos: u64) -> (d: Duration)
        ensures
            d@ == nanos as nat,
    {
        Duration { nanos }
    }

    /// A duration of the given number of milliseconds.
    pub fn from_millis(millis: u64) -> (d: Duration)
        requires
            millis as nat * 1_000_000 <= u64::MAX as nat,
        ensures
            d@ == millis as nat * 1_000_000,
    {
        Duration { nanos: millis * 1_000_000 }
    }

    /// A duration of the given number of seconds.
    pub fn from_secs(secs: u64) -> (d: Duration)
        requires
            secs as nat * 1_000_000_000 <= u64::MAX as nat,
        ensures
            d@ == secs as nat * 1_000_000_000,
    {
        Duration { nanos: secs * 1_000_000_000 }
    }

    /// This duration in nanoseconds.
    pub fn as_nanos(&self) -> (n: u64)
        ensures
            n as nat == self@,
    {
        self.nanos
    }
}

/// A reading of the host's monotonic clock, in nanoseconds.
#[derive(Clone, Copy, Debug, PartialEq, Eq, Structural)]
pub struct Instant {
    nanos: u64,
}

impl View for Instant {
    type V = nat;

    closed spec fn view(&self) -> nat {
        self.nanos as nat
    }
}

impl Instant {
    /// The current reading of the monotonic clock.
    pub fn now<H: Host>(r: &Reactor<H>) -> (i: Instant)
        ensures
            i@ == r.host_model().clock(),
    {
        Instant { nanos: r.now() }
    }

    /// The time elapsed from `earlier` to this instant.
    pub fn duration_since(&self, earlier: Instant) -> (d: Duration)
        requires
            earlier@ <= self@,
        ensures
            d@ == self@ - earlier@,
    {
        Duration { nanos: self.nanos - earlier.nanos }
    }

    /// This instant as nanoseconds on the monotonic clock.
    pub fn as_nanos(&self) -> (n: u64)
        ensures
            n as nat == self@,
    {
        self.nanos
    }
}

/// A measurement of the wall clock, useful for talking to external entities
/// like the file system or other processes. The wall clock may jump either
/// way; nothing is promised of it.
#[derive(Clone, Copy, Debug, PartialEq, Eq, Structural)]
pub struct SystemTime {
    /// Whole seconds since the epoch.
    pub seconds: u64,
    /// Nanoseconds within the second.
    pub nanoseconds: u32,
}

impl SystemTime {
    /// The current reading of the wall clock.
    pub fn now<H: Host>(r: &Reactor<H>) -> SystemTime {
        let t = r.wall_now();
        SystemTime { seconds: t.0, nanoseconds: t.1 }
    }
}

/// A one-shot timer: either never fires, or holds the binding of one clock
/// subscription. At most one subscription is pending per timer value.
pub struct Timer {
    binding: Option<AsyncPollable>,
    due: Ghost<nat>,
}

impl Timer {
    /// The reactor key of the pending subscription, if there is one.
    pub closed spec fn binding_key(&self) -> Option<u64> {
        match self.binding {
            Some(p) => Some(p.key_id()),
            None => None,
        }
    }

    /// The clock reading this timer is due at.
    pub closed spec fn deadline(&self) -> nat {
        self.due@
    }

    /// A timer with a binding holds a live key whose recorded deadline is the
    /// timer's own.
    pub open spec fn wf<H: Host>(&self, r: Reactor<H>) -> bool {
        match self.binding_key() {
            Some(key) => r.is_live(key) && r.timer_of(key) == Some(self.deadline()),
            None => true,
        }
    }

    /// A timer that never fires.
    pub fn never() -> (t: Timer)
        ensures
            t.binding_key() is None,
    {
        Timer { binding: None, due: Ghost(0) }
    }

    /// A timer due at the given absolute instant.
    pub fn at<H: Host>(r: &mut Reactor<H>, deadline: Instant) -> (t: Timer)
        requires
            old(r).inv(),
        ensures
            final(r).inv(),
            t.wf(*final(r)),
            t.binding_key() is Some,
            t.binding_key() matches Some(k) ==> k as nat == old(r).key_count(),
            t.deadline() == deadline@,
            final(r).key_count() == old(r).key_count() + 1,
            forall|k: u64|
                t.binding_key() != Some(k) ==> final(r).is_live(k) == old(r).is_live(k),
            forall|k: u64|
                t.binding_key() != Some(k) && old(r).is_live(k) ==> final(r).state_of(k) == old(r).state_of(k) && final(r).handle_of(k) == old(r).handle_of(k) && final(r).timer_of(
                    k,
                ) == old(r).timer_of(k),
            final(r).driving() == old(r).driving(),
            final(r).host_model().clock() == old(r).host_model().clock(),
            timers_preserved(old(r).host_model(), final(r).host_model()),
            streams_preserved(old(r).host_model(), final(r).host_model()),
    {
        let p = r.subscribe_at(deadline.nanos);
        Timer { binding: Some(p), due: Ghost(deadline.nanos as nat) }
    }

    /// A timer due once the given duration has elapsed from now.
    pub fn after<H: Host>(r: &mut Reactor<H>, duration: Duration) -> (t: Timer)
        requires
            old(r).inv(),
        ensures
            final(r).inv(),
            t.wf(*final(r)),
            t.binding_key() is Some,
            t.binding_key() matches Some(k) ==> k as nat == old(r).key_count(),
            t.deadline() == old(r).host_model().clock() + duration@,
            final(r).key_count() == old(r).key_count() + 1,
            forall|k: u64|
                t.binding_key() != Some(k) ==> final(r).is_live(k) == old(r).is_live(k),
            forall|k: u64|
                t.binding_key() != Some(k) && old(r).is_live(k) ==> final(r).state_of(k) == old(r).state_of(k) && final(r).handle_of(k) == old(r).handle_of(k) && final(r).timer_of(
                    k,
                ) == old(r).timer_of(k),
            final(r).driving() == old(r).driving(),
            final(r).host_model().clock() == old(r).host_model().clock(),
            timers_preserved(old(r).host_model(), final(r).host_model()),
            streams_preserved(old(r).host_model(), final(r).host_model()),
    {
        let ghost dl = r.host_model().clock() + duration@;
        let p = r.subscribe_after(duration.nanos);
        Timer { binding: Some(p), due: Ghost(dl) }
    }

    /// Replaces this timer in place with one due after the given duration,
    /// first giving up any pending subscription: at most one subscription is
    /// pending per timer.
    pub fn set_after<H: Host>(&mut self, r: &mut Reactor<H>, duration: Duration)
        requires
            old(r).inv(),
            old(self).wf(*old(r)),
        ensures
            final(r).inv(),
            final(self).wf(*final(r)),
            final(self).binding_key() is Some,
            final(self).deadline() == old(r).host_model().clock() + duration@,
            final(r).host_model().clock() == old(r).host_model().clock(),
            final(r).driving() == old(r).driving(),
            old(self).binding_key() matches Some(k) ==> !final(r).is_live(k),
            timers_preserved(old(r).host_model(), final(r).host_model()),
            streams_preserved(old(r).host_model(), final(r).host_model()),
    {
        proof {
            if let Some(k) = old(self).binding_key() {
                crate::runtime::lemma_live_key_bound(old(r), k);
            }
        }
        self.cancel(r);
        let fresh = Timer::after(r, duration);
        *self = fresh;
    }

    /// Gives up the pending subscription, if any: the binding is deregistered
    /// and its handle disposed. This is how a timer is cancelled.
    pub fn cancel<H: Host>(&mut self, r: &mut Reactor<H>)
        requires
            old(r).inv(),
            old(self).wf(*old(r)),
        ensures
            final(r).inv(),
            final(self).binding_key() is None,
            final(self).deadline() == old(self).deadline(),
            final(r).key_count() == old(r).key_count(),
            old(self).binding_key() matches Some(key) ==> !final(r).is_live(key),
            forall|k: u64|
                old(self).binding_key() != Some(k) ==> final(r).is_live(k) == old(r).is_live(k),
            forall|k: u64|
                old(self).binding_key() != Some(k) && old(r).is_live(k) ==> final(r).state_of(k)
                    == old(r).state_of(k) && final(r).handle_of(k) == old(r).handle_of(k) && final(r).timer_of(k) == old(r).timer_of(k),
            final(r).driving() == old(r).driving(),
            final(r).host_model().clock() == old(r).host_model().clock(),
            timers_preserved(old(r).host_model(), final(r).host_model()),
            streams_preserved(old(r).host_model(), final(r).host_model()),
    {
        match self.binding.take() {
            Some(p) => p.release(r),
            None => (),
        }
    }

    /// A future resolving to the instant at which the timer's readiness is
    /// observed; a timer with no subscription yields a future that never
    /// resolves.
    pub fn wait(&self) -> (w: Wait)
        ensures
            w.binding_key() == self.binding_key(),
            w.deadline() == self.deadline(),
    {
        match &self.binding {
            Some(p) => Wait { wait_for: Some(p.wait_for()), due: self.due },
            None => Wait { wait_for: None, due: self.due },
        }
    }
}

/// Future created by [`Timer::wait`]: pending until the binding's readiness is
/// observed, then ready with the current instant — never before the deadline.
pub struct Wait {
    wait_for: Option<WaitFor>,
    due: Ghost<nat>,
}

impl Wait {
    /// The reactor key this future waits on, if it waits on one at all.
    pub closed spec fn binding_key(&self) -> Option<u64> {
        match self.wait_for {
            Some(w) => Some(w.key_id()),
            None => None,
        }
    }

    /// The clock reading the underlying timer is due at.
    pub closed spec fn deadline(&self) -> nat {
        self.due@
    }

    /// The reactor key this future waits on, if it waits on one at all.
    pub fn key_of(&self) -> (k: Option<u64>)
        ensures
            k == self.binding_key(),
    {
        match &self.wait_for {
            Some(w) => Some(w.key()),
            None => None,
        }
    }

    /// Well-formed against a reactor: the key is live and carries the same
    /// recorded deadline.
    pub open spec fn wf<H: Host>(&self, r: Reactor<H>) -> bool {
        match self.binding_key() {
            Some(key) => r.is_live(key) && r.timer_of(key) == Some(self.deadline()),
            None => true,
        }
    }

    /// One poll, with the timer contract: a future over no binding never
    /// resolves, and a resolved future yields the current instant, which
    /// stands at or past the timer's deadline.
    pub fn poll_timer<H: Host>(&self, r: &mut Reactor<H>) -> (p: Poll<Instant>)
        requires
            old(r).inv(),
            self.wf(*old(r)),
        ensures
            final(r).inv(),
            self.wf(*final(r)),
            final(r).driving() == old(r).driving(),
            final(r).host_model() == old(r).host_model(),
            final(r).key_count() == old(r).key_count(),
            forall|k: u64| final(r).is_live(k) == old(r).is_live(k),
            forall|k: u64|
                self.binding_key() != Some(k) && old(r).is_live(k) ==> final(r).state_of(k) == old(r).state_of(k) && final(r).handle_of(k) == old(r).handle_of(k) && final(r).timer_of(
                    k,
                ) == old(r).timer_of(k),
            forall|k: u64|
                old(r).is_live(k) ==> final(r).handle_of(k) == old(r).handle_of(k) && final(r).timer_of(k) == old(r).timer_of(k),
            self.binding_key() is None ==> p is Pending && *final(r) == *old(r),
            self.binding_key() matches Some(k) ==> (p is Ready <==> old(r).state_of(
                k,
            ) is Ready),
            self.binding_key() matches Some(k) ==> final(r).state_of(k) == (match old(r).state_of(k) {
                BindingState::Idle => BindingState::Waiting,
                BindingState::Waiting => BindingState::Waiting,
                BindingState::Ready => BindingState::Done,
                BindingState::Done => BindingState::Done,
            }),
            p matches Poll::Ready(i) ==> i@ >= self.deadline() && i@ == final(r).host_model().clock(),
    {
        match &self.wait_for {
            None => Poll::Pending,
            Some(w) => {
                if w.poll_wait(r) {
                    let t = r.now();
                    Poll::Ready(Instant { nanos: t })
                } else {
                    Poll::Pending
                }
            },
        }
    }
}

impl<H: Host> RtFuture<H> for Wait {
    type Output = Instant;

    /// The driver's route into a timer wait: the future over no binding
    /// reports pending on this and every poll, readiness is observed exactly
    /// when the live binding's signal stands, and a resolved wait yields the
    /// current instant — at or past the recorded deadline.
    fn poll(&mut self, r: &mut Reactor<H>) -> (p: Poll<Instant>)
        ensures
            old(self).binding_key() is None ==> p is Pending && *final(r) == *old(r),
            old(self).binding_key() matches Some(k) ==> (!old(r).is_live(k) ==> p is Pending
                && *final(r) == *old(r)),
            old(self).binding_key() matches Some(k) ==> (old(r).is_live(k) ==> (p is Ready
                <==> old(r).state_of(k) is Ready)),
            old(self).binding_key() matches Some(k) ==> (old(r).is_live(k) ==> final(r).state_of(k) == (match old(r).state_of(k) {
                BindingState::Idle => BindingState::Waiting,
                BindingState::Waiting => BindingState::Waiting,
                BindingState::Ready => BindingState::Done,
                BindingState::Done => BindingState::Done,
            })),
            p matches Poll::Ready(i) ==> i@ == final(r).host_model().clock(),
            old(self).binding_key() matches Some(k) ==> ((old(r).is_live(k) && old(r).timer_of(k) == Some(old(self).deadline())) ==> (p matches Poll::Ready(i)
                ==> i@ >= old(self).deadline())),
            final(r).host_model() == old(r).host_model(),
    {
        match &self.wait_for {
            None => Poll::Pending,
            Some(w) => {
                let key = w.key();
                if r.is_registered(key) {
                    if r.poll_binding(key) {
                        let t = r.now();
                        Poll::Ready(Instant { nanos: t })
                    } else {
                        Poll::Pending
                    }
                } else {
                    Poll::Pending
                }
            },
        }
    }
}

/// An async iterator representing notifications at a fixed interval.
///
/// See the [`interval`] function for more.
#[derive(Clone, Copy, Debug)]
pub struct Interval {
    duration: Duration,
}

/// An async iterator representing notifications at a fixed interval: each
/// advancement subscribes a fresh timer for one period from the moment it is
/// asked, so periods are measured from each request, not aligned to the wall
/// clock.
pub fn interval(duration: Duration) -> (i: Interval)
    ensures
        i.period() == duration@,
{
    Interval { duration }
}

impl Interval {
    /// The nominal period between notifications, in nanoseconds.
    pub closed spec fn period(&self) -> nat {
        self.duration@
    }

    /// The next notification: a fresh one-period timer, subscribed now. Each
    /// call is independent; dropping the returned tick through
    /// [`Tick::cancel`] cancels only that tick.
    pub fn next<H: Host>(&self, r: &mut Reactor<H>) -> (t: Tick)
        requires
            old(r).inv(),
        ensures
            final(r).inv(),
            t.wf(*final(r)),
            t.deadline() == old(r).host_model().clock() + self.period(),
            final(r).driving() == old(r).driving(),
            final(r).host_model().clock() == old(r).host_model().clock(),
            timers_preserved(old(r).host_model(), final(r).host_model()),
            streams_preserved(old(r).host_model(), final(r).host_model()),
    {
        Tick { timer: Timer::after(r, self.duration) }
    }
}

/// One pending interval notification: a future resolving to the instant its
/// one-period timer is observed ready, releasing the subscription as it
/// resolves.
pub struct Tick {
    timer: Timer,
}

impl Tick {
    /// The reactor key of the tick's pending subscription, if any.
    pub closed spec fn binding_key(&self) -> Option<u64> {
        self.timer.binding_key()
    }

    /// The clock reading this tick is due at.
    pub closed spec fn deadline(&self) -> nat {
        self.timer.deadline()
    }

    /// Well-formed against a reactor.
    pub closed spec fn wf<H: Host>(&self, r: Reactor<H>) -> bool {
        self.timer.wf(r)
    }

    /// One poll: pending until the tick's timer is observed ready, then ready
    /// with the current instant — never before the deadline — and the
    /// subscription is released.
    pub fn poll_tick<H: Host>(&mut self, r: &mut Reactor<H>) -> (p: Poll<Instant>)
        requires
            old(r).inv(),
            old(self).wf(*old(r)),
        ensures
            final(r).inv(),
            final(self).wf(*final(r)),
            final(self).deadline() == old(self).deadline(),
            final(r).driving() == old(r).driving(),
            final(r).host_model().clock() == old(r).host_model().clock(),
            timers_preserved(old(r).host_model(), final(r).host_model()),
            streams_preserved(old(r).host_model(), final(r).host_model()),
            old(self).binding_key() is None ==> p is Pending && *final(r) == *old(r),
            old(self).binding_key() matches Some(k) ==> (p is Ready <==> old(r).state_of(
                k,
            ) is Ready),
            p is Ready ==> final(self).binding_key() is None,
            old(self).binding_key() matches Some(k) ==> (p is Ready ==> !final(r).is_live(
                k)),
            old(self).binding_key() matches Some(k) ==> (p is Pending ==> final(r).is_live(
                k) && final(r).state_of(k) == (match old(r).state_of(k) {
                BindingState::Idle => BindingState::Waiting,
                BindingState::Waiting => BindingState::Waiting,
                BindingState::Ready => BindingState::Done,
                BindingState::Done => BindingState::Done,
            })),
            p matches Poll::Ready(i) ==> i@ >= old(self).deadline() && i@ == final(r).host_model().clock(),
    {
        let w = self.timer.wait();
        match w.poll_timer(r) {
            Poll::Ready(i) => {
                self.timer.cancel(r);
                Poll::Ready(i)
            },
            Poll::Pending => Poll::Pending,
        }
    }

    /// Gives the tick up without waiting for it: cancels its subscription.
    pub fn cancel<H: Host>(&mut self, r: &mut Reactor<H>)
        requires
            old(r).inv(),
            old(self).wf(*old(r)),
        ensures
            final(r).inv(),
            final(r).host_model().clock() == old(r).host_model().clock(),
            timers_preserved(old(r).host_model(), final(r).host_model()),
            streams_preserved(old(r).host_model(), final(r).host_model()),
    {
        self.timer.cancel(r);
    }
}

/// An interval never runs ahead: a tick subscribed no earlier than the
/// previous notification's instant resolves at least one period after that
/// instant, so the sequence of notifications grows by at least the period
/// each step.
pub proof fn lemma_interval_monotone(prev: nat, started: nat, period: nat, tick: nat)
    requires
        prev <= started,
        started + period <= tick,
    ensures
        prev + period <= tick,
        period > 0 ==> prev < tick,
{
}

} // verus!
