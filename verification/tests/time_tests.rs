use wstd::host::{Host, StreamRead, StreamStatus};
use wstd::runtime::{block_on, try_block_on, Poll, Reactor, RtFuture, RuntimeError};
use wstd::time::{interval, Duration, Instant, SystemTime, Timer, Wait};

/// A host whose clock jumps straight to the earliest deadline of the polled
/// clock subscriptions.
struct SimHost {
    now_ns: u64,
    next: u64,
    timers: Vec<(u64, u64)>,
}

impl SimHost {
    fn new() -> SimHost {
        SimHost { now_ns: 1_000, next: 1, timers: Vec::new() }
    }

    fn fresh(&mut self) -> u64 {
        let h = self.next;
        self.next += 1;
        h
    }

    fn deadline_of(&self, handle: u64) -> Option<u64> {
        self.timers.iter().find(|t| t.0 == handle).map(|t| t.1)
    }
}

impl Host for SimHost {
    fn now(&self) -> u64 {
        self.now_ns
    }

    fn wall_now(&self) -> (u64, u32) {
        (1_700_000_000, 500)
    }

    fn block_until_ready(&mut self, handles: &Vec<u64>) -> Vec<usize> {
        if handles.is_empty() {
            return Vec::new();
        }
        let mut earliest: Option<u64> = None;
        for h in handles.iter() {
            if let Some(dl) = self.deadline_of(*h) {
                earliest = Some(match earliest {
                    None => dl,
                    Some(b) => {
                        if dl < b {
                            dl
                        } else {
                            b
                        }
                    },
                });
            }
        }
        if let Some(b) = earliest {
            if b > self.now_ns {
                self.now_ns = b;
            }
        }
        let mut ready = Vec::new();
        for (i, h) in handles.iter().enumerate() {
            if let Some(dl) = self.deadline_of(*h) {
                if dl <= self.now_ns {
                    ready.push(i);
                }
            }
        }
        if ready.is_empty() {
            ready.push(0);
        }
        ready
    }

    fn dispose(&mut self, handle: u64) {
        self.timers.retain(|t| t.0 != handle);
    }

    fn subscribe_at(&mut self, deadline: u64) -> u64 {
        let h = self.fresh();
        self.timers.push((h, deadline));
        h
    }

    fn subscribe_after(&mut self, duration: u64) -> u64 {
        let h = self.fresh();
        let dl = self.now_ns + duration;
        self.timers.push((h, dl));
        h
    }

    fn splice(&mut self, _dest: u64, _src: u64, _max: u64) -> StreamStatus {
        StreamStatus::Closed
    }

    fn skip(&mut self, _src: u64, _max: u64) -> StreamStatus {
        StreamStatus::Closed
    }

    fn write_constant(&mut self, _dest: u64, _byte: u8, _max: u64) -> StreamStatus {
        StreamStatus::Closed
    }

    fn read_stream(&mut self, _src: u64, _max: u64) -> StreamRead {
        StreamRead::Closed
    }

    fn write_stream(&mut self, _dest: u64, _data: &[u8]) -> StreamStatus {
        StreamStatus::Closed
    }
}

fn debug_duration(what: &str, start: Instant, end: Instant) {
    let d = end.duration_since(start);
    let secs = d.as_nanos() as f32 / 1_000_000_000.0;
    println!("{what} awaited for {} s", secs);
}

#[test]
fn timer_now() {
    let mut r = Reactor::new(SimHost::new());
    let start = Instant::now(&r);
    let timer = Timer::at(&mut r, start);
    let got = block_on(&mut r, timer.wait(), 16);
    let end = got.expect("a due timer resolves");
    debug_duration("timer_now", start, end);
    assert!(end.as_nanos() >= start.as_nanos());
}

#[test]
fn timer_after_100_milliseconds() {
    let mut r = Reactor::new(SimHost::new());
    let start = Instant::now(&r);
    let timer = Timer::after(&mut r, Duration::from_millis(100));
    let got = block_on(&mut r, timer.wait(), 16);
    let end = got.expect("a 100 ms timer resolves");
    debug_duration("timer_after_100_milliseconds", start, end);
    assert!(end.as_nanos() >= start.as_nanos() + 100_000_000);
}

/// A future racing two timer waits; completes with which side won.
struct Race {
    never: Wait,
    short: Wait,
}

impl RtFuture<SimHost> for Race {
    type Output = u8;

    fn poll(&mut self, r: &mut Reactor<SimHost>) -> Poll<u8> {
        if let Poll::Ready(_) = self.never.poll(r) {
            return Poll::Ready(1);
        }
        if let Poll::Ready(_) = self.short.poll(r) {
            return Poll::Ready(2);
        }
        Poll::Pending
    }
}

#[test]
fn never_timer_loses_every_race() {
    let mut r = Reactor::new(SimHost::new());
    let never = Timer::never();
    let short = Timer::after(&mut r, Duration::from_millis(1));
    let race = Race { never: never.wait(), short: short.wait() };
    let winner = block_on(&mut r, race, 16);
    assert_eq!(winner, Some(2));
}

#[test]
fn never_timer_never_resolves_within_bounded_rounds() {
    let mut r = Reactor::new(SimHost::new());
    let never = Timer::never();
    let got = block_on(&mut r, never.wait(), 50);
    assert!(got.is_none());
}

#[test]
fn interval_instants_grow_by_at_least_the_period() {
    let mut r = Reactor::new(SimHost::new());
    let iv = interval(Duration::from_millis(50));
    let mut instants: Vec<u64> = Vec::new();
    for _ in 0..3 {
        let mut tick = iv.next(&mut r);
        let i = loop {
            match tick.poll_tick(&mut r) {
                Poll::Ready(i) => break i,
                Poll::Pending => r.drive_round(),
            }
        };
        instants.push(i.as_nanos());
    }
    assert!(instants[1] >= instants[0] + 50_000_000);
    assert!(instants[2] >= instants[1] + 50_000_000);
    assert!(instants[0] < instants[1] && instants[1] < instants[2]);
}

/// A future awaiting two independently scheduled timers, releasing each as it
/// is observed; completes with the instant at which the later was seen.
struct BothTimers {
    a: Timer,
    b: Timer,
    got_a: bool,
    got_b: bool,
}

impl RtFuture<SimHost> for BothTimers {
    type Output = Instant;

    fn poll(&mut self, r: &mut Reactor<SimHost>) -> Poll<Instant> {
        if !self.got_a {
            if let Poll::Ready(_) = self.a.wait().poll_timer(r) {
                self.got_a = true;
                self.a.cancel(r);
            }
        }
        if !self.got_b {
            if let Poll::Ready(_) = self.b.wait().poll_timer(r) {
                self.got_b = true;
                self.b.cancel(r);
            }
        }
        if self.got_a && self.got_b {
            Poll::Ready(Instant::now(r))
        } else {
            Poll::Pending
        }
    }
}

#[test]
fn two_timers_complete_at_the_later_deadline() {
    let mut r = Reactor::new(SimHost::new());
    let start = Instant::now(&r);
    let ta = Timer::after(&mut r, Duration::from_millis(50));
    let tb = Timer::after(&mut r, Duration::from_millis(100));
    let fut = BothTimers { a: ta, b: tb, got_a: false, got_b: false };
    let end = block_on(&mut r, fut, 16).expect("both timers resolve");
    assert!(end.as_nanos() >= start.as_nanos() + 100_000_000);
    // no later than the 100 ms deadline plus one scheduling round of slack
    assert!(end.as_nanos() <= start.as_nanos() + 100_000_000 + 1_000_000);
}

/// A future that re-enters the driver on the reactor that is driving it.
struct Reentrant;

impl RtFuture<SimHost> for Reentrant {
    type Output = Result<Option<Instant>, RuntimeError>;

    fn poll(&mut self, r: &mut Reactor<SimHost>) -> Poll<Self::Output> {
        let inner = Timer::never();
        Poll::Ready(try_block_on(r, inner.wait(), 4))
    }
}

#[test]
fn reentrant_driver_invocation_fails_deterministically() {
    let mut r = Reactor::new(SimHost::new());
    let out = block_on(&mut r, Reentrant, 4);
    assert!(matches!(out, Some(Err(RuntimeError::Reentrant))));
    // the reactor is intact: a later ordinary invocation still works
    let t = Timer::after(&mut r, Duration::from_millis(1));
    assert!(block_on(&mut r, t.wait(), 16).is_some());
}

#[test]
fn dropped_binding_is_never_referenced_again() {
    let mut r = Reactor::new(SimHost::new());
    // a binding given up before it is ready is deregistered with its handle
    let doomed = Timer::after(&mut r, Duration::from_millis(5));
    let key = doomed.wait().key_of().expect("a subscribed timer has a key");
    let mut doomed = doomed;
    doomed.cancel(&mut r);
    assert!(!r.is_registered(key));
    // a later driving round still works and never signals the retired key
    let live = Timer::after(&mut r, Duration::from_millis(1));
    let got = block_on(&mut r, live.wait(), 16);
    assert!(got.is_some());
    assert!(!r.is_registered(key));
}

#[test]
fn set_after_replaces_the_pending_subscription() {
    let mut r = Reactor::new(SimHost::new());
    let mut t = Timer::after(&mut r, Duration::from_millis(500));
    let old_key = t.wait().key_of().expect("subscribed");
    t.set_after(&mut r, Duration::from_millis(1));
    assert!(!r.is_registered(old_key));
    let got = block_on(&mut r, t.wait(), 16);
    assert!(got.is_some());
}

#[test]
fn wall_clock_reading_is_passed_through() {
    let r = Reactor::new(SimHost::new());
    let t = SystemTime::now(&r);
    assert_eq!(t.seconds, 1_700_000_000);
    assert_eq!(t.nanoseconds, 500);
}
