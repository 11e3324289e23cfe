//! The event loop: a reactor multiplexing waitable handles, pollable bindings,
//! and the blocking driver.
//!
//! Suspension is an explicit state machine. Each registered handle owns a
//! binding that moves through four states: registered with no poller yet, a
//! poller waiting, readiness signalled but not yet observed, and signal
//! consumed. One round of driving batch-polls every registered handle and
//! signals the ready ones; the driver alternates between polling the one root
//! future and driving rounds until the future completes.

use vstd::prelude::*;
use crate::host::{Host, streams_preserved, timers_preserved};
use vstd::std_specs::vec::vec_index_mut;

verus! {

/// The result of polling a future: finished with its output, or suspended.
pub enum Poll<T> {
    /// The future completed with this value.
    Ready(T),
    /// The future is waiting on at least one registered binding.
    Pending,
}

/// The suspension state of one registered binding.
#[derive(Clone, Copy, Debug, PartialEq, Eq, Structural)]
pub enum BindingState {
    /// Registered; no poller has recorded interest yet.
    Idle,
    /// The most recent poller recorded interest and suspended.
    Waiting,
    /// The handle was reported ready; no poller has observed that yet.
    Ready,
    /// The one readiness signal was consumed: reported ready exactly once.
    Done,
}

struct BindingSlot {
    handle: u64,
    state: BindingState,
    /// The deadline of the clock subscription behind this binding, where the
    /// binding was made for one; readiness then implies the deadline passed.
    timer: Ghost<Option<nat>>,
}

/// The reactor: a growable table of registered waitable handles, each coupled
/// to its binding state, plus the host that backs them. Keys index the table
/// and are never reused while live; a deregistered key stays retired.
pub struct Reactor<H: Host> {
    host: H,
    slots: Vec<Option<BindingSlot>>,
    driving: bool,
}

impl<H: Host> Reactor<H> {
    /// The host behind this reactor, as a model value.
    pub closed spec fn host_model(&self) -> H {
        self.host
    }

    /// How many keys were ever handed out.
    pub closed spec fn key_count(&self) -> nat {
        self.slots@.len()
    }

    /// Whether `key` is registered and not yet deregistered.
    pub closed spec fn is_live(&self, key: u64) -> bool {
        key < self.slots@.len() && self.slots@[key as int] is Some
    }

    /// The binding state of a live key.
    pub closed spec fn state_of(&self, key: u64) -> BindingState {
        self.slots@[key as int].unwrap().state
    }

    /// The waitable handle a live key stands for.
    pub closed spec fn handle_of(&self, key: u64) -> u64 {
        self.slots@[key as int].unwrap().handle
    }

    /// The deadline recorded for a live key's clock subscription, if it was
    /// registered as one.
    pub closed spec fn timer_of(&self, key: u64) -> Option<nat> {
        self.slots@[key as int].unwrap().timer@
    }

    /// Whether a driver invocation is active on this reactor.
    pub closed spec fn driving(&self) -> bool {
        self.driving
    }

    /// A live binding made for a clock subscription keeps pointing at a live
    /// subscription with its recorded deadline — and once its readiness was
    /// signalled, the clock stands at or past that deadline.
    pub open spec fn slot_ok(&self, k: u64) -> bool {
        match self.timer_of(k) {
            Some(dl) => {
                &&& self.host_model().is_timer(self.handle_of(k))
                &&& self.host_model().timer_deadline(self.handle_of(k)) == dl
                &&& ((self.state_of(k) is Ready || self.state_of(k) is Done)
                    ==> dl <= self.host_model().clock())
            },
            None => true,
        }
    }

    /// The reactor's invariant: every live binding is in order.
    pub open spec fn inv(&self) -> bool {
        forall|k: u64| #[trigger] self.is_live(k) ==> self.slot_ok(k)
    }

    /// A reactor over the given host, with nothing registered and no driver
    /// active.
    pub fn new(host: H) -> (r: Reactor<H>)
        ensures
            r.inv(),
            r.key_count() == 0,
            !r.driving(),
            r.host_model() == host,
    {
        Reactor { host, slots: Vec::new(), driving: false }
    }

    /// Takes the reactor apart, returning its host.
    pub fn into_host(self) -> (h: H)
        ensures
            h == self.host_model(),
    {
        self.host
    }

    /// Reads the host's monotonic clock.
    pub fn now(&self) -> (t: u64)
        ensures
            t as nat == self.host_model().clock(),
    {
        self.host.now()
    }

    /// Reads the host's wall clock: seconds since the epoch, plus nanoseconds.
    pub fn wall_now(&self) -> (t: (u64, u32)) {
        self.host.wall_now()
    }

    /// Whether a driver invocation is active on this reactor.
    pub fn is_driving(&self) -> (b: bool)
        ensures
            b == self.driving(),
    {
        self.driving
    }

    /// Whether `key` is registered and not yet deregistered.
    pub fn is_registered(&self, key: u64) -> (b: bool)
        ensures
            b == self.is_live(key),
    {
        if key >= self.slots.len() as u64 {
            false
        } else {
            self.slots[key as usize].is_some()
        }
    }

    /// Whether any binding is still registered.
    pub fn has_registered(&self) -> (b: bool)
        ensures
            b == exists|k: u64| self.is_live(k),
    {
        let n = self.slots.len();
        let mut i: usize = 0;
        while i < n
            invariant
                i <= n,
                n == self.slots@.len(),
                forall|j: int| 0 <= j < i ==> !(self.slots@[j] is Some),
            decreases n - i,
        {
            if self.slots[i].is_some() {
                proof {
                    assert(self.is_live(i as u64));
                }
                return true;
            }
            i = i + 1;
        }
        proof {
            assert forall|k: u64| !self.is_live(k) by {
                if k < self.slots@.len() {
                    assert(!(self.slots@[k as int] is Some));
                }
            }
        }
        false
    }

    /// Inserts a handle with no waiter and returns its fresh key.
    pub fn register(&mut self, handle: u64) -> (key: u64)
        requires
            old(self).inv(),
        ensures
            final(self).inv(),
            key as nat == old(self).key_count(),
            final(self).key_count() == old(self).key_count() + 1,
            final(self).is_live(key),
            final(self).state_of(key) is Idle,
            final(self).handle_of(key) == handle,
            final(self).timer_of(key) is None,
            forall|k: u64| k != key ==> final(self).is_live(k) == old(self).is_live(k),
            forall|k: u64|
                k != key && old(self).is_live(k) ==> final(self).state_of(k) == old(self).state_of(
                    k,
                ) && final(self).handle_of(k) == old(self).handle_of(k) && final(self).timer_of(k)
                    == old(self).timer_of(k),
            final(self).driving() == old(self).driving(),
            final(self).host_model() == old(self).host_model(),
    {
        let key = self.slots.len() as u64;
        self.slots.push(
            Some(BindingSlot { handle, state: BindingState::Idle, timer: Ghost(None) }),
        );
        proof {
            assert forall|k: u64| #[trigger] self.is_live(k) implies self.slot_ok(k) by {
                if (k as int) < old(self).slots@.len() {
                    assert(old(self).is_live(k));
                    assert(old(self).slot_ok(k));
                    assert(self.slots@[k as int] == old(self).slots@[k as int]);
                }
            }
        }
        key
    }

    /// Registers a handle and wraps its key as a pollable binding.
    pub fn schedule(&mut self, handle: u64) -> (p: AsyncPollable)
        requires
            old(self).inv(),
        ensures
            final(self).inv(),
            p.key_id() as nat == old(self).key_count(),
            final(self).key_count() == old(self).key_count() + 1,
            final(self).is_live(p.key_id()),
            final(self).state_of(p.key_id()) is Idle,
            final(self).handle_of(p.key_id()) == handle,
            final(self).timer_of(p.key_id()) is None,
            forall|k: u64| k != p.key_id() ==> final(self).is_live(k) == old(self).is_live(k),
            forall|k: u64|
                k != p.key_id() && old(self).is_live(k) ==> final(self).state_of(k) == old(self).state_of(k) && final(self).handle_of(k) == old(self).handle_of(k) && final(self).timer_of(k) == old(self).timer_of(k),
            final(self).driving() == old(self).driving(),
            final(self).host_model() == old(self).host_model(),
    {
        let key = self.register(handle);
        AsyncPollable { key }
    }

    /// Subscribes a clock handle for the given absolute deadline and registers
    /// it, recording the deadline against the binding.
    pub fn subscribe_at(&mut self, deadline: u64) -> (p: AsyncPollable)
        requires
            old(self).inv(),
        ensures
            final(self).inv(),
            p.key_id() as nat == old(self).key_count(),
            final(self).key_count() == old(self).key_count() + 1,
            final(self).is_live(p.key_id()),
            final(self).state_of(p.key_id()) is Idle,
            final(self).timer_of(p.key_id()) == Some(deadline as nat),
            forall|k: u64| k != p.key_id() ==> final(self).is_live(k) == old(self).is_live(k),
            forall|k: u64|
                k != p.key_id() && old(self).is_live(k) ==> final(self).state_of(k) == old(self).state_of(k) && final(self).handle_of(k) == old(self).handle_of(k) && final(self).timer_of(k) == old(self).timer_of(k),
            final(self).driving() == old(self).driving(),
            final(self).host_model().clock() == old(self).host_model().clock(),
            timers_preserved(old(self).host_model(), final(self).host_model()),
            streams_preserved(old(self).host_model(), final(self).host_model()),
    {
        let h = self.host.subscribe_at(deadline);
        let key = self.slots.len() as u64;
        self.slots.push(
            Some(
                BindingSlot {
                    handle: h,
                    state: BindingState::Idle,
                    timer: Ghost(Some(deadline as nat)),
                },
            ),
        );
        proof {
            assert forall|k: u64| #[trigger] self.is_live(k) implies self.slot_ok(k) by {
                if (k as int) < old(self).slots@.len() {
                    assert(old(self).is_live(k));
                    assert(old(self).slot_ok(k));
                    assert(self.slots@[k as int] == old(self).slots@[k as int]);
                }
            }
        }
        AsyncPollable { key }
    }

    /// Subscribes a clock handle for the given delay from now and registers
    /// it, recording the resulting deadline against the binding.
    pub fn subscribe_after(&mut self, duration: u64) -> (p: AsyncPollable)
        requires
            old(self).inv(),
        ensures
            final(self).inv(),
            p.key_id() as nat == old(self).key_count(),
            final(self).key_count() == old(self).key_count() + 1,
            final(self).is_live(p.key_id()),
            final(self).state_of(p.key_id()) is Idle,
            final(self).timer_of(p.key_id()) == Some(
                old(self).host_model().clock() + duration as nat,
            ),
            forall|k: u64| k != p.key_id() ==> final(self).is_live(k) == old(self).is_live(k),
            forall|k: u64|
                k != p.key_id() && old(self).is_live(k) ==> final(self).state_of(k) == old(self).state_of(k) && final(self).handle_of(k) == old(self).handle_of(k) && final(self).timer_of(k) == old(self).timer_of(k),
            final(self).driving() == old(self).driving(),
            final(self).host_model().clock() == old(self).host_model().clock(),
            timers_preserved(old(self).host_model(), final(self).host_model()),
            streams_preserved(old(self).host_model(), final(self).host_model()),
    {
        let h = self.host.subscribe_after(duration);
        let ghost dl = self.host.clock() + duration as nat;
        let key = self.slots.len() as u64;
        self.slots.push(
            Some(BindingSlot { handle: h, state: BindingState::Idle, timer: Ghost(Some(dl)) }),
        );
        proof {
            assert forall|k: u64| #[trigger] self.is_live(k) implies self.slot_ok(k) by {
                if (k as int) < old(self).slots@.len() {
                    assert(old(self).is_live(k));
                    assert(old(self).slot_ok(k));
                    assert(self.slots@[k as int] == old(self).slots@[k as int]);
                }
            }
        }
        AsyncPollable { key }
    }

    /// Removes a live key and disposes its handle. The key is retired: a
    /// later driving round can never signal, nor even reference, it again.
    pub fn deregister(&mut self, key: u64)
        requires
            old(self).inv(),
            old(self).is_live(key),
        ensures
            final(self).inv(),
            final(self).key_count() == old(self).key_count(),
            !final(self).is_live(key),
            forall|k: u64| k != key ==> final(self).is_live(k) == old(self).is_live(k),
            forall|k: u64|
                k != key && old(self).is_live(k) ==> final(self).state_of(k) == old(self).state_of(
                    k,
                ) && final(self).handle_of(k) == old(self).handle_of(k) && final(self).timer_of(k)
                    == old(self).timer_of(k),
            final(self).driving() == old(self).driving(),
            final(self).host_model().clock() == old(self).host_model().clock(),
            timers_preserved(old(self).host_model(), final(self).host_model()),
            streams_preserved(old(self).host_model(), final(self).host_model()),
    {
        let n = self.slots.len();
        let handle: u64 = match &self.slots[key as usize] {
            Some(slot) => slot.handle,
            None => 0,
        };
        self.host.dispose(handle);
        *vec_index_mut(&mut self.slots, key as usize) = None;
        proof {
            assert forall|k: u64| #[trigger] self.is_live(k) implies self.slot_ok(k) by {
                if k != key {
                    assert(self.slots@[k as int] == old(self).slots@[k as int]);
                }
                assert(old(self).is_live(k));
                assert(old(self).slot_ok(k));
            }
        }
    }

    /// One poll of a live binding: observes readiness exactly once, and
    /// otherwise records the poller as the one waiting (the most recent poller
    /// wins). A binding whose signal was already consumed reports not ready.
    pub fn poll_binding(&mut self, key: u64) -> (ready: bool)
        requires
            old(self).inv(),
            old(self).is_live(key),
        ensures
            final(self).inv(),
            ready == (old(self).state_of(key) is Ready),
            final(self).state_of(key) == (match old(self).state_of(key) {
                BindingState::Idle => BindingState::Waiting,
                BindingState::Waiting => BindingState::Waiting,
                BindingState::Ready => BindingState::Done,
                BindingState::Done => BindingState::Done,
            }),
            final(self).key_count() == old(self).key_count(),
            forall|k: u64| final(self).is_live(k) == old(self).is_live(k),
            final(self).handle_of(key) == old(self).handle_of(key),
            final(self).timer_of(key) == old(self).timer_of(key),
            forall|k: u64|
                k != key && old(self).is_live(k) ==> final(self).state_of(k) == old(self).state_of(
                    k,
                ) && final(self).handle_of(k) == old(self).handle_of(k) && final(self).timer_of(k)
                    == old(self).timer_of(k),
            final(self).driving() == old(self).driving(),
            final(self).host_model() == old(self).host_model(),
    {
        let n = self.slots.len();
        let slot = vec_index_mut(&mut self.slots, key as usize);
        let taken = slot.take();
        let ready: bool;
        match taken {
            Some(s) => {
                let next = match s.state {
                    BindingState::Ready => BindingState::Done,
                    BindingState::Done => BindingState::Done,
                    _ => BindingState::Waiting,
                };
                ready = matches!(s.state, BindingState::Ready);
                *slot = Some(BindingSlot { handle: s.handle, state: next, timer: s.timer });
            },
            None => {
                ready = false;
            },
        }
        proof {
            assert forall|k: u64| #[trigger] self.is_live(k) implies self.slot_ok(k) by {
                if k != key {
                    assert(self.slots@[k as int] == old(self).slots@[k as int]);
                }
                assert(old(self).is_live(k));
                assert(old(self).slot_ok(k));
            }
        }
        ready
    }

    /// One driving round: batch-polls every registered handle through the
    /// host, blocking until at least one is ready, and signals the bindings
    /// the host reported. Signalled entries stay in place; observing and
    /// retiring them is the pollers' business. Must not be called with nothing
    /// registered: every waiter would then wait on a reactor that can no
    /// longer make progress.
    pub fn drive_round(&mut self)
        requires
            old(self).inv(),
            exists|k: u64| old(self).is_live(k),
        ensures
            final(self).inv(),
            final(self).key_count() == old(self).key_count(),
            forall|k: u64| final(self).is_live(k) == old(self).is_live(k),
            forall|k: u64|
                old(self).is_live(k) ==> final(self).handle_of(k) == old(self).handle_of(k)
                    && final(self).timer_of(k) == old(self).timer_of(k),
            forall|k: u64|
                old(self).is_live(k) ==> (final(self).state_of(k) == old(self).state_of(k) || ((
                old(self).state_of(k) is Idle || old(self).state_of(k) is Waiting) && final(self).state_of(k) is Ready)),
            exists|k: u64|
                old(self).is_live(k) && (final(self).state_of(k) is Ready || final(self).state_of(
                    k,
                ) is Done),
            final(self).driving() == old(self).driving(),
            old(self).host_model().clock() <= final(self).host_model().clock(),
            timers_preserved(old(self).host_model(), final(self).host_model()),
            streams_preserved(old(self).host_model(), final(self).host_model()),
    {
        let n = self.slots.len();
        let mut handles: Vec<u64> = Vec::new();
        let mut keys: Vec<u64> = Vec::new();
        let mut i: usize = 0;
        while i < n
            invariant
                i <= n,
                n == self.slots@.len(),
                handles@.len() == keys@.len(),
                *self == *old(self),
                forall|j: int|
                    0 <= j < keys@.len() ==> (#[trigger] keys@[j]) < n as u64 && self.is_live(
                        keys@[j],
                    ) && handles@[j] == self.handle_of(keys@[j]),
                forall|j: int|
                    0 <= j < i && self.slots@[j] is Some ==> exists|m: int|
                        0 <= m < keys@.len() && keys@[m] == j,
            decreases n - i,
        {
            let ghost keys0 = keys@;
            match &self.slots[i] {
                Some(s) => {
                    handles.push(s.handle);
                    keys.push(i as u64);
                    proof {
                        assert(keys@[keys@.len() - 1] == i as u64);
                        assert forall|j: int|
                            0 <= j < i + 1 && self.slots@[j] is Some implies exists|m: int|
                            0 <= m < keys@.len() && keys@[m] == j by {
                            if j < i {
                                let m0 = choose|m: int| 0 <= m < keys0.len() && keys0[m] == j;
                                assert(keys@[m0] == j);
                            } else {
                                assert(keys@[keys@.len() - 1] == j);
                            }
                        }
                    }
                },
                None => {},
            }
            i = i + 1;
        }
        proof {
            let k0 = choose|k: u64| old(self).is_live(k);
            assert(self.slots@[k0 as int] is Some);
            assert(exists|m: int| 0 <= m < keys@.len() && keys@[m] == k0 as int);
        }
        proof {
            assert forall|jj: int| 0 <= jj < keys@.len() implies (#[trigger] keys@[jj])
                < n as u64 && old(self).is_live(keys@[jj]) && handles@[jj] == old(self).handle_of(keys@[jj]) by {}
        }
        let ready = self.host.block_until_ready(&handles);
        let ghost polled = self.host;
        let mut j: usize = 0;
        while j < ready.len()
            invariant
                j <= ready@.len(),
                old(self).inv(),
                self.host == polled,
                self.driving == old(self).driving,
                n == self.slots@.len(),
                handles@.len() == keys@.len(),
                forall|jj: int|
                    0 <= jj < ready@.len() ==> (#[trigger] ready@[jj]) < handles@.len(),
                forall|jj: int|
                    0 <= jj < keys@.len() ==> (#[trigger] keys@[jj]) < n as u64 && old(self).is_live(keys@[jj]) && handles@[jj] == old(self).handle_of(keys@[jj]),
                forall|jj: int|
                    0 <= jj < ready@.len() && old(self).host_model().is_timer(
                        #[trigger] handles@[ready@[jj] as int],
                    ) ==> old(self).host_model().timer_deadline(handles@[ready@[jj] as int])
                        <= polled.clock(),
                forall|k: u64| self.is_live(k) == old(self).is_live(k),
                forall|k: u64|
                    old(self).is_live(k) ==> self.handle_of(k) == old(self).handle_of(k)
                        && self.timer_of(k) == old(self).timer_of(k),
                forall|k: u64|
                    old(self).is_live(k) ==> (self.state_of(k) == old(self).state_of(k) || ((old(self).state_of(k) is Idle || old(self).state_of(k) is Waiting) && self.state_of(
                        k,
                    ) is Ready)),
                j > 0 ==> exists|k: u64|
                    old(self).is_live(k) && (self.state_of(k) is Ready || self.state_of(
                        k,
                    ) is Done),
                self.inv(),
                old(self).host_model().clock() <= polled.clock(),
                timers_preserved(old(self).host_model(), polled),
                streams_preserved(old(self).host_model(), polled),
            decreases ready@.len() - j,
        {
            let idx = ready[j];
            let key = keys[idx];
            let ghost before = *self;
            let m = self.slots.len();
            let slot = vec_index_mut(&mut self.slots, key as usize);
            let taken = slot.take();
            match taken {
                Some(s) => {
                    let next = match s.state {
                        BindingState::Idle => BindingState::Ready,
                        BindingState::Waiting => BindingState::Ready,
                        BindingState::Ready => BindingState::Ready,
                        BindingState::Done => BindingState::Done,
                    };
                    *slot = Some(BindingSlot { handle: s.handle, state: next, timer: s.timer });
                },
                None => {
                    *slot = None;
                },
            }
            proof {
                assert forall|k: u64| self.is_live(k) == before.is_live(k) by {
                    if k != key && (k as int) < before.slots@.len() {
                        assert(self.slots@[k as int] == before.slots@[k as int]);
                    }
                }
                assert(self.state_of(key) is Ready || self.state_of(key) is Done);
                assert forall|k: u64| #[trigger] self.is_live(k) implies self.slot_ok(k) by {
                    assert(before.is_live(k));
                    assert(before.slot_ok(k));
                    if k == key {
                        assert(keys@[idx as int] == key);
                        assert(old(self).is_live(key));
                        assert(old(self).slot_ok(key));
                        assert(self.handle_of(key) == old(self).handle_of(key));
                        assert(handles@[idx as int] == old(self).handle_of(key));
                        assert(ready@[j as int] == idx as int);
                        if old(self).timer_of(key) is Some {
                            assert(old(self).host_model().is_timer(handles@[idx as int]));
                            assert(old(self).host_model().timer_deadline(handles@[idx as int])
                                <= polled.clock());
                        }
                    } else {
                        assert(self.slots@[k as int] == before.slots@[k as int]);
                    }
                }
            }
            j = j + 1;
        }
    }
}

/// A live key always lies below the reactor's key count: keys are handed out
/// in order and never reused.
pub proof fn lemma_live_key_bound<H: Host>(r: &Reactor<H>, k: u64)
    requires
        r.is_live(k),
    ensures
        k < r.key_count(),
{
}

/// A registered handle, wrapped as the key to its reactor entry. Dropping the
/// binding's owner must hand it back through [`AsyncPollable::release`], which
/// deregisters and disposes it — that is the one cancellation primitive.
#[derive(Debug)]
pub struct AsyncPollable {
    key: u64,
}

impl AsyncPollable {
    /// The reactor key this binding holds.
    pub closed spec fn key_id(&self) -> u64 {
        self.key
    }

    /// A future that suspends until this binding's handle is ready.
    pub fn wait_for(&self) -> (w: WaitFor)
        ensures
            w.key_id() == self.key_id(),
    {
        WaitFor { key: self.key }
    }

    /// Gives the binding up: deregisters the key and disposes the handle,
    /// whatever its completion state. This is cancellation.
    pub fn release<H: Host>(self, r: &mut Reactor<H>)
        requires
            old(r).inv(),
            old(r).is_live(self.key_id()),
        ensures
            final(r).inv(),
            final(r).key_count() == old(r).key_count(),
            !final(r).is_live(self.key_id()),
            forall|k: u64| k != self.key_id() ==> final(r).is_live(k) == old(r).is_live(k),
            forall|k: u64|
                k != self.key_id() && old(r).is_live(k) ==> final(r).state_of(k) == old(r).state_of(k) && final(r).handle_of(k) == old(r).handle_of(k) && final(r).timer_of(
                    k,
                ) == old(r).timer_of(k),
            final(r).driving() == old(r).driving(),
            final(r).host_model().clock() == old(r).host_model().clock(),
            timers_preserved(old(r).host_model(), final(r).host_model()),
            streams_preserved(old(r).host_model(), final(r).host_model()),
    {
        r.deregister(self.key);
    }
}

/// The future adapter of a pollable binding: polling records interest and
/// suspends until the binding reports ready, which it does exactly once.
#[derive(Debug)]
pub struct WaitFor {
    key: u64,
}

impl WaitFor {
    /// The reactor key this future waits on.
    pub closed spec fn key_id(&self) -> u64 {
        self.key
    }

    /// The reactor key this future waits on.
    pub fn key(&self) -> (k: u64)
        ensures
            k == self.key_id(),
    {
        self.key
    }

    /// One poll of the binding this future waits on, with the full transition
    /// contract: true exactly when the binding's one readiness signal is
    /// observed here.
    pub fn poll_wait<H: Host>(&self, r: &mut Reactor<H>) -> (ready: bool)
        requires
            old(r).inv(),
            old(r).is_live(self.key_id()),
        ensures
            final(r).inv(),
            ready == (old(r).state_of(self.key_id()) is Ready),
            final(r).state_of(self.key_id()) == (match old(r).state_of(self.key_id()) {
                BindingState::Idle => BindingState::Waiting,
                BindingState::Waiting => BindingState::Waiting,
                BindingState::Ready => BindingState::Done,
                BindingState::Done => BindingState::Done,
            }),
            final(r).key_count() == old(r).key_count(),
            forall|k: u64| final(r).is_live(k) == old(r).is_live(k),
            final(r).handle_of(self.key_id()) == old(r).handle_of(self.key_id()),
            final(r).timer_of(self.key_id()) == old(r).timer_of(self.key_id()),
            forall|k: u64|
                k != self.key_id() && old(r).is_live(k) ==> final(r).state_of(k) == old(r).state_of(k) && final(r).handle_of(k) == old(r).handle_of(k) && final(r).timer_of(
                    k,
                ) == old(r).timer_of(k),
            final(r).driving() == old(r).driving(),
            final(r).host_model() == old(r).host_model(),
    {
        r.poll_binding(self.key)
    }
}

/// A future the driver can run: an explicit state machine polled with the
/// reactor, completing with its output. Polling must preserve the reactor's
/// invariant and may register, await and retire bindings, but never flips the
/// driver's activity flag.
pub trait RtFuture<H: Host>: Sized {
    /// What the future completes with.
    type Output;

    /// One poll: complete, or suspend after recording interest in some
    /// registered binding.
    fn poll(&mut self, r: &mut Reactor<H>) -> (p: Poll<Self::Output>)
        requires
            old(r).inv(),
        ensures
            final(r).inv(),
            final(r).driving() == old(r).driving(),
    ;
}

impl<H: Host> RtFuture<H> for WaitFor {
    type Output = ();

    /// The driver's route into a binding wait: a retired key reports pending
    /// and touches nothing; a live key's one readiness signal is observed
    /// exactly here, with the usual transition and with everything else left
    /// alone.
    fn poll(&mut self, r: &mut Reactor<H>) -> (p: Poll<()>)
        ensures
            !old(r).is_live(old(self).key_id()) ==> p is Pending && *final(r) == *old(r),
            old(r).is_live(old(self).key_id()) ==> (p is Ready <==> old(r).state_of(
                old(self).key_id(),
            ) is Ready),
            old(r).is_live(old(self).key_id()) ==> final(r).state_of(old(self).key_id()) == (
            match old(r).state_of(old(self).key_id()) {
                BindingState::Idle => BindingState::Waiting,
                BindingState::Waiting => BindingState::Waiting,
                BindingState::Ready => BindingState::Done,
                BindingState::Done => BindingState::Done,
            }),
            final(r).key_count() == old(r).key_count(),
            forall|k: u64| final(r).is_live(k) == old(r).is_live(k),
            forall|k: u64|
                k != old(self).key_id() && old(r).is_live(k) ==> final(r).state_of(k) == old(r).state_of(k) && final(r).handle_of(k) == old(r).handle_of(k) && final(r).timer_of(k) == old(r).timer_of(k),
            final(r).host_model() == old(r).host_model(),
    {
        if r.is_registered(self.key) {
            if r.poll_binding(self.key) {
                Poll::Ready(())
            } else {
                Poll::Pending
            }
        } else {
            Poll::Pending
        }
    }
}

/// Failures of the driver itself.
#[derive(Clone, Copy, Debug, PartialEq, Eq, Structural)]
pub enum RuntimeError {
    /// The driver was invoked from within a future it is already driving.
    Reentrant,
}

/// Drives one root future: polls it, and while it is pending, drives the
/// reactor a round — the blocking step — then polls again, for at most the
/// given number of rounds. The output comes as soon as the future completes;
/// `None` says the budget ran out with the future still pending, after
/// exactly that many rounds. Only one driver invocation may be active on a
/// reactor at a time; this entry point demands that of its caller, and
/// [`try_block_on`] refuses it at run time.
///
/// A future that suspends with nothing registered has broken the suspension
/// invariant; no readiness can ever arrive for it, so such a round only
/// re-polls, and the budget runs down.
pub fn block_on<H: Host, F: RtFuture<H>>(r: &mut Reactor<H>, fut: F, rounds: u64) -> (out: Option<
    F::Output,
>)
    requires
        old(r).inv(),
        !old(r).driving(),
    ensures
        final(r).inv(),
        !final(r).driving(),
{
    let mut fut = fut;
    let mut left = rounds;
    r.set_driving(true);
    loop
        invariant
            r.inv(),
            r.driving(),
        decreases left,
    {
        match fut.poll(r) {
            Poll::Ready(v) => {
                r.set_driving(false);
                return Some(v);
            },
            Poll::Pending => {
                if left == 0 {
                    r.set_driving(false);
                    return None;
                }
                left = left - 1;
                if r.has_registered() {
                    r.drive_round();
                }
            },
        }
    }
}

/// [`block_on`], refused at run time when this reactor is already driving:
/// reentrant invocation fails deterministically, leaving the reactor exactly
/// as it was, rather than nesting.
pub fn try_block_on<H: Host, F: RtFuture<H>>(r: &mut Reactor<H>, fut: F, rounds: u64) -> (out:
    Result<Option<F::Output>, RuntimeError>)
    requires
        old(r).inv(),
    ensures
        final(r).inv(),
        old(r).driving() ==> out is Err && *final(r) == *old(r),
        !old(r).driving() ==> out is Ok && !final(r).driving(),
{
    if r.is_driving() {
        Err(RuntimeError::Reentrant)
    } else {
        Ok(block_on(r, fut, rounds))
    }
}

impl<H: Host> Reactor<H> {
    /// Flips the driver's activity flag; only the driver does this.
    fn set_driving(&mut self, b: bool)
        ensures
            final(self).driving() == b,
            final(self).host_model() == old(self).host_model(),
            final(self).key_count() == old(self).key_count(),
            forall|k: u64| final(self).is_live(k) == old(self).is_live(k),
            forall|k: u64|
                old(self).is_live(k) ==> final(self).state_of(k) == old(self).state_of(k) && final(self).handle_of(k) == old(self).handle_of(k) && final(self).timer_of(k) == old(self).timer_of(k),
            old(self).inv() ==> final(self).inv(),
    {
        self.driving = b;
        proof {
            if old(self).inv() {
                assert forall|k: u64| #[trigger] self.is_live(k) implies self.slot_ok(k) by {
                    assert(old(self).is_live(k));
                    assert(old(self).slot_ok(k));
                }
            }
        }
    }
}

} // verus!
