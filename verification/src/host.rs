//! The waitable-handle primitive, as the host supplies it.
//!
//! The runtime consumes four groups of host operations: a blocking batch poll
//! over waitable handles, handle disposal, clock subscriptions, and direct
//! byte-stream transfers (splice, skip, constant fill, read, write). Any host
//! exposing these operations can back the reactor; the [`Host`] trait states
//! the contract each operation must meet, and everything proved in this crate
//! holds for every implementation that meets it.

use vstd::prelude::*;

verus! {

/// Outcome of one host byte-stream transfer (splice, skip, constant fill, write).
pub enum StreamStatus {
    /// The operation moved this many bytes.
    Transferred(u64),
    /// The stream has no more bytes to move and never will: a clean end, not an error.
    Closed,
    /// The host reports that the last operation failed, with its diagnostic text.
    Failed(String),
}

/// Outcome of one host read on a byte-source handle.
pub enum StreamRead {
    /// Bytes the source delivered; never empty.
    Data(Vec<u8>),
    /// The source is exhausted and closed.
    Closed,
    /// The host reports that the last operation failed, with its diagnostic text.
    Failed(String),
}

/// The host side of the runtime: waitable handles, the blocking batch poll,
/// clock subscriptions, and byte-stream transfers.
///
/// The spec functions are the model an implementation exposes: a monotonic
/// clock reading, which handles are clock subscriptions and for when, and the
/// bytes its stream handles have delivered or accepted. The contracts below
/// say no more than the primitive's documented behaviour: readiness of a clock
/// subscription implies its deadline has passed, transfers move exactly the
/// bytes they report, and blocking operations only ever move the clock forward.
pub trait Host: Sized {
    /// Current reading of the host's monotonic clock, in nanoseconds.
    open spec fn clock(&self) -> nat {
        0
    }

    /// Whether `handle` is a live clock subscription.
    open spec fn is_timer(&self, handle: u64) -> bool {
        false
    }

    /// The clock reading at which the subscription `handle` becomes ready.
    open spec fn timer_deadline(&self, handle: u64) -> nat {
        0
    }

    /// Bytes the byte source behind `handle` still has to deliver.
    open spec fn source(&self, handle: u64) -> Seq<u8> {
        Seq::empty()
    }

    /// Bytes the byte sink behind `handle` has accepted so far.
    open spec fn sink(&self, handle: u64) -> Seq<u8> {
        Seq::empty()
    }

    /// Read the monotonic clock.
    fn now(&self) -> (t: u64)
        ensures
            t as nat == self.clock(),
    ;

    /// Read the wall clock: seconds since the epoch, plus nanoseconds.
    /// The wall clock may jump either way; nothing is promised of it.
    fn wall_now(&self) -> (t: (u64, u32));

    /// Block until at least one of `handles` is ready and return the indices,
    /// into `handles`, of the ready ones. Blocking may advance the clock, and
    /// a clock subscription is reported ready only at or past its deadline.
    fn block_until_ready(&mut self, handles: &Vec<u64>) -> (ready: Vec<usize>)
        requires
            handles@.len() > 0,
        ensures
            ready@.len() > 0,
            forall|j: int| 0 <= j < ready@.len() ==> (#[trigger] ready@[j]) < handles@.len(),
            old(self).clock() <= final(self).clock(),
            forall|ht: u64|
                #[trigger] old(self).is_timer(ht) ==> final(self).is_timer(ht) && final(self).timer_deadline(ht) == old(self).timer_deadline(ht),
            (forall|hs: u64| None::<u64> != Some(hs) ==> #[trigger] final(self).source(hs) == old(self).source(hs)) && (forall|hs: u64| None::<u64> != Some(hs)
                        ==> #[trigger] final(self).sink(hs) == old(self).sink(hs)),
            forall|j: int|
                0 <= j < ready@.len() && old(self).is_timer(#[trigger] handles@[ready@[j] as int])
                    ==> old(self).timer_deadline(handles@[ready@[j] as int]) <= final(self).clock(),
    ;

    /// Dispose of a waitable handle. Disposal frees the resource; it touches
    /// neither the clock nor any other handle.
    fn dispose(&mut self, handle: u64)
        ensures
            final(self).clock() == old(self).clock(),
            forall|ht: u64|
                #[trigger] old(self).is_timer(ht) ==> final(self).is_timer(ht) && final(self).timer_deadline(ht) == old(self).timer_deadline(ht),
            (forall|hs: u64| None::<u64> != Some(hs) ==> #[trigger] final(self).source(hs) == old(self).source(hs)) && (forall|hs: u64| None::<u64> != Some(hs)
                        ==> #[trigger] final(self).sink(hs) == old(self).sink(hs)),
    ;

    /// Subscribe a waitable handle that becomes ready at the given absolute
    /// clock reading, in nanoseconds.
    fn subscribe_at(&mut self, deadline: u64) -> (h: u64)
        ensures
            final(self).clock() == old(self).clock(),
            final(self).is_timer(h),
            final(self).timer_deadline(h) == deadline as nat,
            forall|ht: u64|
                #[trigger] old(self).is_timer(ht) ==> final(self).is_timer(ht) && final(self).timer_deadline(ht) == old(self).timer_deadline(ht),
            (forall|hs: u64| None::<u64> != Some(hs) ==> #[trigger] final(self).source(hs) == old(self).source(hs)) && (forall|hs: u64| None::<u64> != Some(hs)
                        ==> #[trigger] final(self).sink(hs) == old(self).sink(hs)),
    ;

    /// Subscribe a waitable handle that becomes ready once the given number of
    /// nanoseconds has elapsed from the current clock reading.
    fn subscribe_after(&mut self, duration: u64) -> (h: u64)
        ensures
            final(self).clock() == old(self).clock(),
            final(self).is_timer(h),
            final(self).timer_deadline(h) == old(self).clock() + duration as nat,
            forall|ht: u64|
                #[trigger] old(self).is_timer(ht) ==> final(self).is_timer(ht) && final(self).timer_deadline(ht) == old(self).timer_deadline(ht),
            (forall|hs: u64| None::<u64> != Some(hs) ==> #[trigger] final(self).source(hs) == old(self).source(hs)) && (forall|hs: u64| None::<u64> != Some(hs)
                        ==> #[trigger] final(self).sink(hs) == old(self).sink(hs)),
    ;

    /// Transfer up to `max` bytes directly from the source `src` to the sink
    /// `dest`, without surfacing them, blocking until at least one byte moves
    /// or the source reports closed. A transfer moves a non-empty prefix of
    /// the source's remaining bytes onto the end of the sink; `Closed` says
    /// the source is exhausted.
    fn splice(&mut self, dest: u64, src: u64, max: u64) -> (r: StreamStatus)
        requires
            max >= 1,
        ensures
            old(self).clock() <= final(self).clock(),
            forall|ht: u64|
                #[trigger] old(self).is_timer(ht) ==> final(self).is_timer(ht) && final(self).timer_deadline(ht) == old(self).timer_deadline(ht),
            match r {
                StreamStatus::Transferred(n) => {
                    &&& 1 <= n as nat <= max as nat
                    &&& n as int <= old(self).source(src).len()
                    &&& final(self).source(src) == old(self).source(src).skip(n as int)
                    &&& final(self).sink(dest) == old(self).sink(dest) + old(self).source(
                        src,
                    ).take(n as int)
                    &&& (forall|hs: u64| Some(src) != Some(hs) ==> #[trigger] final(self).source(hs) == old(self).source(hs)) && (forall|hs: u64| Some(dest) != Some(hs)
                        ==> #[trigger] final(self).sink(hs) == old(self).sink(hs))
                },
                StreamStatus::Closed => {
                    &&& old(self).source(src).len() == 0
                    &&& (forall|hs: u64| None::<u64> != Some(hs) ==> #[trigger] final(self).source(hs) == old(self).source(hs)) && (forall|hs: u64| None::<u64> != Some(hs)
                        ==> #[trigger] final(self).sink(hs) == old(self).sink(hs))
                },
                StreamStatus::Failed(_) => true,
            },
    ;

    /// Read and discard up to `max` bytes from the source `src`, blocking
    /// until at least one byte is discarded or the source reports closed.
    fn skip(&mut self, src: u64, max: u64) -> (r: StreamStatus)
        requires
            max >= 1,
        ensures
            old(self).clock() <= final(self).clock(),
            forall|ht: u64|
                #[trigger] old(self).is_timer(ht) ==> final(self).is_timer(ht) && final(self).timer_deadline(ht) == old(self).timer_deadline(ht),
            match r {
                StreamStatus::Transferred(n) => {
                    &&& 1 <= n as nat <= max as nat
                    &&& n as int <= old(self).source(src).len()
                    &&& final(self).source(src) == old(self).source(src).skip(n as int)
                    &&& (forall|hs: u64| Some(src) != Some(hs) ==> #[trigger] final(self).source(hs) == old(self).source(hs)) && (forall|hs: u64| None::<u64> != Some(hs)
                        ==> #[trigger] final(self).sink(hs) == old(self).sink(hs))
                },
                StreamStatus::Closed => {
                    &&& old(self).source(src).len() == 0
                    &&& (forall|hs: u64| None::<u64> != Some(hs) ==> #[trigger] final(self).source(hs) == old(self).source(hs)) && (forall|hs: u64| None::<u64> != Some(hs)
                        ==> #[trigger] final(self).sink(hs) == old(self).sink(hs))
                },
                StreamStatus::Failed(_) => true,
            },
    ;

    /// Append up to `max` copies of `byte` to the sink `dest`, without
    /// surfacing a buffer, blocking until at least one byte is accepted.
    /// `Closed` says the sink will accept no more bytes.
    fn write_constant(&mut self, dest: u64, byte: u8, max: u64) -> (r: StreamStatus)
        requires
            max >= 1,
        ensures
            old(self).clock() <= final(self).clock(),
            forall|ht: u64|
                #[trigger] old(self).is_timer(ht) ==> final(self).is_timer(ht) && final(self).timer_deadline(ht) == old(self).timer_deadline(ht),
            match r {
                StreamStatus::Transferred(n) => {
                    &&& 1 <= n as nat <= max as nat
                    &&& final(self).sink(dest) == old(self).sink(dest) + Seq::new(
                        n as nat,
                        |i: int| byte,
                    )
                    &&& (forall|hs: u64| None::<u64> != Some(hs) ==> #[trigger] final(self).source(hs) == old(self).source(hs)) && (forall|hs: u64| Some(dest) != Some(hs)
                        ==> #[trigger] final(self).sink(hs) == old(self).sink(hs))
                },
                StreamStatus::Closed => (forall|hs: u64| None::<u64> != Some(hs) ==> #[trigger] final(self).source(hs) == old(self).source(hs)) && (forall|hs: u64| None::<u64> != Some(hs)
                        ==> #[trigger] final(self).sink(hs) == old(self).sink(hs)),
                StreamStatus::Failed(_) => true,
            },
    ;

    /// Block until the source `src` delivers at least one byte, then deliver
    /// up to `max` of its next bytes; or report it closed.
    fn read_stream(&mut self, src: u64, max: u64) -> (r: StreamRead)
        requires
            max >= 1,
        ensures
            old(self).clock() <= final(self).clock(),
            forall|ht: u64|
                #[trigger] old(self).is_timer(ht) ==> final(self).is_timer(ht) && final(self).timer_deadline(ht) == old(self).timer_deadline(ht),
            match r {
                StreamRead::Data(v) => {
                    &&& 1 <= v@.len() <= max as nat
                    &&& v@ == old(self).source(src).take(v@.len() as int)
                    &&& v@.len() <= old(self).source(src).len()
                    &&& final(self).source(src) == old(self).source(src).skip(v@.len() as int)
                    &&& (forall|hs: u64| Some(src) != Some(hs) ==> #[trigger] final(self).source(hs) == old(self).source(hs)) && (forall|hs: u64| None::<u64> != Some(hs)
                        ==> #[trigger] final(self).sink(hs) == old(self).sink(hs))
                },
                StreamRead::Closed => {
                    &&& old(self).source(src).len() == 0
                    &&& (forall|hs: u64| None::<u64> != Some(hs) ==> #[trigger] final(self).source(hs) == old(self).source(hs)) && (forall|hs: u64| None::<u64> != Some(hs)
                        ==> #[trigger] final(self).sink(hs) == old(self).sink(hs))
                },
                StreamRead::Failed(_) => true,
            },
    ;

    /// Block until the sink `dest` accepts at least one byte of `data`, then
    /// write a non-empty prefix of it; or report the sink closed.
    fn write_stream(&mut self, dest: u64, data: &[u8]) -> (r: StreamStatus)
        requires
            data@.len() >= 1,
        ensures
            old(self).clock() <= final(self).clock(),
            forall|ht: u64|
                #[trigger] old(self).is_timer(ht) ==> final(self).is_timer(ht) && final(self).timer_deadline(ht) == old(self).timer_deadline(ht),
            match r {
                StreamStatus::Transferred(n) => {
                    &&& 1 <= n as nat <= data@.len()
                    &&& final(self).sink(dest) == old(self).sink(dest) + data@.take(n as int)
                    &&& (forall|hs: u64| None::<u64> != Some(hs) ==> #[trigger] final(self).source(hs) == old(self).source(hs)) && (forall|hs: u64| Some(dest) != Some(hs)
                        ==> #[trigger] final(self).sink(hs) == old(self).sink(hs))
                },
                StreamStatus::Closed => (forall|hs: u64| None::<u64> != Some(hs) ==> #[trigger] final(self).source(hs) == old(self).source(hs)) && (forall|hs: u64| None::<u64> != Some(hs)
                        ==> #[trigger] final(self).sink(hs) == old(self).sink(hs)),
                StreamStatus::Failed(_) => true,
            },
    ;
}

/// Every clock subscription of `before` still exists in `after`, with the
/// same deadline: host operations never retract or move a live subscription.
pub open spec fn timers_preserved<H: Host>(before: H, after: H) -> bool {
    forall|h: u64|
        #[trigger] before.is_timer(h) ==> after.is_timer(h) && after.timer_deadline(h)
            == before.timer_deadline(h)
}

/// Every byte source other than `src`, and every byte sink other than `snk`,
/// holds the same bytes in `after` as in `before`.
pub open spec fn streams_preserved_except<H: Host>(
    before: H,
    after: H,
    src: Option<u64>,
    snk: Option<u64>,
) -> bool {
    &&& forall|h: u64| src != Some(h) ==> #[trigger] after.source(h) == before.source(h)
    &&& forall|h: u64| snk != Some(h) ==> #[trigger] after.sink(h) == before.sink(h)
}

/// No byte source or sink changed at all.
pub open spec fn streams_preserved<H: Host>(before: H, after: H) -> bool {
    streams_preserved_except(before, after, None, None)
}

} // verus!
