//! The write contract.

use vstd::prelude::*;
use crate::host::{Host, streams_preserved, streams_preserved_except, timers_preserved};
use crate::io::error::{ErrorKind, IoError};

verus! {

/// What a writer is, seen abstractly: the closed set of sink shapes the copy
/// operation can tell apart.
pub enum SinkModel {
    /// An in-memory buffer and the position the next write lands at.
    Buffer { bytes: Seq<u8>, pos: nat },
    /// A sink backed by the host's byte-stream handle.
    Stream(u64),
    /// A sink that discards every byte it is handed.
    Discard,
}

/// The stream handle behind a sink, if it has one.
pub open spec fn sink_stream_handle(m: SinkModel) -> Option<u64> {
    match m {
        SinkModel::Stream(h) => Some(h),
        _ => None,
    }
}

/// A buffer after writing `d` at position `pos`: bytes before `pos` are kept,
/// a gap past the end is filled with zeroes, `d` overwrites from `pos` on, and
/// whatever lay beyond the written range is kept.
pub open spec fn write_at(s: Seq<u8>, pos: nat, d: Seq<u8>) -> Seq<u8> {
    let padded = if pos > s.len() {
        s + Seq::new((pos - s.len()) as nat, |i: int| 0u8)
    } else {
        s
    };
    let end = if pos + d.len() <= padded.len() {
        pos + d.len()
    } else {
        padded.len()
    };
    padded.take(pos as int) + d + padded.skip(end as int)
}

/// Two consecutive writes land exactly like one write of the concatenation:
/// writing `d1` at `p` and then `d2` right behind it is writing `d1 + d2` at
/// `p`.
pub proof fn lemma_write_at_append(b: Seq<u8>, p: nat, d1: Seq<u8>, d2: Seq<u8>)
    ensures
        write_at(write_at(b, p, d1), (p + d1.len()) as nat, d2) == write_at(b, p, d1 + d2),
{
    let w1 = write_at(b, p, d1);
    assert(w1.len() >= p + d1.len());
    assert(write_at(w1, (p + d1.len()) as nat, d2) =~= write_at(b, p, d1 + d2));
}

/// What one successful write of `n` bytes of `data` means, shape by shape:
/// `snk0`/`snk1` and `h0`/`h1` are the writer and host before and after. A
/// buffer accepts everything at its position and advances; a stream sink
/// appends a non-empty prefix; a discarding sink accepts everything and keeps
/// nothing.
pub open spec fn write_post<H: Host>(
    snk0: SinkModel,
    snk1: SinkModel,
    h0: H,
    h1: H,
    data: Seq<u8>,
    n: nat,
) -> bool {
    match snk0 {
        SinkModel::Buffer { bytes, pos } => {
            &&& n == data.len()
            &&& snk1 == (SinkModel::Buffer {
                bytes: write_at(bytes, pos, data),
                pos: (pos + data.len()) as nat,
            })
            &&& h1 == h0
        },
        SinkModel::Stream(hd) => {
            &&& snk1 == snk0
            &&& (data.len() == 0 ==> n == 0 && streams_preserved(h0, h1))
            &&& (data.len() >= 1 ==> {
                &&& 1 <= n <= data.len()
                &&& h1.sink(hd) == h0.sink(hd) + data.take(n as int)
                &&& streams_preserved_except(h0, h1, None, Some(hd))
            })
        },
        SinkModel::Discard => {
            &&& n == data.len()
            &&& snk1 == snk0
            &&& h1 == h0
        },
    }
}

/// A byte sink. Writing hands over a prefix of the given bytes and returns how
/// many were accepted. The probe methods let generic algorithms detect
/// optimizable shapes without downcasting: they answer exactly what the sink
/// model says.
pub trait AsyncWrite<H: Host>: Sized {
    /// The writer's model: what it has accepted, and in what shape.
    spec fn sink(&self) -> SinkModel;

    /// Write a prefix of `data`, returning how many bytes were accepted. A
    /// buffer fails exactly when the write would not fit in memory; a
    /// discarding sink never fails.
    fn write(&mut self, host: &mut H, data: &[u8]) -> (r: Result<usize, IoError>)
        ensures
            old(host).clock() <= final(host).clock(),
            timers_preserved(*old(host), *final(host)),
            match r {
                Ok(n) => n as nat <= data@.len() && write_post(
                    old(self).sink(),
                    final(self).sink(),
                    *old(host),
                    *final(host),
                    data@,
                    n as nat,
                ),
                Err(_) => final(self).sink() == old(self).sink(),
            },
            (match old(self).sink() {
                SinkModel::Buffer { bytes, pos } => (r is Ok <==> pos + data@.len()
                    <= usize::MAX) && (r matches Err(e) ==> e.kind
                    == ErrorKind::InvalidInput),
                SinkModel::Stream(hd) => true,
                SinkModel::Discard => r is Ok,
            }),
    ;

    /// Flush buffered bytes through. The sinks of this crate buffer nothing,
    /// so this succeeds and changes nothing.
    fn flush(&mut self, host: &mut H) -> (r: Result<(), IoError>)
        ensures
            r is Ok,
            final(self).sink() == old(self).sink(),
            *final(host) == *old(host),
    ;

    /// The host stream handle this sink is backed by, if any.
    fn as_stream_handle(&self) -> (h: Option<u64>)
        ensures
            h == sink_stream_handle(self.sink()),
    ;

    /// Whether this sink discards all input regardless of content.
    fn ignores_input(&self) -> (b: bool)
        ensures
            b == (self.sink() is Discard),
    ;
}

/// Write all of `data`, by repeated writes. On success the sink has accepted
/// exactly `data` beyond what it held; a failure is reported as the failing
/// write reported it, after a prefix may already have been accepted.
pub fn write_all<H: Host, W: AsyncWrite<H>>(host: &mut H, writer: &mut W, data: &[u8]) -> (r:
    Result<(), IoError>)
    ensures
        old(host).clock() <= final(host).clock(),
        timers_preserved(*old(host), *final(host)),
        match r {
            Ok(()) => write_post(
                old(writer).sink(),
                final(writer).sink(),
                *old(host),
                *final(host),
                data@,
                data@.len(),
            ),
            Err(_) => final(writer).sink() == old(writer).sink(),
        },
        (match old(writer).sink() {
            SinkModel::Buffer { bytes, pos } => (r is Ok <==> pos + data@.len() <= usize::MAX)
                && (r matches Err(e) ==> e.kind == ErrorKind::InvalidInput),
            SinkModel::Stream(hd) => true,
            SinkModel::Discard => r is Ok,
        }),
{
    let ghost snk0 = writer.sink();
    let ghost h0 = *host;
    let mut written: usize = 0;
    loop
        invariant
            snk0 == old(writer).sink(),
            h0 == *old(host),
            written as nat <= data@.len(),
            h0.clock() <= host.clock(),
            timers_preserved(h0, *host),
            writer.sink() == snk0,
            match snk0 {
                SinkModel::Stream(hd) => host.sink(hd) == h0.sink(hd) + data@.take(written as int)
                    && streams_preserved_except(h0, *host, None, Some(hd)),
                _ => written == 0 && *host == h0,
            },
        decreases data@.len() - written,
    {
        let part = vstd::slice::slice_subrange(data, written, data.len());
        let ghost h_before = *host;
        match writer.write(host, part) {
            Ok(n) => {
                proof {
                    if let SinkModel::Stream(hd) = snk0 {
                        assert(host.sink(hd) =~= h0.sink(hd) + data@.take(written as int + n as int));
                    }
                }
                written = written + n;
                if written == data.len() {
                    proof {
                        if snk0 is Buffer || snk0 is Discard {
                            assert(part@ =~= data@);
                        } else if let SinkModel::Stream(hd) = snk0 {
                            assert(data@.take(written as int) =~= data@);
                            if data@.len() == 0 {
                                assert(host.sink(hd) =~= h0.sink(hd));
                            }
                        }
                    }
                    return Ok(());
                }
            },
            Err(e) => {
                return Err(e);
            },
        }
    }
}

} // verus!
