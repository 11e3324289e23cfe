//! The read contract.

use vstd::prelude::*;
use crate::host::{Host, streams_preserved, streams_preserved_except, timers_preserved};
use crate::io::error::IoError;

verus! {

/// What a reader is, seen abstractly: the closed set of source shapes the
/// copy operation can tell apart.
pub enum SourceModel {
    /// An in-memory source holding exactly these remaining bytes.
    Bytes(Seq<u8>),
    /// An endless source of one repeated byte.
    Constant(u8),
    /// A source backed by the host's byte-stream handle.
    Stream(u64),
}

/// The stream handle behind a source, if it has one.
pub open spec fn source_stream_handle(m: SourceModel) -> Option<u64> {
    match m {
        SourceModel::Stream(h) => Some(h),
        _ => None,
    }
}

/// The repeated byte a source generates, if it is a constant generator.
pub open spec fn source_constant(m: SourceModel) -> Option<u8> {
    match m {
        SourceModel::Constant(c) => Some(c),
        _ => None,
    }
}

/// What one successful read of `n` bytes means, shape by shape: `src0`/`src1`
/// and `h0`/`h1` are the reader and host before and after, `buf0`/`buf1` the
/// caller's buffer. Bytes land in the front of the buffer; the rest of the
/// buffer is untouched; the source loses exactly the bytes delivered.
pub open spec fn read_post<H: Host>(
    src0: SourceModel,
    src1: SourceModel,
    h0: H,
    h1: H,
    buf0: Seq<u8>,
    buf1: Seq<u8>,
    n: nat,
) -> bool {
    match src0 {
        SourceModel::Bytes(s) => {
            &&& n == if s.len() <= buf0.len() {
                s.len()
            } else {
                buf0.len()
            }
            &&& src1 == SourceModel::Bytes(s.skip(n as int))
            &&& buf1 == s.take(n as int) + buf0.skip(n as int)
            &&& h1 == h0
        },
        SourceModel::Constant(c) => {
            &&& n == buf0.len()
            &&& src1 == src0
            &&& buf1 == Seq::new(buf0.len(), |i: int| c)
            &&& h1 == h0
        },
        SourceModel::Stream(hd) => {
            &&& src1 == src0
            &&& (n == 0 ==> streams_preserved(h0, h1) && buf1 == buf0 && (buf0.len() == 0
                || h0.source(hd).len() == 0))
            &&& (n >= 1 ==> {
                &&& n <= h0.source(hd).len()
                &&& buf1 == h0.source(hd).take(n as int) + buf0.skip(n as int)
                &&& h1.source(hd) == h0.source(hd).skip(n as int)
                &&& streams_preserved_except(h0, h1, Some(hd), None)
            })
        },
    }
}

/// A byte source. Reading delivers the next bytes into the front of the
/// caller's buffer and returns how many; zero signals end-of-data. The two
/// probe methods let generic algorithms detect optimizable shapes without
/// downcasting: they answer exactly what the source model says.
pub trait AsyncRead<H: Host>: Sized {
    /// The reader's model: what it still has to deliver, and in what shape.
    spec fn source(&self) -> SourceModel;

    /// Read up to `buf.len()` bytes into the front of `buf`, returning how
    /// many were read; `Ok(0)` signals end-of-data. In-memory sources never
    /// fail and never touch the host.
    fn read(&mut self, host: &mut H, buf: &mut Vec<u8>) -> (r: Result<usize, IoError>)
        ensures
            final(buf)@.len() == old(buf)@.len(),
            old(host).clock() <= final(host).clock(),
            timers_preserved(*old(host), *final(host)),
            match r {
                Ok(n) => n as nat <= old(buf)@.len() && read_post(
                    old(self).source(),
                    final(self).source(),
                    *old(host),
                    *final(host),
                    old(buf)@,
                    final(buf)@,
                    n as nat,
                ),
                Err(_) => final(self).source() == old(self).source(),
            },
            !(old(self).source() is Stream) ==> r is Ok,
    ;

    /// The host stream handle this source is backed by, if any.
    fn as_stream_handle(&self) -> (h: Option<u64>)
        ensures
            h == source_stream_handle(self.source()),
    ;

    /// The byte this source endlessly repeats, if it is such a generator.
    fn as_repeated_value(&self) -> (c: Option<u8>)
        ensures
            c == source_constant(self.source()),
    ;
}

} // verus!
