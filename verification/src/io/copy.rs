//! Copy bytes from a reader to a writer, preferring direct host transfers.

use vstd::prelude::*;
use crate::host::{Host, StreamStatus, streams_preserved_except, timers_preserved};
use crate::io::error::{ErrorKind, IoError};
use crate::io::read::{AsyncRead, SourceModel, source_stream_handle};
use crate::io::write::{AsyncWrite, SinkModel, lemma_write_at_append, write_all, write_at};

verus! {

/// What a finished copy means, for every pairing of source and sink shape:
/// `src0`/`src1` and `snk0`/`snk1` are the reader's and writer's models before
/// and after, `h0`/`h1` the host. On success the source is drained and the
/// sink holds exactly its old content followed by the source's bytes; the
/// endless constant source can never succeed, and into a buffer it must
/// eventually fail for want of memory.
pub open spec fn copy_post<H: Host>(
    src0: SourceModel,
    src1: SourceModel,
    snk0: SinkModel,
    snk1: SinkModel,
    h0: H,
    h1: H,
    r: Result<(), IoError>,
) -> bool {
    match (src0, snk0) {
        (SourceModel::Stream(s), SinkModel::Stream(d)) => {
            &&& src1 == src0 && snk1 == snk0
            &&& (r is Ok ==> h1.source(s).len() == 0 && h1.sink(d) == h0.sink(d) + h0.source(s)
                && streams_preserved_except(h0, h1, Some(s), Some(d)))
        },
        (SourceModel::Stream(s), SinkModel::Discard) => {
            &&& src1 == src0 && snk1 == snk0
            &&& (r is Ok ==> h1.source(s).len() == 0 && streams_preserved_except(h0, h1, Some(s), None))
        },
        (SourceModel::Stream(s), SinkModel::Buffer { bytes, pos }) => {
            &&& src1 == src0
            &&& (r is Ok ==> h1.source(s).len() == 0 && streams_preserved_except(h0, h1, Some(s), None) && snk1 == (if h0.source(s).len() == 0 {
                snk0
            } else {
                SinkModel::Buffer {
                    bytes: write_at(bytes, pos, h0.source(s)),
                    pos: (pos + h0.source(s).len()) as nat,
                }
            }))
        },
        (SourceModel::Constant(c), SinkModel::Stream(d)) => {
            &&& src1 == src0 && snk1 == snk0
            &&& r is Err
            &&& (r matches Err(e) && (e.kind == ErrorKind::ConnectionReset || e.kind
                == ErrorKind::WriteZero) ==> constant_fill_outcome(h0, h1, d, c))
        },
        (SourceModel::Constant(c), SinkModel::Buffer { bytes, pos }) => r is Err && (
        r matches Err(e) ==> e.kind == ErrorKind::InvalidInput),
        (SourceModel::Constant(c), SinkModel::Discard) => r is Err,
        (SourceModel::Bytes(s), SinkModel::Buffer { bytes, pos }) => {
            &&& (r is Ok <==> s.len() == 0 || pos + s.len() <= usize::MAX)
            &&& (r matches Err(e) ==> e.kind == ErrorKind::InvalidInput)
            &&& (r is Ok ==> src1 == SourceModel::Bytes(Seq::empty()) && h1 == h0 && snk1 == (
            if s.len() == 0 {
                snk0
            } else {
                SinkModel::Buffer {
                    bytes: write_at(bytes, pos, s),
                    pos: (pos + s.len()) as nat,
                }
            }))
        },
        (SourceModel::Bytes(s), SinkModel::Stream(d)) => {
            &&& src1 is Bytes && snk1 == snk0
            &&& (r is Ok ==> src1 == SourceModel::Bytes(Seq::empty()) && h1.sink(d) == h0.sink(d)
                + s && streams_preserved_except(h0, h1, None, Some(d)))
        },
        (SourceModel::Bytes(s), SinkModel::Discard) => {
            &&& r is Ok
            &&& src1 == SourceModel::Bytes(Seq::empty())
            &&& snk1 == snk0
            &&& h1 == h0
        },
    }
}

/// Copy bytes from a reader to a writer until the reader is exhausted.
///
/// Four strategies, tried in order: a direct host-to-host splice when both
/// sides are handle-backed; a host-side skip when the source is handle-backed
/// and the sink discards everything; a host-side constant fill when the source
/// is a constant generator and the sink is handle-backed; and otherwise a loop
/// through an in-memory buffer. Every strategy meets the same contract,
/// [`copy_post`]; host failures are returned as I/O errors carrying the host's
/// diagnostic text.
#[verifier::rlimit(60)]
pub fn copy<H: Host, R: AsyncRead<H>, W: AsyncWrite<H>>(
    host: &mut H,
    reader: &mut R,
    writer: &mut W,
) -> (r: Result<(), IoError>)
    ensures
        old(host).clock() <= final(host).clock(),
        timers_preserved(*old(host), *final(host)),
        copy_post(
            old(reader).source(),
            final(reader).source(),
            old(writer).sink(),
            final(writer).sink(),
            *old(host),
            *final(host),
            r,
        ),
{
    let ghost h0 = *host;
    if let Some(s) = reader.as_stream_handle() {
        if let Some(d) = writer.as_stream_handle() {
            // both ends are handle-backed: splice directly, no buffering
            let ghost mut moved: nat = 0;
            loop
                invariant
                    reader.source() == SourceModel::Stream(s),
                    writer.sink() == SinkModel::Stream(d),
                    old(reader).source() == reader.source(),
                    old(writer).sink() == writer.sink(),
                    moved <= h0.source(s).len(),
                    host.source(s) == h0.source(s).skip(moved as int),
                    host.sink(d) == h0.sink(d) + h0.source(s).take(moved as int),
                    streams_preserved_except(h0, *host, Some(s), Some(d)),
                    h0 == *old(host),
                    h0.clock() <= host.clock(),
                    timers_preserved(h0, *host),
                decreases host.source(s).len(),
            {
                match host.splice(d, s, u64::MAX) {
                    StreamStatus::Transferred(n) => {
                        proof {
                            assert(h0.source(s).skip(moved as int).take(n as int) =~= h0.source(
                                s,
                            ).subrange(moved as int, moved + n));
                            assert(h0.source(s).take(moved as int) + h0.source(s).subrange(
                                moved as int,
                                moved + n,
                            ) =~= h0.source(s).take(moved + n));
                            assert(h0.source(s).skip(moved as int).skip(n as int) =~= h0.source(
                                s,
                            ).skip(moved + n));
                            moved = moved + n as nat;
                        }
                    },
                    StreamStatus::Closed => {
                        proof {
                            assert(h0.source(s).take(moved as int) =~= h0.source(s));
                        }
                        return Ok(());
                    },
                    StreamStatus::Failed(message) => {
                        return Err(IoError::other(message));
                    },
                }
            }
        } else if writer.ignores_input() {
            // the sink discards everything: have the host skip the source
            let ghost mut moved: nat = 0;
            loop
                invariant
                    reader.source() == SourceModel::Stream(s),
                    writer.sink() is Discard,
                    old(reader).source() == reader.source(),
                    old(writer).sink() == writer.sink(),
                    moved <= h0.source(s).len(),
                    host.source(s) == h0.source(s).skip(moved as int),
                    streams_preserved_except(h0, *host, Some(s), None),
                    h0 == *old(host),
                    h0.clock() <= host.clock(),
                    timers_preserved(h0, *host),
                decreases host.source(s).len(),
            {
                match host.skip(s, u64::MAX) {
                    StreamStatus::Transferred(n) => {
                        proof {
                            assert(h0.source(s).skip(moved as int).skip(n as int) =~= h0.source(
                                s,
                            ).skip(moved + n));
                            moved = moved + n as nat;
                        }
                    },
                    StreamStatus::Closed => {
                        return Ok(());
                    },
                    StreamStatus::Failed(message) => {
                        return Err(IoError::other(message));
                    },
                }
            }
        } else {
            copy_fallback(host, reader, writer)
        }
    } else if let Some(d) = writer.as_stream_handle() {
        if let Some(c) = reader.as_repeated_value() {
            // a constant generator into a handle-backed sink: have the host
            // fill directly, skipping user-space buffering entirely
            let ghost mut moved: nat = 0;
            let mut budget: u64 = u64::MAX;
            loop
                invariant
                    budget >= 1,
                    reader.source() == SourceModel::Constant(c),
                    writer.sink() == SinkModel::Stream(d),
                    old(reader).source() == reader.source(),
                    old(writer).sink() == writer.sink(),
                    host.sink(d) == h0.sink(d) + const_seq(moved, c),
                    streams_preserved_except(h0, *host, None, Some(d)),
                    h0 == *old(host),
                    h0.clock() <= host.clock(),
                    timers_preserved(h0, *host),
                decreases budget,
            {
                match host.write_constant(d, c, budget) {
                    StreamStatus::Transferred(n) => {
                        proof {
                            assert(const_seq(moved, c) + const_seq(n as nat, c) =~= const_seq(
                                moved + n as nat,
                                c,
                            ));
                            moved = moved + n as nat;
                        }
                        budget = budget - n;
                        if budget == 0 {
                            // an endless source: give up once the transfer
                            // bound is spent rather than run without bound
                            proof {
                                assert(host.sink(d) == h0.sink(d) + const_seq(moved, c));
                                assert(constant_fill_outcome(h0, *host, d, c));
                            }
                            return Err(IoError::from_kind(ErrorKind::WriteZero));
                        }
                    },
                    StreamStatus::Closed => {
                        // the destination is gone while the source had more:
                        // that is an error, not a clean end
                        proof {
                            assert(host.sink(d) == h0.sink(d) + const_seq(moved, c));
                            assert(constant_fill_outcome(h0, *host, d, c));
                        }
                        return Err(IoError::from_kind(ErrorKind::ConnectionReset));
                    },
                    StreamStatus::Failed(message) => {
                        return Err(IoError::other(message));
                    },
                }
            }
        } else {
            copy_fallback(host, reader, writer)
        }
    } else if reader.as_repeated_value().is_some() && writer.ignores_input() {
        // an endless source into a sink that keeps nothing: the transfer
        // could never finish, so it is refused rather than run without bound
        Err(IoError::other("endless source into a discarding sink".to_owned()))
    } else {
        copy_fallback(host, reader, writer)
    }
}

/// The buffered strategy: read into a fixed in-memory buffer and write the
/// filled part out, until a read reports end-of-data.
fn copy_fallback<H: Host, R: AsyncRead<H>, W: AsyncWrite<H>>(
    host: &mut H,
    reader: &mut R,
    writer: &mut W,
) -> (r: Result<(), IoError>)
    requires
        !(old(reader).source() is Constant && old(writer).sink() is Stream),
        !(old(reader).source() is Constant && old(writer).sink() is Discard),
    ensures
        old(host).clock() <= final(host).clock(),
        timers_preserved(*old(host), *final(host)),
        copy_post(
            old(reader).source(),
            final(reader).source(),
            old(writer).sink(),
            final(writer).sink(),
            *old(host),
            *final(host),
            r,
        ),
{
    let ghost src0 = reader.source();
    let ghost snk0 = writer.sink();
    let ghost h0 = *host;
    let ghost mut consumed: Seq<u8> = Seq::empty();
    let mut buf: Vec<u8> = vec![0u8; 1024];
    proof {
        if let SourceModel::Bytes(s) = src0 {
            assert(s.take(0) =~= Seq::<u8>::empty());
            assert(s.skip(0) =~= s);
        }
        if let SourceModel::Stream(sh) = src0 {
            assert(h0.source(sh).take(0) =~= Seq::<u8>::empty());
            assert(h0.source(sh).skip(0) =~= h0.source(sh));
        }
        if let SinkModel::Stream(d) = snk0 {
            assert(h0.sink(d) + consumed =~= h0.sink(d));
        }
    }
    loop
        invariant
            buf@.len() == 1024,
            src0 == old(reader).source(),
            snk0 == old(writer).sink(),
            h0 == *old(host),
            h0.clock() <= host.clock(),
            timers_preserved(h0, *host),
            !(src0 is Constant && snk0 is Stream),
            !(src0 is Constant && snk0 is Discard),
            match src0 {
                SourceModel::Bytes(s) => consumed.len() <= s.len() && consumed == s.take(
                    consumed.len() as int,
                ) && reader.source() == SourceModel::Bytes(s.skip(consumed.len() as int)),
                SourceModel::Constant(c) => reader.source() == src0,
                SourceModel::Stream(sh) => {
                    &&& reader.source() == src0
                    &&& consumed.len() <= h0.source(sh).len()
                    &&& consumed == h0.source(sh).take(consumed.len() as int)
                    &&& host.source(sh) == h0.source(sh).skip(consumed.len() as int)
                },
            },
            match snk0 {
                SinkModel::Buffer { bytes, pos } => {
                    &&& (consumed.len() > 0 ==> pos + consumed.len() <= usize::MAX)
                    &&& (src0 is Stream ==> streams_preserved_except(h0, *host, source_stream_handle(src0), None))
                    &&& (!(src0 is Stream) ==> *host == h0)
                    &&& writer.sink() == (if consumed.len() == 0 {
                        snk0
                    } else {
                        SinkModel::Buffer {
                            bytes: write_at(bytes, pos, consumed),
                            pos: (pos + consumed.len()) as nat,
                        }
                    })
                },
                SinkModel::Discard => {
                    &&& writer.sink() == snk0
                    &&& (src0 is Stream ==> streams_preserved_except(h0, *host, source_stream_handle(src0), None))
                    &&& (!(src0 is Stream) ==> *host == h0)
                },
                SinkModel::Stream(d) => {
                    &&& writer.sink() == snk0
                    &&& host.sink(d) == h0.sink(d) + consumed
                    &&& streams_preserved_except(h0, *host, source_stream_handle(src0), Some(d))
                },
            },
        decreases fallback_variant(src0, writer.sink(), *host, consumed),
    {
        let n = match reader.read(host, &mut buf) {
            Ok(n) => n,
            Err(e) => {
                return Err(e);
            },
        };
        if n == 0 {
            proof {
                match src0 {
                    SourceModel::Bytes(s) => {
                        assert(consumed =~= s);
                        assert(s.skip(s.len() as int) =~= Seq::<u8>::empty());
                        if let SourceModel::Bytes(x) = reader.source() {
                            assert(x =~= Seq::<u8>::empty());
                        }
                        if let SinkModel::Stream(d) = snk0 {
                            assert(host.sink(d) == h0.sink(d) + s);
                        }
                    },
                    SourceModel::Stream(sh) => {
                        assert(consumed =~= h0.source(sh));
                        assert(host.source(sh) =~= Seq::<u8>::empty());
                        if let SinkModel::Stream(d) = snk0 {
                            assert(host.sink(d) == h0.sink(d) + h0.source(sh));
                        }
                    },
                    SourceModel::Constant(c) => {},
                }
            }
            return Ok(());
        }
        let ghost chunk = buf@.take(n as int);
        let part = vstd::slice::slice_subrange(buf.as_slice(), 0, n);
        let ghost sink_before = writer.sink();
        let ghost host_before = *host;
        match write_all(host, writer, part) {
            Ok(()) => {
                proof {
                    if let SinkModel::Buffer { bytes, pos } = snk0 {
                        if consumed.len() > 0 {
                            lemma_write_at_append(bytes, pos, consumed, chunk);
                        }
                    }
                    if let SinkModel::Stream(d) = snk0 {
                        assert(host.sink(d) =~= h0.sink(d) + (consumed + chunk));
                    }
                    match src0 {
                        SourceModel::Bytes(s) => {
                            assert(consumed + chunk =~= s.take(consumed.len() + n));
                            assert(s.skip(consumed.len() as int).skip(n as int) =~= s.skip(
                                consumed.len() + n,
                            ));
                        },
                        SourceModel::Stream(sh) => {
                            assert(consumed + chunk =~= h0.source(sh).take(
                                consumed.len() + n,
                            ));
                            assert(h0.source(sh).skip(consumed.len() as int).skip(n as int)
                                =~= h0.source(sh).skip(consumed.len() + n));
                        },
                        SourceModel::Constant(c) => {
                            assert(chunk =~= Seq::new(n as nat, |i: int| c));
                        },
                    }
                    consumed = consumed + chunk;
                }
            },
            Err(e) => {
                return Err(e);
            },
        }
    }
}

/// `n` copies of the byte `c`.
pub open spec fn const_seq(n: nat, c: u8) -> Seq<u8> {
    Seq::new(n, |i: int| c)
}

/// The sink `d` took on some run of the constant `c` — and nothing else
/// changed — between the host states `h0` and `h1`.
pub open spec fn constant_fill_outcome<H: Host>(h0: H, h1: H, d: u64, c: u8) -> bool {
    exists|n: nat|
        h1.sink(d) == h0.sink(d) + #[trigger] const_seq(n, c) && streams_preserved_except(
            h0,
            h1,
            None,
            Some(d),
        )
}

/// The fallback loop's termination measure: the bytes the source still owes,
/// or — for the endless constant source into a buffer — the room the buffer
/// has left before a write must fail.
spec fn fallback_variant<H: Host>(
    src0: SourceModel,
    snk: SinkModel,
    h: H,
    consumed: Seq<u8>,
) -> int {
    match src0 {
        SourceModel::Bytes(s) => s.len() - consumed.len(),
        SourceModel::Stream(sh) => h.source(sh).len() as int,
        SourceModel::Constant(c) => match snk {
            SinkModel::Buffer { bytes, pos } => usize::MAX as int + 1 - pos as int,
            _ => 0,
        },
    }
}

} // verus!
