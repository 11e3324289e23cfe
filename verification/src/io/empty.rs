//! A reader with nothing to deliver, which doubles as a writer that discards
//! everything.

use vstd::prelude::*;
use crate::host::Host;
use crate::io::error::IoError;
use crate::io::read::{AsyncRead, SourceModel};
use crate::io::write::{AsyncWrite, SinkModel};

verus! {

/// An empty byte source and a discarding byte sink: reading yields zero bytes
/// and writing accepts, and ignores, everything.
#[derive(Clone, Copy, Debug)]
pub struct Empty;

impl<H: Host> AsyncRead<H> for Empty {
    open spec fn source(&self) -> SourceModel {
        SourceModel::Bytes(Seq::empty())
    }

    fn read(&mut self, host: &mut H, buf: &mut Vec<u8>) -> (r: Result<usize, IoError>) {
        proof {
            assert(Seq::<u8>::empty().skip(0) =~= Seq::<u8>::empty());
            assert(Seq::<u8>::empty().take(0) + buf@.skip(0) =~= buf@);
        }
        Ok(0)
    }

    fn as_stream_handle(&self) -> (h: Option<u64>) {
        None
    }

    fn as_repeated_value(&self) -> (c: Option<u8>) {
        None
    }
}

impl<H: Host> AsyncWrite<H> for Empty {
    open spec fn sink(&self) -> SinkModel {
        SinkModel::Discard
    }

    fn write(&mut self, host: &mut H, data: &[u8]) -> (r: Result<usize, IoError>) {
        Ok(data.len())
    }

    fn flush(&mut self, host: &mut H) -> (r: Result<(), IoError>) {
        Ok(())
    }

    fn as_stream_handle(&self) -> (h: Option<u64>) {
        None
    }

    fn ignores_input(&self) -> (b: bool) {
        true
    }
}

} // verus!
