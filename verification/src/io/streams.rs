//! Byte streams backed by host stream handles.

use vstd::prelude::*;
use crate::host::{Host, StreamRead, StreamStatus};
use crate::io::error::{ErrorKind, IoError};
use crate::io::read::{AsyncRead, SourceModel};
use crate::io::write::{AsyncWrite, SinkModel};
use vstd::std_specs::vec::vec_index_mut;

verus! {

/// A byte source backed by a host stream handle.
#[derive(Clone, Copy, Debug)]
pub struct InputStream {
    handle: u64,
}

impl InputStream {
    /// The host stream handle behind this source.
    pub closed spec fn handle_id(&self) -> u64 {
        self.handle
    }

    /// Wraps a host byte-source handle as a reader.
    pub fn new(handle: u64) -> (s: InputStream)
        ensures
            s.handle_id() == handle,
    {
        InputStream { handle }
    }
}

impl<H: Host> AsyncRead<H> for InputStream {
    open spec fn source(&self) -> SourceModel {
        SourceModel::Stream(self.handle_id())
    }

    fn read(&mut self, host: &mut H, buf: &mut Vec<u8>) -> (r: Result<usize, IoError>) {
        if buf.len() == 0 {
            return Ok(0);
        }
        match host.read_stream(self.handle, buf.len() as u64) {
            StreamRead::Data(v) => {
                let n = v.len();
                let mut i: usize = 0;
                while i < n
                    invariant
                        i <= n,
                        n == v@.len() <= buf@.len(),
                        buf@.len() == old(buf)@.len(),
                        forall|j: int| 0 <= j < i ==> buf@[j] == v@[j],
                        forall|j: int| i <= j < buf@.len() ==> buf@[j] == old(buf)@[j],
                    decreases n - i,
                {
                    *vec_index_mut(buf, i) = v[i];
                    i = i + 1;
                }
                proof {
                    assert(buf@ =~= v@ + old(buf)@.skip(n as int));
                }
                Ok(n)
            },
            StreamRead::Closed => Ok(0),
            StreamRead::Failed(message) => Err(IoError::other(message)),
        }
    }

    fn as_stream_handle(&self) -> (h: Option<u64>) {
        Some(self.handle)
    }

    fn as_repeated_value(&self) -> (c: Option<u8>) {
        None
    }
}

/// A byte sink backed by a host stream handle.
#[derive(Clone, Copy, Debug)]
pub struct OutputStream {
    handle: u64,
}

impl OutputStream {
    /// The host stream handle behind this sink.
    pub closed spec fn handle_id(&self) -> u64 {
        self.handle
    }

    /// Wraps a host byte-sink handle as a writer.
    pub fn new(handle: u64) -> (s: OutputStream)
        ensures
            s.handle_id() == handle,
    {
        OutputStream { handle }
    }
}

impl<H: Host> AsyncWrite<H> for OutputStream {
    open spec fn sink(&self) -> SinkModel {
        SinkModel::Stream(self.handle_id())
    }

    fn write(&mut self, host: &mut H, data: &[u8]) -> (r: Result<usize, IoError>) {
        if data.len() == 0 {
            return Ok(0);
        }
        match host.write_stream(self.handle, data) {
            StreamStatus::Transferred(n) => Ok(n as usize),
            StreamStatus::Closed => Err(IoError::from_kind(ErrorKind::ConnectionReset)),
            StreamStatus::Failed(message) => Err(IoError::other(message)),
        }
    }

    fn flush(&mut self, host: &mut H) -> (r: Result<(), IoError>) {
        Ok(())
    }

    fn as_stream_handle(&self) -> (h: Option<u64>) {
        Some(self.handle)
    }

    fn ignores_input(&self) -> (b: bool) {
        false
    }
}

} // verus!
