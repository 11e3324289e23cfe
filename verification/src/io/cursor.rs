//! An in-memory buffer with a read/write position.

use vstd::prelude::*;
use crate::host::Host;
use crate::io::error::{ErrorKind, IoError};
use crate::io::read::{AsyncRead, SourceModel};
use crate::io::seek::SeekFrom;
use crate::io::write::{AsyncWrite, SinkModel, write_at};
use vstd::std_specs::vec::vec_index_mut;

verus! {

/// A `Cursor` wraps an in-memory byte buffer and provides it with seekable
/// read and write access.
///
/// The position always starts at zero. It may be moved past the end of the
/// buffer; that triggers no I/O on its own — a read there yields zero bytes,
/// and a write there first fills the gap with zeroes.
#[derive(Clone, Debug)]
pub struct Cursor {
    inner: Vec<u8>,
    pos: u64,
}

impl Cursor {
    /// The bytes of the underlying buffer.
    pub closed spec fn bytes(&self) -> Seq<u8> {
        self.inner@
    }

    /// The current position.
    pub closed spec fn offset(&self) -> nat {
        self.pos as nat
    }

    /// The bytes still ahead of the position: what a read will deliver.
    pub open spec fn remaining(&self) -> Seq<u8> {
        if self.offset() <= self.bytes().len() {
            self.bytes().skip(self.offset() as int)
        } else {
            Seq::empty()
        }
    }

    /// Creates a new cursor wrapping the provided in-memory buffer.
    pub fn new(inner: Vec<u8>) -> (c: Cursor)
        ensures
            c.bytes() == inner@,
            c.offset() == 0,
    {
        Cursor { inner, pos: 0 }
    }

    /// Consumes this cursor, returning the underlying buffer.
    pub fn into_inner(self) -> (v: Vec<u8>)
        ensures
            v@ == self.bytes(),
    {
        self.inner
    }

    /// Gets a reference to the underlying buffer.
    pub fn get_ref(&self) -> (v: &Vec<u8>)
        ensures
            v@ == self.bytes(),
    {
        &self.inner
    }

    /// Gets a mutable reference to the underlying buffer.
    pub fn get_mut(&mut self) -> (v: &mut Vec<u8>)
        ensures
            (*v)@ == old(self).bytes(),
            final(self).bytes() == (*final(v))@,
            final(self).offset() == old(self).offset(),
    {
        &mut self.inner
    }

    /// Returns the current position of this cursor.
    pub fn position(&self) -> (p: u64)
        ensures
            p as nat == self.offset(),
    {
        self.pos
    }

    /// Sets the position of this cursor.
    pub fn set_position(&mut self, pos: u64)
        ensures
            final(self).bytes() == old(self).bytes(),
            final(self).offset() == pos as nat,
    {
        self.pos = pos;
    }

    /// Moves the position to the given origin-relative offset and returns the
    /// new position. Fails with `InvalidInput`, moving nothing, exactly when
    /// the requested position is negative or does not fit in a position.
    pub fn seek(&mut self, pos: SeekFrom) -> (r: Result<u64, IoError>)
        ensures
            final(self).bytes() == old(self).bytes(),
            match r {
                Ok(p) => p as nat == final(self).offset() && p as int == seek_target(
                    *old(self),
                    pos,
                ),
                Err(e) => {
                    &&& e.kind == ErrorKind::InvalidInput
                    &&& final(self).offset() == old(self).offset()
                    &&& !(0 <= seek_target(*old(self), pos) <= u64::MAX)
                },
            },
            r is Ok <==> 0 <= seek_target(*old(self), pos) <= u64::MAX,
    {
        match pos {
            SeekFrom::Start(p) => {
                self.pos = p;
                Ok(p)
            },
            SeekFrom::End(o) => {
                let target: i128 = self.inner.len() as i128 + o as i128;
                if 0 <= target && target <= u64::MAX as i128 {
                    self.pos = target as u64;
                    Ok(self.pos)
                } else {
                    Err(IoError::from_kind(ErrorKind::InvalidInput))
                }
            },
            SeekFrom::Current(o) => {
                let target: i128 = self.pos as i128 + o as i128;
                if 0 <= target && target <= u64::MAX as i128 {
                    self.pos = target as u64;
                    Ok(self.pos)
                } else {
                    Err(IoError::from_kind(ErrorKind::InvalidInput))
                }
            },
        }
    }
}

impl<H: Host> AsyncRead<H> for Cursor {
    open spec fn source(&self) -> SourceModel {
        SourceModel::Bytes(self.remaining())
    }

    fn read(&mut self, host: &mut H, buf: &mut Vec<u8>) -> (r: Result<usize, IoError>)
        ensures
            final(self).bytes() == old(self).bytes(),
            r matches Ok(n) ==> final(self).offset() == old(self).offset() + n,
    {
        let len = self.inner.len();
        let start: usize = if self.pos >= len as u64 {
            len
        } else {
            self.pos as usize
        };
        let avail = len - start;
        let n = if avail <= buf.len() {
            avail
        } else {
            buf.len()
        };
        let mut i: usize = 0;
        while i < n
            invariant
                i <= n,
                start + n <= self.inner@.len(),
                self.inner@.len() <= usize::MAX,
                n <= buf@.len(),
                buf@.len() == old(buf)@.len(),
                *self == *old(self),
                forall|j: int| 0 <= j < i ==> buf@[j] == self.inner@[start + j],
                forall|j: int| i <= j < buf@.len() ==> buf@[j] == old(buf)@[j],
            decreases n - i,
        {
            let b = self.inner[start + i];
            *vec_index_mut(buf, i) = b;
            i = i + 1;
        }
        if n > 0 {
            self.pos = self.pos + n as u64;
        }
        proof {
            let s = old(self).remaining();
            assert(buf@ =~= s.take(n as int) + old(buf)@.skip(n as int));
            assert(self.remaining() =~= s.skip(n as int));
        }
        Ok(n)
    }

    fn as_stream_handle(&self) -> (h: Option<u64>) {
        None
    }

    fn as_repeated_value(&self) -> (c: Option<u8>) {
        None
    }
}

impl<H: Host> AsyncWrite<H> for Cursor {
    open spec fn sink(&self) -> SinkModel {
        SinkModel::Buffer { bytes: self.bytes(), pos: self.offset() }
    }

    fn write(&mut self, host: &mut H, data: &[u8]) -> (r: Result<usize, IoError>) {
        if self.pos > usize::MAX as u64 - data.len() as u64 {
            return Err(IoError::from_kind(ErrorKind::InvalidInput));
        }
        let pos = self.pos as usize;
        let ghost bytes0 = self.inner@;
        // a position past the end first fills the gap with zeroes
        while self.inner.len() < pos
            invariant
                self.pos == old(self).pos,
                bytes0 == old(self).inner@,
                self.inner@.len() >= bytes0.len(),
                self.inner@.len() <= pos || self.inner@.len() == bytes0.len(),
                pos + data@.len() <= usize::MAX,
                forall|j: int| 0 <= j < bytes0.len() ==> self.inner@[j] == bytes0[j],
                forall|j: int|
                    bytes0.len() <= j < self.inner@.len() ==> self.inner@[j] == 0u8,
            decreases pos - self.inner@.len(),
        {
            self.inner.push(0u8);
        }
        let ghost padded = if pos > bytes0.len() {
            bytes0 + Seq::new((pos - bytes0.len()) as nat, |j: int| 0u8)
        } else {
            bytes0
        };
        proof {
            assert(self.inner@ =~= padded);
        }
        let mut i: usize = 0;
        while i < data.len()
            invariant
                i <= data@.len(),
                self.pos == old(self).pos,
                pos as nat == old(self).offset(),
                pos + data@.len() <= usize::MAX,
                pos <= padded.len(),
                self.inner@.len() == if padded.len() >= pos + i {
                    padded.len()
                } else {
                    (pos + i) as nat
                },
                forall|j: int| 0 <= j < pos ==> self.inner@[j] == padded[j],
                forall|j: int| pos <= j < pos + i ==> self.inner@[j] == data@[j - pos],
                forall|j: int|
                    pos + i <= j < self.inner@.len() ==> self.inner@[j] == padded[j],
            decreases data@.len() - i,
        {
            let b = data[i];
            if pos + i < self.inner.len() {
                *vec_index_mut(&mut self.inner, pos + i) = b;
            } else {
                self.inner.push(b);
            }
            i = i + 1;
        }
        self.pos = (pos + data.len()) as u64;
        proof {
            assert(self.inner@ =~= write_at(bytes0, pos as nat, data@));
        }
        Ok(data.len())
    }

    fn flush(&mut self, host: &mut H) -> (r: Result<(), IoError>) {
        Ok(())
    }

    fn as_stream_handle(&self) -> (h: Option<u64>) {
        None
    }

    fn ignores_input(&self) -> (b: bool) {
        false
    }
}

/// The position a seek asks for, as a plain integer: negative or oversized
/// targets are exactly the ones a seek must refuse.
pub open spec fn seek_target(c: Cursor, pos: SeekFrom) -> int {
    match pos {
        SeekFrom::Start(p) => p as int,
        SeekFrom::End(o) => c.bytes().len() + o as int,
        SeekFrom::Current(o) => c.offset() + o as int,
    }
}

} // verus!
