//! An endless source of one repeated byte.

use vstd::prelude::*;
use crate::host::Host;
use crate::io::error::IoError;
use crate::io::read::{AsyncRead, SourceModel, source_constant, source_stream_handle};
use vstd::std_specs::vec::vec_index_mut;

verus! {

/// A reader that infinitely produces a single byte value.
#[derive(Clone, Copy, Debug)]
pub struct Repeat {
    byte: u8,
}

impl Repeat {
    /// The byte this reader produces.
    pub closed spec fn repeated(&self) -> u8 {
        self.byte
    }
}

/// Creates a reader that infinitely produces the given byte.
pub fn repeat(byte: u8) -> (r: Repeat)
    ensures
        r.repeated() == byte,
{
    Repeat { byte }
}

impl<H: Host> AsyncRead<H> for Repeat {
    open spec fn source(&self) -> SourceModel {
        SourceModel::Constant(self.repeated())
    }

    fn read(&mut self, host: &mut H, buf: &mut Vec<u8>) -> (r: Result<usize, IoError>) {
        let n = buf.len();
        let mut i: usize = 0;
        while i < n
            invariant
                i <= n,
                n == buf@.len(),
                forall|j: int| 0 <= j < i ==> buf@[j] == self.byte,
            decreases n - i,
        {
            *vec_index_mut(buf, i) = self.byte;
            i = i + 1;
        }
        proof {
            assert(buf@ =~= Seq::new(old(buf)@.len(), |j: int| self.byte));
        }
        Ok(n)
    }

    fn as_stream_handle(&self) -> (h: Option<u64>) {
        None
    }

    fn as_repeated_value(&self) -> (c: Option<u8>) {
        Some(self.byte)
    }
}

} // verus!
