//! HTTP body types: byte sources whose exact remaining length may be known.

use vstd::prelude::*;
use crate::host::Host;
use crate::io::{AsyncRead, Cursor, Empty, IoError, SourceModel};
use vstd::slice::slice_to_vec;
use vstd::string::StringSliceAdditionalSpecFns;
use vstd::utf8::encode_utf8;

verus! {

/// A trait representing an HTTP body: a byte source that may know exactly how
/// many bytes it still has to deliver.
pub trait Body<H: Host>: AsyncRead<H> {
    /// Returns the exact remaining length, if known: a `Some` answer is
    /// exactly the length of the bytes still to be read, and an in-memory
    /// body of representable size always answers.
    fn len(&self) -> (n: Option<usize>)
        ensures
            n matches Some(k) ==> (self.source() matches SourceModel::Bytes(s) && s.len()
                == k),
            (self.source() matches SourceModel::Bytes(s) && s.len() <= usize::MAX)
                ==> n is Some,
    ;

    /// Returns whether the body is known to be empty: exactly the derived
    /// fact that the remaining length is known and zero.
    fn is_empty(&self) -> (b: bool)
        ensures
            b == (self.source() matches SourceModel::Bytes(s) && s.len() == 0),
    ;
}

/// Conversion into a [`Body`].
pub trait IntoBody<H: Host>: Sized {
    /// What type of body this converts into.
    type IntoBody: Body<H>;

    /// The byte content this value converts to.
    spec fn body_bytes(&self) -> Seq<u8>;

    /// Convert into a body holding exactly this value's bytes.
    fn into_body(self) -> (b: Self::IntoBody)
        ensures
            b.source() == SourceModel::Bytes(self.body_bytes()),
    ;
}

/// An HTTP body with a known length: an in-memory buffer read from the front.
#[derive(Clone, Debug)]
pub struct BoundedBody {
    inner: Cursor,
}

impl BoundedBody {
    /// The bytes this body still has to deliver.
    pub closed spec fn remaining(&self) -> Seq<u8> {
        self.inner.remaining()
    }

    /// A body holding exactly the given bytes.
    pub fn new(bytes: Vec<u8>) -> (b: BoundedBody)
        ensures
            b.remaining() == bytes@,
    {
        let c = Cursor::new(bytes);
        proof {
            assert(c.remaining() =~= c.bytes());
        }
        BoundedBody { inner: c }
    }
}

impl<H: Host> AsyncRead<H> for BoundedBody {
    open spec fn source(&self) -> SourceModel {
        SourceModel::Bytes(self.remaining())
    }

    fn read(&mut self, host: &mut H, buf: &mut Vec<u8>) -> (r: Result<usize, IoError>) {
        self.inner.read(host, buf)
    }

    fn as_stream_handle(&self) -> (h: Option<u64>) {
        None
    }

    fn as_repeated_value(&self) -> (c: Option<u8>) {
        None
    }
}

impl<H: Host> Body<H> for BoundedBody {
    fn len(&self) -> (n: Option<usize>) {
        let total = self.inner.get_ref().len();
        let p = self.inner.position();
        let rem: usize = if p >= total as u64 {
            0
        } else {
            total - p as usize
        };
        Some(rem)
    }

    fn is_empty(&self) -> (b: bool) {
        let total = self.inner.get_ref().len();
        proof {
            assert(self.remaining().len() <= total);
        }
        matches!(Body::<H>::len(self), Some(0usize))
    }
}

impl<H: Host> Body<H> for Empty {
    fn len(&self) -> (n: Option<usize>) {
        Some(0)
    }

    fn is_empty(&self) -> (b: bool) {
        true
    }
}

impl<H: Host> IntoBody<H> for Vec<u8> {
    type IntoBody = BoundedBody;

    open spec fn body_bytes(&self) -> Seq<u8> {
        self@
    }

    fn into_body(self) -> (b: BoundedBody) {
        BoundedBody::new(self)
    }
}

impl<'a, H: Host> IntoBody<H> for &'a [u8] {
    type IntoBody = BoundedBody;

    open spec fn body_bytes(&self) -> Seq<u8> {
        self@
    }

    fn into_body(self) -> (b: BoundedBody) {
        BoundedBody::new(slice_to_vec(self))
    }
}

impl<'a, H: Host> IntoBody<H> for &'a str {
    type IntoBody = BoundedBody;

    open spec fn body_bytes(&self) -> Seq<u8> {
        self.spec_bytes()
    }

    fn into_body(self) -> (b: BoundedBody) {
        BoundedBody::new(slice_to_vec(self.as_bytes()))
    }
}

impl<H: Host> IntoBody<H> for String {
    type IntoBody = BoundedBody;

    open spec fn body_bytes(&self) -> Seq<u8> {
        encode_utf8(self@)
    }

    fn into_body(self) -> (b: BoundedBody) {
        let slice = self.as_str();
        let bytes = slice_to_vec(slice.as_bytes());
        proof {
            assert(bytes@ == encode_utf8(slice@));
        }
        BoundedBody::new(bytes)
    }
}

} // verus!
