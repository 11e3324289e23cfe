//! Async I/O abstractions: byte-stream read/write contracts, an in-memory
//! cursor with seek, constant-byte and empty streams, handle-backed streams,
//! and a copy operation that picks the fastest transfer strategy available.

mod copy;
mod cursor;
mod empty;
mod error;
mod read;
mod repeat;
mod seek;
mod streams;
mod write;

pub use copy::const_seq;
pub use copy::constant_fill_outcome;
pub use copy::copy;
pub use copy::copy_post;
pub use cursor::Cursor;
pub use cursor::seek_target;
pub use empty::Empty;
pub use error::ErrorKind;
pub use error::IoError;
pub use read::AsyncRead;
pub use read::SourceModel;
pub use read::read_post;
pub use read::source_constant;
pub use read::source_stream_handle;
pub use repeat::Repeat;
pub use repeat::repeat;
pub use seek::SeekFrom;
pub use streams::InputStream;
pub use streams::OutputStream;
pub use write::AsyncWrite;
pub use write::SinkModel;
pub use write::sink_stream_handle;
pub use write::write_all;
pub use write::write_at;
pub use write::write_post;
