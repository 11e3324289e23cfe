//! HTTP-facing capabilities layered on the byte-stream contracts.

mod body;

pub use body::Body;
pub use body::BoundedBody;
pub use body::IntoBody;
