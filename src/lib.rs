//! Translation of the status codes and error messages that a host callback
//! hands back across the language boundary into typed, owned errors.
pub mod buffer;
pub mod status;
pub mod translate;

pub use buffer::Buffer;
pub use status::GoResult;
