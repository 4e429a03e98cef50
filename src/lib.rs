//! Readable excerpts of byte buffers that failed UTF-8 decoding, centred on the
//! decode error and cut on codepoint boundaries, and the error types that carry
//! such failures for a child process's two output streams.
use vstd::prelude::*;

pub mod context;
pub mod error;

pub use context::{frame_excerpt, is_codepoint_boundary, ByteCount, FromUtf8ErrorContext};
pub use error::{decode_output, Error, StderrError, StdoutError, ERROR_CONTEXT_BYTES};

