//! Streaming ROT13: a case-preserving shift of 13 places over the ASCII
//! letters, applied to bytes one chunk at a time.
pub mod cipher;
pub mod laws;
pub mod stream;

pub use cipher::{rot13_byte, rot13_slice, Mode};
