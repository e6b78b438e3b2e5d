//! A one-time pad over byte vectors.
//!
//! A pad is a sequence of random bytes that is as long as the message it
//! protects. Combining the two byte by byte with exclusive-or gives the
//! ciphertext, and combining the ciphertext with the same pad gives the
//! message back. A pad protects one message only: the library cannot see
//! whether a pad is used twice, so that duty stays with the caller.
pub mod entropy;
pub mod error;
pub mod laws;
pub mod model;
pub mod pad;
pub mod transform;

pub use crate::error::PadError;
pub use crate::pad::OneTimePad;
pub use crate::transform::{error_check, operate};
