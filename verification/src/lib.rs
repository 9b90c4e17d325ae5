//! Short, text-safe nonces for session identifiers and one-time tokens.
//!
//! A nonce is the base64 text of a byte buffer that starts with twelve bytes
//! taken from the clock and goes on with bytes taken from a secure random
//! source. The clock makes two nonces of one process differ over time, the
//! random bytes make them hard to predict.
//!
//! - `layout`: the twelve bytes that stand for an instant.
//! - `alphabet`: the two base64 alphabets and the encoder.
//! - `clock`: the instant, as the system clock gives it.
//! - `entropy`: where the random bytes come from.
//! - `nonce`: the nonce, its lengths and the functions that make one.

pub mod alphabet;
mod clock;
pub mod entropy;
pub mod layout;
pub mod nonce;

pub use alphabet::Alphabet;
pub use layout::Timestamp;
pub use nonce::{ConfigError, TextNonce};
