//! The ChaCha20 block function over 32-bit words.
//!
//! [`chacha`] holds the executable functions, [`spec`] the mathematical model
//! that their contracts are stated over, [`laws`] the properties proved of that
//! model, and [`utils`] the hexadecimal rendering of a block.

pub mod chacha;
pub mod laws;
pub mod spec;
pub mod utils;
