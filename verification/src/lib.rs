//! WyRand: a fast, non-cryptographic pseudo-random number generator with a
//! single 64-bit state word, verified with Verus.
//!
//! - [`WyRand`], in [`generator`], is the generator: seeding, words of 32
//!   and 64 bits, and byte filling, each with a contract that says exactly
//!   what comes out and where the state goes.
//! - [`model`] is the mathematical description of the output stream, over
//!   which the contracts are stated.
//! - [`laws`] holds what is proved of the model: determinism, the layout of
//!   the stream, and how seeds and states correspond.
//! - [`trusted`] names the few outside items that are believed, not proved.
//!
//! The generator is not cryptographically secure: do not use it for keys,
//! passwords or tokens.

mod bits;
pub mod generator;
pub mod laws;
pub mod model;
pub mod trusted;

pub use generator::WyRand;
