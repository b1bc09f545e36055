//! A collection of symmetric cipher implementations for educational
//! purposes: the MARS block cipher and the Salsa20 and Trivium stream
//! ciphers. Each cipher's behaviour is stated as a mathematical model in
//! spec functions, every executable function is proved to compute its
//! model, and the encrypt/decrypt round-trip laws are proved as lemmas.
//!
//! None of these implementations is suitable for production use: they
//! offer no side-channel resistance and no authentication.

pub mod mars;
pub mod salsa20;
pub mod sbox;
pub mod trivium;
pub mod wordops;
