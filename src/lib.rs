//! Construction of ledger instructions and ed25519 message signing.
//!
//! Every operation is a pure function of its inputs: addresses are parsed
//! from their textual form, instructions for the token and system programs are
//! laid out byte by byte, and messages are signed and verified.
pub mod error;
pub mod address;
pub mod codec;
pub mod keys;
pub mod instruction;
pub mod service;
