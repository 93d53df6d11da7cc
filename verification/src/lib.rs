//! Signing and verifying text with a keyed hash or an Ed25519 key pair, the
//! key material for both, and the small utilities around them: random
//! passwords, durations, and the validation of command-line arguments.
//!
//! Every function here works on values in memory. Reading inputs and keys,
//! and writing what comes out, is left to the caller.

pub mod cli;
pub mod duration;
pub mod ed25519;
pub mod encoding;
pub mod error;
pub mod format;
pub mod genpass;
pub mod http;
pub mod jwt;
pub mod key;
pub mod keyed_hash;
pub mod laws;
pub mod text;
