//! Offline construction of ledger instructions and ed25519 message signatures.
//!
//! The library parses untrusted base-58 addresses and keys, builds the
//! instruction triples of the system and token programs, signs and verifies
//! messages, and shapes the data that each request handler answers with.

pub mod address;
pub mod codec;
pub mod instruction;
pub mod keys;
pub mod routes;
