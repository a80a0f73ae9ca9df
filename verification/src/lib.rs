//! A confidential prediction market split into two verified layers.
//!
//! The [`engine`] module is the arithmetic core that the secure-computation
//! cluster runs over decrypted pool totals: branch-free pool updates and
//! pari-mutuel settlement, written so that the shape of the computation never
//! depends on a secret value.
//!
//! The [`ledger`] module is the orchestration layer that lives outside the
//! encryption boundary: it treats pool values as opaque ciphertext blocks,
//! queues at most one computation per market at a time, and commits a
//! verified callback result atomically or not at all.

pub mod engine;
pub mod errors;
pub mod ledger;
