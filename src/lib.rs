//! A commit-reveal protocol over 64-bit values.
//!
//! A party publishes `commit(secret)`, a one-way mix of the secret, and later
//! reveals the secret; anyone can then check the claim with `verify_preimage`.
//! The mixing function is a bijection on `u64`, which this crate proves, so a
//! commitment binds exactly one secret.
pub mod commitment;
pub mod mix;

pub use commitment::{commit, verify_preimage};
pub use mix::secure_hash;
