//! Commit and verify: the two operations of the protocol.
use vstd::prelude::*;
use crate::mix::{lemma_mix_injective, mix, secure_hash};

verus! {

/// Whether `claim` opens `commitment`.
pub open spec fn opens(commitment: u64, claim: u64) -> bool {
    commitment == mix(claim)
}

/// Produces the public commitment to `secret`. Total: defined for every `u64`.
pub fn commit(secret: u64) -> (commitment: u64)
    ensures
        commitment == mix(secret),
{
    secure_hash(secret)
}

/// Checks a claimed secret against a published commitment. Total: defined for
/// every pair of `u64` values.
pub fn verify_preimage(public_hash: u64, claimed_secret: u64) -> (ok: bool)
    ensures
        ok == opens(public_hash, claimed_secret),
        ok <==> public_hash == mix(claimed_secret),
{
    public_hash == secure_hash(claimed_secret)
}

/// Committing is deterministic: equal secrets give equal commitments, so
/// repeated calls of `commit` on one secret return one value.
pub proof fn lemma_commit_deterministic(x: u64, y: u64)
    requires
        x == y,
    ensures
        mix(x) == mix(y),
{
}

/// A secret always opens its own commitment.
pub proof fn lemma_secret_opens_commitment(x: u64)
    ensures
        opens(mix(x), x),
{
}

/// A claim that differs from the secret never opens the secret's commitment,
/// whether or not the two commitments are assumed to differ.
pub proof fn lemma_other_claim_rejected(x: u64, y: u64)
    requires
        x != y,
    ensures
        mix(x) != mix(y),
        !opens(mix(x), y),
{
    if mix(x) == mix(y) {
        lemma_mix_injective(x, y);
    }
}

/// A claim opens a commitment to `x` exactly when it is `x`.
pub proof fn lemma_opens_iff_same_secret(x: u64, y: u64)
    ensures
        opens(mix(x), y) <==> x == y,
{
    if x != y {
        lemma_other_claim_rejected(x, y);
    }
}

/// A commitment equals its secret only where the secret is a fixed point of
/// the mix; everywhere else the published value differs from the secret.
pub proof fn lemma_commitment_differs_off_fixed_points(x: u64)
    requires
        mix(x) != x,
    ensures
        !opens(x, x),
{
}

/// Zero is a fixed point of the mix: its commitment is zero itself.
pub proof fn lemma_zero_is_fixed_point()
    ensures
        mix(0) == 0,
{
    assert(0u64 ^ (0u64 >> 32u64) == 0) by (bit_vector);
}

} // verus!
