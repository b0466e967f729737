//! The mixing function: two rounds of "multiply by an odd constant, then fold
//! the high half into the low half".
use vstd::prelude::*;

verus! {

/// First multiplier of the mix (odd, hence invertible modulo 2^64).
pub const MIX_K1: u64 = 0x517cc1b727220a95;

/// Second multiplier of the mix (odd, hence invertible modulo 2^64).
pub const MIX_K2: u64 = 0x94d049bb133111eb;

/// Multiplicative inverse of `MIX_K1` modulo 2^64.
pub const MIX_K1_INV: u64 = 0x2040003d780970bd;

/// Multiplicative inverse of `MIX_K2` modulo 2^64.
pub const MIX_K2_INV: u64 = 0x319642b2d24d8ec3;

/// 2^64, the modulus of `u64` arithmetic.
pub open spec fn word_modulus() -> nat {
    0x1_0000_0000_0000_0000nat
}

/// Product of `x` and `k` reduced modulo 2^64.
pub open spec fn mul_wrap(x: u64, k: u64) -> u64 {
    ((x as nat * k as nat) % word_modulus()) as u64
}

/// Exclusive-or of `x` with its own high 32 bits shifted down.
pub open spec fn fold_high(x: u64) -> u64 {
    x ^ (x >> 32u64)
}

/// The mixing function: the commitment to a secret `x`.
pub open spec fn mix(x: u64) -> u64 {
    fold_high(mul_wrap(fold_high(mul_wrap(x, MIX_K1)), MIX_K2))
}

/// The inverse of `mix`, each round undone in reverse order.
pub open spec fn unmix(c: u64) -> u64 {
    mul_wrap(fold_high(mul_wrap(fold_high(c), MIX_K2_INV)), MIX_K1_INV)
}

/// Folding the high half in twice gives back the original value.
pub proof fn lemma_fold_high_involution(x: u64)
    ensures
        fold_high(fold_high(x)) == x,
{
    assert((x ^ (x >> 32u64)) ^ ((x ^ (x >> 32u64)) >> 32u64) == x) by (bit_vector);
}

/// Multiplying by `k` and then by an inverse of `k` modulo 2^64 is the identity.
pub proof fn lemma_mul_wrap_cancel(x: u64, k: u64, k_inv: u64)
    requires
        (k as nat * k_inv as nat) % word_modulus() == 1,
    ensures
        mul_wrap(mul_wrap(x, k), k_inv) == x,
{
    let m = word_modulus() as int;
    let a = x as int * k as int;
    vstd::arithmetic::div_mod::lemma_mod_bound(a, m);
    vstd::arithmetic::div_mod::lemma_mul_mod_noop_left(a, k_inv as int, m);
    vstd::arithmetic::mul::lemma_mul_is_associative(x as int, k as int, k_inv as int);
    vstd::arithmetic::div_mod::lemma_mul_mod_noop_right(x as int, k as int * k_inv as int, m);
    vstd::arithmetic::div_mod::lemma_small_mod(x as nat, m as nat);
}

/// `unmix` undoes `mix` on every input.
pub proof fn lemma_unmix_mix(x: u64)
    ensures
        unmix(mix(x)) == x,
{
    let a = mul_wrap(x, MIX_K1);
    let b = fold_high(a);
    let c = mul_wrap(b, MIX_K2);
    assert((MIX_K1 as nat * MIX_K1_INV as nat) % word_modulus() == 1);
    assert((MIX_K2 as nat * MIX_K2_INV as nat) % word_modulus() == 1);
    lemma_fold_high_involution(c);
    lemma_mul_wrap_cancel(b, MIX_K2, MIX_K2_INV);
    lemma_fold_high_involution(a);
    lemma_mul_wrap_cancel(x, MIX_K1, MIX_K1_INV);
}

/// The mix is injective: distinct secrets never share a commitment.
pub proof fn lemma_mix_injective(x: u64, y: u64)
    requires
        mix(x) == mix(y),
    ensures
        x == y,
{
    lemma_unmix_mix(x);
    lemma_unmix_mix(y);
}

/// Computes `mix(preimage)` with wrapping multiplications and shifts.
pub fn secure_hash(preimage: u64) -> (h: u64)
    ensures
        h == mix(preimage),
{
    let h1 = preimage.wrapping_mul(MIX_K1);
    let h2 = h1 ^ (h1 >> 32);
    let h3 = h2.wrapping_mul(MIX_K2);
    h3 ^ (h3 >> 32)
}

} // verus!
