//! Deterministic record addressing.
//!
//! Each persistent record's storage key is a pure function of its parent
//! record's identity plus a fixed namespace tag, so any component can compute
//! a record's location without an external index. The derivation is a small
//! invertible bit mix over the tag and the parent key.

use vstd::prelude::*;

verus! {

/// Namespace tag for the loan record derived from an offer.
pub const ACTIVE_LOAN_TAG: u64 = 0x6163746976652d6c;

/// Namespace tag for the escrow vault's asset account derived from an offer.
pub const VAULT_ASSET_TAG: u64 = 0x7661756c742d6173;

/// Namespace tag for the protocol-only vault authority derived from a loan.
pub const VAULT_AUTHORITY_TAG: u64 = 0x7661756c742d6175;

/// One round of an invertible xorshift mix on a 64-bit word.
pub open spec fn spec_mix64(x: u64) -> u64 {
    let a: u64 = x ^ (x << 13u64);
    let b: u64 = a ^ (a >> 7u64);
    b ^ (b << 17u64)
}

/// The storage key of the record filed under `tag` for parent record `parent`.
pub open spec fn spec_derive_record_key(tag: u64, parent: u64) -> u64 {
    spec_mix64(tag ^ spec_mix64(parent))
}

fn mix64(x: u64) -> (r: u64)
    ensures
        r == spec_mix64(x),
{
    let a: u64 = x ^ (x << 13u64);
    let b: u64 = a ^ (a >> 7u64);
    b ^ (b << 17u64)
}

/// Computes the storage key of the record filed under `tag` for parent
/// record `parent`.
pub fn derive_record_key(tag: u64, parent: u64) -> (r: u64)
    ensures
        r == spec_derive_record_key(tag, parent),
{
    mix64(tag ^ mix64(parent))
}

proof fn lemma_xor_shl13_injective(x: u64, y: u64)
    requires
        x ^ (x << 13u64) == y ^ (y << 13u64),
    ensures
        x == y,
{
    assert((x ^ (x << 13u64) == y ^ (y << 13u64)) ==> x == y) by (bit_vector);
}

proof fn lemma_xor_shr7_injective(x: u64, y: u64)
    requires
        x ^ (x >> 7u64) == y ^ (y >> 7u64),
    ensures
        x == y,
{
    assert((x ^ (x >> 7u64) == y ^ (y >> 7u64)) ==> x == y) by (bit_vector);
}

proof fn lemma_xor_shl17_injective(x: u64, y: u64)
    requires
        x ^ (x << 17u64) == y ^ (y << 17u64),
    ensures
        x == y,
{
    assert((x ^ (x << 17u64) == y ^ (y << 17u64)) ==> x == y) by (bit_vector);
}

/// The xorshift mix is invertible — each round is — so it never collides.
pub proof fn lemma_mix64_injective(x: u64, y: u64)
    requires
        spec_mix64(x) == spec_mix64(y),
    ensures
        x == y,
{
    let ax: u64 = x ^ (x << 13u64);
    let bx: u64 = ax ^ (ax >> 7u64);
    let ay: u64 = y ^ (y << 13u64);
    let by: u64 = ay ^ (ay >> 7u64);
    lemma_xor_shl17_injective(bx, by);
    lemma_xor_shr7_injective(ax, ay);
    lemma_xor_shl13_injective(x, y);
}

/// Under one namespace tag, distinct parent records are filed under
/// distinct storage keys: derivation addresses each record uniquely, so a
/// record's location never clashes with a sibling's.
pub proof fn lemma_derive_record_key_injective(tag: u64, parent1: u64, parent2: u64)
    requires
        spec_derive_record_key(tag, parent1) == spec_derive_record_key(tag, parent2),
    ensures
        parent1 == parent2,
{
    let m1: u64 = spec_mix64(parent1);
    let m2: u64 = spec_mix64(parent2);
    lemma_mix64_injective(tag ^ m1, tag ^ m2);
    assert((tag ^ m1 == tag ^ m2) ==> m1 == m2) by (bit_vector);
    lemma_mix64_injective(parent1, parent2);
}

} // verus!
