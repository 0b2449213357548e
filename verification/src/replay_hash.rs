//! Deterministic mixing and FNV-1a style checksums used by the replay reports.
use vstd::prelude::*;

verus! {

/// FNV-1a 64-bit offset basis.
pub const FNV_OFFSET_BASIS: u64 = 0xcbf2_9ce4_8422_2325;
/// FNV-1a 64-bit prime.
pub const FNV_PRIME: u64 = 0x0000_0100_0000_01b3;

/// One FNV-1a step: xor the value in, multiply by the prime modulo 2^64.
pub open spec fn fnv_step(hash: u64, value: u64) -> u64 {
    vstd::wrapping::u64_specs::wrapping_mul(hash ^ value, FNV_PRIME)
}

/// Folds the eight little-endian bytes of `rest` (the lowest `k` of them) into `hash`.
pub open spec fn fnv_bytes(hash: u64, rest: u64, k: nat) -> u64
    decreases k,
{
    if k == 0 {
        hash
    } else {
        fnv_bytes(fnv_step(hash, rest % 256), rest / 256, (k - 1) as nat)
    }
}

/// FNV-1a over the little-endian byte encoding of one `u64`.
pub open spec fn fnv_append_spec(hash: u64, value: u64) -> u64 {
    fnv_bytes(hash, value, 8)
}

/// FNV-1a over a sequence of `u64` words, each by its eight little-endian bytes.
pub open spec fn fnv_words(hash: u64, words: Seq<u64>) -> u64
    decreases words.len(),
{
    if words.len() == 0 {
        hash
    } else {
        fnv_append_spec(fnv_words(hash, words.drop_last()), words.last())
    }
}

/// Whole-word FNV-1a: each value is xored in at once.
pub open spec fn fnv_whole_words(hash: u64, words: Seq<u64>) -> u64
    decreases words.len(),
{
    if words.len() == 0 {
        hash
    } else {
        fnv_step(fnv_whole_words(hash, words.drop_last()), words.last())
    }
}

/// Xors `value` into `hash` and multiplies by the FNV prime (wrapping).
pub fn fnv(hash: u64, value: u64) -> (r: u64)
    ensures
        r == fnv_step(hash, value),
{
    (hash ^ value).wrapping_mul(FNV_PRIME)
}

/// Folds the eight little-endian bytes of `value` into `hash`, one FNV step each.
pub fn fnv_append_u64(hash: u64, value: u64) -> (r: u64)
    ensures
        r == fnv_append_spec(hash, value),
{
    let mut h = hash;
    let mut rest = value;
    let mut k: u64 = 0;
    while k < 8
        invariant
            k <= 8,
            fnv_bytes(h, rest, (8 - k) as nat) == fnv_append_spec(hash, value),
        decreases 8 - k,
    {
        h = fnv(h, rest % 256);
        rest = rest / 256;
        k = k + 1;
    }
    h
}

/// SplitMix-style finalizer that mixes a seed.
pub open spec fn stable_mix_spec(value: u64) -> u64 {
    let v1 = value ^ (value >> 33u64);
    let v2 = vstd::wrapping::u64_specs::wrapping_mul(v1, 0xff51_afd7_ed55_8ccd);
    let v3 = v2 ^ (v2 >> 33u64);
    let v4 = vstd::wrapping::u64_specs::wrapping_mul(v3, 0xc4ce_b9fe_1a85_ec53);
    v4 ^ (v4 >> 33u64)
}

/// Bijective 64-bit mixer (murmur3 finalizer constants).
pub fn stable_mix(value: u64) -> (r: u64)
    ensures
        r == stable_mix_spec(value),
{
    let mut v = value;
    v = v ^ (v >> 33u64);
    v = v.wrapping_mul(0xff51_afd7_ed55_8ccd);
    v = v ^ (v >> 33u64);
    v = v.wrapping_mul(0xc4ce_b9fe_1a85_ec53);
    v ^ (v >> 33u64)
}

/// Knuth MMIX linear congruential step.
pub open spec fn lcg_next_spec(state: u64) -> u64 {
    vstd::wrapping::u64_specs::wrapping_add(
        vstd::wrapping::u64_specs::wrapping_mul(state, 6_364_136_223_846_793_005),
        1_442_695_040_888_963_407,
    )
}

/// One step of the linear congruential generator.
pub fn lcg_next(state: u64) -> (r: u64)
    ensures
        r == lcg_next_spec(state),
{
    state.wrapping_mul(6_364_136_223_846_793_005).wrapping_add(1_442_695_040_888_963_407)
}

} // verus!
