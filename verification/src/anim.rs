//! The integer hash the dashboard's procedural motion is keyed on: the star
//! twinkle, the starfield's scatter and the meteor rolls all draw from it,
//! so the same seed and step always give the same value.

use vstd::prelude::*;

verus! {

/// The splitmix-style mix of `seed` and `step`, before its top bits are
/// taken.
pub open spec fn mix(seed: u32, step: u32) -> u64 {
    let x0 = (seed as u64) ^ vstd::wrapping::u64_specs::wrapping_mul(step as u64, 0x9E3779B97F4A7C15u64);
    let x1 = x0 ^ (x0 >> 30u64);
    let x2 = vstd::wrapping::u64_specs::wrapping_mul(x1, 0xBF58476D1CE4E5B9u64);
    let x3 = x2 ^ (x2 >> 27u64);
    let x4 = vstd::wrapping::u64_specs::wrapping_mul(x3, 0x94D049BB133111EBu64);
    x4 ^ (x4 >> 31u64)
}

/// The hash of `(seed, step)` as 24 bits: the top bits of [`mix`]. Divided
/// by `2^24` it is a value in `0..1`, the same for the same pair every time.
pub fn hash_bits(seed: u32, step: u32) -> (h: u32)
    ensures
        h == (mix(seed, step) >> 40u64) as u32,
        h < 0x100_0000,
{
    let mut x: u64 = (seed as u64) ^ (step as u64).wrapping_mul(0x9E3779B97F4A7C15);
    x = x ^ (x >> 30);
    x = x.wrapping_mul(0xBF58476D1CE4E5B9);
    x = x ^ (x >> 27);
    x = x.wrapping_mul(0x94D049BB133111EB);
    x = x ^ (x >> 31);
    let top = x >> 40;
    assert(top < 0x100_0000) by (bit_vector)
        requires
            top == x >> 40u64,
    ;
    top as u32
}

} // verus!
