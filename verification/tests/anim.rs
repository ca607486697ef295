use nadir_ui::anim::hash_bits;

/// The mix written out longhand, as the starfield and twinkle use it.
fn reference(seed: u32, step: u32) -> u32 {
    let mut x = (seed as u64) ^ ((step as u64).wrapping_mul(0x9E3779B97F4A7C15));
    x ^= x >> 30;
    x = x.wrapping_mul(0xBF58476D1CE4E5B9);
    x ^= x >> 27;
    x = x.wrapping_mul(0x94D049BB133111EB);
    x ^= x >> 31;
    (x >> 40) as u32
}

#[test]
fn the_hash_is_deterministic_and_fits_twenty_four_bits() {
    for seed in [0u32, 1, 0x5741, 0x5742, u32::MAX] {
        for step in [0u32, 1, 2, 1000, u32::MAX] {
            let h = hash_bits(seed, step);
            assert_eq!(h, hash_bits(seed, step));
            assert_eq!(h, reference(seed, step));
            assert!(h < 1 << 24);
        }
    }
}

#[test]
fn the_hash_differs_across_seeds_at_the_same_step() {
    let a: Vec<u32> = (0..32).map(|i| hash_bits(0x5741, i)).collect();
    let b: Vec<u32> = (0..32).map(|i| hash_bits(0x5742, i)).collect();
    assert_ne!(a, b);
    assert_eq!(hash_bits(0, 0), 0);
}
