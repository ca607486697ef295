use std::collections::HashSet;

use nadir_ui::stars::{stars, STAR_COUNT};

#[test]
fn the_table_is_sorted_by_magnitude_so_a_flat_walk_favours_the_brightest() {
    let all = stars();
    let (without_polaris, polaris) = all.split_at(all.len() - 1);
    assert_eq!(polaris[0].name, "Polaris");
    assert!(without_polaris.windows(2).all(|w| w[0].mag_centi <= w[1].mag_centi));
}

#[test]
fn every_star_sits_on_the_celestial_sphere_and_has_a_unique_name() {
    let mut seen = HashSet::new();
    for s in stars() {
        assert!((0..36000).contains(&s.ra_cdeg), "{}: ra {}", s.name, s.ra_cdeg);
        assert!((-9000..=9000).contains(&s.dec_cdeg), "{}: dec {}", s.name, s.dec_cdeg);
        assert!(seen.insert(s.name), "duplicate star {}", s.name);
    }
    assert_eq!(seen.len(), STAR_COUNT);
}
