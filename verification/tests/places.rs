use std::collections::HashSet;

use nadir_ui::places::{places, Kind, PLACE_COUNT};

#[test]
fn every_place_sits_on_the_globe_and_has_a_unique_name() {
    let mut seen = HashSet::new();
    for p in places() {
        assert!((-9000..=9000).contains(&p.lat_cdeg), "{}: lat {}", p.name, p.lat_cdeg);
        assert!((-18000..=18000).contains(&p.lon_cdeg), "{}: lon {}", p.name, p.lon_cdeg);
        assert!(seen.insert(p.name), "duplicate place {}", p.name);
    }
    assert_eq!(seen.len(), PLACE_COUNT);
}

#[test]
fn the_table_is_ordered_by_tier_so_a_flat_walk_is_stable() {
    assert!(places().windows(2).all(|w| w[0].tier <= w[1].tier));
}

#[test]
fn every_sparse_region_and_both_poles_have_an_anchor() {
    // (lat_lo, lat_hi, lon_lo, lon_hi, what), in hundredths of a degree.
    let boxes = [
        (6600, 9000, -18000, 0, "Arctic, western hemisphere"),
        (6600, 9000, 0, 18000, "Arctic, eastern hemisphere"),
        (-9000, -5000, -18000, 0, "far south, western hemisphere"),
        (-9000, -5000, 0, 18000, "far south, eastern hemisphere"),
        (-3000, 3000, 15000, 18000, "western Pacific"),
        (-3000, 3000, -18000, -14000, "central Pacific"),
        (3000, 6600, -4000, -1000, "North Atlantic"),
        (-4000, 0, 4000, 9500, "southern Indian Ocean"),
        (5000, 7500, 9000, 16000, "Siberia"),
    ];
    let all = places();
    for (lat_lo, lat_hi, lon_lo, lon_hi, what) in boxes {
        assert!(
            all.iter().any(|p| (lat_lo..=lat_hi).contains(&p.lat_cdeg) && (lon_lo..=lon_hi).contains(&p.lon_cdeg)),
            "no place anchors {what}"
        );
    }
}

#[test]
fn cities_and_ground_stations_wear_different_glyphs() {
    let all = places();
    assert_eq!(all[0].name, "Tokyo");
    assert_eq!(all[0].glyph(), "·");
    let station = all.iter().find(|p| p.kind == Kind::Station).expect("a ground station");
    assert_eq!(station.glyph(), "+");
}
