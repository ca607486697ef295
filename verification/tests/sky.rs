use nadir_ui::sky::{live_look, plot_footer, star_labels, FooterParts, MAX_STAR_LABELS};

#[test]
fn a_star_too_close_to_a_brighter_name_keeps_only_its_dot() {
    // Sirius names itself; the next is three columns over on the same row,
    // too close; the third is four columns over, far enough.
    let cells = [(10u16, 5u16), (13, 5), (14, 5), (10, 6), (10, 7)];
    assert_eq!(star_labels(&cells), vec![0, 2, 4]);
}

#[test]
fn no_more_than_six_stars_are_named() {
    let cells: Vec<(u16, u16)> = (0..20u16).map(|i| (i * 10, i * 3)).collect();
    let kept = star_labels(&cells);
    assert_eq!(kept.len(), MAX_STAR_LABELS);
    assert_eq!(kept, vec![0, 1, 2, 3, 4, 5]);
}

#[test]
fn named_stars_never_crowd_each_other() {
    let cells: Vec<(u16, u16)> = (0..60u16).map(|i| ((i * 7) % 23, (i * 5) % 9)).collect();
    let kept = star_labels(&cells);
    for (n, &a) in kept.iter().enumerate() {
        for &b in &kept[n + 1..] {
            assert!(a < b);
            let (ca, cb) = (cells[a], cells[b]);
            assert!(!(ca.0.abs_diff(cb.0) < 4 && ca.1.abs_diff(cb.1) < 2), "{ca:?} {cb:?}");
        }
    }
    assert!(star_labels(&[]).is_empty());
}

/// An evening ISS pass over Munich as the panel renders it: rising in the
/// WSW, peaking at 47.3° and setting in the ENE six minutes and five seconds
/// later.
fn iss_over_munich() -> FooterParts {
    FooterParts {
        date: "Thu 2026-09-10".to_string(),
        aos_hms: "20:14:07".to_string(),
        aos_hm: "20:14".to_string(),
        peak_hm: "20:17".to_string(),
        los_hms: "20:20:12".to_string(),
        los_hm: "20:20".to_string(),
        aos_point: 11,
        los_point: 3,
        aos_az: "245".to_string(),
        peak_tenths: "47.3".to_string(),
        peak_whole: "47".to_string(),
        dur_secs: 365,
    }
}

#[test]
fn the_footer_names_the_date_on_its_widest_tier_only() {
    let tiers = plot_footer(&iss_over_munich());
    assert_eq!(tiers[0], format!("{}  ·  {}", "Thu 2026-09-10", tiers[1]));
    assert!(!tiers[1].contains("Thu 2026-09-10"), "the date belongs on tier 0 only");
    assert_eq!(
        tiers[1],
        "AOS 20:14:07 WSW 245°  ·  max 47.3° 20:17  ·  LOS 20:20:12 ENE  ·  6m05s"
    );
    assert_eq!(tiers[2], "AOS 20:14 WSW  ·  max 47° 20:17  ·  LOS 20:20 ENE  ·  6m");
    assert_eq!(tiers[3], "WSW→ENE  ·  max 47°  ·  6m");
    assert_eq!(tiers[4], "max 47°  ·  6m");
}

#[test]
fn the_footer_tiers_get_strictly_shorter() {
    let tiers = plot_footer(&iss_over_munich());
    for pair in tiers.windows(2) {
        assert!(
            pair[1].chars().count() < pair[0].chars().count(),
            "{:?} did not shrink from {:?}",
            pair[1],
            pair[0],
        );
    }
}

#[test]
fn the_live_marker_is_absent_unless_the_clock_is_inside_the_pass() {
    // An ISS pass over Munich, in seconds: rising at 20:14:07, culminating
    // at 20:17:10 and setting at 20:20:12.
    let (aos, peak, los) = (72_847_i64, 73_030_i64, 73_212_i64);
    assert!(live_look(aos - 60, aos, los, "look").is_none(), "nothing to mark before the satellite has risen");
    assert!(live_look(los + 60, aos, los, "look").is_none(), "nor after it has set");
    assert_eq!(live_look(peak, aos, los, "look"), Some("look"), "but the satellite is on the arc mid-pass");
    assert!(live_look(aos, aos, los, "look").is_some() && live_look(los, aos, los, "look").is_some());
}

#[test]
fn the_live_marker_sits_on_the_arc_at_culmination() {
    // The ISS pass over Munich above, culminating at 63.4° in the
    // south-south-east; the look angles at the culmination instant are the
    // arc's own peak sample.
    let (aos, peak, los) = (72_847_i64, 73_030_i64, 73_212_i64);
    let peak_elevation_cdeg: i32 = 6_340;
    let look_at_peak = (15_750_i32, peak_elevation_cdeg);
    let live = live_look(peak, aos, los, look_at_peak).expect("culmination is inside the pass");
    assert_eq!(live.1, peak_elevation_cdeg, "marker at the pass's peak elevation");
    assert_eq!(live, look_at_peak);
}
