use nadir_ui::fmt::{bearing, compass_point, station_label};
use nadir_ui::text::{decimal_string, trim, truncate};

#[test]
fn station_label_fits_the_full_string_when_there_is_room() {
    assert_eq!(
        station_label("Munich, Bavaria, Germany", 24),
        Some("Munich, Bavaria, Germany".to_string())
    );
}

#[test]
fn station_label_falls_back_to_the_first_component() {
    assert_eq!(station_label("Munich, Bavaria, Germany", 10), Some("Munich".to_string()));
}

#[test]
fn station_label_truncates_the_first_component_when_still_too_long() {
    assert_eq!(station_label("Springfield, Illinois, USA", 6), Some("Sprin…".to_string()));
}

#[test]
fn station_label_gives_up_below_a_two_char_budget() {
    assert_eq!(station_label("Munich, Bavaria, Germany", 1), None);
    assert_eq!(station_label("Munich, Bavaria, Germany", 0), None);
}

#[test]
fn station_label_trims_the_first_component() {
    assert_eq!(station_label("  São Paulo , Brazil", 12), Some("São Paulo".to_string()));
    assert_eq!(station_label("Reykjavík", 3), Some("Re…".to_string()));
}

#[test]
fn truncate_keeps_what_fits_and_marks_what_it_cut() {
    assert_eq!(truncate("Vladivostok", 20), "Vladivostok");
    assert_eq!(truncate("Vladivostok", 11), "Vladivostok");
    assert_eq!(truncate("Vladivostok", 6), "Vladi…");
    assert_eq!(truncate("Vladivostok", 1), "…");
    assert_eq!(truncate("Vladivostok", 0), "…");
    assert_eq!(truncate("", 0), "");
    assert_eq!(truncate("Nouméa", 5), "Noum…");
}

#[test]
fn trim_strips_unicode_whitespace_at_both_ends_only() {
    assert_eq!(trim("  go for launch \t"), "go for launch");
    assert_eq!(trim("\u{a0}Hold\u{3000}"), "Hold");
    assert_eq!(trim("   "), "");
    assert_eq!(trim(""), "");
}

#[test]
fn decimal_string_writes_base_ten() {
    assert_eq!(decimal_string(0), "0");
    assert_eq!(decimal_string(7), "7");
    assert_eq!(decimal_string(25544), "25544");
    assert_eq!(decimal_string(u64::MAX), u64::MAX.to_string());
}

#[test]
fn compass_points_run_clockwise_from_north_and_wrap() {
    assert_eq!(compass_point(0), "N");
    assert_eq!(compass_point(1), "NNE");
    assert_eq!(compass_point(4), "E");
    assert_eq!(compass_point(8), "S");
    assert_eq!(compass_point(12), "W");
    assert_eq!(compass_point(15), "NNW");
    assert_eq!(compass_point(16), "N");
    assert_eq!(compass_point(20), "E");
}

#[test]
fn a_pass_that_swings_wide_of_a_straight_line_shows_its_peak_bearing() {
    // W (270°, point 12) rising, N (0°) culminating, E (90°, point 4) setting.
    assert_eq!(bearing(12, 0, 4), "W→N→E");
    // SW (10) rising, SE (6) culminating, E (4) setting.
    assert_eq!(bearing(10, 6, 4), "SW→SE→E");
}

#[test]
fn a_pass_whose_peak_reads_the_same_compass_point_as_aos_keeps_the_two_point_bearing() {
    // 0° and 5° both round to N (point 0); 90° is E (point 4).
    assert_eq!(bearing(0, 0, 4), "N→E");
    assert_eq!(bearing(9, 9, 3), "SSW→ENE");
    assert_eq!(bearing(9, 3, 3), "SSW→ENE");
    assert_eq!(bearing(13, 29, 13), "WNW→WNW");
}
