use std::time::Duration;

use nadir_ui::layout::Rect;
use nadir_ui::panel::Station;
use nadir_ui::splash::{
    boot_body, boot_lines, splash_reveal_count, star_count, BootRow, ElementSetInfo, BOOT_LEADER_WIDTH,
};

/// The count for an uptime and a splash length, in nanoseconds.
fn reveal_at(uptime: Duration, splash: Duration, total: usize) -> usize {
    let ns = |d: Duration| u64::try_from(d.as_nanos()).unwrap_or(u64::MAX);
    splash_reveal_count(ns(uptime), ns(splash), total)
}

/// The splash's wordmark is three rows tall.
const WORDMARK_ROWS: usize = 3;

#[test]
fn boot_lines_reads_pending_data_honestly_rather_than_faking_it() {
    let lines = boot_lines(None, None, 25544, false);
    let value = |label: &str| lines.iter().find(|(k, _)| *k == label).map(|(_, v)| v.as_str());
    assert_eq!(value("ground station"), Some("not configured"));
    assert_eq!(value("element set"), Some("… · 25544"));
    assert_eq!(value("epoch"), Some("…"));
}

#[test]
fn boot_lines_names_the_ground_station_with_hemisphere_letters() {
    let station = Station::new(48_137, 11_575);
    let lines = boot_lines(Some(station), None, 25544, false);
    let (_, value) = lines.iter().find(|(k, _)| *k == "ground station").unwrap();
    assert_eq!(value, "48.137N 11.575E");
}

#[test]
fn boot_lines_names_the_southern_and_western_hemispheres_too() {
    let station = Station::new(-33_865, -70_900);
    let lines = boot_lines(Some(station), None, 25544, false);
    let (_, value) = lines.iter().find(|(k, _)| *k == "ground station").unwrap();
    assert_eq!(value, "33.865S 70.900W");
}

#[test]
fn boot_lines_pads_a_small_fraction_to_three_digits() {
    let lines = boot_lines(Some(Station::new(5, -1_002)), None, 1, false);
    assert_eq!(lines[0].1, "0.005N 1.002W");
}

#[test]
fn the_boot_splash_leader_width_fits_every_real_label_with_dots_to_spare() {
    for (label, _) in boot_lines(None, None, 25544, false) {
        let spare = BOOT_LEADER_WIDTH.saturating_sub(label.chars().count());
        assert!(spare >= 4, "label {label:?} leaves only {spare} dots in the leader");
    }
}

#[test]
fn boot_lines_names_the_tracker_once_the_element_set_has_arrived() {
    let tle = ElementSetInfo { name: "ISS (ZARYA)".to_string(), epoch: "2026-09-06 23:11Z".to_string() };
    let lines = boot_lines(None, Some(&tle), 25544, false);
    let value = |label: &str| lines.iter().find(|(k, _)| *k == label).map(|(_, v)| v.as_str());
    assert_eq!(value("element set"), Some("ISS (ZARYA) · 25544"));
    assert_ne!(value("epoch"), Some("…"));
}

#[test]
fn boot_lines_names_the_coordinate_pipeline_and_the_feeds_it_will_poll() {
    let lines = boot_lines(None, None, 25544, false);
    let value = |label: &str| lines.iter().find(|(k, _)| *k == label).map(|(_, v)| v.as_str());
    assert_eq!(value("frames"), Some("TEME → ECEF → WGS84"));
    assert_eq!(value("feeds"), Some("celestrak · swpc · launch library"));
}

#[test]
fn boot_lines_names_the_feeds_row_offline_when_the_config_is_offline() {
    let lines = boot_lines(None, None, 25544, true);
    let value = |label: &str| lines.iter().find(|(k, _)| *k == label).map(|(_, v)| v.as_str());
    assert_eq!(value("feeds"), Some("offline — cache only"));
}

#[test]
fn the_boot_splash_height_fits_the_minimum_terminal_size() {
    let rows = WORDMARK_ROWS + 2 + boot_lines(None, None, 25544, false).len() + 2;
    assert!(rows <= 24, "boot splash is {rows} rows tall, taller than the 24-row minimum");
}

#[test]
fn splash_reveal_count_starts_at_one_and_reaches_every_row_by_a_third_of_the_splash_duration() {
    let splash = Duration::from_secs(6);
    assert_eq!(reveal_at(Duration::ZERO, splash, 6), 1);
    assert_eq!(reveal_at(splash / 3, splash, 6), 6);
}

#[test]
fn splash_reveal_count_holds_at_every_row_through_the_remaining_two_thirds() {
    let splash = Duration::from_secs(6);
    assert_eq!(reveal_at(splash / 3 + Duration::from_millis(1), splash, 6), 6);
    assert_eq!(reveal_at(splash, splash, 6), 6);
    assert_eq!(reveal_at(splash * 2, splash, 6), 6);
}

#[test]
fn splash_reveal_count_climbs_partway_through_the_first_third() {
    let splash = Duration::from_secs(6);
    let count = reveal_at(Duration::from_secs(1), splash, 6);
    assert!((1..6).contains(&count), "expected a partial reveal, got {count}/6");
}

#[test]
fn splash_reveal_count_is_zero_for_an_empty_line_list() {
    assert_eq!(reveal_at(Duration::ZERO, Duration::from_secs(4), 0), 0);
}

#[test]
fn splash_reveal_count_rounds_up_and_a_zero_length_splash_shows_everything_at_once() {
    assert_eq!(splash_reveal_count(1000, 6000, 6), 3);
    assert_eq!(splash_reveal_count(1001, 6000, 6), 4);
    assert_eq!(splash_reveal_count(1, 6000, 6), 1);
    assert_eq!(splash_reveal_count(0, 0, 6), 1);
    assert_eq!(splash_reveal_count(1, 0, 6), 6);
}

#[test]
fn star_count_scales_with_area_within_its_clamp() {
    assert_eq!(star_count(Rect::new(0, 0, 80, 24)), 40);
    assert_eq!(star_count(Rect::new(0, 0, 200, 60)), 240);
    assert_eq!(star_count(Rect::new(0, 0, 400, 100)), 260);
}

#[test]
fn boot_text_has_the_same_line_count_at_every_reveal_step() {
    let lines = boot_lines(None, None, 25544, false);
    let full_len = boot_body(&lines, lines.len()).len();
    for revealed in 0..=lines.len() {
        assert_eq!(boot_body(&lines, revealed).len(), full_len, "revealed={revealed}");
    }
}

#[test]
fn boot_text_shows_only_the_revealed_rows_content() {
    let lines = boot_lines(None, None, 25544, false);
    let rendered: String = boot_body(&lines, 1)
        .into_iter()
        .map(|r| match r {
            BootRow::Row { label, leader, value } => format!("{label}{leader}{value}"),
            BootRow::Blank => String::new(),
        })
        .collect();
    assert!(rendered.contains("ground station"), "the first row should show: {rendered}");
    assert!(!rendered.contains("element set"), "the second row should still be blank: {rendered}");
}

#[test]
fn a_revealed_row_pads_its_label_with_a_dotted_leader() {
    let lines: Vec<(&'static str, String)> = vec![
        ("ground station", "48.137°N 11.575°E".to_string()),
        ("epoch", "…".to_string()),
    ];
    let rows = boot_body(&lines, 1);
    assert_eq!(
        rows[0],
        BootRow::Row {
            label: "  ground station ".to_string(),
            leader: "......".to_string(),
            value: " 48.137°N 11.575°E".to_string(),
        }
    );
    assert_eq!(rows[1], BootRow::Blank);
    assert_eq!(boot_body(&lines, 2)[0], rows[0]);
}
