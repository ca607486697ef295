use chrono::Duration;
use nadir_ui::panel::{App, Panel, Station};
use chrono::{DateTime, Utc};
use nadir_ui::telemetry::{
    body_rows, fitting_tail, fmt_dur_coarse, fmt_hms, height, next_sun_transition, range_row, tle_row, TelemetryRow, SUN_SCAN_STEPS,
    SUN_SCAN_STEP_NS, VALUE_W,
};
use nadir_ui::theme::Theme;

fn hms(d: Duration) -> String {
    fmt_hms(d.num_seconds())
}

fn coarse(d: Duration) -> String {
    fmt_dur_coarse(d.num_minutes())
}

/// The TLE row for an age, split the way chrono splits it.
fn tle_row_at(age: &Duration, stamp: &str, budget: usize) -> TelemetryRow {
    tle_row(age.num_seconds(), age.subsec_nanos(), stamp, budget)
}

fn row_templates() -> Vec<String> {
    vec![
        format!("{:>VALUE_W$.1}", 423.5_f64),
        format!("{:>VALUE_W$.0}", 27565.0_f64),
        format!("{:>VALUE_W$.2}", -8.53_f64),
        format!("{:>VALUE_W$.0}", 2263.0_f64),
        format!("{:>VALUE_W$}", "LEO-P"),
        format!("{:>VALUE_W$.0}", 408.0_f64),
        format!("{:>VALUE_W$}", 58409),
        format!("{:>VALUE_W$}", "sunlit"),
        format!("{:>VALUE_W$.0}", 7352.0_f64),
        format!("{:>VALUE_W$}", "18h"),
        format!("{:>VALUE_W$}", "±2 km"),
    ]
}

#[test]
fn telemetry_values_share_one_right_aligned_column() {
    for s in row_templates() {
        assert_eq!(s.chars().count(), VALUE_W, "{s:?} is not VALUE_W columns wide");
    }
}

#[test]
fn body_row_count_matches_the_rows_draw_can_emit() {
    assert_eq!(body_rows(true) as usize, row_templates().len());
}

#[test]
fn the_panel_grows_a_row_for_range_only_with_a_ground_station() {
    let without = App { focus: Panel::Telemetry, list_pos: 0, ground_station: None };
    let with = App { focus: Panel::Telemetry, list_pos: 0, ground_station: Some(Station::new(48137, 11575)) };
    assert_eq!(height(&without), 12);
    assert_eq!(height(&with), 13);
}

#[test]
fn fmt_hms_pads_each_field_and_clamps_at_zero() {
    assert_eq!(hms(Duration::seconds(3 * 3600 + 4 * 60 + 5)), "03:04:05");
    assert_eq!(hms(Duration::seconds(-10)), "00:00:00");
    assert_eq!(hms(Duration::seconds(123 * 3600)), "123:00:00");
}

#[test]
fn fmt_dur_coarse_steps_from_minutes_to_hours_to_days() {
    assert_eq!(coarse(Duration::minutes(45)), "45m");
    assert_eq!(coarse(Duration::minutes(89)), "89m");
    assert_eq!(coarse(Duration::minutes(90)), "1h");
    assert_eq!(coarse(Duration::hours(18)), "18h");
    assert_eq!(coarse(Duration::hours(47)), "47h");
    assert_eq!(coarse(Duration::hours(48)), "2d");
    assert_eq!(coarse(Duration::minutes(-5)), "-5m");
}

#[test]
fn the_tail_ladder_takes_the_widest_rung_that_fits() {
    let tails = vec![
        "  since 09-06 23:11Z".to_string(),
        " since 09-06 23:11Z".to_string(),
        "  old".to_string(),
    ];
    assert_eq!(fitting_tail(&tails, 22), "  since 09-06 23:11Z");
    assert_eq!(fitting_tail(&tails, 19), " since 09-06 23:11Z");
    assert_eq!(fitting_tail(&tails, 8), "  old");
    assert_eq!(fitting_tail(&tails, 4), "");
}

fn line_text(r: &TelemetryRow) -> String {
    format!("{}{}{}", r.label, r.value, r.tail)
}

fn width(r: &TelemetryRow) -> usize {
    line_text(r).chars().count()
}

/// The RANGE row for an elevation and slant range, rendered the way the
/// panel renders them.
fn range_for(elevation_deg: f64, range_km: f64, budget: usize) -> TelemetryRow {
    range_row(elevation_deg >= 0.0, &format!("{range_km:.0}"), &format!("el {elevation_deg:+.0}°"), budget)
}

#[test]
fn range_row_never_exceeds_the_width_it_is_given() {
    for budget in 20..=48usize {
        for e in -90..=90 {
            for &r in &[400.0_f64, 7352.0, 42_164.0] {
                let w = width(&range_for(e as f64, r, budget));
                assert!(w <= budget, "el {e}°, range {r}, budget {budget}: width {w}");
            }
        }
    }
}

#[test]
fn range_row_keeps_its_wording_at_the_real_panel_width() {
    assert!(line_text(&range_for(-12.0, 7352.0, 38)).contains("el -"));
    assert!(line_text(&range_for(23.0, 7352.0, 38)).contains("in view"));
}

#[test]
fn range_row_drops_the_prose_before_the_elevation() {
    let t = line_text(&range_for(-12.0, 7352.0, 30));
    assert!(t.contains("-12°"), "{t:?}");
    assert!(!t.contains("below"), "{t:?}");
}

#[test]
fn range_row_reads_green_only_while_in_view() {
    let up = range_for(23.0, 7352.0, 38);
    assert_eq!(line_text(&up), "  RANGE     7352 km  el +23°  in view");
    assert_eq!(up.tail_color, Theme::NOMINAL);
    assert_eq!(range_for(-3.0, 9000.0, 38).tail_color, Theme::LABEL);
}

fn epoch() -> DateTime<Utc> {
    "2026-09-06T23:11:04Z".parse().unwrap()
}

fn stamp() -> String {
    epoch().format("%m-%d %H:%MZ").to_string()
}

#[test]
fn tle_row_never_exceeds_the_width_it_is_given() {
    for budget in 20..=48usize {
        for mins in [5_i64, 45, 90, 18 * 60, 47 * 60, 5 * 24 * 60] {
            for age in [Duration::minutes(mins), Duration::minutes(-mins)] {
                let w = width(&tle_row_at(&age, &stamp(), budget));
                assert!(w <= budget, "age {age}, budget {budget}: width {w}");
            }
        }
    }
}

#[test]
fn tle_row_names_the_epoch_at_the_real_panel_width() {
    let t = line_text(&tle_row_at(&Duration::hours(18), &stamp(), 38));
    assert!(t.contains("18h"), "{t:?}");
    assert!(t.contains("since"), "{t:?}");
    assert!(t.contains("09-06 23:11Z"), "{t:?}");
}

#[test]
fn tle_row_reads_before_when_the_clock_is_scrubbed_past_the_epoch() {
    let t = line_text(&tle_row_at(&Duration::hours(-18), &stamp(), 38));
    assert!(t.contains("18h"), "{t:?}");
    assert!(t.contains("before"), "{t:?}");
    assert!(!t.contains("-18h"), "{t:?}");
}

#[test]
fn tle_row_falls_back_to_the_relative_wording_when_the_epoch_does_not_fit() {
    let t = line_text(&tle_row_at(&Duration::hours(18), &stamp(), 24));
    assert!(t.contains("18h"), "{t:?}");
    assert!(t.contains("old"), "{t:?}");
    assert!(!t.contains("09-06"), "{t:?}");
}

#[test]
fn tle_row_turns_amber_then_red_as_the_element_set_ages_either_way() {
    assert_eq!(tle_row_at(&Duration::hours(36), &stamp(), 38).value_color, Theme::LABEL);
    assert_eq!(tle_row_at(&(Duration::hours(36) + Duration::milliseconds(1)), &stamp(), 38).value_color, Theme::CAUTION);
    assert_eq!(tle_row_at(&Duration::hours(-50), &stamp(), 38).value_color, Theme::CAUTION);
    assert_eq!(tle_row_at(&Duration::hours(73), &stamp(), 38).value_color, Theme::ALERT);
    let r = tle_row_at(&Duration::hours(-80), &stamp(), 38);
    assert_eq!(r.value_color, Theme::ALERT);
    assert_eq!(line_text(&r), "  TLE         3d  before 09-06 23:11Z");
}

/// A terminator crossing at a fixed instant: sunlit before it, eclipsed from
/// it on.
fn eclipse_from(flip: i64) -> impl Fn(i64) -> Option<bool> {
    move |t| Some(t < flip)
}

#[test]
fn next_sun_transition_is_stable_to_the_second_not_quantised_to_the_scan_step() {
    let t0: i64 = 1_700_000_000_000_000_000;
    let flip = t0 + 1_234_567_891_011;
    let (_, at_t0) = next_sun_transition(eclipse_from(flip), t0).expect("a transition exists within the scan window");
    let (_, at_t0_plus_1s) = next_sun_transition(eclipse_from(flip), t0 + 1_000_000_000)
        .expect("a transition still exists one second later");
    let drift_ms = ((at_t0 - at_t0_plus_1s) / 1_000_000).abs();
    assert!(drift_ms < 2000, "the transition instant moved by {drift_ms} ms for a 1 s shift in `from`");
}

#[test]
fn next_sun_transition_lands_within_a_few_milliseconds_after_the_flip() {
    let t0: i64 = 0;
    let flip = 4_000_000_000_123;
    let (to_lit, at) = next_sun_transition(eclipse_from(flip), t0).unwrap();
    assert!(!to_lit, "sunlit to eclipsed is a sunset");
    assert!(at >= flip && at - flip <= SUN_SCAN_STEP_NS / 4096 + 1);
    let (to_lit, _) = next_sun_transition(|t: i64| Some(t >= flip), t0).unwrap();
    assert!(to_lit, "eclipsed to sunlit is a sunrise");
}

#[test]
fn next_sun_transition_gives_up_past_the_scan_window_or_on_a_failed_probe() {
    let span = SUN_SCAN_STEP_NS * SUN_SCAN_STEPS as i64;
    assert_eq!(next_sun_transition(eclipse_from(span + 1), 0), None);
    assert!(next_sun_transition(eclipse_from(span), 0).is_some());
    assert_eq!(next_sun_transition(|t: i64| if t > 60_000_000_000 { None } else { Some(true) }, 0), None);
}

#[test]
fn next_sun_transition_finds_the_first_of_two_flips_in_the_window() {
    // Sunlit until 20 minutes in, eclipsed until 55, sunlit again after.
    let (enter, leave) = (1_200_000_000_000_i64, 3_300_000_000_000_i64);
    let sunlit = move |t: i64| Some(t < enter || t >= leave);
    let (to_lit, at) = next_sun_transition(sunlit, 0).unwrap();
    assert!(!to_lit, "the first flip is the sunset");
    assert!(at >= enter && at - enter <= SUN_SCAN_STEP_NS / 4096 + 1);
}
