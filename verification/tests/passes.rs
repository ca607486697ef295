use chrono::{Duration, FixedOffset};
use nadir_ui::panel::Panel;
use nadir_ui::passes::{
    ordinary_pass_row, alert_text, aos_head, fmt_mmss, imminent_head, offset_digits, offset_label, pass_row_kind, passes_title, plot_title,
    selected_pass, shared_date_form, urgency, utc_offset_label, PassRowKind, PANEL_CHROME,
};
use nadir_ui::theme::Theme;

/// The offset labels as the panel reads them: chrono's seconds east of UTC.
fn utc_label(o: &FixedOffset) -> String {
    utc_offset_label(o.local_minus_utc())
}

fn label_of(first: &FixedOffset, last: &FixedOffset) -> String {
    offset_label(first.local_minus_utc(), last.local_minus_utc())
}

fn digits(o: &FixedOffset) -> String {
    offset_digits(o.local_minus_utc())
}

fn mmss(d: Duration) -> String {
    fmt_mmss(d.num_seconds())
}

#[test]
fn utc_offset_label_zero_is_plain_utc() {
    assert_eq!(utc_label(&FixedOffset::east_opt(0).unwrap()), "UTC");
}

#[test]
fn utc_offset_label_formats_east_and_west() {
    assert_eq!(utc_label(&FixedOffset::east_opt(2 * 3600).unwrap()), "UTC+02:00");
    assert_eq!(utc_label(&FixedOffset::west_opt(5 * 3600).unwrap()), "UTC-05:00");
}

#[test]
fn utc_offset_label_keeps_the_minutes_of_a_fractional_offset() {
    assert_eq!(utc_label(&FixedOffset::east_opt(5 * 3600 + 30 * 60).unwrap()), "UTC+05:30");
}

#[test]
fn offset_label_states_one_offset_when_the_list_does_not_cross_a_change() {
    let cest = FixedOffset::east_opt(2 * 3600).unwrap();
    assert_eq!(label_of(&cest, &cest), "UTC+02:00");
}

#[test]
fn offset_label_names_both_sides_of_a_daylight_saving_change() {
    let cest = FixedOffset::east_opt(2 * 3600).unwrap();
    let cet = FixedOffset::east_opt(3600).unwrap();
    assert_eq!(label_of(&cest, &cet), "UTC+02:00→+01:00");
    assert_eq!(label_of(&cet, &cest), "UTC+01:00→+02:00");
}

#[test]
fn offset_label_spells_a_zero_far_side_in_digits() {
    let bst = FixedOffset::east_opt(3600).unwrap();
    let gmt = FixedOffset::east_opt(0).unwrap();
    assert_eq!(label_of(&bst, &gmt), "UTC+01:00→+00:00");
    assert_eq!(label_of(&gmt, &bst), "UTC→+01:00");
}

#[test]
fn the_widest_offset_label_still_fits_the_narrowest_panel_title() {
    let widest_offset = " · UTC+02:00→+01:00";
    const NARROWEST_RIGHT_COLUMN: usize = 36;
    let budget = NARROWEST_RIGHT_COLUMN - PANEL_CHROME - "NEXT PASSES".chars().count();
    assert!(
        widest_offset.chars().count() <= budget,
        "widest offset chip ({} cols) does not fit the narrowest title budget ({budget} cols)",
        widest_offset.chars().count(),
    );
}

#[test]
fn passes_title_keeps_the_offset_over_the_name_and_shrinks_the_name_first() {
    let full = "Munich, Bavaria, Germany";
    assert_eq!(passes_title(80, "UTC+02:00", Some(full)), "NEXT PASSES · Munich, Bavaria, Germany · UTC+02:00");
    assert_eq!(passes_title(50, "UTC+02:00", Some(full)), "NEXT PASSES · Munich · UTC+02:00");
    assert_eq!(passes_title(36, "UTC+02:00", Some(full)), "NEXT PASSES · Mun… · UTC+02:00");
    assert_eq!(passes_title(32, "UTC+02:00", Some(full)), "NEXT PASSES · UTC+02:00");
    assert_eq!(passes_title(20, "UTC+02:00", Some(full)), "NEXT PASSES");
    assert_eq!(passes_title(40, "UTC", None), "NEXT PASSES · UTC");
}

#[test]
fn fmt_mmss_pads_seconds_to_two_digits() {
    assert_eq!(mmss(Duration::seconds(65)), "1m05s");
    assert_eq!(mmss(Duration::seconds(5)), "0m05s");
    assert_eq!(mmss(Duration::seconds(600)), "10m00s");
}

#[test]
fn fmt_mmss_clamps_a_negative_duration_to_zero() {
    assert_eq!(mmss(Duration::seconds(-5)), "0m00s");
}

#[test]
fn urgency_marks_a_naked_eye_pass_with_a_star_in_the_satellite_colour() {
    assert_eq!(urgency(true), (Theme::SAT, "★"));
    assert_eq!(urgency(false), (Theme::NOMINAL, " "));
}

#[test]
fn the_highlight_exists_only_while_next_passes_has_focus_and_is_clamped() {
    assert_eq!(selected_pass(Panel::Passes, 3, 7), Some((3, 7)));
    assert_eq!(selected_pass(Panel::Passes, 30, 7), Some((6, 7)));
    assert_eq!(selected_pass(Panel::Passes, 0, 0), None);
    assert_eq!(selected_pass(Panel::MapView, 0, 7), None);
}

#[test]
fn the_plot_title_names_the_pass_and_stars_a_naked_eye_one_when_it_fits() {
    assert_eq!(plot_title(1, 7, false, 60), "SKY · pass 2 of 7");
    assert_eq!(plot_title(1, 7, true, 60), "SKY · pass 2 of 7 · ★");
    // 21 columns of star title need a 27-column pane.
    assert_eq!(plot_title(1, 7, true, 27), "SKY · pass 2 of 7 · ★");
    assert_eq!(plot_title(1, 7, true, 26), "SKY · pass 2 of 7");
}

#[test]
fn the_widest_date_form_that_fits_every_row_is_shared_by_all_of_them() {
    // Three forms, widest first; each inner list is the width of every row.
    let forms = vec![vec![40, 44, 41], vec![35, 39, 36], vec![30, 34, 31]];
    assert_eq!(shared_date_form(&forms, 50), 0);
    assert_eq!(shared_date_form(&forms, 44), 0);
    // One long row is enough to push every row down a form.
    assert_eq!(shared_date_form(&forms, 43), 1);
    assert_eq!(shared_date_form(&forms, 36), 2);
    // Nothing fits: the narrowest form is what's shown.
    assert_eq!(shared_date_form(&forms, 10), 2);
}

#[test]
fn an_alert_row_gives_up_its_tail_and_never_its_head() {
    let head = "▲ AOS in 0m45s";
    let full = "   6m 47° SSW→ENE";
    let short = "   6m 47°";
    assert_eq!(alert_text(head, full, short, 60), format!("{head}{full}"));
    assert_eq!(alert_text(head, full, short, 2 + 14 + 17), format!("{head}{full}"));
    assert_eq!(alert_text(head, full, short, 2 + 14 + 16), format!("{head}{short}"));
    assert_eq!(alert_text(head, full, short, 2 + 14 + 9), format!("{head}{short}"));
    assert_eq!(alert_text(head, full, short, 20), head);
    assert_eq!(alert_text(head, full, short, 3), head);
}

const NS: i64 = 1_000_000_000;
/// The lead the panel opens its rise countdown at in these tests.
const TEST_LEAD: i64 = 30 * NS;

/// A six-minute pass rising at `aos`, as nanosecond rise, peak and set.
fn test_pass(aos: chrono::DateTime<chrono::Utc>) -> (i64, i64, i64) {
    let aos = aos.timestamp_nanos_opt().unwrap();
    (aos, aos + 180 * NS, aos + 360 * NS)
}

fn now_ns() -> i64 {
    chrono::Utc::now().timestamp_nanos_opt().unwrap()
}

#[test]
fn a_pass_under_way_gets_the_live_aos_row_instead_of_its_time_range() {
    let (aos, peak, los) = test_pass(chrono::Utc::now());
    let midpoint = aos + (los - aos) / 2;
    assert_eq!(pass_row_kind(midpoint, aos, los, TEST_LEAD), PassRowKind::UnderWay);
    let text = aos_head(midpoint, peak, los);
    assert!(text.contains("AOS"), "{text}");
    assert!(text.contains("LOS in"), "{text}");
}

#[test]
fn a_pass_not_yet_risen_keeps_its_ordinary_time_range_row() {
    let (aos, _, los) = test_pass(chrono::Utc::now() + Duration::hours(2));
    assert_eq!(pass_row_kind(now_ns(), aos, los, TEST_LEAD), PassRowKind::Ordinary { soon: false });
}

#[test]
fn a_pass_already_set_keeps_its_ordinary_time_range_row() {
    let (aos, _, los) = test_pass(chrono::Utc::now() - Duration::hours(2));
    assert!(matches!(pass_row_kind(los + NS, aos, los, TEST_LEAD), PassRowKind::Ordinary { .. }));
}

#[test]
fn an_under_way_pass_before_culmination_counts_down_to_peak() {
    let (aos, peak, los) = test_pass(chrono::Utc::now());
    let just_after_aos = aos + NS;
    let text = aos_head(just_after_aos, peak, los);
    assert!(text.contains("peak in"), "{text}");
    assert!(!text.contains("LOS in"), "{text}");
    assert_eq!(text, "▲ AOS  peak in 2m59s");
}

#[test]
fn an_under_way_pass_after_culmination_counts_down_to_los() {
    let (_, peak, los) = test_pass(chrono::Utc::now());
    let text = aos_head(peak + NS, peak, los);
    assert!(text.contains("LOS in"), "{text}");
    assert!(!text.contains("peak in"), "{text}");
}

#[test]
fn the_aos_row_switches_from_peak_to_los_exactly_at_culmination() {
    let (_, peak, los) = test_pass(chrono::Utc::now());
    assert_eq!(aos_head(peak, peak, los), "▲ AOS  LOS in 3m00s");
}

#[test]
fn a_pass_rising_within_aos_lead_gets_a_countdown_row_instead_of_its_time_range() {
    let (aos, _, los) = test_pass(chrono::Utc::now() + Duration::seconds(30));
    let now = aos - TEST_LEAD;
    assert_eq!(pass_row_kind(now, aos, los, TEST_LEAD), PassRowKind::Imminent);
    let text = imminent_head(now, aos);
    assert!(text.contains("AOS in"), "{text}");
    assert!(!text.contains("LOS in"), "{text}");
}

#[test]
fn the_aos_lead_countdown_counts_down_to_zero_right_as_the_pass_begins() {
    let (aos, _, los) = test_pass(chrono::Utc::now() + Duration::seconds(30));
    let just_before_aos = aos - NS;
    assert_eq!(pass_row_kind(just_before_aos, aos, los, TEST_LEAD), PassRowKind::Imminent);
    assert!(imminent_head(just_before_aos, aos).contains("AOS in 0m01s"));
}

#[test]
fn a_pass_further_out_than_aos_lead_keeps_its_ordinary_time_range_row() {
    let (aos, _, los) = test_pass(chrono::Utc::now() + Duration::seconds(30));
    let now = aos - TEST_LEAD - NS;
    assert_eq!(pass_row_kind(now, aos, los, TEST_LEAD), PassRowKind::Ordinary { soon: true });
}

#[test]
fn a_pass_honours_a_non_default_lead() {
    let (aos, _, los) = test_pass(chrono::Utc::now() + Duration::minutes(3));
    let lead = 180 * NS;
    assert_eq!(pass_row_kind(aos - lead, aos, los, lead), PassRowKind::Imminent);
}

#[test]
fn offset_digits_drops_the_utc_prefix_and_keeps_the_minutes() {
    assert_eq!(digits(&FixedOffset::east_opt(2 * 3600).unwrap()), "+02:00");
    assert_eq!(digits(&FixedOffset::west_opt(5 * 3600).unwrap()), "-05:00");
    assert_eq!(digits(&FixedOffset::east_opt(5 * 3600 + 30 * 60).unwrap()), "+05:30");
    assert_eq!(digits(&FixedOffset::east_opt(0).unwrap()), "+00:00");
}

#[test]
fn an_ordinary_row_carries_date_range_length_peak_and_bearing_last() {
    // W (270°) rising, N culminating, E (90°) setting: a six-minute pass.
    let (star, text, c) = ordinary_pass_row(true, false, "Thu", "20:14", "20:20", 6, "30°", (12, 0, 4));
    assert_eq!(star, "★ ");
    assert_eq!(text, "Thu 20:14–20:20  6m 30° W→N→E");
    assert!(text.ends_with(" 30° W→N→E"));
    assert!(!text.contains("AOS in") && !text.contains("LOS in"));
    assert_eq!(c, Theme::VALUE);
    let (star, text, c) = ordinary_pass_row(false, true, "Thu 09-11", "05:02", "05:13", 11, " 5°", (0, 0, 4));
    assert_eq!(star, "  ");
    assert_eq!(text, "Thu 09-11 05:02–05:13 11m  5° N→E");
    assert_eq!(c, Theme::SAT);
}
