use chrono::Duration;
use nadir_ui::launches::{
    fmt_countdown, launch_columns, launch_countdown, launch_footer, launch_items, launch_placeholder,
    launch_selection, launch_status_color, selected_launch,
};
use nadir_ui::panel::Panel;
use nadir_ui::status::Health;
use nadir_ui::theme::Theme;

/// The countdown as the panel reads it: chrono's whole seconds of `d`.
fn countdown(d: Duration) -> String {
    fmt_countdown(d.num_seconds())
}

#[test]
fn fmt_countdown_under_a_day_has_no_day_field() {
    assert_eq!(countdown(Duration::seconds(19 * 3600 + 18 * 60 + 45)), "T-19:18:45");
}

#[test]
fn fmt_countdown_past_a_day_breaks_out_days() {
    assert_eq!(
        countdown(Duration::seconds(4 * 86_400 + 19 * 3600 + 18 * 60 + 45)),
        "T-4d 19:18:45"
    );
}

#[test]
fn fmt_countdown_exactly_a_day_is_one_day_zero_hours() {
    assert_eq!(countdown(Duration::seconds(86_400)), "T-1d 00:00:00");
}

#[test]
fn fmt_countdown_zero_and_negative_clamp_to_zero() {
    assert_eq!(countdown(Duration::zero()), "T-00:00:00");
    assert_eq!(countdown(Duration::seconds(-30)), "T-00:00:00");
}

#[test]
fn countdown_from_secs_pads_every_field_but_the_days() {
    assert_eq!(fmt_countdown(123 * 86_400 + 5), "T-123d 00:00:05");
    assert_eq!(fmt_countdown(59), "T-00:00:59");
}

#[test]
fn launch_status_color_matches_abbreviation_and_full_name() {
    assert_eq!(launch_status_color("Go"), Theme::VALUE);
    assert_eq!(launch_status_color("Go for Launch"), Theme::VALUE);
    assert_eq!(launch_status_color("TBD"), Theme::LABEL);
    assert_eq!(launch_status_color("To Be Determined"), Theme::LABEL);
}

#[test]
fn launch_status_color_flags_hold_and_failure() {
    assert_eq!(launch_status_color("Partial Failure"), Theme::ALERT);
    assert_eq!(launch_status_color("On Hold"), Theme::CAUTION);
}

#[test]
fn launch_status_color_unknown_status_falls_back_to_unconfirmed() {
    assert_eq!(launch_status_color("Some New Status"), Theme::LABEL);
}

#[test]
fn launch_status_color_ignores_case_and_stray_whitespace() {
    assert_eq!(launch_status_color(" go for launch "), Theme::VALUE);
}

#[test]
fn launch_columns_gives_both_columns_their_natural_width_when_everything_fits() {
    assert_eq!(launch_columns(100, 39, 22), (39, 22));
}

#[test]
fn launch_columns_gives_the_provider_the_leftover_instead_of_a_fixed_cap() {
    assert_eq!(launch_columns(63, 39, 50), (39, 22));
}

#[test]
fn launch_columns_drops_the_provider_and_hands_the_name_the_whole_row_when_too_narrow() {
    assert_eq!(launch_columns(25, 50, 50), (25, 0));
}

#[test]
fn launch_columns_never_returns_a_provider_width_below_its_minimum() {
    for rest in 0..80 {
        let (_, provider_w) = launch_columns(rest, 50, 50);
        assert!(
            provider_w == 0 || provider_w >= 10,
            "rest={rest} gave a provider column {provider_w} wide — too narrow to say anything useful"
        );
    }
}

fn entry(name: &str, provider: &str, pad: &str, status: &str) -> nadir_ui::launches::LaunchEntry {
    nadir_ui::launches::LaunchEntry {
        name: name.to_string(),
        provider: provider.to_string(),
        pad: pad.to_string(),
        status: status.to_string(),
    }
}

#[test]
fn the_countdown_reads_ahead_in_flight_or_tbd() {
    assert_eq!(launch_countdown(Some(Duration::seconds(3725).num_seconds())), ("T-01:02:05".to_string(), Theme::ACCENT));
    assert_eq!(launch_countdown(Some(Duration::seconds(0).num_seconds())), ("T-00:00:00".to_string(), Theme::ACCENT));
    assert_eq!(launch_countdown(Some(Duration::seconds(-5).num_seconds())), ("in flight".to_string(), Theme::CAUTION));
    assert_eq!(launch_countdown(None), ("TBD".to_string(), Theme::LABEL));
}

#[test]
fn launch_rows_size_the_countdown_column_to_the_batch() {
    let launches = vec![
        entry("Falcon 9 Block 5 | Starlink Group 10-9", "SpaceX", "SLC-40, Cape Canaveral SFS, FL, USA", "Go for Launch"),
        entry("Electron | Kinéis Killed The RadioStar", "Rocket Lab", "Rocket Lab LC-1B", "TBD"),
    ];
    let countdowns = vec![("T-4d 19:18:45".to_string(), Theme::ACCENT), ("TBD".to_string(), Theme::LABEL)];
    let items = launch_items(78, &launches, &countdowns, launch_selection(false, 0, 2));
    assert_eq!(items.len(), 2);
    // Both countdowns padded to the widest, then the two-column gap.
    assert_eq!(items[0].countdown, "T-4d 19:18:45  ");
    assert_eq!(items[1].countdown, "TBD            ");
    assert_eq!(items[0].name_color, Theme::VALUE);
    assert_eq!(items[1].name_color, Theme::LABEL);
    // 78 - 13 - 2 leaves 63: both names fit whole, the provider gets the rest.
    assert_eq!(items[0].name, "Falcon 9 Block 5 | Starlink Group 10-9");
    assert_eq!(items[0].provider.as_deref(), Some("  SpaceX"));
    assert_eq!(items[1].provider.as_deref(), Some("  Rocket Lab"));
    assert_eq!(items[0].detail, None);
}

#[test]
fn the_highlighted_launch_gets_the_full_width_and_a_detail_line() {
    let launches = vec![
        entry("Falcon 9 Block 5 | Starlink Group 10-9", "SpaceX", "SLC-40, Cape Canaveral SFS, FL, USA", "Go"),
        entry("Electron | Kinéis Killed The RadioStar", "Rocket Lab", "Rocket Lab LC-1B", "TBD"),
    ];
    let countdowns = vec![("T-19:18:45".to_string(), Theme::ACCENT), ("TBD".to_string(), Theme::LABEL)];
    let items = launch_items(40, &launches, &countdowns, launch_selection(true, 9, 2));
    // The highlight is held on the last row.
    assert_eq!(items[1].provider, None);
    assert_eq!(items[1].name, "Electron | Kinéis Killed Th…");
    assert_eq!(items[1].detail.as_deref(), Some("            Rocket Lab · Rocket Lab LC-…"));
    // At 40 columns the other rows drop the provider for the name.
    assert_eq!(items[0].provider, None);
    assert_eq!(items[0].name, "Falcon 9 Block 5 | Starlink…");
}

#[test]
fn the_launch_footer_notes_a_mirror_and_an_age() {
    assert!(launch_footer(false, None).is_empty());
    assert_eq!(launch_footer(true, None), vec!["launch manifest", "mirror"]);
    assert_eq!(launch_footer(true, Some("3h")), vec!["launch manifest", "mirror", "3h old"]);
    assert_eq!(launch_footer(false, Some("12m")), vec!["launch manifest", "12m old"]);
}

#[test]
fn an_empty_launch_panel_says_why() {
    assert_eq!(launch_placeholder(true, &Health::Live), "  no upcoming launches listed");
    assert_eq!(
        launch_placeholder(false, &Health::Error("HTTP 429: throttled by LL2".to_string())),
        "  launch feed throttled — retrying"
    );
    assert_eq!(launch_placeholder(false, &Health::Error("timeout".to_string())), "  launch feed unavailable");
    assert_eq!(launch_placeholder(false, &Health::Pending), "  launch manifest pending…");
}

#[test]
fn the_pad_marker_follows_the_highlighted_launch_only_while_launches_has_focus() {
    assert_eq!(selected_launch(Panel::Launches, 3, 10), Some(3));
    assert_eq!(selected_launch(Panel::Launches, 30, 10), Some(9));
    assert_eq!(selected_launch(Panel::Launches, 0, 0), None);
    assert_eq!(selected_launch(Panel::Passes, 3, 10), None);
}

#[test]
fn launch_status_color_ignores_padding_case_and_retrimming() {
    for s in ["Go", "go for launch", "Success", "In Flight", "Hold", "On Hold", "Failure", "Partial Failure", "TBD", ""] {
        let c = launch_status_color(s);
        assert_eq!(launch_status_color(&s.trim().to_ascii_lowercase()), c);
        assert_eq!(launch_status_color(&format!("  {}  ", s.to_ascii_uppercase())), c);
        assert_eq!(launch_status_color(&format!("\t{}\n", s)), c);
    }
    assert_eq!(launch_status_color("To Be Confirmed"), Theme::LABEL);
}
