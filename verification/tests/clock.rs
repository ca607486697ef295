use chrono::Duration as ChronoDuration;
use nadir_ui::clock::{clock_marker, fmt_clock_offset, ClockState};

/// The offset as the title bar reads it: chrono's whole seconds of `d`.
fn clock_offset(d: ChronoDuration) -> String {
    fmt_clock_offset(d.num_seconds())
}

#[test]
fn clock_offset_shows_the_two_most_significant_units_signed() {
    let d = ChronoDuration::seconds;
    assert_eq!(clock_offset(d(60)), "Δ+1m");
    assert_eq!(clock_offset(d(45)), "Δ+45s");
    assert_eq!(clock_offset(d(-90)), "Δ-1m30s");
    assert_eq!(clock_offset(d(-(2 * 3600 + 14 * 60 + 30))), "Δ-2h14m");
    assert_eq!(clock_offset(d(3 * 3600)), "Δ+3h");
    assert_eq!(clock_offset(d(3 * 86_400)), "Δ+3d");
    assert_eq!(clock_offset(d(3 * 86_400 + 5 * 3600)), "Δ+3d5h");
    assert_eq!(clock_offset(d(40 * 86_400)), "Δ+40d");
}

#[test]
fn a_sub_second_clock_offset_renders_nothing() {
    assert_eq!(clock_offset(ChronoDuration::zero()), "");
    assert_eq!(clock_offset(ChronoDuration::milliseconds(400)), "");
}

#[test]
fn clock_offset_text_is_exact_on_whole_seconds() {
    assert_eq!(fmt_clock_offset(0), "");
    assert_eq!(fmt_clock_offset(-1), "Δ-1s");
    assert_eq!(fmt_clock_offset(3600 + 59), "Δ+1h");
}

#[test]
fn the_clock_marker_names_each_transport_state() {
    assert_eq!(clock_marker(ClockState::Live), ("▸ ".to_string(), true));
    assert_eq!(clock_marker(ClockState::Drifted), ("▸ ".to_string(), false));
    assert_eq!(clock_marker(ClockState::Paused), ("‖ ".to_string(), false));
    assert_eq!(clock_marker(ClockState::Warp(-1)), ("◂ ".to_string(), false));
    assert_eq!(clock_marker(ClockState::Warp(-5)), ("◂◂5x ".to_string(), false));
    assert_eq!(clock_marker(ClockState::Warp(60)), ("▸▸60x ".to_string(), false));
}

#[test]
fn every_clock_marker_is_single_width_glyphs_with_a_trailing_space() {
    for s in [ClockState::Live, ClockState::Paused, ClockState::Warp(-1800), ClockState::Warp(1800)] {
        let (m, _) = clock_marker(s);
        assert!(m.ends_with(' '));
        assert!(m.chars().count() <= 8);
    }
}

#[test]
fn turning_the_offset_around_flips_only_the_sign() {
    for secs in [1_i64, 45, 90, 3600 + 59, 2 * 3600 + 14 * 60, 3 * 86_400 + 5 * 3600, 40 * 86_400] {
        let ahead = fmt_clock_offset(secs);
        let behind = fmt_clock_offset(-secs);
        assert!(ahead.starts_with("Δ+") && behind.starts_with("Δ-"));
        assert_eq!(ahead.replacen("Δ+", "Δ-", 1), behind);
    }
    assert_eq!(fmt_clock_offset(0), "");
}
