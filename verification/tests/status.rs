use nadir_ui::panel::Panel;
use nadir_ui::status::{chip, chip_strip_width, chip_text, fitting_hint, key_hints, severity_color, status_hints, Health};
use nadir_ui::theme::Theme;

const NARROWEST_HINT_AREA: u16 = 80 - 41;

#[test]
fn tracked_hints_name_enter_and_d_at_every_width_that_shows_a_hint() {
    let tiers = key_hints(Panel::TrackedList);
    for width in NARROWEST_HINT_AREA..=200 {
        let Some(keys) = fitting_hint(&tiers, width) else { continue };
        if keys == "? help" {
            continue;
        }
        assert!(keys.contains("Enter track"), "width {width}: {keys}");
        assert!(keys.contains("d remove"), "width {width}: {keys}");
    }
}

#[test]
fn every_hint_tier_fits_the_width_it_was_chosen_for() {
    for focus in Panel::ALL {
        let tiers = key_hints(focus);
        for width in 0..=200u16 {
            let Some(keys) = fitting_hint(&tiers, width) else { continue };
            assert!(
                keys.chars().count() < width as usize,
                "{focus:?} at width {width} chose a {}-column hint: {keys}",
                keys.chars().count(),
            );
        }
    }
}

#[test]
fn hint_tiers_are_measured_in_columns_not_bytes() {
    let widest = key_hints(Panel::TrackedList).remove(0);
    let columns = widest.chars().count();
    let just_fits = columns as u16 + 2;
    assert!(widest.len() + 1 >= just_fits as usize, "no multi-byte chars left to catch");
    assert_eq!(fitting_hint(std::slice::from_ref(&widest), just_fits), Some(&widest[..]));
}

#[test]
fn hint_tiers_get_shorter_and_always_offer_help() {
    for focus in Panel::ALL {
        let tiers = key_hints(focus);
        for pair in tiers.windows(2) {
            assert!(
                pair[0].chars().count() > pair[1].chars().count(),
                "{focus:?}: {:?} is not wider than {:?}",
                pair[0],
                pair[1],
            );
        }
        assert!(tiers.iter().all(|t| t.contains("? help")), "{focus:?}");
    }
}

#[test]
fn the_widest_hint_for_a_panel_without_keys_of_its_own_is_the_global_list() {
    let tiers = key_hints(Panel::Weather);
    assert_eq!(tiers.len(), 4);
    assert_eq!(
        tiers[0],
        "1-6 focus · Tab · m map · f follow · p places · +/- zoom · s sat · r refresh · space pause · ,/. warp · g goto · ? help · q quit"
    );
    assert_eq!(tiers[3], "? help");
    let list_tiers = key_hints(Panel::TrackedList);
    assert_eq!(list_tiers.len(), 5);
    assert_eq!(list_tiers[3], "j/k scroll · Enter track · d remove · ? help");
    assert_eq!(list_tiers[4], "? help");
    assert_eq!(key_hints(Panel::Passes)[2], "j/k scroll · r refresh · ? help · q quit");
}

#[test]
fn fitting_hint_picks_nothing_when_even_the_last_tier_is_too_wide() {
    let tiers = key_hints(Panel::Weather);
    assert_eq!(fitting_hint(&tiers, 7), None);
    assert_eq!(fitting_hint(&tiers, 8), Some("? help"));
}

#[test]
fn chips_read_wait_live_age_or_err() {
    assert_eq!(chip_text(&Health::Pending), "wait");
    assert_eq!(chip_text(&Health::Live), "live");
    assert_eq!(chip_text(&Health::Stale("12m".to_string())), "12m");
    assert_eq!(chip_text(&Health::Error("timeout".to_string())), "err");
    assert_eq!(chip("TLE", 1, &Health::Live), ("TLE", 1, "live".to_string()));
}

#[test]
fn chip_severities_colour_green_amber_red() {
    assert_eq!(severity_color(0), Theme::NOMINAL);
    assert_eq!(severity_color(1), Theme::CAUTION);
    assert_eq!(severity_color(2), Theme::ALERT);
    assert_eq!(severity_color(9), Theme::LABEL);
}

#[test]
fn an_open_prompt_advertises_its_own_keys_before_the_panels() {
    let tiers = status_hints(true, true, true, true, Panel::Passes);
    assert_eq!(tiers.len(), 3);
    assert_eq!(tiers[2], "Enter search · Esc cancel");
    let tiers = status_hints(false, true, false, true, Panel::Passes);
    assert_eq!(tiers[0], "↑↓ select · Enter use this downlink · Esc cancel");
    let tiers = status_hints(false, false, true, false, Panel::Passes);
    assert_eq!(tiers[1], "e.g. +90m or 2026-09-08 04:30 · Enter go · Esc cancel");
    let tiers = status_hints(false, false, false, true, Panel::Passes);
    assert_eq!(tiers, vec!["j/k scroll · ? close".to_string(), "? close".to_string()]);
    assert_eq!(status_hints(false, false, false, false, Panel::Passes), key_hints(Panel::Passes));
}

#[test]
fn every_prompts_tiers_get_strictly_shorter() {
    for (a, b, c, d) in [(true, false, false, false), (false, true, false, false), (false, false, true, false), (false, false, false, true)] {
        let tiers = status_hints(a, b, c, d, Panel::MapView);
        for pair in tiers.windows(2) {
            assert!(pair[0].chars().count() > pair[1].chars().count(), "{pair:?}");
        }
    }
}

#[test]
fn the_chip_strip_is_measured_in_characters() {
    let chips = [
        chip("TLE", 0, &Health::Live),
        chip("SWX", 1, &Health::Stale("12m".to_string())),
        chip("AUR", 0, &Health::Pending),
        chip("LCH", 2, &Health::Error("timeout".to_string())),
    ];
    // " " + "TLE live  " + "SWX 12m  " + "AUR wait  " + "LCH err  "
    assert_eq!(chip_strip_width(&chips), 1 + 10 + 9 + 10 + 9);
    assert_eq!(chip_strip_width(&[]), 1);
}

#[test]
fn a_wider_hint_area_never_gets_a_shorter_hint() {
    for focus in [Panel::MapView, Panel::TrackedList, Panel::Telemetry, Panel::Passes, Panel::Weather, Panel::Launches] {
        let tiers = key_hints(focus);
        for narrow in 0..160u16 {
            let Some(a) = fitting_hint(&tiers, narrow) else { continue };
            let b = fitting_hint(&tiers, narrow + 1).expect("a wider area still fits a hint");
            assert!(b.chars().count() >= a.chars().count());
        }
    }
}
