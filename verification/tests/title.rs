use nadir_ui::title::title_fields;

const FULL: &str = "48.137,11.575";
const SHORT: &str = "48.1,11.6";
const CLOCK: &str = "2026-01-01 12:00:00Z";

#[test]
fn a_wide_bar_carries_every_identifier_and_the_whole_station_name() {
    let f = title_fields(
        120,
        Some(("ISS (ZARYA)", 25544, Some("1998-067A"))),
        25544,
        FULL,
        SHORT,
        "3m",
        "▸ ",
        CLOCK,
        true,
        Some("Munich, Bavaria, Germany"),
        "",
    );
    assert_eq!(f.sat, "ISS (ZARYA) · 1998-067A · NORAD 25544");
    assert_eq!(f.name.as_deref(), Some("Munich, Bavaria, Germany"));
    assert_eq!(f.coords, FULL);
    assert_eq!(f.up, "  up 3m  ");
    assert_eq!(f.delta, "");
    assert_eq!(f.loc(), "Munich, Bavaria, Germany · 48.137,11.575");
}

#[test]
fn the_cospar_id_goes_first_and_then_the_name() {
    let f = title_fields(
        80,
        Some(("ISS (ZARYA)", 25544, Some("1998-067A"))),
        25544,
        FULL,
        SHORT,
        "3m",
        "▸ ",
        CLOCK,
        true,
        Some("Munich, Bavaria, Germany"),
        "",
    );
    assert_eq!(f.sat, "ISS (ZARYA) · NORAD 25544");
    assert_eq!(f.up, "  up 3m  ");
    assert_eq!(f.coords, FULL);
    assert_eq!(f.name, None);
    assert_eq!(f.loc(), FULL);
}

#[test]
fn a_tight_bar_sheds_the_uptime_and_then_the_coordinate_precision() {
    let f = title_fields(70, Some(("ISS (ZARYA)", 25544, None)), 25544, FULL, SHORT, "3m", "▸ ", CLOCK, true, None, "");
    assert_eq!(f.up, " ");
    assert_eq!(f.coords, SHORT);
    let f = title_fields(74, Some(("ISS (ZARYA)", 25544, None)), 25544, FULL, SHORT, "3m", "▸ ", CLOCK, true, None, "");
    assert_eq!(f.up, " ");
    assert_eq!(f.coords, FULL);
}

#[test]
fn the_offset_shows_only_while_scrubbed_and_only_when_it_fits() {
    let wide = |live: bool, width: u16| {
        title_fields(width, Some(("ISS (ZARYA)", 25544, None)), 25544, FULL, SHORT, "3m", "▸▸60x ", CLOCK, live, None, "Δ+2h14m")
    };
    assert_eq!(wide(false, 120).delta, "Δ+2h14m ");
    assert_eq!(wide(true, 120).delta, "");
    assert_eq!(wide(false, 80).delta, "");
}

#[test]
fn before_an_element_set_arrives_the_bar_names_the_configured_id() {
    let f = title_fields(120, None, 25544, FULL, SHORT, "3m", "▸ ", CLOCK, true, None, "");
    assert_eq!(f.sat, "NORAD 25544 · acquiring…");
}

#[test]
fn whatever_is_shown_fits_once_the_bare_bar_fits() {
    for width in 60u16..=200 {
        let f = title_fields(
            width,
            Some(("ISS (ZARYA)", 25544, Some("1998-067A"))),
            25544,
            FULL,
            SHORT,
            "1h 3m",
            "‖ ",
            CLOCK,
            false,
            Some("Munich, Bavaria, Germany"),
            "Δ-45m",
        );
        let bare = 8 + f.sat.chars().count() + SHORT.chars().count() + 1 + 2 + CLOCK.chars().count() + 1 + 2;
        if bare <= width as usize {
            let right = f.loc().chars().count() + f.up.chars().count() + 2 + CLOCK.chars().count() + 1;
            assert!(8 + f.sat.chars().count() + right + 2 <= width as usize, "width {width}: {f:?}");
        }
    }
}
