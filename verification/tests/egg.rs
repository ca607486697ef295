use nadir_ui::egg::{transit_cells, TRAIL_LEN};
use nadir_ui::hit::BADGE_W;

/// The share of the flight spent lighting the badge.
const IGNITE: f32 = 0.15;

/// The egg at flight progress `t` on a bar `width` wide, with each tail
/// dot's age as a fraction, the way the title bar draws it.
fn transit(width: u16, t: f32) -> (u16, Vec<(u16, f32)>) {
    let progress = ((t.clamp(0.0, 1.0) - IGNITE) / (1.0 - IGNITE)).max(0.0);
    let travelled = ((progress * f32::from(width)).round() as u32).min(u32::from(width));
    let (sat, tail) = transit_cells(width, travelled);
    (sat, tail.into_iter().map(|(c, k)| (c, k as f32 / (TRAIL_LEN + 1) as f32)).collect())
}

#[test]
fn the_egg_transit_wraps_exactly_once_and_returns_to_the_badge() {
    let width = 100;
    let mut wraps = 0;
    let mut last = transit(width, 0.0).0;
    for i in 1..=2000 {
        let (col, _) = transit(width, i as f32 / 2000.0);
        if col < last {
            wraps += 1;
        }
        last = col;
    }
    assert_eq!(wraps, 1, "one lap crosses the right edge exactly once");
    assert_eq!(last, BADGE_W, "and finishes back at the badge's edge");
}

#[test]
fn the_satellite_waits_at_the_badge_with_no_tail_while_it_ignites() {
    let (col, tail) = transit(100, IGNITE * 0.5);
    assert_eq!(col, BADGE_W);
    assert!(tail.is_empty(), "nothing has been flown over yet");
}

#[test]
fn the_egg_trail_ages_from_the_satellite_backwards() {
    let (sat, tail) = transit(100, 0.5);
    assert_eq!(tail.len(), TRAIL_LEN as usize);
    for (k, (col, age)) in tail.iter().enumerate() {
        assert_eq!((*col + k as u16 + 1) % 100, sat, "dot {k} sits {} behind", k + 1);
        if k > 0 {
            let nearer = tail[k - 1].1;
            assert!(*age > nearer, "each dot is older than the one nearer the satellite");
        }
        assert!((0.0..1.0).contains(age));
    }
}

#[test]
fn the_egg_trail_wraps_round_the_right_edge_with_the_satellite() {
    let width = 100;
    let t = IGNITE + (1.0 - IGNITE) * (f32::from(width - BADGE_W) + 2.0) / f32::from(width);
    let (sat, tail) = transit(width, t);
    assert!(sat < 5, "just wrapped, got column {sat}");
    assert!(tail.iter().any(|(c, _)| *c > width - 5), "the tail trails off the right edge");
}

#[test]
fn transit_on_a_zero_width_bar_draws_nothing_rather_than_dividing_by_zero() {
    assert_eq!(transit(0, 0.5), (0, Vec::new()));
}

#[test]
fn the_tail_follows_the_satellite_column_by_column() {
    let (sat, tail) = transit_cells(80, 3);
    assert_eq!(sat, BADGE_W + 3);
    assert_eq!(tail, vec![(BADGE_W + 2, 1), (BADGE_W + 1, 2), (BADGE_W, 3)]);
    let (sat, tail) = transit_cells(80, 74);
    assert_eq!(sat, 1);
    assert_eq!(tail, vec![(0, 1), (79, 2), (78, 3), (77, 4), (76, 5)]);
    assert_eq!(transit_cells(80, 80).0, BADGE_W);
}
