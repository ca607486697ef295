use nadir_ui::layout::{box_margin, centered, in_rect, right_column_heights, Rect};

#[test]
fn the_right_column_never_budgets_more_rows_than_it_has() {
    for total in 0..=60u16 {
        for tracked_rows in 3..=7u16 {
            for telem_h in 11..=12u16 {
                let (tracked_h, telem_h) = right_column_heights(total, tracked_rows, telem_h);
                assert!(
                    tracked_h + telem_h <= total,
                    "total {total}, tracked_rows {tracked_rows}, telem_h {telem_h}: \
                     got ({tracked_h}, {telem_h})",
                );
            }
        }
    }
}

#[test]
fn next_passes_gives_up_its_rows_before_telemetry_does() {
    assert_eq!(right_column_heights(40, 7, 12), (7, 12));
    let (tracked_h, telem_h) = right_column_heights(14, 7, 12);
    assert_eq!(tracked_h, 3);
    assert_eq!(telem_h, 11);
}

#[test]
fn centered_splits_the_slack_evenly_and_never_outgrows_the_area() {
    let r = centered(Rect::new(10, 4, 80, 24), 60, 4);
    assert_eq!(r, Rect::new(20, 14, 60, 4));
    let r = centered(Rect::new(0, 0, 30, 10), 60, 40);
    assert_eq!(r, Rect::new(0, 0, 30, 10));
    let r = centered(Rect::new(0, 0, 81, 24), 40, 13);
    assert_eq!((r.x, r.y), (20, 5));
}

#[test]
fn box_margin_grows_the_box_one_cell_and_stays_on_screen() {
    let area = Rect::new(0, 0, 80, 24);
    assert_eq!(box_margin(Rect::new(20, 5, 40, 13), area), Rect::new(19, 4, 42, 15));
    assert_eq!(box_margin(Rect::new(0, 0, 80, 24), area), area);
}

#[test]
fn a_cell_in_the_box_is_in_its_margin() {
    let area = Rect::new(0, 0, 80, 24);
    let b = Rect::new(20, 5, 40, 13);
    let m = box_margin(b, area);
    for col in 0..80 {
        for row in 0..24 {
            if in_rect(col, row, b) {
                assert!(in_rect(col, row, m));
            }
        }
    }
    assert!(in_rect(19, 4, m) && !in_rect(19, 4, b));
    assert!(!in_rect(18, 4, m));
}

#[test]
fn a_terminal_under_the_minimum_is_told_its_own_size() {
    assert_eq!(nadir_ui::layout::too_small_message(80, 24), None);
    assert_eq!(nadir_ui::layout::too_small_message(200, 60), None);
    assert_eq!(
        nadir_ui::layout::too_small_message(79, 30).as_deref(),
        Some("nadir needs at least 80x24 — this terminal is 79x30.\nResize, or press q to quit.")
    );
    assert!(nadir_ui::layout::too_small_message(120, 23).unwrap().contains("120x23"));
}
