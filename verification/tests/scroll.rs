use nadir_ui::hit::RowSpan;
use nadir_ui::layout::Rect;
use nadir_ui::scroll::{band_rect, plan_for_rows, scroll_plan, ScrollPlan};

fn area() -> Rect {
    Rect { x: 0, y: 0, width: 10, height: 12 }
}

#[test]
fn a_list_that_fits_draws_no_scrollbar_but_a_clipped_one_does() {
    assert_eq!(scroll_plan(area(), 0, 8, 8), None);
    assert_eq!(scroll_plan(area(), 0, 8, 3), None);
    assert_eq!(scroll_plan(area(), 0, 0, 3), None);
    assert!(scroll_plan(area(), 0, 4, 5).is_some());
}

#[test]
fn the_track_leaves_the_border_corners_alone() {
    let p = scroll_plan(area(), 0, 8, 20).unwrap();
    assert_eq!(p.track, Rect { x: 0, y: 1, width: 10, height: 10 });
    assert!(p.arrows);
}

#[test]
fn the_thumb_runs_from_the_top_to_flush_with_the_bottom() {
    let top = scroll_plan(area(), 0, 8, 20).unwrap();
    assert_eq!((top.content_len, top.position, top.viewport), (13, 0, 8));
    let bottom = scroll_plan(area(), 12, 8, 20).unwrap();
    assert_eq!(bottom.position, bottom.content_len - 1);
    // A first row past the last page is held there.
    assert_eq!(scroll_plan(area(), 40, 8, 20).unwrap().position, 12);
}

#[test]
fn scrolling_further_down_never_moves_the_thumb_back_up() {
    let mut last = 0;
    for first in 0..30 {
        let p = scroll_plan(area(), first, 8, 20).unwrap();
        assert!(p.position >= last);
        last = p.position;
    }
}

#[test]
fn a_short_panel_keeps_a_thumb_but_drops_its_arrows() {
    let p = scroll_plan(Rect { x: 0, y: 5, width: 10, height: 4 }, 0, 1, 5).unwrap();
    assert_eq!(p.track.height, 2);
    assert!(!p.arrows);
    assert_eq!(scroll_plan(Rect { x: 0, y: 5, width: 10, height: 2 }, 0, 1, 5), None);
}

#[test]
fn a_popup_band_runs_a_row_past_each_end_of_its_list() {
    let popup = Rect { x: 1, y: 5, width: 78, height: 13 };
    assert_eq!(band_rect(popup, 9, 8), Rect { x: 1, y: 8, width: 78, height: 10 });
    assert_eq!(band_rect(popup, 0, 2), Rect { x: 1, y: 0, width: 78, height: 4 });
}

#[test]
fn a_rendered_list_reports_its_own_window() {
    let rows: Vec<RowSpan> = vec![(3, 4, 6), (4, 5, 7), (5, 6, 8)];
    let p: Option<ScrollPlan> = plan_for_rows(area(), &rows, 10);
    assert_eq!(p, scroll_plan(area(), 6, 3, 10));
    assert_eq!(plan_for_rows(area(), &[], 10), None);
}
