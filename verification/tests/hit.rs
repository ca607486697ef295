use nadir_ui::hit::{badge_hit, list_rows, HitMap, BADGE_W};
use nadir_ui::layout::Rect;
use nadir_ui::panel::Panel;

fn rect(x: u16, y: u16, w: u16, h: u16) -> Rect {
    Rect::new(x, y, w, h)
}

#[test]
fn the_badge_hit_rect_stops_at_the_seven_cell_chip_not_the_eight_char_prefix() {
    assert_eq!(BADGE_W, 7);
    assert!(badge_hit(0, 0));
    assert!(badge_hit(6, 0), "the chip's last cell is still the badge");
    assert!(!badge_hit(7, 0), "the gap after the chip is not part of it");
    assert!(!badge_hit(0, 1), "only the title row carries the badge");
}

#[test]
fn the_badge_is_as_wide_as_its_text() {
    assert_eq!(nadir_ui::hit::BADGE.len(), BADGE_W as usize);
}

#[test]
fn list_rows_stacks_rows_from_the_top_of_the_inner_area() {
    let rows = list_rows(&[1, 1, 1], 0, rect(2, 5, 20, 10));
    assert_eq!(rows, vec![(5, 6, 0), (6, 7, 1), (7, 8, 2)]);
}

#[test]
fn list_rows_gives_a_two_line_row_two_screen_rows_and_shifts_those_below_it() {
    let rows = list_rows(&[1, 2, 1], 0, rect(0, 0, 20, 10));
    assert_eq!(rows, vec![(0, 1, 0), (1, 3, 1), (3, 4, 2)]);
}

#[test]
fn list_rows_starts_at_the_scroll_offset_but_keeps_the_real_index() {
    let rows = list_rows(&[1; 10], 6, rect(0, 3, 20, 2));
    assert_eq!(rows, vec![(3, 4, 6), (4, 5, 7)]);
}

#[test]
fn list_rows_drops_a_last_row_that_does_not_fit_whole() {
    let rows = list_rows(&[2, 2, 2], 0, rect(0, 0, 20, 5));
    assert_eq!(rows, vec![(0, 2, 0), (2, 4, 1)]);
}

#[test]
fn list_rows_of_an_empty_list_is_empty() {
    assert!(list_rows(&[], 0, rect(0, 0, 20, 5)).is_empty());
}

#[test]
fn list_rows_past_the_end_of_the_list_is_empty() {
    assert!(list_rows(&[1, 1], 5, rect(0, 0, 20, 5)).is_empty());
}

#[test]
fn list_rows_clamps_an_oversized_item_height() {
    assert!(list_rows(&[100_000], 0, rect(0, 0, 20, 5)).is_empty());
}

fn map() -> HitMap {
    HitMap {
        panels: vec![
            (rect(0, 1, 40, 20), Panel::MapView),
            (rect(40, 1, 40, 10), Panel::TrackedList),
        ],
        rows: vec![(Panel::TrackedList, 2, 3, 0), (Panel::TrackedList, 3, 4, 1)],
    }
}

#[test]
fn panel_at_finds_the_panel_whose_rect_contains_the_click() {
    let m = map();
    assert_eq!(m.panel_at(5, 5), Some(Panel::MapView));
    assert_eq!(m.panel_at(45, 5), Some(Panel::TrackedList));
    assert_eq!(m.panel_at(45, 15), None, "below TRACKED's rect is nobody's");
}

#[test]
fn row_at_finds_the_row_under_the_click_and_its_panel() {
    let m = map();
    assert_eq!(m.row_at(45, 2), Some((Panel::TrackedList, 0)));
    assert_eq!(m.row_at(45, 3), Some((Panel::TrackedList, 1)));
}

#[test]
fn row_at_ignores_the_blank_space_below_the_last_row() {
    assert_eq!(map().row_at(45, 8), None);
}

#[test]
fn row_at_ignores_a_click_beside_the_panel_on_a_row_the_panel_owns() {
    assert_eq!(map().row_at(5, 2), None);
}

#[test]
fn add_rows_tags_each_span_with_its_panel_and_an_empty_map_is_not_drawn() {
    let mut m = HitMap::default();
    assert!(!m.is_drawn());
    m.add_rows(Panel::Passes, vec![(4, 5, 2), (5, 7, 3)]);
    assert_eq!(m.rows, vec![(Panel::Passes, 4, 5, 2), (Panel::Passes, 5, 7, 3)]);
    m.panels.push((rect(0, 0, 10, 10), Panel::Passes));
    assert!(m.is_drawn());
    assert_eq!(m.row_at(3, 6), Some((Panel::Passes, 3)));
}

#[test]
fn a_click_on_a_row_recorded_from_list_rows_finds_that_row() {
    let inner = rect(40, 2, 40, 8);
    let mut m = HitMap::default();
    m.panels.push((rect(40, 1, 40, 10), Panel::TrackedList));
    m.add_rows(Panel::Passes, vec![(2, 9, 0)]);
    m.add_rows(Panel::TrackedList, list_rows(&[1, 2, 1], 3, inner));
    m.add_rows(Panel::TrackedList, list_rows(&[1, 2, 1, 1], 0, inner));
    assert_eq!(m.row_at(41, 2), Some((Panel::TrackedList, 0)));
    assert_eq!(m.row_at(41, 4), Some((Panel::TrackedList, 1)));
    assert_eq!(m.row_at(41, 5), Some((Panel::TrackedList, 2)));
    assert_eq!(m.row_at(41, 6), Some((Panel::TrackedList, 3)));
    assert_eq!(m.row_at(41, 7), None);
}
