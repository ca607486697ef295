use nadir_ui::panel::{frame_colors, is_focused, App, Panel};
use nadir_ui::theme::Theme;

#[test]
fn is_focused_is_true_only_for_the_focused_panel() {
    let app = App { focus: Panel::Passes, list_pos: 0, ground_station: None };
    assert!(is_focused(&app, Panel::Passes));
    assert!(!is_focused(&app, Panel::Launches));
}

#[test]
fn a_focused_frame_is_drawn_brighter_than_an_unfocused_one() {
    assert_eq!(frame_colors(true), (Theme::FRAME_FOCUS, Theme::FRAME_FOCUS));
    assert_eq!(frame_colors(false), (Theme::FRAME, Theme::LABEL));
}
