use nadir_ui::theme::Theme;
use nadir_ui::weather::storm_scale;

#[test]
fn storm_scales_read_green_amber_red() {
    assert_eq!(storm_scale("R", 0), ("R0".to_string(), Theme::NOMINAL));
    assert_eq!(storm_scale("S", 1), ("S1".to_string(), Theme::CAUTION));
    assert_eq!(storm_scale("G", 2), ("G2".to_string(), Theme::CAUTION));
    assert_eq!(storm_scale("G", 5), ("G5".to_string(), Theme::ALERT));
}
