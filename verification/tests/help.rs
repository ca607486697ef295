use nadir_ui::help::{content, help_view, HelpLine, REFERENCE_LINES};
use nadir_ui::layout::Rect;

#[test]
fn the_reference_opens_with_the_keys_and_ends_with_recent_activity() {
    let lines = content(&[]);
    assert_eq!(lines[0], HelpLine::Heading("  Keys".to_string()));
    assert_eq!(lines.len(), REFERENCE_LINES + 2);
    assert_eq!(lines[REFERENCE_LINES], HelpLine::Heading("  Recent activity".to_string()));
    assert_eq!(lines[REFERENCE_LINES + 1], HelpLine::Text("  (nothing logged yet)".to_string()));
}

#[test]
fn the_activity_log_shows_its_last_eight_entries_oldest_first() {
    let log: Vec<String> = (1..=11).map(|i| format!("event {i}")).collect();
    let lines = content(&log);
    assert_eq!(lines.len(), REFERENCE_LINES + 1 + 8);
    assert_eq!(lines[REFERENCE_LINES + 1], HelpLine::Text("  event 4".to_string()));
    assert_eq!(lines[REFERENCE_LINES + 8], HelpLine::Text("  event 11".to_string()));
    let short: Vec<String> = vec!["one".to_string(), "two".to_string()];
    let lines = content(&short);
    assert_eq!(lines.len(), REFERENCE_LINES + 3);
    assert_eq!(lines[REFERENCE_LINES + 2], HelpLine::Text("  two".to_string()));
}

#[test]
fn a_key_row_pads_the_key_to_its_column() {
    let lines = content(&[]);
    assert_eq!(lines[1], HelpLine::Row("  1 – 6         ".to_string(), "focus map / tracked / telemetry / passes / weather / launches".to_string()));
}

#[test]
fn end_settles_the_overlay_on_its_last_page() {
    let area = Rect { x: 0, y: 0, width: 120, height: 40 };
    let (popup, scroll, pos) = help_view(area, 300, u16::MAX);
    assert_eq!(popup, Rect { x: 10, y: 1, width: 100, height: 38 });
    assert_eq!(scroll, 300 - 36);
    assert_eq!(pos, "300/300");
    let (_, scroll, pos) = help_view(area, 300, 10);
    assert_eq!(scroll, 10);
    assert_eq!(pos, "46/300");
    let (_, scroll, pos) = help_view(area, 0, 5);
    assert_eq!(scroll, 0);
    assert_eq!(pos, "0/0");
}

#[test]
fn a_small_terminal_still_gets_the_minimum_box() {
    let area = Rect { x: 0, y: 0, width: 30, height: 8 };
    let (popup, _, _) = help_view(area, 50, 0);
    assert_eq!(popup, Rect { x: 0, y: 0, width: 30, height: 8 });
}

#[test]
fn the_glossary_keeps_its_wording() {
    let lines = content(&[]);
    assert_eq!(lines[3], HelpLine::Text("       is always visible".to_string()));
    let headings: Vec<String> = lines[..REFERENCE_LINES]
        .iter()
        .filter_map(|l| match l {
            HelpLine::Heading(t) => Some(t.trim().to_string()),
            _ => None,
        })
        .collect();
    assert_eq!(headings.first().map(String::as_str), Some("Keys"));
    assert_eq!(headings.len(), 11);
}
