use nadir_ui::popup::{
    downlink_lines, downlink_title, picker_window, search_lines, time_prompt_lines, DownlinkEntry, DownlinkView, PickerLine,
    SearchView,
    PICKER_H, SEARCH_ROWS_ABOVE, TX_ROWS_ABOVE,
};

fn results(n: u64) -> Vec<(String, u64)> {
    (0..n).map(|i| (format!("STARLINK-{}", 1000 + i), 44000 + i)).collect()
}

#[test]
fn the_search_window_follows_the_highlight_down_a_long_list() {
    // 13 rows tall: two borders and three rows above leave eight results.
    assert_eq!(picker_window(PICKER_H, SEARCH_ROWS_ABOVE, 20, 0), (0, 0, 8));
    assert_eq!(picker_window(PICKER_H, SEARCH_ROWS_ABOVE, 20, 7), (0, 7, 8));
    assert_eq!(picker_window(PICKER_H, SEARCH_ROWS_ABOVE, 20, 8), (1, 8, 8));
    assert_eq!(picker_window(PICKER_H, SEARCH_ROWS_ABOVE, 20, 19), (12, 19, 8));
    // A highlight past the end is held on the last row.
    assert_eq!(picker_window(PICKER_H, SEARCH_ROWS_ABOVE, 20, 50), (12, 19, 8));
    // The downlink picker has only one row above its list.
    assert_eq!(picker_window(PICKER_H, TX_ROWS_ABOVE, 3, 2), (0, 2, 10));
    // A box too short for any row still shows one.
    assert_eq!(picker_window(4, SEARCH_ROWS_ABOVE, 5, 3), (3, 3, 1));
}

#[test]
fn the_highlighted_row_is_always_in_the_window() {
    for len in 1..30usize {
        for sel in 0..35usize {
            let (start, s, visible) = picker_window(PICKER_H, SEARCH_ROWS_ABOVE, len, sel);
            assert!(start <= s && s < start + visible && s < len);
        }
    }
}

#[test]
fn the_search_picker_lists_a_window_of_results() {
    let lines = search_lines("star", &SearchView::Done(results(20)), 9, PICKER_H);
    assert_eq!(lines.len(), 3 + 8);
    assert_eq!(lines[1], PickerLine::Query("star▏".to_string()));
    let first = format!("  {:<48}NORAD 44002", "STARLINK-1002");
    assert_eq!(lines[3], PickerLine::Row(first, false));
    let chosen = format!("▶ {:<48}NORAD 44009", "STARLINK-1009");
    assert_eq!(lines[10], PickerLine::Row(chosen, true));
}

#[test]
fn the_search_picker_explains_every_state() {
    let idle = search_lines("", &SearchView::Idle, 0, PICKER_H);
    assert_eq!(idle[3], PickerLine::Dim("  Enter to search Celestrak's catalogue, or type a NORAD id".to_string()));
    let busy = search_lines("iss", &SearchView::Busy, 0, PICKER_H);
    assert_eq!(busy[3], PickerLine::Dim("  searching…".to_string()));
    let none = search_lines("zzz", &SearchView::Done(Vec::new()), 0, PICKER_H);
    assert_eq!(none[3], PickerLine::Alert("  no match for 'zzz'".to_string()));
    let failed = search_lines("iss", &SearchView::Failed("Celestrak unreachable".to_string()), 0, PICKER_H);
    assert_eq!(failed[3], PickerLine::Alert("  Celestrak unreachable".to_string()));
    assert_eq!(failed.len(), 4);
}

#[test]
fn a_long_result_name_is_cut_to_its_column() {
    let long = "X".repeat(60);
    let lines = search_lines("x", &SearchView::Done(vec![(long, 1)]), 0, PICKER_H);
    let PickerLine::Row(text, true) = &lines[3] else { panic!("{:?}", lines[3]) };
    assert_eq!(text, &format!("▶ {}…NORAD 1", "X".repeat(47)));
}

#[test]
fn the_downlink_picker_marks_the_active_entry_and_aligns_its_columns() {
    let found = vec![
        DownlinkEntry { mhz: "145.800".to_string(), mode: "FM".to_string(), description: "Voice downlink".to_string(), active: true },
        DownlinkEntry { mhz: "437.800".to_string(), mode: String::new(), description: "APRS".to_string(), active: false },
    ];
    let lines = downlink_lines(&DownlinkView::Done(found), 1, 25544, PICKER_H);
    assert_eq!(lines.len(), 3);
    assert_eq!(lines[0], PickerLine::Blank);
    assert_eq!(lines[1], PickerLine::Row("  ●   145.800 MHz  FM     Voice downlink".to_string(), false));
    assert_eq!(lines[2], PickerLine::Row("▶     437.800 MHz  —      APRS".to_string(), true));
}

#[test]
fn the_downlink_picker_explains_an_empty_answer() {
    let lines = downlink_lines(&DownlinkView::Done(Vec::new()), 0, 43017, PICKER_H);
    assert_eq!(lines[1], PickerLine::Alert("  SatNOGS has no transmitter on file for NORAD 43017".to_string()));
    assert_eq!(lines[2], PickerLine::Dim("  add one by hand under [[tracked.transmitters]] in config.toml".to_string()));
    let busy = downlink_lines(&DownlinkView::Busy, 0, 43017, PICKER_H);
    assert_eq!(busy[1], PickerLine::Dim("  looking up transmitters…".to_string()));
    assert_eq!(downlink_title(43017), " downlink frequency — NORAD 43017 ");
}

#[test]
fn the_time_prompt_reminds_of_its_forms_until_an_entry_is_refused() {
    let lines = time_prompt_lines("+90", None);
    assert_eq!(lines[1], PickerLine::Query("+90▏".to_string()));
    assert_eq!(lines[3], PickerLine::Dim("  UTC · also +90m, -2h, +3d, or 04:30".to_string()));
    let lines = time_prompt_lines("tomorrow", Some("can't read \"tomorrow\" as a time"));
    assert_eq!(lines[3], PickerLine::Alert("  can't read \"tomorrow\" as a time".to_string()));
}

#[test]
fn a_picker_with_more_rows_above_than_it_is_tall_still_shows_one_row() {
    assert_eq!(picker_window(20, usize::MAX, 30, 12), (12, 12, 1));
    assert_eq!(picker_window(20, 18, 30, 0), (0, 0, 1));
}
