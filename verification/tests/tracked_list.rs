use nadir_ui::tracked_list::{tracked_rows, tracked_selection};

fn entries() -> Vec<(String, u64)> {
    vec![
        ("AQUA".to_string(), 27424),
        ("HUBBLE SPACE TELESCOPE".to_string(), 20580),
        ("ISS (ZARYA)".to_string(), 25544),
    ]
}

#[test]
fn the_satellite_tracked_now_is_marked_and_names_fit_their_column() {
    // A 40-column panel leaves 40 - 6 - 11 = 23 columns for the name.
    let rows = tracked_rows(40, &entries(), 25544);
    assert_eq!(rows.len(), 3);
    assert_eq!(rows[2].marker, "● ");
    assert!(rows[2].active);
    assert_eq!(rows[2].name, format!("{:<23}", "ISS (ZARYA)"));
    assert_eq!(rows[2].id, "NORAD 25544");
    assert_eq!(rows[0].marker, "  ");
    // A narrow panel cuts the name, never below four columns.
    let narrow = tracked_rows(20, &entries(), 25544);
    assert_eq!(narrow[1].name, "HUB…");
}

#[test]
fn an_unfocused_list_keeps_the_tracked_satellite_in_view() {
    assert_eq!(tracked_selection(false, 0, &entries(), 25544), Some(2));
    assert_eq!(tracked_selection(false, 0, &entries(), 1), None);
    assert_eq!(tracked_selection(true, 1, &entries(), 25544), Some(1));
    assert_eq!(tracked_selection(true, 7, &entries(), 25544), Some(2));
}
