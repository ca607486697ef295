use nadir_ui::map::{
    label_layout, label_on_right, marker_cells, pad_label, selected_places, zoom_title, Cells, Claimed,
    MAX_PLACE_LABELS, MAX_ZOOM,
};

#[test]
fn label_on_right_stays_right_when_dead_centre() {
    assert!(label_on_right(42, 43, 60));
    assert!(label_on_right(43, 42, 60));
    assert!(label_on_right(43, 43, 60));
}

#[test]
fn label_on_right_flips_left_only_with_a_real_margin() {
    assert!(!label_on_right(70, 5, 60));
    assert!(label_on_right(50, 43, 60));
}

#[test]
fn label_on_right_stays_right_when_the_name_fits_there() {
    assert!(label_on_right(70, 12, 10));
}

#[test]
fn zoom_title_names_the_scale_against_the_whole_world() {
    assert_eq!(zoom_title(false, 0), "MAP");
    assert_eq!(zoom_title(false, MAX_ZOOM), "MAP");
    assert_eq!(zoom_title(true, 0), "MAP ×2");
    assert_eq!(zoom_title(true, 1), "MAP ×4");
    assert_eq!(zoom_title(true, 2), "MAP ×8");
    assert_eq!(zoom_title(true, MAX_ZOOM), "MAP ×16");
    assert_eq!(zoom_title(true, MAX_ZOOM + 5), "MAP ×16");
}

#[test]
fn claimed_rejects_a_nearby_label_and_accepts_a_separated_one() {
    let mut c = Claimed::default();
    c.claim(&[Cells { row: 5, from: 10, to: 20 }]);
    assert!(!c.free(&[Cells { row: 5, from: 18, to: 25 }]));
    assert!(!c.free(&[Cells { row: 5, from: 21, to: 30 }]));
    assert!(!c.free(&[Cells { row: 5, from: 22, to: 30 }]));
    assert!(c.free(&[Cells { row: 5, from: 23, to: 30 }]));
    assert!(!c.free(&[Cells { row: 6, from: 12, to: 18 }]));
    assert!(c.free(&[Cells { row: 7, from: 12, to: 18 }]));
}

#[test]
fn a_short_name_mid_map_goes_right_and_a_long_one_at_the_edge_flips_left() {
    let l = label_layout(120, 72, "Nairobi");
    assert!(l.right_side);
    assert_eq!(l.shown, "Nairobi");
    assert_eq!((l.start_col, l.text_col), (72, 73));
    let cells = marker_cells(120, 9, &l, None);
    assert_eq!(cells, vec![Cells { row: 9, from: 72, to: 72 + 7 + 1 }]);

    let l = label_layout(120, 117, "Vladivostok");
    assert!(!l.right_side);
    assert_eq!(l.shown, "Vladivostok");
    assert_eq!(l.start_col, 117 - 12);
    let cells = marker_cells(120, 3, &l, None);
    assert_eq!(cells[0].from, l.start_col);
    assert_eq!(cells[0].to, l.start_col + 11 + 1);
}

#[test]
fn a_marker_with_no_name_claims_only_its_own_cell() {
    let l = label_layout(120, 40, "");
    assert!(l.shown.is_empty());
    assert_eq!(marker_cells(120, 2, &l, Some((3, "detail"))), vec![Cells { row: 2, from: 40, to: 40 }]);
}

#[test]
fn a_label_is_truncated_to_the_room_on_its_side() {
    let l = label_layout(20, 14, "International Space Station");
    assert!(!l.right_side);
    assert_eq!(l.shown.chars().count(), 13);
    assert!(l.shown.ends_with('…'));
}

#[test]
fn the_detail_line_is_reserved_on_its_own_row() {
    let l = label_layout(120, 50, "SpaceX · Falcon 9");
    let cells = marker_cells(120, 20, &l, Some((21, "SLC-4E · 34.63°N 120.61°W")));
    assert_eq!(cells.len(), 2);
    assert_eq!(cells[1], Cells { row: 21, from: 51, to: 51 + 25 - 1 });
}

#[test]
fn place_labels_never_land_on_the_seed_or_each_other_and_respect_the_cap() {
    let mut seed = Claimed::default();
    seed.claim(&[Cells { row: 10, from: 40, to: 55 }]);
    let cands = vec![
        vec![Cells { row: 10, from: 50, to: 60 }],
        vec![],
        vec![Cells { row: 2, from: 0, to: 5 }],
        vec![Cells { row: 3, from: 4, to: 9 }],
        vec![Cells { row: 20, from: 0, to: 5 }, Cells { row: 21, from: 0, to: 10 }],
    ];
    assert_eq!(selected_places(&cands, seed), vec![2, 4]);

    let many: Vec<Vec<Cells>> = (0..40u16).map(|r| vec![Cells { row: r * 3, from: 0, to: 4 }]).collect();
    let kept = selected_places(&many, Claimed::default());
    assert_eq!(kept.len(), MAX_PLACE_LABELS);
    assert_eq!(kept, (0..MAX_PLACE_LABELS).collect::<Vec<_>>());
}

#[test]
fn the_pad_label_leads_with_the_provider_unless_the_feed_had_none() {
    let (name, detail) = pad_label("SpaceX", "Falcon 9", "SLC-4E, Vandenberg SFB", "34.63°N 120.61°W");
    assert_eq!(name, "SpaceX · Falcon 9");
    assert_eq!(detail, "SLC-4E, Vandenberg SFB · 34.63°N 120.61°W");
    assert_eq!(pad_label("—", "Falcon 9", "SLC-4E", "x").0, "Falcon 9");
    assert_eq!(pad_label("", "Falcon 9", "SLC-4E", "x").0, "Falcon 9");
}
