//! The TRACKED panel's rules: every satellite tracked so far, the one being
//! tracked now marked `●`, names sized to the panel, and which row the list
//! holds in view.

use vstd::prelude::*;
use vstd::string::*;

use crate::layout::sat_sub;
use crate::text::{decimal, padded_right, push_decimal, push_padded_right, truncate, truncated};

verus! {

/// Width of the `NORAD nnnnn` column.
pub const ID_W: usize = 11;

/// Columns spent besides the name and the id: the two borders, the `● `
/// marker and the two the highlight symbol reserves.
pub const TRACKED_OVERHEAD: usize = 6;

/// One row of the list.
#[derive(Clone, Debug, PartialEq, Eq)]
pub struct TrackedRow {
    /// `● ` on the satellite being tracked now, blank otherwise.
    pub marker: &'static str,
    /// The name, cut and padded to the name column.
    pub name: String,
    /// `NORAD` and the id.
    pub id: String,
    /// Whether this is the satellite being tracked now.
    pub active: bool,
}

/// The name column for a panel `width` columns wide: what the borders,
/// marker, highlight and id column leave, but never under four.
pub open spec fn name_width(width: nat) -> nat {
    let w = sat_sub(width as int, (TRACKED_OVERHEAD + ID_W) as int);
    if w < 4 { 4 } else { w }
}

/// Whether `r` is the row for the entry named `name` with id `norad`, with
/// `sat` being tracked, in a name column `w` wide.
pub open spec fn tracked_row_ok(r: TrackedRow, name: Seq<char>, norad: u64, sat: u64, w: nat) -> bool {
    &&& r.active == (norad == sat)
    &&& r.marker@ == (if norad == sat { "● "@ } else { "  "@ })
    &&& r.name@ == padded_right(truncated(name, w), w)
    &&& r.id@ == "NORAD "@ + decimal(norad as nat)
}

/// The list's rows for a panel `width` columns wide, each entry a name and
/// NORAD id, `sat` being the one tracked now.
pub fn tracked_rows(width: u16, entries: &[(String, u64)], sat: u64) -> (rows: Vec<TrackedRow>)
    ensures
        rows@.len() == entries@.len(),
        forall|i: int| 0 <= i < rows@.len() ==> tracked_row_ok(
            #[trigger] rows@[i], entries@[i].0@, entries@[i].1, sat, name_width(width as nat),
        ),
{
    let w0: usize = if (width as usize) > TRACKED_OVERHEAD + ID_W { (width as usize) - (TRACKED_OVERHEAD + ID_W) } else { 0 };
    let w: usize = if w0 < 4 { 4 } else { w0 };
    let mut rows: Vec<TrackedRow> = Vec::new();
    let mut i: usize = 0;
    while i < entries.len()
        invariant
            i <= entries@.len(),
            w == name_width(width as nat),
            rows@.len() == i,
            forall|k: int| 0 <= k < i ==> tracked_row_ok(#[trigger] rows@[k], entries@[k].0@, entries@[k].1, sat, w as nat),
        decreases entries.len() - i,
    {
        let norad = entries[i].1;
        let active = norad == sat;
        let cut = truncate(entries[i].0.as_str(), w);
        let mut name = String::new();
        push_padded_right(&mut name, cut.as_str(), w);
        let mut id = String::from_str("NORAD ");
        push_decimal(&mut id, norad);
        let marker: &'static str = if active { "● " } else { "  " };
        rows.push(TrackedRow { marker, name, id, active });
        i = i + 1;
    }
    rows
}

/// The row the list keeps in view: the highlight, held inside the list,
/// while the panel has focus; otherwise the satellite tracked now, so it is
/// scrolled into view even when it is not among the first few names.
pub fn tracked_selection(focused: bool, list_pos: usize, entries: &[(String, u64)], sat: u64) -> (r: Option<usize>)
    ensures
        focused ==> r == Some(if list_pos < sat_sub(entries@.len() as int, 1) { list_pos } else { sat_sub(entries@.len() as int, 1) as usize }),
        !focused ==> match r {
            Some(i) => i < entries@.len() && entries@[i as int].1 == sat
                && forall|j: int| 0 <= j < i ==> entries@[j].1 != sat,
            None => forall|j: int| 0 <= j < entries@.len() ==> entries@[j].1 != sat,
        },
{
    if focused {
        let last: usize = if entries.len() > 0 { entries.len() - 1 } else { 0 };
        return Some(if list_pos < last { list_pos } else { last });
    }
    let mut i: usize = 0;
    while i < entries.len()
        invariant
            !focused,
            i <= entries@.len(),
            forall|j: int| 0 <= j < i ==> entries@[j].1 != sat,
        decreases entries.len() - i,
    {
        if entries[i].1 == sat {
            return Some(i);
        }
        i = i + 1;
    }
    None
}

} // verus!
