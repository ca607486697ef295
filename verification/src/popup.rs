//! The two pickers that pop up over the dashboard: the satellite search
//! (`s`) and the downlink picker (`T`). Both show a fixed-size box whose list
//! scrolls to keep the highlighted row in view.

use vstd::prelude::*;
use vstd::string::*;

use crate::layout::sat_sub;
use crate::text::{
    decimal, padded_left, padded_right, push_decimal, push_padded_left, push_padded_right, truncate, truncated,
};

verus! {

/// Width of both pickers.
pub const PICKER_W: u16 = 78;

/// Height of both pickers, fixed whatever they show so the box never
/// resizes under the user's fingers.
pub const PICKER_H: u16 = 13;

/// Rows the search picker spends inside its border above the results: a
/// blank, the input line and another blank.
pub const SEARCH_ROWS_ABOVE: usize = 3;

/// Rows the downlink picker spends inside its border above its list.
pub const TX_ROWS_ABOVE: usize = 1;

/// Width a search result's name is cut and padded to.
pub const RESULT_NAME_W: usize = 48;

/// Width a downlink's description is cut to.
pub const TX_DESC_W: usize = 44;

/// How many list rows a picker `height` rows tall shows below `above` rows
/// of its own, inside its two border rows; always at least one.
pub open spec fn picker_visible(height: nat, above: nat) -> nat {
    let v = sat_sub(height as int, (2 + above) as int);
    if v < 1 { 1 } else { v }
}

/// The highlighted row, held inside a list of `len` rows.
pub open spec fn picker_selected(len: nat, selected: nat) -> nat {
    let last = sat_sub(len as int, 1);
    if selected < last { selected } else { last }
}

/// The first row shown: far enough down that the highlighted row is on the
/// last visible line, but never so far that the window runs past the end.
pub open spec fn picker_start(visible: nat, len: nat, sel: nat) -> nat {
    let a = sat_sub(sel as int, visible - 1);
    let b = sat_sub(len as int, visible as int);
    if a < b { a } else { b }
}

/// The list window of a picker `height` rows tall with `above` rows over
/// its list: the first row shown, the highlighted row (held inside the
/// list) and how many rows are shown. The highlighted row is always inside
/// the window, and the window never runs past the end of a list longer
/// than itself.
pub fn picker_window(height: u16, above: usize, len: usize, selected: usize) -> (r: (usize, usize, usize))
    ensures
        r.2 == picker_visible(height as nat, above as nat),
        r.1 == picker_selected(len as nat, selected as nat),
        r.0 == picker_start(r.2 as nat, len as nat, r.1 as nat),
        len > 0 ==> r.0 <= r.1 < r.0 + r.2 && r.1 < len,
        r.0 + r.2 <= len || r.0 == 0,
{
    let h: usize = height as usize;
    let v0: usize = if above < h && h - above > 2 { h - above - 2 } else { 0 };
    let visible: usize = if v0 < 1 { 1 } else { v0 };
    let last: usize = if len > 0 { len - 1 } else { 0 };
    let sel: usize = if selected < last { selected } else { last };
    let a: usize = if sel > visible - 1 { sel - (visible - 1) } else { 0 };
    let b: usize = if len > visible { len - visible } else { 0 };
    let start: usize = if a < b { a } else { b };
    (start, sel, visible)
}

/// One line of a picker, with the colour it is drawn in.
#[derive(Clone, Debug, PartialEq, Eq)]
pub enum PickerLine {
    Blank,
    /// The query being typed, caret included, after its label.
    Query(String),
    /// Explanatory text, in the label colour.
    Dim(String),
    /// A failure or an empty answer, in the alert colour.
    Alert(String),
    /// A list row, and whether it is the highlighted one.
    Row(String, bool),
}

/// `l` is explanatory text reading `text`.
pub open spec fn is_dim(l: PickerLine, text: Seq<char>) -> bool {
    l matches PickerLine::Dim(t) && t@ == text
}

/// `l` is an alert reading `text`.
pub open spec fn is_alert(l: PickerLine, text: Seq<char>) -> bool {
    l matches PickerLine::Alert(t) && t@ == text
}

/// `l` is a list row reading `text`, highlighted when `selected`.
pub open spec fn is_row(l: PickerLine, text: Seq<char>, selected: bool) -> bool {
    l matches PickerLine::Row(t, s) && t@ == text && s == selected
}

/// What the catalogue search has to show.
#[derive(Clone, Debug, PartialEq, Eq)]
pub enum SearchView {
    /// Nothing asked yet.
    Idle,
    /// A search is under way.
    Busy,
    /// The matches found: each satellite's name and NORAD id.
    Done(Vec<(String, u64)>),
    /// The search failed, with the reason.
    Failed(String),
}

/// The leader of a list row: `▶ ` on the highlighted one.
pub open spec fn row_marker(selected: bool) -> Seq<char> {
    if selected { "▶ "@ } else { "  "@ }
}

/// A search result as listed: the marker, the name cut and padded to its
/// column, and the NORAD id.
pub open spec fn result_text(name: Seq<char>, norad: u64, selected: bool) -> Seq<char> {
    row_marker(selected) + padded_right(truncated(name, RESULT_NAME_W as nat), RESULT_NAME_W as nat)
        + "NORAD "@ + decimal(norad as nat)
}

fn result_row(name: &str, norad: u64, selected: bool) -> (l: PickerLine)
    ensures
        is_row(l, result_text(name@, norad, selected), selected),
{
    let mut t = String::new();
    if selected {
        t.append("▶ ");
    } else {
        t.append("  ");
    }
    let cut = truncate(name, RESULT_NAME_W);
    push_padded_right(&mut t, cut.as_str(), RESULT_NAME_W);
    t.append("NORAD ");
    push_decimal(&mut t, norad);
    PickerLine::Row(t, selected)
}

/// Whether `lines` opens with the search picker's head: a blank, the query
/// with its caret, and another blank.
pub open spec fn search_head(lines: Seq<PickerLine>, query: Seq<char>) -> bool {
    &&& lines.len() >= 3
    &&& lines[0] is Blank
    &&& lines[1] matches PickerLine::Query(q) && q@ == query + "▏"@
    &&& lines[2] is Blank
}

/// The lines inside the satellite search picker, `height` rows tall, for
/// the `query` typed so far, the search's state and the highlighted result.
/// Below the query: a hint before any search, `searching…` while one runs,
/// a note when nothing matched, the failure's reason, or the window of
/// results that keeps the highlighted one in view.
pub fn search_lines(query: &str, state: &SearchView, selected: usize, height: u16) -> (lines: Vec<PickerLine>)
    ensures
        search_head(lines@, query@),
        match state {
            SearchView::Idle => lines@.len() == 4 && is_dim(lines@[3], "  Enter to search Celestrak's catalogue, or type a NORAD id"@),
            SearchView::Busy => lines@.len() == 4 && is_dim(lines@[3], "  searching…"@),
            SearchView::Failed(msg) => lines@.len() == 4 && is_alert(lines@[3], "  "@ + msg@),
            SearchView::Done(results) => if results@.len() == 0 {
                lines@.len() == 4 && is_alert(lines@[3], "  no match for '"@ + query@ + "'"@)
            } else {
                let visible = picker_visible(height as nat, SEARCH_ROWS_ABOVE as nat);
                let sel = picker_selected(results@.len(), selected as nat);
                let start = picker_start(visible, results@.len(), sel);
                let shown = if start + visible < results@.len() { visible as int } else { results@.len() - start };
                &&& lines@.len() == 3 + shown
                &&& forall|k: int| 0 <= k < shown ==> is_row(#[trigger] lines@[3 + k], result_text(results@[start + k].0@, results@[start + k].1, start + k == sel), start + k == sel)
            },
        },
{
    let mut lines: Vec<PickerLine> = Vec::new();
    lines.push(PickerLine::Blank);
    let mut q = String::from_str(query);
    q.append("▏");
    lines.push(PickerLine::Query(q));
    lines.push(PickerLine::Blank);
    match state {
        SearchView::Idle => {
            lines.push(PickerLine::Dim(String::from_str("  Enter to search Celestrak's catalogue, or type a NORAD id")));
        },
        SearchView::Busy => {
            lines.push(PickerLine::Dim(String::from_str("  searching…")));
        },
        SearchView::Failed(msg) => {
            let mut t = String::from_str("  ");
            t.append(msg.as_str());
            lines.push(PickerLine::Alert(t));
        },
        SearchView::Done(results) => {
            if results.len() == 0 {
                let mut t = String::from_str("  no match for '");
                t.append(query);
                t.append("'");
                lines.push(PickerLine::Alert(t));
            } else {
                let (start, sel, visible) = picker_window(height, SEARCH_ROWS_ABOVE, results.len(), selected);
                let end: usize = if start + visible < results.len() { start + visible } else { results.len() };
                let mut i = start;
                while i < end
                    invariant
                        start <= i <= end <= results@.len(),
                        lines@.len() == 3 + (i - start),
                        search_head(lines@, query@),
                        forall|k: int| 0 <= k < i - start ==> is_row(#[trigger] lines@[3 + k], result_text(results@[start + k].0@, results@[start + k].1, start + k == sel), start + k == sel),
                    decreases end - i,
                {
                    let ghost before = lines@;
                    lines.push(result_row(results[i].0.as_str(), results[i].1, i == sel));
                    proof {
                        assert forall|k: int| 0 <= k < i + 1 - start implies is_row(#[trigger] lines@[3 + k], result_text(results@[start + k].0@, results@[start + k].1, start + k == sel), start + k == sel) by {
                            if k < i - start {
                                assert(lines@[3 + k] == before[3 + k]);
                            }
                        }
                    }
                    i = i + 1;
                }
            }
        },
    }
    lines
}

/// A downlink as the picker lists it: its frequency already written in MHz
/// to three decimals, its mode, its description, and whether it is the one
/// driving the Doppler row now.
#[derive(Clone, Debug, PartialEq, Eq)]
pub struct DownlinkEntry {
    pub mhz: String,
    pub mode: String,
    pub description: String,
    pub active: bool,
}

/// What the transmitter lookup has to show.
#[derive(Clone, Debug, PartialEq, Eq)]
pub enum DownlinkView {
    /// Not started yet.
    Idle,
    /// A lookup is under way.
    Busy,
    /// The lookup failed, with the reason.
    Failed(String),
    /// The downlinks on file.
    Done(Vec<DownlinkEntry>),
}

/// A downlink as listed: the highlight marker, `●` on the active one, the
/// frequency right-aligned in nine columns, the mode (`—` when unknown)
/// left-aligned in six, and the description cut to its column.
pub open spec fn downlink_text(e: DownlinkEntry, selected: bool) -> Seq<char> {
    row_marker(selected) + (if e.active { "●"@ } else { " "@ }) + " "@ + padded_left(e.mhz@, 9)
        + " MHz  "@ + padded_right(if e.mode@.len() == 0 { "—"@ } else { e.mode@ }, 6) + " "@
        + truncated(e.description@, TX_DESC_W as nat)
}

fn downlink_row(e: &DownlinkEntry, selected: bool) -> (l: PickerLine)
    ensures
        is_row(l, downlink_text(*e, selected), selected),
{
    let mut t = String::new();
    if selected {
        t.append("▶ ");
    } else {
        t.append("  ");
    }
    if e.active {
        t.append("●");
    } else {
        t.append(" ");
    }
    t.append(" ");
    push_padded_left(&mut t, e.mhz.as_str(), 9);
    t.append(" MHz  ");
    if e.mode.unicode_len() == 0 {
        push_padded_right(&mut t, "—", 6);
    } else {
        push_padded_right(&mut t, e.mode.as_str(), 6);
    }
    t.append(" ");
    let d = truncate(e.description.as_str(), TX_DESC_W);
    t.append(d.as_str());
    PickerLine::Row(t, selected)
}

/// The downlink picker's title.
pub fn downlink_title(sat: u64) -> (t: String)
    ensures
        t@ == " downlink frequency — NORAD "@ + decimal(sat as nat) + " "@,
{
    let mut t = String::from_str(" downlink frequency — NORAD ");
    push_decimal(&mut t, sat);
    t.append(" ");
    t
}

/// The lines inside the downlink picker, `height` rows tall, for satellite
/// `sat`: a note while the lookup runs, its failure, a note with the way to
/// add one by hand when SatNOGS has none on file, or the window of
/// downlinks that keeps the highlighted one in view.
pub fn downlink_lines(state: &DownlinkView, selected: usize, sat: u64, height: u16) -> (lines: Vec<PickerLine>)
    ensures
        lines@.len() >= 1,
        lines@[0] is Blank,
        match state {
            DownlinkView::Idle | DownlinkView::Busy => lines@.len() == 2 && is_dim(lines@[1], "  looking up transmitters…"@),
            DownlinkView::Failed(msg) => lines@.len() == 2 && is_alert(lines@[1], "  "@ + msg@),
            DownlinkView::Done(found) => if found@.len() == 0 {
                &&& lines@.len() == 3
                &&& is_alert(lines@[1], "  SatNOGS has no transmitter on file for NORAD "@ + decimal(sat as nat))
                &&& is_dim(lines@[2], "  add one by hand under [[tracked.transmitters]] in config.toml"@)
            } else {
                let visible = picker_visible(height as nat, TX_ROWS_ABOVE as nat);
                let sel = picker_selected(found@.len(), selected as nat);
                let start = picker_start(visible, found@.len(), sel);
                let shown = if start + visible < found@.len() { visible as int } else { found@.len() - start };
                &&& lines@.len() == 1 + shown
                &&& forall|k: int| 0 <= k < shown ==> is_row(#[trigger] lines@[1 + k], downlink_text(found@[start + k], start + k == sel), start + k == sel)
            },
        },
{
    let mut lines: Vec<PickerLine> = Vec::new();
    lines.push(PickerLine::Blank);
    match state {
        DownlinkView::Idle | DownlinkView::Busy => {
            lines.push(PickerLine::Dim(String::from_str("  looking up transmitters…")));
        },
        DownlinkView::Failed(msg) => {
            let mut t = String::from_str("  ");
            t.append(msg.as_str());
            lines.push(PickerLine::Alert(t));
        },
        DownlinkView::Done(found) => {
            if found.len() == 0 {
                let mut t = String::from_str("  SatNOGS has no transmitter on file for NORAD ");
                push_decimal(&mut t, sat);
                lines.push(PickerLine::Alert(t));
                lines.push(PickerLine::Dim(String::from_str("  add one by hand under [[tracked.transmitters]] in config.toml")));
            } else {
                let (start, sel, visible) = picker_window(height, TX_ROWS_ABOVE, found.len(), selected);
                let end: usize = if start + visible < found.len() { start + visible } else { found.len() };
                let mut i = start;
                while i < end
                    invariant
                        start <= i <= end <= found@.len(),
                        lines@.len() == 1 + (i - start),
                        lines@[0] is Blank,
                        forall|k: int| 0 <= k < i - start ==> is_row(#[trigger] lines@[1 + k], downlink_text(found@[start + k], start + k == sel), start + k == sel),
                    decreases end - i,
                {
                    let ghost before = lines@;
                    lines.push(downlink_row(&found[i], i == sel));
                    proof {
                        assert forall|k: int| 0 <= k < i + 1 - start implies is_row(#[trigger] lines@[1 + k], downlink_text(found@[start + k], start + k == sel), start + k == sel) by {
                            if k < i - start {
                                assert(lines@[1 + k] == before[1 + k]);
                            }
                        }
                    }
                    i = i + 1;
                }
            }
        },
    }
    lines
}

/// Width and height of the go-to-time prompt.
pub const TIME_PROMPT_W: u16 = 46;
pub const TIME_PROMPT_H: u16 = 6;

/// The lines inside the go-to-time prompt: the time typed so far with its
/// caret, then the reason the last entry was refused, or a reminder of the
/// forms it takes.
pub fn time_prompt_lines(buffer: &str, error: Option<&str>) -> (lines: Vec<PickerLine>)
    ensures
        lines@.len() == 4,
        search_head(lines@, buffer@),
        match error {
            Some(msg) => is_alert(lines@[3], "  "@ + msg@),
            None => is_dim(lines@[3], "  UTC · also +90m, -2h, +3d, or 04:30"@),
        },
{
    let mut lines: Vec<PickerLine> = Vec::new();
    lines.push(PickerLine::Blank);
    let mut q = String::from_str(buffer);
    q.append("▏");
    lines.push(PickerLine::Query(q));
    lines.push(PickerLine::Blank);
    match error {
        Some(msg) => {
            let mut t = String::from_str("  ");
            t.append(msg);
            lines.push(PickerLine::Alert(t));
        },
        None => {
            lines.push(PickerLine::Dim(String::from_str("  UTC · also +90m, -2h, +3d, or 04:30")));
        },
    }
    lines
}

} // verus!
