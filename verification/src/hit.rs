//! Where things were drawn last frame, so a mouse click can be mapped back to
//! them. The panel rectangles and each list's row spans fall out of the
//! frame's layout; the frame records them here as it goes, and a click reads
//! the previous frame's answer, the same way a click on a real window lands
//! on whatever was last painted there.

use vstd::prelude::*;

use crate::layout::Rect;
use crate::panel::Panel;

verus! {

/// The ` nadir ` chip at the left of the title bar: the one string both the
/// title bar's render and the badge's hit rect read.
pub const BADGE: &'static str = " nadir ";

/// The badge's width in cells (`BADGE` is ASCII, so bytes are columns).
pub const BADGE_W: u16 = 7;

/// Whether a click at `(col, row)` lands on the title bar's badge: the
/// leftmost `BADGE_W` cells of the first row.
pub fn badge_hit(col: u16, row: u16) -> (b: bool)
    ensures
        b == (row == 0 && col < BADGE_W),
{
    row == 0 && col < BADGE_W
}

/// One visible list row's screen rows as `y0..y1` (half-open) plus its index
/// in the list.
pub type RowSpan = (u16, u16, usize);

/// An item height as drawn: anything past `u16::MAX` rows counts as
/// `u16::MAX`.
pub open spec fn row_height(h: usize) -> u16 {
    if h > u16::MAX { u16::MAX } else { h as u16 }
}

/// The spans of items `i..` stacked downward from screen row `y`, stopping at
/// the first item that would reach past `bottom`.
pub open spec fn stacked_rows(heights: Seq<usize>, i: int, y: u16, bottom: u16) -> Seq<RowSpan>
    decreases heights.len() - i,
{
    if i < 0 || i >= heights.len() {
        Seq::empty()
    } else {
        let h = row_height(heights[i]);
        if y + h > bottom {
            Seq::empty()
        } else {
            seq![(y, (y + h) as u16, i as usize)].add(stacked_rows(heights, i + 1, (y + h) as u16, bottom))
        }
    }
}

/// The screen rows each visible list item occupies, given every item's
/// height, the list's scroll `offset` and the `inner` rect it was rendered
/// into. Items stack from the top of `inner` starting at `offset`, and only
/// items that fit whole are listed: a half-visible last row is not on
/// screen, so it is not clickable.
pub fn list_rows(heights: &[usize], offset: usize, inner: Rect) -> (out: Vec<RowSpan>)
    ensures
        out@ == stacked_rows(heights@, offset as int, inner.y, inner.spec_bottom()),
{
    let mut out: Vec<RowSpan> = Vec::new();
    let bottom = inner.bottom();
    let mut y = inner.y;
    let mut i = offset;
    while i < heights.len()
        invariant_except_break
            stacked_rows(heights@, offset as int, inner.y, bottom)
                == out@.add(stacked_rows(heights@, i as int, y, bottom)),
            i >= offset,
        ensures
            stacked_rows(heights@, offset as int, inner.y, bottom) == out@,
        decreases heights.len() - i,
    {
        let h: u16 = if heights[i] > 65535 { 65535 } else { heights[i] as u16 };
        if (y as u32) + (h as u32) > bottom as u32 {
            break;
        }
        let ghost before = out@;
        out.push((y, y + h, i));
        proof {
            let rest = stacked_rows(heights@, (i + 1) as int, (y + h) as u16, bottom);
            assert(stacked_rows(heights@, i as int, y, bottom)
                == seq![(y, (y + h) as u16, i)].add(rest));
            assert(before.add(seq![(y, (y + h) as u16, i)].add(rest)) =~= out@.add(rest));
        }
        y = y + h;
        i = i + 1;
    }
    proof {
        if i >= heights.len() {
            assert(out@.add(Seq::<RowSpan>::empty()) =~= out@);
        }
    }
    out
}

/// The panel of the first entry of `panels[i..]` whose rect contains
/// `(col, row)`.
pub open spec fn panel_under(panels: Seq<(Rect, Panel)>, i: int, col: u16, row: u16) -> Option<Panel>
    decreases panels.len() - i,
{
    if i < 0 || i >= panels.len() {
        None
    } else if panels[i].0.spec_contains(col, row) {
        Some(panels[i].1)
    } else {
        panel_under(panels, i + 1, col, row)
    }
}

/// Whether rectangle `r` covers the cell `(col, row)`: columns `x` up to
/// but not including `x + width`, rows `y` up to but not including
/// `y + height`, and never the last representable column or row, where
/// every far edge stops.
pub open spec fn covers(r: Rect, col: u16, row: u16) -> bool {
    &&& r.x <= col && col < r.x + r.width && col < u16::MAX
    &&& r.y <= row && row < r.y + r.height && row < u16::MAX
}

/// A click lands only on a panel whose recorded rectangle covers it, and on
/// the one that covers it when no other recorded rectangle does.
pub proof fn lemma_a_click_lands_on_the_panel_drawn_there(panels: Seq<(Rect, Panel)>, col: u16, row: u16)
    ensures
        panel_under(panels, 0, col, row) matches Some(p) ==> exists|i: int|
            0 <= i < panels.len() && #[trigger] panels[i].1 == p && covers(panels[i].0, col, row),
        forall|i: int| 0 <= i < panels.len() && covers(#[trigger] panels[i].0, col, row)
            && (forall|j: int| 0 <= j < panels.len() && j != i ==> !covers(#[trigger] panels[j].0, col, row))
            ==> panel_under(panels, 0, col, row) == Some(panels[i].1),
{
    lemma_panel_under_from(panels, 0, col, row);
}

proof fn lemma_covers_is_contains(r: Rect, col: u16, row: u16)
    ensures
        covers(r, col, row) == r.spec_contains(col, row),
{
}

proof fn lemma_panel_under_from(panels: Seq<(Rect, Panel)>, k: int, col: u16, row: u16)
    requires
        0 <= k,
    ensures
        panel_under(panels, k, col, row) matches Some(p) ==> exists|i: int|
            k <= i < panels.len() && #[trigger] panels[i].1 == p && covers(panels[i].0, col, row),
        forall|i: int| k <= i < panels.len() && covers(#[trigger] panels[i].0, col, row)
            && (forall|j: int| k <= j < panels.len() && j != i ==> !covers(#[trigger] panels[j].0, col, row))
            ==> panel_under(panels, k, col, row) == Some(panels[i].1),
    decreases panels.len() - k,
{
    if k < panels.len() {
        lemma_covers_is_contains(panels[k].0, col, row);
        lemma_panel_under_from(panels, k + 1, col, row);
        assert forall|i: int| k <= i < panels.len() && covers(#[trigger] panels[i].0, col, row)
            && (forall|j: int| k <= j < panels.len() && j != i ==> !covers(#[trigger] panels[j].0, col, row))
            implies panel_under(panels, k, col, row) == Some(panels[i].1) by {
            if i != k {
                assert(!covers(panels[k].0, col, row));
            }
        }
    }
}

/// The index of the first entry of `rows[i..]` that belongs to `panel` and
/// covers screen row `row`.
pub open spec fn row_under(rows: Seq<(Panel, u16, u16, usize)>, i: int, panel: Panel, row: u16) -> Option<usize>
    decreases rows.len() - i,
{
    if i < 0 || i >= rows.len() {
        None
    } else if rows[i].0 == panel && rows[i].1 <= row < rows[i].2 {
        Some(rows[i].3)
    } else {
        row_under(rows, i + 1, panel, row)
    }
}

/// What the last drawn frame put where. Emptied at the top of every frame,
/// so a frame that draws no dashboard leaves nothing for a click to land on.
#[derive(Debug, Default, Clone, PartialEq, Eq)]
pub struct HitMap {
    /// Each drawn panel's outer rect, for click-to-focus.
    pub panels: Vec<(Rect, Panel)>,
    /// One entry per visible list row: its panel, the screen rows it covers
    /// as `y0..y1` (half-open), and its index in that panel's list.
    pub rows: Vec<(Panel, u16, u16, usize)>,
}

impl HitMap {
    /// Record `panel`'s visible list rows, as returned by its draw.
    pub fn add_rows(&mut self, panel: Panel, rows: Vec<RowSpan>)
        ensures
            final(self).panels@ == old(self).panels@,
            final(self).rows@ == old(self).rows@.add(
                rows@.map_values(|r: RowSpan| (panel, r.0, r.1, r.2)),
            ),
    {
        let mut i: usize = 0;
        while i < rows.len()
            invariant
                i <= rows.len(),
                self.panels@ == old(self).panels@,
                self.rows@ == old(self).rows@.add(
                    rows@.take(i as int).map_values(|r: RowSpan| (panel, r.0, r.1, r.2)),
                ),
            decreases rows.len() - i,
        {
            let (y0, y1, idx) = rows[i];
            self.rows.push((panel, y0, y1, idx));
            proof {
                assert(rows@.take(i + 1) =~= rows@.take(i as int).push(rows@[i as int]));
                assert(old(self).rows@.add(rows@.take(i + 1).map_values(|r: RowSpan| (panel, r.0, r.1, r.2)))
                    =~= self.rows@);
            }
            i = i + 1;
        }
        proof {
            assert(rows@.take(rows.len() as int) =~= rows@);
        }
    }

    /// Whether the dashboard was drawn at all.
    pub fn is_drawn(&self) -> (b: bool)
        ensures
            b == (self.panels@.len() > 0),
    {
        self.panels.len() > 0
    }

    /// The panel under `(col, row)`, if any: the first recorded rect that
    /// contains it.
    pub fn panel_at(&self, col: u16, row: u16) -> (p: Option<Panel>)
        ensures
            p == panel_under(self.panels@, 0, col, row),
    {
        let mut i: usize = 0;
        while i < self.panels.len()
            invariant
                panel_under(self.panels@, 0, col, row) == panel_under(self.panels@, i as int, col, row),
            decreases self.panels.len() - i,
        {
            let (r, p) = self.panels[i];
            if r.contains(col, row) {
                return Some(p);
            }
            i = i + 1;
        }
        None
    }

    /// The list row under `(col, row)`, as its panel and index. The panel is
    /// resolved first, so a click beside a panel on one of its screen rows
    /// finds nothing, and so does a click on the blank space below a short
    /// list.
    pub fn row_at(&self, col: u16, row: u16) -> (r: Option<(Panel, usize)>)
        ensures
            r == (match panel_under(self.panels@, 0, col, row) {
                None => None,
                Some(p) => match row_under(self.rows@, 0, p, row) {
                    None => None,
                    Some(i) => Some((p, i)),
                },
            }),
    {
        let panel = match self.panel_at(col, row) {
            Some(p) => p,
            None => return None,
        };
        let mut i: usize = 0;
        while i < self.rows.len()
            invariant
                panel_under(self.panels@, 0, col, row) == Some(panel),
                row_under(self.rows@, 0, panel, row) == row_under(self.rows@, i as int, panel, row),
            decreases self.rows.len() - i,
        {
            let (p, y0, y1, idx) = self.rows[i];
            if p == panel && y0 <= row && row < y1 {
                return Some((panel, idx));
            }
            i = i + 1;
        }
        None
    }
}

/// The row search over `rows[i..]` of a panel whose earlier rows cover
/// none of screen row `row` lands on the first covering row recorded later.
proof fn lemma_row_under_skips(
    before: Seq<(Panel, u16, u16, usize)>,
    added: Seq<(Panel, u16, u16, usize)>,
    i: int,
    panel: Panel,
    row: u16,
)
    requires
        0 <= i <= before.len(),
        forall|j: int| #![trigger before[j]] i <= j < before.len() ==> !(before[j].0 == panel && before[j].1 <= row < before[j].2),
    ensures
        row_under(before + added, i, panel, row) == row_under(added, 0, panel, row),
    decreases before.len() + added.len() - i,
{
    let all = before + added;
    if i < before.len() {
        assert(all[i] == before[i]);
        lemma_row_under_skips(before, added, i + 1, panel, row);
    } else {
        lemma_row_under_shift(before, added, 0, panel, row);
    }
}

proof fn lemma_row_under_shift(
    before: Seq<(Panel, u16, u16, usize)>,
    added: Seq<(Panel, u16, u16, usize)>,
    k: int,
    panel: Panel,
    row: u16,
)
    requires
        0 <= k <= added.len(),
    ensures
        row_under(before + added, before.len() + k, panel, row) == row_under(added, k, panel, row),
    decreases added.len() - k,
{
    if k < added.len() {
        assert((before + added)[before.len() + k] == added[k]);
        lemma_row_under_shift(before, added, k + 1, panel, row);
    }
}

proof fn lemma_row_under_first(rows: Seq<(Panel, u16, u16, usize)>, i: int, k: int, panel: Panel, row: u16)
    requires
        0 <= i <= k < rows.len(),
        rows[k].0 == panel && rows[k].1 <= row < rows[k].2,
        forall|j: int| #![trigger rows[j]] i <= j < k ==> !(rows[j].0 == panel && rows[j].1 <= row < rows[j].2),
    ensures
        row_under(rows, i, panel, row) == Some(rows[k].3),
    decreases k - i,
{
    if i < k {
        lemma_row_under_first(rows, i + 1, k, panel, row);
    }
}

/// A click on a list row finds the row painted there: once a panel's rows
/// are recorded after rows that cover none of that screen row, the search
/// lands on the first recorded span covering it.
pub proof fn lemma_a_click_finds_the_row_painted_under_it(
    before: Seq<(Panel, u16, u16, usize)>,
    panel: Panel,
    rows: Seq<RowSpan>,
    k: int,
    row: u16,
)
    requires
        0 <= k < rows.len(),
        rows[k].0 <= row < rows[k].1,
        forall|j: int| #![trigger rows[j]] 0 <= j < k ==> !(rows[j].0 <= row < rows[j].1),
        row_under(before, 0, panel, row) is None,
    ensures
        row_under(before + rows.map_values(|r: RowSpan| (panel, r.0, r.1, r.2)), 0, panel, row) == Some(rows[k].2),
{
    let added = rows.map_values(|r: RowSpan| (panel, r.0, r.1, r.2));
    lemma_row_under_none(before, 0, panel, row);
    lemma_row_under_skips(before, added, 0, panel, row);
    lemma_row_under_first(added, 0, k, panel, row);
}

proof fn lemma_row_under_none(rows: Seq<(Panel, u16, u16, usize)>, i: int, panel: Panel, row: u16)
    requires
        0 <= i <= rows.len(),
        row_under(rows, i, panel, row) is None,
    ensures
        forall|j: int| #![trigger rows[j]] i <= j < rows.len() ==> !(rows[j].0 == panel && rows[j].1 <= row < rows[j].2),
    decreases rows.len() - i,
{
    if i < rows.len() {
        lemma_row_under_none(rows, i + 1, panel, row);
    }
}

} // verus!
