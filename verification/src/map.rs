//! The world map's text rules: the zoom indicator in its title, which side
//! of a marker its label goes on, the cells a label occupies, and the
//! collision test that decides which place labels are drawn at all.

use vstd::prelude::*;
use vstd::string::*;

use crate::text::{decimal, push_decimal, truncate, truncated};

verus! {

/// The tightest follow-mode zoom level.
pub const MAX_ZOOM: usize = 3;

/// Most place labels drawn on one pane: a backstop behind the collision
/// test, which does most of the thinning.
pub const MAX_PLACE_LABELS: usize = 24;

/// The map title: plain `MAP` with no follow centre, `MAP ×N` while
/// following, `N` being the scale against the whole-world view (×2 at the
/// widest follow level, doubling per level, capped at the tightest).
pub open spec fn zoom_title_text(following: bool, zoom: nat) -> Seq<char> {
    if !following {
        "MAP"@
    } else {
        let z = if zoom < MAX_ZOOM { zoom } else { MAX_ZOOM as nat };
        let scale: nat = if z == 0 { 2 } else if z == 1 { 4 } else if z == 2 { 8 } else { 16 };
        "MAP ×"@ + decimal(scale)
    }
}

/// The map panel's title, derived from whether the map follows a centre
/// (the same fact that picks its bounds), so the two can never disagree.
pub fn zoom_title(following: bool, zoom: usize) -> (t: String)
    ensures
        t@ == zoom_title_text(following, zoom as nat),
{
    if !following {
        return String::from_str("MAP");
    }
    let z = if zoom < MAX_ZOOM { zoom } else { MAX_ZOOM };
    let scale: u64 = if z == 0 { 2 } else if z == 1 { 4 } else if z == 2 { 8 } else { 16 };
    let mut t = String::from_str("MAP ×");
    push_decimal(&mut t, scale);
    t
}

/// Columns of advantage the left side needs before a label flips there.
pub const FLIP_MARGIN: u16 = 8;

/// Which side of its marker a label goes on: the right by default, the left
/// only when the name does not fit on the right and the left offers
/// materially more room (a marker held dead centre must not flip sides on
/// a one-column difference). The name length is taken mod 2¹⁶.
pub open spec fn on_right(room_left: u16, room_right: u16, name_len: nat) -> bool {
    room_right >= (name_len % 65536) + 1 || room_left < room_right + FLIP_MARGIN
}

pub fn label_on_right(room_left: u16, room_right: u16, name_len: usize) -> (b: bool)
    ensures
        b == on_right(room_left, room_right, name_len as nat),
{
    let n = (name_len % 65536) as u32;
    (room_right as u32) >= n + 1 || (room_left as u32) < (room_right as u32) + (FLIP_MARGIN as u32)
}

/// Two sides differing by under `FLIP_MARGIN` columns always keep the label
/// on the right, whatever the name: rounding noise about a centred marker
/// cannot make it flip.
pub proof fn lemma_near_centre_stays_right(room_left: u16, room_right: u16, name_len: nat)
    requires
        room_left < room_right + FLIP_MARGIN,
    ensures
        on_right(room_left, room_right, name_len),
{
}

/// A label goes on the side with room for it: right of the marker whenever
/// the whole name fits there beside its one-column gap, and left when it
/// does not fit on the right and the left offers at least `FLIP_MARGIN`
/// more columns.
pub proof fn lemma_label_side_follows_the_room(room_left: u16, room_right: u16, name_len: nat)
    requires
        name_len < 65536,
    ensures
        room_right >= name_len + 1 ==> on_right(room_left, room_right, name_len),
        room_right < name_len + 1 && room_left >= room_right + FLIP_MARGIN ==> !on_right(room_left, room_right, name_len),
{
}

/// Where the label of a marker at column `m` lands in a `cols`-column pane:
/// a name with room right of the marker sits there whole, starting one
/// column past the glyph; a name without that room but with at least
/// `FLIP_MARGIN` more columns on the left sits left, and whole, ending one
/// column before the glyph, whenever the left has room for all of it.
pub proof fn lemma_label_goes_where_the_name_fits(cols: u16, m: u16, name: Seq<char>)
    requires
        cols >= 2,
        0 < name.len() < 65536,
    ensures
        ({
            let room_right: int = if cols > m + 1 { cols - m - 1 } else { 0 };
            let (right, shown, start, text_col) = layout_of(cols, m, name);
            &&& room_right >= name.len() + 1 ==> right && shown == name && start == m && text_col == m + 1
            &&& room_right < name.len() + 1 && m >= room_right + FLIP_MARGIN ==> !right
            &&& room_right < name.len() + 1 && m >= room_right + FLIP_MARGIN && m >= name.len() + 1
                ==> shown == name && start == m - 1 - name.len() && text_col == start
        }),
{
    let room_right: int = if cols > m + 1 { cols - m - 1 } else { 0 };
    lemma_label_side_follows_the_room(m, room_right as u16, name.len());
}

/// Where a marker's label lands: which side of the glyph, the text after
/// truncation (empty when there is no name to draw), and the columns of the
/// glyph, of the first drawn cell, and of the name (and any detail line).
pub struct LabelLayout {
    pub right_side: bool,
    pub shown: String,
    pub marker_col: u16,
    pub start_col: u16,
    pub text_col: u16,
}

/// The label layout for a marker at column `m` of a `cols`-column pane:
/// `(right_side, shown, start_col, text_col)`. The name is truncated to the
/// room on its side less the one-column gap to the glyph.
pub open spec fn layout_of(cols: u16, m: u16, name: Seq<char>) -> (bool, Seq<char>, u16, u16) {
    if cols < 2 || name.len() == 0 {
        (true, Seq::empty(), m, m)
    } else {
        let room_right: int = if cols > m + 1 { cols - m - 1 } else { 0 };
        let right = on_right(m, room_right as u16, name.len());
        let room: int = if right { room_right } else { m as int };
        let budget: nat = if room > 1 { (room - 1) as nat } else { 0 };
        let shown = truncated(name, budget);
        if right {
            (true, shown, m, (m + 1) as u16)
        } else {
            let start: int = if m > 1 + shown.len() { m - 1 - shown.len() } else { 0 };
            (false, shown, start as u16, start as u16)
        }
    }
}

/// Resolve a marker label's placement once, so drawing it and reserving its
/// cells can never disagree about where it goes.
pub fn label_layout(cols: u16, marker_col: u16, name: &str) -> (l: LabelLayout)
    requires
        marker_col < u16::MAX,
    ensures
        (l.right_side, l.shown@, l.start_col, l.text_col) == layout_of(cols, marker_col, name@),
        l.marker_col == marker_col,
        l.shown@.len() < 65535,
{
    let m = marker_col;
    let n = name.unicode_len();
    if cols < 2 || n == 0 {
        return LabelLayout { right_side: true, shown: String::new(), marker_col: m, start_col: m, text_col: m };
    }
    let room_right = cols.saturating_sub(m + 1);
    let right_side = label_on_right(m, room_right, n);
    let budget = (if right_side { room_right } else { m }).saturating_sub(1) as usize;
    let shown = truncate(name, budget);
    let len = shown.unicode_len();
    assert(len <= budget + 1);
    if right_side {
        LabelLayout { right_side, shown, marker_col: m, start_col: m, text_col: m + 1 }
    } else {
        let start = m.saturating_sub(1 + len as u16);
        LabelLayout { right_side, shown, marker_col: m, start_col: start, text_col: start }
    }
}

/// One line of a label's footprint: a cell row and the inclusive column span
/// it covers.
#[derive(Clone, Copy, Debug, PartialEq, Eq, Structural)]
pub struct Cells {
    pub row: u16,
    pub from: u16,
    pub to: u16,
}

pub open spec fn min16(a: int, b: u16) -> u16 {
    if a < b { a as u16 } else { b }
}

/// The cells a marker's glyph-and-name line covers on row `row` of a
/// `cols`-column pane: the glyph alone when nothing is shown, otherwise the
/// `shown` text, its gap and the glyph, clipped at the last column.
pub open spec fn line_cells(cols: u16, row: u16, m: u16, start: u16, shown_len: nat) -> Cells {
    let last: u16 = if cols > 0 { (cols - 1) as u16 } else { 0 };
    if shown_len == 0 {
        Cells { row, from: m, to: m }
    } else {
        Cells { row, from: start, to: min16(start + shown_len + 1, last) }
    }
}

/// The cells a detail line of `text` covers on row `row`, starting at
/// `text_col` and truncated to the columns left of the pane.
pub open spec fn detail_cells_of(cols: u16, text_col: u16, row: u16, text: Seq<char>) -> Cells {
    let last: u16 = if cols > 0 { (cols - 1) as u16 } else { 0 };
    let room: nat = if cols > text_col { (cols - text_col) as nat } else { 0 };
    let len = truncated(text, room).len();
    Cells { row, from: text_col, to: min16(text_col + (if len > 0 { len - 1 } else { 0 }), last) }
}

/// The cells a marker drawn with `layout` on row `row` writes into: its
/// glyph-and-name line, plus the detail line on `detail.0` when there is
/// one. The place layer reserves exactly these so no place label lands on a
/// live marker.
pub fn marker_cells(cols: u16, row: u16, layout: &LabelLayout, detail: Option<(u16, &str)>) -> (out: Vec<Cells>)
    ensures
        out@.len() >= 1,
        out@[0] == line_cells(cols, row, layout.marker_col, layout.start_col, layout.shown@.len()),
        match detail {
            Some(d) => layout.shown@.len() > 0 && out@.len() == 2
                && out@[1] == detail_cells_of(cols, layout.text_col, d.0, d.1@)
                || layout.shown@.len() == 0 && out@.len() == 1,
            None => out@.len() == 1,
        },
{
    let last: u16 = cols.saturating_sub(1);
    let len = layout.shown.as_str().unicode_len();
    let mut out: Vec<Cells> = Vec::new();
    if len == 0 {
        out.push(Cells { row, from: layout.marker_col, to: layout.marker_col });
        return out;
    }
    let to: u16 = if len >= last as usize {
        last
    } else {
        let end: u64 = layout.start_col as u64 + len as u64 + 1;
        if end < last as u64 { end as u16 } else { last }
    };
    out.push(Cells { row, from: layout.start_col, to });
    match detail {
        Some((drow, text)) => {
            let room = cols.saturating_sub(layout.text_col) as usize;
            let dlen = truncate(text, room).unicode_len();
            let dto: u16 = if dlen > last as usize {
                last
            } else {
                let dend: u64 = layout.text_col as u64 + (if dlen > 0 { dlen - 1 } else { 0 }) as u64;
                if dend < last as u64 { dend as u16 } else { last }
            };
            out.push(Cells { row: drow, from: layout.text_col, to: dto });
        },
        None => {},
    }
    out
}

/// Columns of clearance kept between two labels.
pub const LABEL_PAD: u16 = 2;

pub open spec fn plus_pad(c: u16) -> int {
    if c + LABEL_PAD > u16::MAX { u16::MAX as int } else { c + LABEL_PAD }
}

/// Whether two label lines are close enough to read as one: on the same or
/// an adjacent row, and within `LABEL_PAD` columns of each other.
pub open spec fn spec_touches(a: Cells, b: Cells) -> bool {
    &&& -1 <= a.row - b.row <= 1
    &&& a.from <= plus_pad(b.to)
    &&& b.from <= plus_pad(a.to)
}

impl Cells {
    pub fn touches(self, other: Cells) -> (b: bool)
        ensures
            b == spec_touches(self, other),
    {
        let rows_near = if self.row >= other.row { self.row - other.row <= 1 } else { other.row - self.row <= 1 };
        rows_near && self.from <= other.to.saturating_add(LABEL_PAD)
            && other.from <= self.to.saturating_add(LABEL_PAD)
    }
}

/// Touching is symmetric: a label that would crowd another is crowded by it.
pub proof fn lemma_touches_symmetric(a: Cells, b: Cells)
    ensures
        spec_touches(a, b) == spec_touches(b, a),
{
}

/// Whether none of `lines` touches any of `had`.
pub open spec fn all_clear(had: Seq<Cells>, lines: Seq<Cells>) -> bool {
    forall|i: int, j: int| 0 <= i < lines.len() && 0 <= j < had.len() ==> !spec_touches(#[trigger] had[j], #[trigger] lines[i])
}

/// The label cells already spoken for on a pane. A later label touching one
/// of them is dropped rather than drawn.
#[derive(Default)]
pub struct Claimed(pub Vec<Cells>);

impl Claimed {
    /// Whether none of `lines` touches a claimed cell.
    pub fn free(&self, lines: &[Cells]) -> (b: bool)
        ensures
            b == all_clear(self.0@, lines@),
    {
        let mut i: usize = 0;
        while i < lines.len()
            invariant
                i <= lines.len(),
                forall|a: int, j: int| 0 <= a < i && 0 <= j < self.0@.len() ==> !spec_touches(#[trigger] self.0@[j], #[trigger] lines@[a]),
            decreases lines.len() - i,
        {
            let mut j: usize = 0;
            while j < self.0.len()
                invariant
                    i < lines.len(),
                    j <= self.0.len(),
                    forall|jj: int| 0 <= jj < j ==> !spec_touches(#[trigger] self.0@[jj], lines@[i as int]),
                decreases self.0.len() - j,
            {
                if self.0[j].touches(lines[i]) {
                    return false;
                }
                j = j + 1;
            }
            i = i + 1;
        }
        true
    }

    /// Claim `lines`.
    pub fn claim(&mut self, lines: &[Cells])
        ensures
            final(self).0@ == old(self).0@ + lines@,
    {
        let mut i: usize = 0;
        while i < lines.len()
            invariant
                i <= lines.len(),
                self.0@ == old(self).0@ + lines@.take(i as int),
            decreases lines.len() - i,
        {
            self.0.push(lines[i]);
            proof {
                assert(lines@.take(i + 1) =~= lines@.take(i as int).push(lines@[i as int]));
                assert(self.0@ =~= old(self).0@ + lines@.take(i + 1));
            }
            i = i + 1;
        }
        proof {
            assert(lines@.take(lines.len() as int) =~= lines@);
        }
    }
}

/// The place-layer walk over the first `n` candidates: the claimed cells and
/// the indices kept so far. A candidate is kept when fewer than
/// `MAX_PLACE_LABELS` have been, it has cells at all, and none of them
/// touches a claimed cell; its cells are then claimed.
pub open spec fn place_walk(cands: Seq<Seq<Cells>>, seed: Seq<Cells>, n: int) -> (Seq<Cells>, Seq<usize>)
    decreases n,
{
    if n <= 0 {
        (seed, Seq::empty())
    } else {
        let prev = place_walk(cands, seed, n - 1);
        let c = cands[n - 1];
        if prev.1.len() >= MAX_PLACE_LABELS || c.len() == 0 || !all_clear(prev.0, c) {
            prev
        } else {
            (prev.0 + c, prev.1.push((n - 1) as usize))
        }
    }
}

/// Which place labels earn a spot, in draw order: the candidates walked in
/// prominence order, each kept only when its label cells (empty for a place
/// off this pane) clear the live markers in `seed` and every label already
/// kept, and no more than `MAX_PLACE_LABELS` of them. Returns the kept
/// candidates' indices.
pub fn selected_places(cands: &Vec<Vec<Cells>>, seed: Claimed) -> (kept: Vec<usize>)
    ensures
        kept@ == place_walk(cands@.map_values(|c: Vec<Cells>| c@), seed.0@, cands@.len() as int).1,
{
    let ghost cs = cands@.map_values(|c: Vec<Cells>| c@);
    let mut claimed = seed;
    let mut out: Vec<usize> = Vec::new();
    let mut i: usize = 0;
    while i < cands.len()
        invariant
            i <= cands.len(),
            cs == cands@.map_values(|c: Vec<Cells>| c@),
            (claimed.0@, out@) == place_walk(cs, seed.0@, i as int),
        decreases cands.len() - i,
    {
        let c = &cands[i];
        assert(cs[i as int] == c@);
        if out.len() < MAX_PLACE_LABELS && c.len() > 0 && claimed.free(c.as_slice()) {
            claimed.claim(c.as_slice());
            out.push(i);
        }
        i = i + 1;
    }
    out
}

/// The walk never keeps more than `MAX_PLACE_LABELS`, keeps candidates in
/// increasing order, and every label it keeps clears the seed and every
/// label kept before it: no two drawn labels (or a label and a live marker)
/// ever crowd each other.
pub proof fn lemma_place_walk_keeps_labels_apart(cands: Seq<Seq<Cells>>, seed: Seq<Cells>, n: int)
    requires
        0 <= n <= cands.len(),
        cands.len() <= usize::MAX,
    ensures
        ({
            let (claimed, kept) = place_walk(cands, seed, n);
            &&& kept.len() <= MAX_PLACE_LABELS
            &&& forall|a: int, b: int| 0 <= a < b < kept.len() ==> kept[a] < kept[b]
            &&& forall|a: int| 0 <= a < kept.len() ==> 0 <= #[trigger] kept[a] < n
            &&& forall|a: int| 0 <= a < kept.len() ==> all_clear(seed, cands[#[trigger] kept[a] as int])
            &&& forall|a: int, b: int| 0 <= a < b < kept.len() ==>
                all_clear(cands[#[trigger] kept[a] as int], cands[#[trigger] kept[b] as int])
            &&& forall|a: int| 0 <= a < kept.len() ==> cands[#[trigger] kept[a] as int].len() > 0
            &&& claimed == seed + kept_cells(cands, kept, kept.len() as int)
        }),
    decreases n,
{
    if n > 0 {
        lemma_place_walk_keeps_labels_apart(cands, seed, n - 1);
        let prev = place_walk(cands, seed, n - 1);
        let c = cands[n - 1];
        if !(prev.1.len() >= MAX_PLACE_LABELS || c.len() == 0 || !all_clear(prev.0, c)) {
            let kept = prev.1.push((n - 1) as usize);
            assert(kept_cells(cands, kept, prev.1.len() as int) == kept_cells(cands, prev.1, prev.1.len() as int)) by {
                lemma_kept_cells_prefix(cands, prev.1, kept, prev.1.len() as int);
            }
            assert forall|a: int| 0 <= a < prev.1.len() implies all_clear(cands[#[trigger] kept[a] as int], c) by {
                lemma_all_clear_part(seed, kept_cells(cands, prev.1, prev.1.len() as int), cands, prev.1, a, c);
            }
            assert(all_clear(seed, c)) by {
                assert forall|i: int, j: int| 0 <= i < c.len() && 0 <= j < seed.len() implies !spec_touches(#[trigger] seed[j], #[trigger] c[i]) by {
                    assert(prev.0[j] == seed[j]);
                }
            }
            assert(kept[prev.1.len() as int] == n - 1);
            assert(kept_cells(cands, kept, kept.len() as int)
                == kept_cells(cands, kept, prev.1.len() as int) + c);
            assert(seed + kept_cells(cands, prev.1, prev.1.len() as int) + c
                =~= seed + kept_cells(cands, kept, kept.len() as int));
        }
    }
}

/// The cells of the first `k` kept candidates, concatenated.
pub open spec fn kept_cells(cands: Seq<Seq<Cells>>, kept: Seq<usize>, k: int) -> Seq<Cells>
    decreases k,
{
    if k <= 0 { Seq::empty() } else { kept_cells(cands, kept, k - 1) + cands[kept[k - 1] as int] }
}

proof fn lemma_kept_cells_prefix(cands: Seq<Seq<Cells>>, a: Seq<usize>, b: Seq<usize>, k: int)
    requires
        0 <= k <= a.len(),
        k <= b.len(),
        forall|i: int| 0 <= i < k ==> a[i] == b[i],
    ensures
        kept_cells(cands, a, k) == kept_cells(cands, b, k),
    decreases k,
{
    if k > 0 {
        lemma_kept_cells_prefix(cands, a, b, k - 1);
    }
}

/// If `c` clears everything claimed, it clears the cells of each kept
/// candidate.
proof fn lemma_all_clear_part(seed: Seq<Cells>, kc: Seq<Cells>, cands: Seq<Seq<Cells>>, kept: Seq<usize>, a: int, c: Seq<Cells>)
    requires
        kc == kept_cells(cands, kept, kept.len() as int),
        all_clear(seed + kc, c),
        0 <= a < kept.len(),
    ensures
        all_clear(cands[kept[a] as int], c),
{
    let k = kept.len() as int;
    lemma_kept_cells_contains(cands, kept, k, a);
    let off = kept_cells(cands, kept, a).len() as int;
    let part = cands[kept[a] as int];
    assert forall|i: int, j: int| 0 <= i < c.len() && 0 <= j < part.len() implies !spec_touches(#[trigger] part[j], #[trigger] c[i]) by {
        assert((seed + kc)[seed.len() + off + j] == part[j]);
    }
}

proof fn lemma_kept_cells_contains(cands: Seq<Seq<Cells>>, kept: Seq<usize>, k: int, a: int)
    requires
        0 <= a < k <= kept.len(),
    ensures
        kept_cells(cands, kept, a).len() + cands[kept[a] as int].len() <= kept_cells(cands, kept, k).len(),
        forall|j: int| 0 <= j < cands[kept[a] as int].len() ==>
            kept_cells(cands, kept, k)[kept_cells(cands, kept, a).len() + j] == #[trigger] cands[kept[a] as int][j],
    decreases k,
{
    if k - 1 > a {
        lemma_kept_cells_contains(cands, kept, k - 1, a);
    }
}

/// The highlighted launch's pad marker labels: `provider · vehicle` (the
/// vehicle alone when the feed gave no provider) and `site · coords`. The
/// provider leads because it is short and survives truncation on a narrow
/// map.
pub fn pad_label(provider: &str, vehicle: &str, site: &str, coords: &str) -> (r: (String, String))
    ensures
        r.0@ == (if provider@.len() == 0 || provider@ == "—"@ { vehicle@ } else { provider@ + " · "@ + vehicle@ }),
        r.1@ == site@ + " · "@ + coords@,
{
    let no_provider = provider.unicode_len() == 0 || String::from_str(provider) == String::from_str("—");
    let name = if no_provider {
        String::from_str(vehicle)
    } else {
        let mut n = String::from_str(provider);
        n.append(" · ");
        n.append(vehicle);
        n
    };
    let mut detail = String::from_str(site);
    detail.append(" · ");
    detail.append(coords);
    (name, detail)
}

} // verus!
