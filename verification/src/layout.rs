//! Rectangle arithmetic: the screen rectangle type the layout logic works on,
//! centring a box inside an area, splitting the right-hand column between
//! TRACKED and TELEMETRY, and the one-cell margin the splash starfield keeps
//! round its console block.

use vstd::prelude::*;
use vstd::string::*;

use crate::text::{decimal, push_decimal};

verus! {

/// A screen rectangle in terminal cells: its top-left corner and its size.
#[derive(Clone, Copy, Debug, Default, PartialEq, Eq, Hash, Structural)]
pub struct Rect {
    pub x: u16,
    pub y: u16,
    pub width: u16,
    pub height: u16,
}

pub open spec fn sat_add16(a: u16, b: u16) -> u16 {
    if a + b > u16::MAX { u16::MAX } else { (a + b) as u16 }
}

pub open spec fn sat_sub(a: int, b: int) -> nat {
    if a > b { (a - b) as nat } else { 0 }
}

impl Rect {
    /// The column just past the right edge, saturating at `u16::MAX`.
    pub open spec fn spec_right(self) -> u16 {
        sat_add16(self.x, self.width)
    }

    /// The row just past the bottom edge, saturating at `u16::MAX`.
    pub open spec fn spec_bottom(self) -> u16 {
        sat_add16(self.y, self.height)
    }

    /// Whether the cell `(col, row)` lies inside the rectangle.
    pub open spec fn spec_contains(self, col: u16, row: u16) -> bool {
        &&& self.x <= col < self.spec_right()
        &&& self.y <= row < self.spec_bottom()
    }

    /// A rectangle at `(x, y)`, its size shrunk where needed so that its far
    /// edges stay representable.
    pub fn new(x: u16, y: u16, width: u16, height: u16) -> (r: Rect)
        ensures
            r.x == x,
            r.y == y,
            r.width == (if x + width > u16::MAX { (u16::MAX - x) as u16 } else { width }),
            r.height == (if y + height > u16::MAX { (u16::MAX - y) as u16 } else { height }),
    {
        let max_width = u16::MAX - x;
        let max_height = u16::MAX - y;
        let width = if width > max_width { max_width } else { width };
        let height = if height > max_height { max_height } else { height };
        Rect { x, y, width, height }
    }

    pub fn right(&self) -> (r: u16)
        ensures
            r == self.spec_right(),
    {
        self.x.saturating_add(self.width)
    }

    pub fn bottom(&self) -> (r: u16)
        ensures
            r == self.spec_bottom(),
    {
        self.y.saturating_add(self.height)
    }

    pub fn contains(&self, col: u16, row: u16) -> (b: bool)
        ensures
            b == self.spec_contains(col, row),
    {
        col >= self.x && col < self.right() && row >= self.y && row < self.bottom()
    }
}

/// A rectangle of at most `width` × `height`, centred inside `area` (any odd
/// cell of slack goes after it, to the right and below).
pub fn centered(area: Rect, width: u16, height: u16) -> (r: Rect)
    requires
        area.x + area.width <= u16::MAX,
        area.y + area.height <= u16::MAX,
    ensures
        r.width == (if width < area.width { width } else { area.width }),
        r.height == (if height < area.height { height } else { area.height }),
        r.x == area.x + (area.width - r.width) / 2,
        r.y == area.y + (area.height - r.height) / 2,
{
    let w = if width < area.width { width } else { area.width };
    let h = if height < area.height { height } else { area.height };
    Rect { x: area.x + (area.width - w) / 2, y: area.y + (area.height - h) / 2, width: w, height: h }
}

/// Fewest rows TRACKED keeps while it shrinks: two borders and one entry.
pub const TRACKED_FLOOR: u16 = 3;

pub open spec fn min_int(a: int, b: int) -> int {
    if a < b { a } else { b }
}

pub open spec fn max_int(a: int, b: int) -> int {
    if a > b { a } else { b }
}

/// TRACKED's share of a `total`-row column (see [`right_column_heights`]).
pub open spec fn tracked_share(total: u16, tracked_rows: u16, telem_h: u16) -> int {
    min_int(min_int(tracked_rows as int, max_int(sat_sub(total as int, telem_h as int) as int, TRACKED_FLOOR as int)), total as int)
}

/// Split the right column's `total` rows between TRACKED (which wants
/// `tracked_rows`) and TELEMETRY (which wants `telem_h`), leaving the rest to
/// NEXT PASSES. NEXT PASSES gives up rows first; then TRACKED shrinks to its
/// three-row floor; only then is TELEMETRY capped to what remains. The two
/// never ask for more than `total` between them.
pub fn right_column_heights(total: u16, tracked_rows: u16, telem_h: u16) -> (r: (u16, u16))
    ensures
        r.0 == tracked_share(total, tracked_rows, telem_h),
        r.1 == min_int(telem_h as int, total - r.0),
        r.0 + r.1 <= total,
        total >= tracked_rows + telem_h ==> r == (tracked_rows, telem_h),
        r.0 >= min_int(min_int(tracked_rows as int, TRACKED_FLOOR as int), total as int),
{
    let spare = total.saturating_sub(telem_h);
    let floor = if spare > TRACKED_FLOOR { spare } else { TRACKED_FLOOR };
    let tracked_h = if tracked_rows < floor { tracked_rows } else { floor };
    let tracked_h = if tracked_h < total { tracked_h } else { total };
    let rest = total - tracked_h;
    let telem = if telem_h < rest { telem_h } else { rest };
    (tracked_h, telem)
}

/// `box_rect` grown by one cell on every side, clipped to `area`: its near
/// edges the later of one cell before the box's and the area's, its far
/// edges the earlier of one cell past the box's and the area's (never
/// before its near edges).
pub open spec fn margin_of(box_rect: Rect, area: Rect) -> Rect {
    let x = max_int(sat_sub(box_rect.x as int, 1) as int, area.x as int);
    let y = max_int(sat_sub(box_rect.y as int, 1) as int, area.y as int);
    let x2 = max_int(x, min_int(box_rect.x + box_rect.width + 1, area.x + area.width));
    let y2 = max_int(y, min_int(box_rect.y + box_rect.height + 1, area.y + area.height));
    Rect { x: x as u16, y: y as u16, width: (x2 - x) as u16, height: (y2 - y) as u16 }
}

/// `box_rect` grown by one cell on every side, clipped to `area`.
pub fn box_margin(box_rect: Rect, area: Rect) -> (r: Rect)
    requires
        box_rect.x + box_rect.width + 1 <= u16::MAX,
        box_rect.y + box_rect.height + 1 <= u16::MAX,
        area.x + area.width <= u16::MAX,
        area.y + area.height <= u16::MAX,
    ensures
        r == margin_of(box_rect, area),
{
    let bx = box_rect.x.saturating_sub(1);
    let x = if bx > area.x { bx } else { area.x };
    let by = box_rect.y.saturating_sub(1);
    let y = if by > area.y { by } else { area.y };
    let bx2 = box_rect.x + box_rect.width + 1;
    let ax2 = area.x + area.width;
    let x2 = if bx2 < ax2 { bx2 } else { ax2 };
    let by2 = box_rect.y + box_rect.height + 1;
    let ay2 = area.y + area.height;
    let y2 = if by2 < ay2 { by2 } else { ay2 };
    Rect { x, y, width: x2.saturating_sub(x), height: y2.saturating_sub(y) }
}

/// Whether the cell `(col, row)` lies inside `rect`.
pub open spec fn spec_in_rect(col: u16, row: u16, rect: Rect) -> bool {
    col >= rect.x && col < rect.x + rect.width && row >= rect.y && row < rect.y + rect.height
}

pub fn in_rect(col: u16, row: u16, rect: Rect) -> (b: bool)
    requires
        rect.x + rect.width <= u16::MAX,
        rect.y + rect.height <= u16::MAX,
    ensures
        b == spec_in_rect(col, row, rect),
{
    col >= rect.x && col < rect.x + rect.width && row >= rect.y && row < rect.y + rect.height
}

/// A cell of `area` that lies inside the console box lies inside the box's
/// margin too: excluding the margin excludes the box.
pub proof fn lemma_box_inside_margin(col: u16, row: u16, box_rect: Rect, area: Rect)
    requires
        box_rect.x + box_rect.width + 1 <= u16::MAX,
        box_rect.y + box_rect.height + 1 <= u16::MAX,
        area.x + area.width <= u16::MAX,
        area.y + area.height <= u16::MAX,
        spec_in_rect(col, row, area),
        spec_in_rect(col, row, box_rect),
    ensures
        spec_in_rect(col, row, margin_of(box_rect, area)),
{
}

/// The smallest terminal the dashboard draws in.
pub const MIN_WIDTH: u16 = 80;
pub const MIN_HEIGHT: u16 = 24;

/// What a terminal smaller than the minimum is shown instead of the
/// dashboard, naming its own size; nothing when it is large enough.
pub fn too_small_message(width: u16, height: u16) -> (m: Option<String>)
    ensures
        (width >= MIN_WIDTH && height >= MIN_HEIGHT) ==> m is None,
        !(width >= MIN_WIDTH && height >= MIN_HEIGHT) ==> (m matches Some(t)
            && t@ == "nadir needs at least 80x24 — this terminal is "@ + decimal(width as nat) + "x"@
                + decimal(height as nat) + ".\nResize, or press q to quit."@),
{
    if width >= MIN_WIDTH && height >= MIN_HEIGHT {
        return None;
    }
    let mut t = String::from_str("nadir needs at least 80x24 — this terminal is ");
    push_decimal(&mut t, width as u64);
    t.append("x");
    push_decimal(&mut t, height as u64);
    t.append(".\nResize, or press q to quit.");
    Some(t)
}

} // verus!
