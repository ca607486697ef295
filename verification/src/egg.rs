//! The title-bar easter egg's flight path: where the little satellite and its
//! comet tail sit on the title row once it has travelled a given number of
//! columns from the badge.

use vstd::prelude::*;

use crate::hit::BADGE_W;

verus! {

/// How many `·` follow the satellite.
pub const TRAIL_LEN: u32 = 5;

/// The satellite's column after travelling `travelled` columns from the
/// badge's right edge on a bar `width` columns wide, wrapping off the right
/// edge back in from the left.
pub open spec fn sat_col(width: nat, travelled: nat) -> int {
    (BADGE_W + travelled) as int % (width as int)
}

/// Where the satellite and its tail are after it has travelled `travelled`
/// columns (at most one lap) on a bar `width` columns wide: the satellite's
/// column, and each tail dot's column with how many steps behind it is,
/// nearest first. A dot is only left where the satellite has already flown,
/// so at the start there is no tail; a full lap of `width` columns brings it
/// back to the badge.
pub fn transit_cells(width: u16, travelled: u32) -> (r: (u16, Vec<(u16, u32)>))
    requires
        travelled <= width,
    ensures
        width == 0 ==> r.0 == 0 && r.1@.len() == 0,
        width > 0 ==> {
            &&& r.0 == sat_col(width as nat, travelled as nat)
            &&& r.1@.len() == (if travelled < TRAIL_LEN { travelled } else { TRAIL_LEN })
            &&& forall|k: int| 0 <= k < r.1@.len() ==> #[trigger] r.1@[k]
                == (((BADGE_W + travelled - (k + 1)) % (width as int)) as u16, (k + 1) as u32)
        },
{
    if width == 0 {
        return (0, Vec::new());
    }
    let start: u32 = BADGE_W as u32;
    let w: u32 = width as u32;
    let sat = ((start + travelled) % w) as u16;
    let n: u32 = if travelled < TRAIL_LEN { travelled } else { TRAIL_LEN };
    let mut tail: Vec<(u16, u32)> = Vec::new();
    let mut k: u32 = 1;
    while k <= n
        invariant
            1 <= k <= n + 1,
            n <= TRAIL_LEN,
            n <= travelled,
            travelled <= w,
            w == width,
            w > 0,
            start == BADGE_W,
            tail@.len() == k - 1,
            forall|j: int| 0 <= j < tail@.len() ==> #[trigger] tail@[j]
                == (((BADGE_W + travelled - (j + 1)) % (w as int)) as u16, (j + 1) as u32),
        decreases n + 1 - k,
    {
        tail.push((((start + travelled - k) % w) as u16, k));
        k = k + 1;
    }
    (sat, tail)
}

/// One full lap of the bar brings the satellite back to where it left the
/// badge, and before it has moved it sits there with no tail behind it.
pub proof fn lemma_one_lap_returns_to_the_badge(width: nat)
    requires
        width > 0,
    ensures
        sat_col(width, width) == sat_col(width, 0),
{
    let b = BADGE_W as int;
    let w = width as int;
    assert((b + w) % w == b % w) by (nonlinear_arith)
        requires
            w > 0;
}

} // verus!
