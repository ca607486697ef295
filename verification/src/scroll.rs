//! The scrollbar every scrollable list wears on its right border: whether one
//! is drawn at all, the track it runs along, where its thumb sits and whether
//! it keeps its arrows. Drawing it is left to the caller.

use vstd::prelude::*;

use crate::hit::RowSpan;
use crate::layout::Rect;

verus! {

/// What a scrollbar is drawn from: the content length and position handed to
/// the scrollbar widget, the rows on screen, the band of the border column
/// it runs along, and whether that band is tall enough to keep its arrows.
#[derive(Clone, Copy, Debug, PartialEq, Eq, Structural)]
pub struct ScrollPlan {
    pub content_len: usize,
    pub position: usize,
    pub viewport: usize,
    pub track: Rect,
    pub arrows: bool,
}

/// The scrollbar for a list showing `shown` of its `total` rows from row
/// `first`, over the right-hand column of `area`.
///
/// Nothing is drawn when nothing is off-screen (or `area` is too short to
/// hold a bar between its corners). Otherwise the content length is
/// `total - shown + 1` and the position `first`, held at `total - shown`:
/// the widget then sizes the thumb to `shown/total` of the track and puts it
/// flush at the bottom exactly when the list is scrolled fully down. The
/// track leaves the top and bottom rows of `area` to the border's corners,
/// and drops its arrows when it is under three rows, so even the smallest
/// panel still shows a thumb.
pub open spec fn scroll_plan_of(area: Rect, first: usize, shown: usize, total: usize) -> Option<ScrollPlan> {
    if shown == 0 || shown >= total || area.height < 3 {
        None
    } else {
        let track = Rect {
            x: area.x,
            y: if area.y < u16::MAX { (area.y + 1) as u16 } else { u16::MAX },
            width: area.width,
            height: (area.height - 2) as u16,
        };
        Some(ScrollPlan {
            content_len: (total - shown + 1) as usize,
            position: (if first < total - shown { first as int } else { total - shown }) as usize,
            viewport: shown,
            track,
            arrows: track.height >= 3,
        })
    }
}

/// The scrollbar for `shown` of `total` rows from row `first` over `area`,
/// or `None` when there is nothing off-screen to show. The thumb's position
/// never passes the last page, and scrolling further down never moves it up.
pub fn scroll_plan(area: Rect, first: usize, shown: usize, total: usize) -> (p: Option<ScrollPlan>)
    ensures
        p == scroll_plan_of(area, first, shown, total),
        p matches Some(s) ==> s.position < s.content_len && s.track.height + 2 == area.height,
{
    if shown == 0 || shown >= total || area.height < 3 {
        return None;
    }
    let y = if area.y < u16::MAX { area.y + 1 } else { u16::MAX };
    let track = Rect { x: area.x, y, width: area.width, height: area.height - 2 };
    let last = total - shown;
    Some(ScrollPlan {
        content_len: last + 1,
        position: if first < last { first } else { last },
        viewport: shown,
        track,
        arrows: track.height >= 3,
    })
}

/// Scrolling further down never moves the thumb up, and a list scrolled to
/// its last page puts the thumb at the end of its range.
pub proof fn lemma_thumb_follows_the_scroll(area: Rect, first: usize, later: usize, shown: usize, total: usize)
    requires
        first <= later,
        scroll_plan_of(area, first, shown, total) is Some,
    ensures
        scroll_plan_of(area, first, shown, total)->0.position <= scroll_plan_of(area, later, shown, total)->0.position,
        later + shown >= total ==> scroll_plan_of(area, later, shown, total)->0.position
            == scroll_plan_of(area, later, shown, total)->0.content_len - 1,
{
}

/// The band of a popup's rows that its list occupies, for a list of `shown`
/// rows whose first sits on screen row `first_row_y`: one row above the first
/// to one below the last, so the bar's arrows land on the first and last
/// listed rows rather than beside the popup's input line.
pub fn band_rect(popup: Rect, first_row_y: u16, shown: usize) -> (r: Rect)
    requires
        shown + 2 <= u16::MAX,
    ensures
        r.x == popup.x,
        r.y == (if first_row_y > 0 { (first_row_y - 1) as u16 } else { 0u16 }),
        r.width == (if popup.x + popup.width > u16::MAX { (u16::MAX - popup.x) as u16 } else { popup.width }),
        r.height == (if r.y + shown + 2 > u16::MAX { (u16::MAX - r.y) as u16 } else { (shown + 2) as u16 }),
{
    let y = if first_row_y > 0 { first_row_y - 1 } else { 0 };
    Rect::new(popup.x, y, popup.width, shown as u16 + 2)
}

/// The scrollbar for a rendered list, read off the row spans it reported:
/// the first span's row index is the first row on screen.
pub fn plan_for_rows(area: Rect, rows: &[RowSpan], total: usize) -> (p: Option<ScrollPlan>)
    ensures
        rows@.len() == 0 ==> p is None,
        rows@.len() > 0 ==> p == scroll_plan_of(area, rows@[0].2, rows@.len() as usize, total),
{
    if rows.len() == 0 {
        return None;
    }
    scroll_plan(area, rows[0].2, rows.len(), total)
}

} // verus!
