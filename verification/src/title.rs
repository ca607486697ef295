//! The title bar's width budget: which identifiers the satellite label
//! carries, how far the right-hand fields shed to make room, how much of the
//! ground-station name fits, and whether the clock's offset from wall time
//! is shown at all.

use vstd::prelude::*;
use vstd::string::*;

use crate::fmt::{station_label, station_text};
use crate::layout::sat_sub;
use crate::text::{decimal, decimal_string, lemma_decimal_len_u64, push_char, push_decimal};

verus! {

/// Columns taken on the left by the ` nadir ` badge and the space after it.
pub const TITLE_PREFIX_W: usize = 8;

/// The seam kept between the left-aligned and right-aligned halves, which
/// are drawn as overlapping full-width lines.
pub const TITLE_GAP: usize = 2;

/// The text of each variable field of the title bar.
#[derive(Clone, Debug, PartialEq, Eq)]
pub struct TitleFields {
    /// The satellite label after the badge.
    pub sat: String,
    /// The ground-station name, when one is configured and room is left.
    pub name: Option<String>,
    /// The ground station's coordinates, at full or short precision.
    pub coords: String,
    /// The session uptime field, or a single space once it has been shed.
    pub up: String,
    /// The offset from wall time and a trailing space, or nothing.
    pub delta: String,
}

/// The element set's name, NORAD id and COSPAR id, by their views.
pub open spec fn tle_view(tle: Option<(&str, u64, Option<&str>)>) -> Option<(Seq<char>, u64, Option<Seq<char>>)> {
    match tle {
        Some((name, norad, id)) => Some((name@, norad, match id {
            Some(i) => Some(i@),
            None => None,
        })),
        None => None,
    }
}

/// An optional `String` by its view.
pub open spec fn opt_view(o: Option<String>) -> Option<Seq<char>> {
    match o {
        Some(s) => Some(s@),
        None => None,
    }
}

/// An optional `&str` by its view.
pub open spec fn opt_str_view(o: Option<&str>) -> Option<Seq<char>> {
    match o {
        Some(s) => Some(s@),
        None => None,
    }
}

/// The uptime field at full width.
pub open spec fn up_text(uptime: Seq<char>) -> Seq<char> {
    "  up "@ + uptime + "  "@
}

#[verifier::opaque]
/// The satellite label: name and NORAD id, with the COSPAR id between them
/// only when the whole bar, right side at full width, still fits with it;
/// while no element set is loaded, the configured id and `acquiring…`.
pub open spec fn sat_text(width: nat, tle: Option<(Seq<char>, u64, Option<Seq<char>>)>, sat: u64, right_full: nat) -> Seq<char> {
    match tle {
        Some((name, norad, id)) => {
            let base = name + " · NORAD "@ + decimal(norad as nat);
            match id {
                Some(i) => if TITLE_PREFIX_W + base.len() + 3 + i.len() + right_full + TITLE_GAP <= width {
                    name + " · "@ + i + " · NORAD "@ + decimal(norad as nat)
                } else {
                    base
                },
                None => base,
            }
        },
        None => "NORAD "@ + decimal(sat as nat) + " · acquiring…"@,
    }
}

/// The ground-station name shown within `budget` characters, if any.
#[verifier::opaque]
pub open spec fn name_for(location: Option<Seq<char>>, budget: nat) -> Option<Seq<char>> {
    match location {
        Some(full) => station_text(full, budget),
        None => None,
    }
}

/// The four fields of the title bar for a bar `width` columns wide.
///
/// The right side is the location, the uptime field, the wall-clock offset,
/// the transport `marker`, the `clock` and one trailing space. When the
/// label and the full right side do not fit, the uptime field drops to a
/// single space, and if that is still not enough the coordinates drop to
/// their short form. The ground-station name gets what is left after the
/// `GAP` and its ` · ` separator. The offset shows only while the clock is
/// scrubbed and only if it fits on top of everything else.
pub open spec fn title_text(
    width: nat,
    tle: Option<(Seq<char>, u64, Option<Seq<char>>)>,
    sat: u64,
    coords_full: Seq<char>,
    coords_short: Seq<char>,
    uptime: Seq<char>,
    marker: Seq<char>,
    clock: Seq<char>,
    live: bool,
    location: Option<Seq<char>>,
    delta: Seq<char>,
) -> (Seq<char>, Option<Seq<char>>, Seq<char>, Seq<char>, Seq<char>) {
    let up_full = up_text(uptime);
    let right_full = coords_full.len() + up_full.len() + marker.len() + clock.len() + 1;
    let label = sat_text(width, tle, sat, right_full);
    let left_len = TITLE_PREFIX_W + label.len();
    let shed = left_len + right_full + TITLE_GAP > width;
    let up = if shed { " "@ } else { up_full };
    let coords = if shed && left_len + (right_full - (up_full.len() - 1)) + TITLE_GAP > width {
        coords_short
    } else {
        coords_full
    };
    let right_fixed = coords.len() + up.len() + marker.len() + clock.len() + 1;
    let budget = sat_sub(sat_sub(width as int, left_len + right_fixed + TITLE_GAP) as int, 3);
    let name = name_for(location, budget);
    let delta_field = if !live && delta.len() > 0 && left_len + right_fixed + delta.len() + 1 + TITLE_GAP <= width {
        delta.push(' ')
    } else {
        Seq::empty()
    };
    (label, name, coords, up, delta_field)
}

/// Characters of the element set's name and COSPAR id together.
pub open spec fn tle_len(tle: Option<(&str, u64, Option<&str>)>) -> nat {
    match tle {
        Some((n, _, i)) => n@.len() + (match i {
            Some(s) => s@.len(),
            None => 0,
        }),
        None => 0,
    }
}

/// The satellite label, as [`sat_text`] describes it.
fn sat_label(w: usize, tle: Option<(&str, u64, Option<&str>)>, sat: u64, right_full: usize) -> (s: String)
    requires
        tle_len(tle) + right_full + 100 <= usize::MAX,
    ensures
        s@ == sat_text(w as nat, tle_view(tle), sat, right_full as nat),
        s@.len() <= tle_len(tle) + 40,
{
    proof {
        reveal_strlit(" · NORAD ");
        reveal_strlit(" · ");
        reveal_strlit("NORAD ");
        reveal_strlit(" · acquiring…");
    }
    proof { reveal(sat_text); }
    let mut label = String::new();
    match tle {
        Some((name, norad, id)) => {
            let norad_text = decimal_string(norad);
            proof { lemma_decimal_len_u64(norad); }
            let base_len: usize = name.unicode_len() + 9 + norad_text.unicode_len();
            let with_id = match id {
                Some(i) => TITLE_PREFIX_W + base_len + 3 + i.unicode_len() + right_full + TITLE_GAP <= w,
                None => false,
            };
            label.append(name);
            if with_id {
                match id {
                    Some(i) => {
                        label.append(" · ");
                        label.append(i);
                    },
                    None => {},
                }
            }
            label.append(" · NORAD ");
            label.append(norad_text.as_str());
        },
        None => {
            proof { lemma_decimal_len_u64(sat); }
            label.append("NORAD ");
            push_decimal(&mut label, sat);
            label.append(" · acquiring…");
        },
    }
    label
}

#[verifier::rlimit(40)]
/// Lays out the title bar's variable fields for a bar `width` columns wide.
///
/// `tle` is the loaded element set's name, NORAD id and COSPAR id; `sat` the
/// configured NORAD id shown while none is loaded. The coordinates come
/// pre-rendered at full and short precision, `uptime` is the session's age,
/// and `delta` the clock's offset from wall time (empty when it is under a
/// second).
///
/// When even the bare bar fits (short coordinates, no uptime), the label
/// and every right-hand field but the offset fit side by side with the
/// seam kept between them, and so does a non-empty name.
pub fn title_fields(
    width: u16,
    tle: Option<(&str, u64, Option<&str>)>,
    sat: u64,
    coords_full: &str,
    coords_short: &str,
    uptime: &str,
    marker: &str,
    clock: &str,
    live: bool,
    location: Option<&str>,
    delta: &str,
) -> (f: TitleFields)
    requires
        coords_full@.len() + coords_short@.len() + uptime@.len() + marker@.len() + clock@.len() + delta@.len()
            + tle_len(tle) + 200 <= usize::MAX,
    ensures
        (f.sat@, opt_view(f.name), f.coords@, f.up@, f.delta@) == title_text(
            width as nat, tle_view(tle), sat, coords_full@, coords_short@, uptime@, marker@, clock@, live,
            opt_str_view(location), delta@,
        ),
        TITLE_PREFIX_W + f.sat@.len() + coords_short@.len() + 1 + marker@.len() + clock@.len() + 1 + TITLE_GAP <= width
            ==> TITLE_PREFIX_W + f.sat@.len() + f.coords@.len() + f.up@.len() + marker@.len() + clock@.len() + 1 + TITLE_GAP <= width,
        f.name matches Some(n) ==> n@.len() == 0
            || TITLE_PREFIX_W + f.sat@.len() + n@.len() + 3 + f.coords@.len() + f.up@.len() + marker@.len() + clock@.len() + 1 + TITLE_GAP <= width,
{
    proof {
        reveal_strlit("  up ");
        reveal_strlit("  ");
        reveal_strlit(" ");
    }
    let w: usize = width as usize;
    let up_full_len: usize = uptime.unicode_len() + 7;
    let marker_len: usize = marker.unicode_len();
    let clock_len: usize = clock.unicode_len();
    let right_full: usize = coords_full.unicode_len() + up_full_len + marker_len + clock_len + 1;
    let label = sat_label(w, tle, sat, right_full);
    let left_len: usize = TITLE_PREFIX_W + label.unicode_len();

    let shed = left_len + right_full + TITLE_GAP > w;
    let mut up = String::new();
    if shed {
        up.append(" ");
    } else {
        up.append("  up ");
        up.append(uptime);
        up.append("  ");
    }
    assert(up@ == (if shed { " "@ } else { up_text(uptime@) }));
    let short = shed && left_len + (right_full - (up_full_len - 1)) + TITLE_GAP > w;
    let coords: &str = if short { coords_short } else { coords_full };
    let right_fixed: usize = coords.unicode_len() + up.unicode_len() + marker_len + clock_len + 1;
    let room: usize = if w > left_len + right_fixed + TITLE_GAP { w - (left_len + right_fixed + TITLE_GAP) } else { 0 };
    let budget: usize = if room > 3 { room - 3 } else { 0 };
    assert(budget == sat_sub(sat_sub(w as int, left_len + right_fixed + TITLE_GAP) as int, 3));

    let name = match location {
        Some(full) => station_label(full, budget),
        None => None,
    };
    assert(opt_view(name) == name_for(opt_str_view(location), budget as nat)) by {
        reveal(name_for);
    }

    let mut delta_field = String::new();
    let delta_len: usize = delta.unicode_len();
    if !live && delta_len > 0 && left_len + right_fixed + delta_len + 1 + TITLE_GAP <= w {
        delta_field.append(delta);
        push_char(&mut delta_field, ' ');
    }
    assert(delta_field@ == (if !live && delta@.len() > 0 && left_len + right_fixed + delta@.len() + 1 + TITLE_GAP <= w {
        delta@.push(' ')
    } else {
        Seq::empty()
    }));
    TitleFields { sat: label, name, coords: String::from_str(coords), up, delta: delta_field }
}

impl TitleFields {
    /// The location field as drawn: `name · coords`, or the coordinates
    /// alone.
    pub fn loc(&self) -> (l: String)
        ensures
            l@ == (match self.name {
                Some(n) => n@ + " · "@ + self.coords@,
                None => self.coords@,
            }),
    {
        let mut l = String::new();
        match &self.name {
            Some(n) => {
                l.append(n.as_str());
                l.append(" · ");
            },
            None => {},
        }
        l.append(self.coords.as_str());
        l
    }
}

} // verus!
