//! The sky plot's text: which of the stars above the horizon get their name
//! printed beside their dot, so that the few names the small disc has room
//! for never pile on top of each other; the footer's widest-first tiers; and
//! when the live satellite marker is drawn at all.

use vstd::prelude::*;
use vstd::string::*;

use crate::fmt::{compass_name, compass_point};
use crate::text::{decimal, pad2, push_decimal, push_pad2};

verus! {

/// The most star names the plot prints; every visible star still gets its
/// dot.
pub const MAX_STAR_LABELS: usize = 6;

/// Whether two label anchors, as `(column, row)` cells, are too close for
/// both to carry a name: under four columns apart and under two rows.
pub open spec fn too_close(a: (u16, u16), b: (u16, u16)) -> bool {
    &&& (if a.0 >= b.0 { a.0 - b.0 } else { b.0 - a.0 }) < 4
    &&& (if a.1 >= b.1 { a.1 - b.1 } else { b.1 - a.1 }) < 2
}

/// Whether `c` is too close to the anchor of any star in `kept`.
pub open spec fn clashes(cells: Seq<(u16, u16)>, kept: Seq<usize>, c: (u16, u16)) -> bool {
    exists|k: int| 0 <= k < kept.len() && #[trigger] too_close(cells[kept[k] as int], c)
}

/// The stars named after walking the first `n` of `cells`, brightest first:
/// each is named unless the names are used up or it is too close to one
/// already named.
pub open spec fn star_walk(cells: Seq<(u16, u16)>, n: nat) -> Seq<usize>
    decreases n,
{
    if n == 0 {
        Seq::empty()
    } else {
        let prev = star_walk(cells, (n - 1) as nat);
        if prev.len() >= MAX_STAR_LABELS || clashes(cells, prev, cells[n - 1]) {
            prev
        } else {
            prev.push((n - 1) as usize)
        }
    }
}

/// Which visible stars get a name, given each one's label anchor cell in
/// brightest-first order: walked in that order, each named only where it
/// clears every name already placed, and no more than
/// [`MAX_STAR_LABELS`] of them. Skipped stars keep their bare dot.
pub fn star_labels(cells: &[(u16, u16)]) -> (kept: Vec<usize>)
    ensures
        kept@ == star_walk(cells@, cells@.len()),
{
    let mut kept: Vec<usize> = Vec::new();
    let mut i: usize = 0;
    while i < cells.len()
        invariant
            i <= cells@.len(),
            kept@ == star_walk(cells@, i as nat),
        decreases cells.len() - i,
    {
        proof {
            lemma_star_walk_in_range(cells@, i as nat);
        }
        if kept.len() < MAX_STAR_LABELS {
            let c = cells[i];
            let mut near = false;
            let mut k: usize = 0;
            while k < kept.len()
                invariant
                    k <= kept@.len(),
                    kept@ == star_walk(cells@, i as nat),
                    i < cells@.len(),
                    c == cells@[i as int],
                    forall|j: int| 0 <= j < kept@.len() ==> kept@[j] < cells@.len(),
                    near == exists|j: int| 0 <= j < k && #[trigger] too_close(cells@[kept@[j] as int], c),
                decreases kept.len() - k,
            {
                let d = cells[kept[k]];
                let dc: u16 = if d.0 >= c.0 { d.0 - c.0 } else { c.0 - d.0 };
                let dr: u16 = if d.1 >= c.1 { d.1 - c.1 } else { c.1 - d.1 };
                if dc < 4 && dr < 2 {
                    near = true;
                }
                proof {
                    if !near {
                        assert forall|j: int| 0 <= j < k + 1 implies !too_close(cells@[kept@[j] as int], c) by {
                            if j == k {
                                assert(cells@[kept@[j] as int] == d);
                            }
                        }
                    } else if !(dc < 4 && dr < 2) {
                    } else {
                        assert(too_close(cells@[kept@[k as int] as int], c));
                    }
                }
                k = k + 1;
            }
            if !near {
                kept.push(i);
            }
        }
        proof {
            lemma_star_walk_in_range(cells@, (i + 1) as nat);
        }
        i = i + 1;
    }
    kept
}

/// Every star named is one of the first `n`, named once, in order.
pub proof fn lemma_star_walk_in_range(cells: Seq<(u16, u16)>, n: nat)
    requires
        n <= cells.len() <= usize::MAX,
    ensures
        forall|j: int| 0 <= j < star_walk(cells, n).len() ==> #[trigger] star_walk(cells, n)[j] < n,
    decreases n,
{
    if n > 0 {
        let prev = star_walk(cells, (n - 1) as nat);
        lemma_star_walk_in_range(cells, (n - 1) as nat);
        let now = star_walk(cells, n);
        assert forall|j: int| 0 <= j < now.len() implies #[trigger] now[j] < n by {
            if j < prev.len() {
                assert(now[j] == prev[j]);
            }
        }
    }
}

/// However the anchors fall, no two named stars are too close, the names
/// come in brightest-first order, and there are never more than
/// [`MAX_STAR_LABELS`] of them.
pub proof fn lemma_star_names_never_crowd(cells: Seq<(u16, u16)>, n: nat)
    requires
        n <= cells.len() <= usize::MAX,
    ensures
        star_walk(cells, n).len() <= MAX_STAR_LABELS,
        forall|a: int, b: int| #![trigger star_walk(cells, n)[a], star_walk(cells, n)[b]]
            0 <= a < b < star_walk(cells, n).len() ==> {
            &&& star_walk(cells, n)[a] < star_walk(cells, n)[b]
            &&& !too_close(cells[star_walk(cells, n)[a] as int], cells[star_walk(cells, n)[b] as int])
        },
    decreases n,
{
    if n > 0 {
        let prev = star_walk(cells, (n - 1) as nat);
        lemma_star_names_never_crowd(cells, (n - 1) as nat);
        lemma_star_walk_in_range(cells, (n - 1) as nat);
        let now = star_walk(cells, n);
        if prev.len() >= MAX_STAR_LABELS || clashes(cells, prev, cells[n - 1]) {
            assert(now == prev);
        } else {
            let last = (n - 1) as usize;
            assert(now == prev.push(last));
            assert(last as int == n - 1);
            assert forall|a: int, b: int| #![trigger now[a], now[b]] 0 <= a < b < now.len() implies {
                &&& now[a] < now[b]
                &&& !too_close(cells[now[a] as int], cells[now[b] as int])
            } by {
                if b == now.len() - 1 {
                    assert(now[a] == prev[a]);
                    assert(now[b] == last);
                    assert(prev[a] < n - 1);
                    if too_close(cells[prev[a] as int], cells[n - 1]) {
                        assert(clashes(cells, prev, cells[n - 1]));
                    }
                } else {
                    assert(now[a] == prev[a] && now[b] == prev[b]);
                }
            }
        }
    }
}

/// Where the satellite is now, for the plot's live marker: `look`, its look
/// angles from the station, only while the clock (`time`) is inside the
/// pass (`aos` to `los`, all on one time scale); otherwise nothing, which is
/// the usual case, the highlighted pass normally still being ahead.
pub fn live_look<L>(time: i64, aos: i64, los: i64, look: L) -> (r: Option<L>)
    ensures
        (aos <= time <= los) ==> r == Some(look),
        !(aos <= time <= los) ==> r is None,
{
    if time < aos || time > los {
        None
    } else {
        Some(look)
    }
}

/// A pass as the plot's footer writes it: its local date and times (to the
/// second and to the minute), the rise and set compass points, the rise
/// azimuth and peak elevation already written in degrees, and its length.
#[derive(Clone, Debug, PartialEq, Eq)]
pub struct FooterParts {
    /// The local date, e.g. `Thu 2026-09-11`.
    pub date: String,
    pub aos_hms: String,
    pub aos_hm: String,
    pub peak_hm: String,
    pub los_hms: String,
    pub los_hm: String,
    /// The compass points of rise and set, as indices clockwise from north.
    pub aos_point: usize,
    pub los_point: usize,
    /// The rise azimuth in whole degrees.
    pub aos_az: String,
    /// The peak elevation to a tenth of a degree, and in whole degrees.
    pub peak_tenths: String,
    pub peak_whole: String,
    /// The pass's length in whole seconds.
    pub dur_secs: u64,
}

/// The footer's tiers, widest first: the date then the whole pass to the
/// second with bearings and the rise azimuth, then without the date, then
/// to the minute, then just the bearing, peak and length, then the peak and
/// length alone. The date sits only on the top tier, so each tier says
/// strictly less than the one above it.
pub open spec fn footer_tiers(p: FooterParts) -> Seq<Seq<char>> {
    let a = compass_name(p.aos_point as nat);
    let l = compass_name(p.los_point as nat);
    let mins = decimal(p.dur_secs as nat / 60);
    let full = "AOS "@ + p.aos_hms@ + " "@ + a + " "@ + p.aos_az@ + "°  ·  max "@ + p.peak_tenths@ + "° "@
        + p.peak_hm@ + "  ·  LOS "@ + p.los_hms@ + " "@ + l + "  ·  "@ + mins + "m"@ + pad2(p.dur_secs as nat % 60) + "s"@;
    seq![
        p.date@ + "  ·  "@ + full,
        full,
        "AOS "@ + p.aos_hm@ + " "@ + a + "  ·  max "@ + p.peak_whole@ + "° "@ + p.peak_hm@ + "  ·  LOS "@
            + p.los_hm@ + " "@ + l + "  ·  "@ + mins + "m"@,
        a + "→"@ + l + "  ·  max "@ + p.peak_whole@ + "°  ·  "@ + mins + "m"@,
        "max "@ + p.peak_whole@ + "°  ·  "@ + mins + "m"@,
    ]
}

/// The footer tiers for `p`, widest first, for the widest-that-fits pick.
/// Whenever the times to the second are no shorter than those to the
/// minute and the tenths no shorter than the whole degrees, as rendered
/// times and angles always are, every tier is strictly shorter than the one
/// above it.
pub fn plot_footer(p: &FooterParts) -> (tiers: Vec<String>)
    ensures
        tiers@.map_values(|t: String| t@) == footer_tiers(*p),
        p.aos_hms@.len() >= p.aos_hm@.len() && p.los_hms@.len() >= p.los_hm@.len()
            && p.peak_tenths@.len() >= p.peak_whole@.len()
            ==> forall|i: int| 0 <= i < tiers@.len() - 1 ==> #[trigger] tiers@[i]@.len() > tiers@[i + 1]@.len(),
{
    let a = compass_point(p.aos_point);
    let l = compass_point(p.los_point);
    let mut full = String::from_str("AOS ");
    full.append(p.aos_hms.as_str());
    full.append(" ");
    full.append(a);
    full.append(" ");
    full.append(p.aos_az.as_str());
    full.append("°  ·  max ");
    full.append(p.peak_tenths.as_str());
    full.append("° ");
    full.append(p.peak_hm.as_str());
    full.append("  ·  LOS ");
    full.append(p.los_hms.as_str());
    full.append(" ");
    full.append(l);
    full.append("  ·  ");
    push_decimal(&mut full, p.dur_secs / 60);
    full.append("m");
    push_pad2(&mut full, p.dur_secs % 60);
    full.append("s");

    let mut dated = String::from_str(p.date.as_str());
    dated.append("  ·  ");
    dated.append(full.as_str());

    let mut minute = String::from_str("AOS ");
    minute.append(p.aos_hm.as_str());
    minute.append(" ");
    minute.append(a);
    minute.append("  ·  max ");
    minute.append(p.peak_whole.as_str());
    minute.append("° ");
    minute.append(p.peak_hm.as_str());
    minute.append("  ·  LOS ");
    minute.append(p.los_hm.as_str());
    minute.append(" ");
    minute.append(l);
    minute.append("  ·  ");
    push_decimal(&mut minute, p.dur_secs / 60);
    minute.append("m");

    let mut bearing = String::from_str(a);
    bearing.append("→");
    bearing.append(l);
    bearing.append("  ·  max ");
    bearing.append(p.peak_whole.as_str());
    bearing.append("°  ·  ");
    push_decimal(&mut bearing, p.dur_secs / 60);
    bearing.append("m");

    let mut bare = String::from_str("max ");
    bare.append(p.peak_whole.as_str());
    bare.append("°  ·  ");
    push_decimal(&mut bare, p.dur_secs / 60);
    bare.append("m");

    let mut tiers: Vec<String> = Vec::new();
    tiers.push(dated);
    tiers.push(full);
    tiers.push(minute);
    tiers.push(bearing);
    tiers.push(bare);
    proof {
        let m = tiers@.map_values(|t: String| t@);
        assert(m =~= footer_tiers(*p));
        reveal_strlit("AOS ");
        reveal_strlit(" ");
        reveal_strlit("°  ·  max ");
        reveal_strlit("° ");
        reveal_strlit("  ·  LOS ");
        reveal_strlit("  ·  ");
        reveal_strlit("m");
        reveal_strlit("s");
        reveal_strlit("  ·  max ");
        reveal_strlit("°  ·  ");
        reveal_strlit("→");
        reveal_strlit("max ");
        assert forall|i: int| 0 <= i < tiers@.len() - 1 implies
            (p.aos_hms@.len() >= p.aos_hm@.len() && p.los_hms@.len() >= p.los_hm@.len()
                && p.peak_tenths@.len() >= p.peak_whole@.len()
                ==> #[trigger] tiers@[i]@.len() > tiers@[i + 1]@.len()) by {
            assert(m[i] == tiers@[i]@);
            assert(m[i + 1] == tiers@[i + 1]@);
        }
    }
    tiers
}

} // verus!
