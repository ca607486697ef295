//! Text helpers shared by the panels: fitting the ground-station name to a
//! title, and the sixteen compass points pass bearings are written in.

use vstd::prelude::*;
use vstd::string::*;

use crate::text::{trim, trimmed, truncate, truncated};

verus! {

/// The index of the first `,` in `s` at or after `i` (the length when there
/// is none).
pub open spec fn comma_at(s: Seq<char>, i: int) -> int
    decreases s.len() - i,
{
    if i < 0 || i >= s.len() {
        s.len() as int
    } else if s[i] == ',' {
        i
    } else {
        comma_at(s, i + 1)
    }
}

pub proof fn lemma_comma_at_bounds(s: Seq<char>, i: int)
    requires
        0 <= i <= s.len(),
    ensures
        i <= comma_at(s, i) <= s.len(),
    decreases s.len() - i,
{
    if i < s.len() && s[i] != ',' {
        lemma_comma_at_bounds(s, i + 1);
    }
}

/// The first comma-separated component of `s`, untrimmed.
pub open spec fn first_component(s: Seq<char>) -> Seq<char> {
    s.take(comma_at(s, 0))
}

/// The ground-station name a title shows within `budget` characters: the
/// full label when it fits, else its first component, else that component
/// truncated; nothing when `budget` is under two characters.
pub open spec fn station_text(full: Seq<char>, budget: nat) -> Option<Seq<char>> {
    let first = trimmed(first_component(full));
    if full.len() <= budget {
        Some(full)
    } else if first.len() <= budget {
        Some(first)
    } else if budget < 2 {
        None
    } else {
        Some(truncated(first, budget))
    }
}

/// The ground-station name to show in a title, sized to `budget`
/// characters: the full label when it fits, else just its first
/// comma-separated component ("Munich" from "Munich, Bavaria, Germany"),
/// else that component truncated. `None` when `budget` is too small to say
/// anything useful. Whatever comes back fits the budget.
pub fn station_label(full: &str, budget: usize) -> (r: Option<String>)
    ensures
        r matches Some(t) ==> station_text(full@, budget as nat) == Some(t@),
        r is None ==> station_text(full@, budget as nat) is None,
        r matches Some(t) ==> t@.len() <= budget,
{
    let n = full.unicode_len();
    if n <= budget {
        return Some(String::from_str(full));
    }
    let mut i: usize = 0;
    while i < n && full.get_char(i) != ','
        invariant
            n == full@.len(),
            i <= n,
            comma_at(full@, 0) == comma_at(full@, i as int),
        decreases n - i,
    {
        i = i + 1;
    }
    let first = trim(full.substring_char(0, i));
    proof {
        assert(full@.subrange(0, i as int) =~= first_component(full@));
    }
    let m = first.unicode_len();
    if m <= budget {
        return Some(first);
    }
    if budget < 2 {
        return None;
    }
    let t = truncate(first.as_str(), budget);
    proof {
        assert(t@.len() == budget);
    }
    Some(t)
}

/// The sixteen compass points, clockwise from north.
pub open spec fn compass_name(i: nat) -> Seq<char> {
    let i = i % 16;
    if i == 0 { "N"@ } else if i == 1 { "NNE"@ } else if i == 2 { "NE"@ } else if i == 3 { "ENE"@ }
    else if i == 4 { "E"@ } else if i == 5 { "ESE"@ } else if i == 6 { "SE"@ } else if i == 7 { "SSE"@ }
    else if i == 8 { "S"@ } else if i == 9 { "SSW"@ } else if i == 10 { "SW"@ } else if i == 11 { "WSW"@ }
    else if i == 12 { "W"@ } else if i == 13 { "WNW"@ } else if i == 14 { "NW"@ } else { "NNW"@ }
}

/// The name of compass point `i` (taken mod 16), clockwise from north.
pub fn compass_point(i: usize) -> (s: &'static str)
    ensures
        s@ == compass_name(i as nat),
{
    let i = i % 16;
    if i == 0 { "N" } else if i == 1 { "NNE" } else if i == 2 { "NE" } else if i == 3 { "ENE" }
    else if i == 4 { "E" } else if i == 5 { "ESE" } else if i == 6 { "SE" } else if i == 7 { "SSE" }
    else if i == 8 { "S" } else if i == 9 { "SSW" } else if i == 10 { "SW" } else if i == 11 { "WSW" }
    else if i == 12 { "W" } else if i == 13 { "WNW" } else if i == 14 { "NW" } else { "NNW" }
}

/// No two compass points share a name.
pub proof fn lemma_compass_names_distinct(i: nat, j: nat)
    ensures
        (compass_name(i) == compass_name(j)) == (i % 16 == j % 16),
{
    reveal_strlit("N");
    reveal_strlit("NNE");
    reveal_strlit("NE");
    reveal_strlit("ENE");
    reveal_strlit("E");
    reveal_strlit("ESE");
    reveal_strlit("SE");
    reveal_strlit("SSE");
    reveal_strlit("S");
    reveal_strlit("SSW");
    reveal_strlit("SW");
    reveal_strlit("WSW");
    reveal_strlit("W");
    reveal_strlit("WNW");
    reveal_strlit("NW");
    reveal_strlit("NNW");
    if i % 16 != j % 16 {
        let a = compass_name(i);
        let b = compass_name(j);
        assert(a.len() != b.len() || a[0] != b[0] || a[a.len() - 1] != b[b.len() - 1]
            || (a.len() == 3 && a[1] != b[1]));
    }
}

/// The bearing text for a pass rising at compass point `aos`, culminating at
/// `peak` and setting at `los`: `AOS→LOS`, widened to `AOS→peak→LOS` when the
/// culmination names a third point.
pub open spec fn bearing_text(aos: nat, peak: nat, los: nat) -> Seq<char> {
    let (a, p, l) = (compass_name(aos), compass_name(peak), compass_name(los));
    if p == a || p == l { a + "→"@ + l } else { a + "→"@ + p + "→"@ + l }
}

/// A pass's compass bearing from the compass points of its rise, culmination
/// and set: the culmination is shown only when it names a point of its own,
/// so a pass that swings wide of a straight line says so and one that does
/// not stays a plain `SSW→ENE`.
pub fn bearing(aos: usize, peak: usize, los: usize) -> (s: String)
    ensures
        s@ == bearing_text(aos as nat, peak as nat, los as nat),
{
    proof {
        lemma_compass_names_distinct(peak as nat, aos as nat);
        lemma_compass_names_distinct(peak as nat, los as nat);
    }
    let mut s = String::from_str(compass_point(aos));
    s.append("→");
    if peak % 16 != aos % 16 && peak % 16 != los % 16 {
        s.append(compass_point(peak));
        s.append("→");
    }
    s.append(compass_point(los));
    s
}

} // verus!
