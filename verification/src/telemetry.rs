//! The TELEMETRY panel's rules: how tall it is, the shared value column its
//! rows align to, its duration texts, and the shortest-fit ladder its
//! trailing phrases degrade along.

use vstd::prelude::*;
use vstd::string::*;


use crate::panel::App;
use crate::text::{decimal, pad2, padded_left, padded_right, push_char, push_decimal, push_pad2, push_padded_left, push_padded_right};
use crate::theme::Theme;

verus! {

/// Width of the value column every telemetry row right-aligns into.
pub const VALUE_W: usize = 8;

/// Rows the panel always emits once an element set is available: ALT, SPD,
/// POS, FOOT, ORB, APSIS, REV, SUN, TLE, ACC.
pub const ALWAYS_BODY_ROWS: u16 = 10;

/// Body rows: the fixed rows, plus RANGE when a ground station is set.
pub fn body_rows(has_ground_station: bool) -> (n: u16)
    ensures
        n == ALWAYS_BODY_ROWS + (if has_ground_station { 1u16 } else { 0u16 }),
{
    ALWAYS_BODY_ROWS + if has_ground_station { 1 } else { 0 }
}

/// The height the panel needs, its two border rows included. It moves with
/// the one conditional row rather than being a constant that either wastes a
/// row or clips one.
pub fn height(app: &App) -> (h: u16)
    ensures
        h == 2 + ALWAYS_BODY_ROWS + (if app.ground_station is Some { 1u16 } else { 0u16 }),
{
    2 + body_rows(app.ground_station.is_some())
}

/// `HH:MM:SS` for `secs` seconds (a negative count reads as zero); the
/// hours field is not capped.
pub open spec fn hms_text(secs: int) -> Seq<char> {
    let s: nat = if secs < 0 { 0 } else { secs as nat };
    pad2(s / 3600) + ":"@ + pad2((s % 3600) / 60) + ":"@ + pad2(s % 60)
}

/// The time to the next sunrise or sunset, `HH:MM:SS`, for `secs` whole
/// seconds to go.
pub fn fmt_hms(secs: i64) -> (t: String)
    ensures
        t@ == hms_text(secs as int),
{
    let s: u64 = if secs < 0 { 0 } else { secs as u64 };
    let mut t = String::new();
    push_pad2(&mut t, s / 3600);
    t.append(":");
    push_pad2(&mut t, (s % 3600) / 60);
    t.append(":");
    push_pad2(&mut t, s % 60);
    proof {
        assert(t@ =~= pad2((s / 3600) as nat) + ":"@ + pad2(((s % 3600) / 60) as nat) + ":"@ + pad2((s % 60) as nat));
    }
    t
}

/// The sunrise/sunset search's coarse step: 30 s, in nanoseconds.
pub const SUN_SCAN_STEP_NS: i64 = 30_000_000_000;

/// How many coarse steps the search takes before giving up: 110 minutes,
/// more than one revolution of anything the panel tracks in low orbit.
pub const SUN_SCAN_STEPS: u32 = 220;

/// How many times the step the flip falls in is halved: twelve halvings
/// take 30 s down to a few milliseconds.
pub const SUN_BISECTIONS: u32 = 12;

/// The instant `k` coarse steps after `from`.
pub open spec fn scan_at(from: i64, k: int) -> int {
    from + k * SUN_SCAN_STEP_NS
}

/// The instant (nanoseconds on any fixed scale) of the next sunlit/eclipsed
/// flip after `from`, with the state it flips to. `sunlit_at` says whether
/// the satellite is sunlit at an instant, or `None` when the propagator
/// cannot tell. A coarse scan in `SUN_SCAN_STEP_NS` steps finds the step the
/// flip falls in, then `SUN_BISECTIONS` halvings narrow it, so the countdown
/// ticks down smoothly instead of jumping in scan-sized steps.
///
/// On `Some((cur, hi))`: the probe read the opposite state at `from`, at
/// every coarse step up to some `lo` at most 1/4096 of a step (rounded up)
/// before `hi`, and at `lo` itself, and `cur` at `hi`: the flip found is the
/// first one the coarse scan meets. On `None`: either some probe inside the scanned span failed, or
/// every coarse step read the state found at `from`.
pub fn next_sun_transition<F: Fn(i64) -> Option<bool>>(sunlit_at: F, from: i64) -> (r: Option<(bool, i64)>)
    requires
        forall|t: i64| call_requires(sunlit_at, (t,)),
        from <= i64::MAX - SUN_SCAN_STEPS * SUN_SCAN_STEP_NS,
    ensures
        match r {
            Some((cur, hi)) => exists|lo: i64, prev: bool|
                #![trigger call_ensures(sunlit_at, (lo,), Some(prev))]
                {
                    &&& prev != cur
                    &&& from <= lo <= hi <= scan_at(from, SUN_SCAN_STEPS as int)
                    &&& (hi - lo) * 4096 <= SUN_SCAN_STEP_NS + 4095
                    &&& call_ensures(sunlit_at, (from,), Some(prev))
                    &&& call_ensures(sunlit_at, (lo,), Some(prev))
                    &&& call_ensures(sunlit_at, (hi,), Some(cur))
                    &&& forall|k: int| 1 <= k && scan_at(from, k) <= lo ==> #[trigger] call_ensures(
                        sunlit_at,
                        (scan_at(from, k) as i64,),
                        Some(prev),
                    )
                },
            None => {
                ||| exists|t: i64|
                    #![trigger call_ensures(sunlit_at, (t,), None::<bool>)]
                    from <= t <= scan_at(from, SUN_SCAN_STEPS as int) && call_ensures(sunlit_at, (t,), None::<bool>)
                ||| exists|prev: bool|
                    #![trigger call_ensures(sunlit_at, (from,), Some(prev))]
                    call_ensures(sunlit_at, (from,), Some(prev)) && forall|k: int|
                        1 <= k <= SUN_SCAN_STEPS ==> #[trigger] call_ensures(
                            sunlit_at,
                            (scan_at(from, k) as i64,),
                            Some(prev),
                        )
            },
        },
{
    let prev = match sunlit_at(from) {
        Some(b) => b,
        None => return None,
    };
    let mut lo: i64 = from;
    let mut hi: i64 = from;
    let mut cur: bool = prev;
    let mut k: u32 = 0;
    while k < SUN_SCAN_STEPS
        invariant_except_break
            k <= SUN_SCAN_STEPS,
            hi == scan_at(from, k as int),
            lo == hi,
            cur == prev,
            forall|j: int| 1 <= j <= k ==> #[trigger] call_ensures(sunlit_at, (scan_at(from, j) as i64,), Some(prev)),
        invariant
            forall|t: i64| call_requires(sunlit_at, (t,)),
            from <= i64::MAX - SUN_SCAN_STEPS * SUN_SCAN_STEP_NS,
            call_ensures(sunlit_at, (from,), Some(prev)),
            call_ensures(sunlit_at, (lo,), Some(prev)),
            from <= lo,
        ensures
            cur != prev ==> {
                &&& hi == lo + SUN_SCAN_STEP_NS
                &&& hi <= scan_at(from, SUN_SCAN_STEPS as int)
                &&& call_ensures(sunlit_at, (hi,), Some(cur))
                &&& forall|j: int| 1 <= j && scan_at(from, j) < hi ==> #[trigger] call_ensures(
                    sunlit_at,
                    (scan_at(from, j) as i64,),
                    Some(prev),
                )
            },
            cur == prev ==> forall|j: int| 1 <= j <= SUN_SCAN_STEPS ==> #[trigger] call_ensures(
                sunlit_at,
                (scan_at(from, j) as i64,),
                Some(prev),
            ),
        decreases SUN_SCAN_STEPS - k,
    {
        hi = hi + SUN_SCAN_STEP_NS;
        let probe = sunlit_at(hi);
        match probe {
            Some(b) => { cur = b; },
            None => {
                proof {
                    assert(call_ensures(sunlit_at, (hi,), None::<bool>));
                }
                return None;
            },
        }
        if cur != prev {
            break;
        }
        lo = hi;
        k = k + 1;
        proof {
            assert(hi == scan_at(from, k as int) as i64);
        }
    }
    if cur == prev {
        return None;
    }
    let ghost coarse_hi: int = hi as int;
    let ghost mut scale: int = 1;
    proof {
        vstd::arithmetic::power2::lemma2_to64();
    }
    let mut n: u32 = 0;
    while n < SUN_BISECTIONS
        invariant
            forall|t: i64| call_requires(sunlit_at, (t,)),
            cur != prev,
            from <= lo <= hi <= scan_at(from, SUN_SCAN_STEPS as int),
            n <= SUN_BISECTIONS,
            scale == vstd::arithmetic::power2::pow2(n as nat),
            scale >= 1,
            (hi - lo) * scale <= SUN_SCAN_STEP_NS + scale - 1,
            call_ensures(sunlit_at, (from,), Some(prev)),
            call_ensures(sunlit_at, (lo,), Some(prev)),
            call_ensures(sunlit_at, (hi,), Some(cur)),
            lo < coarse_hi,
            hi <= coarse_hi,
            forall|j: int| 1 <= j && scan_at(from, j) < coarse_hi ==> #[trigger] call_ensures(
                sunlit_at,
                (scan_at(from, j) as i64,),
                Some(prev),
            ),
        decreases SUN_BISECTIONS - n,
    {
        let gap: i64 = hi - lo;
        let mid: i64 = lo + gap / 2;
        let probe = sunlit_at(mid);
        let ghost old_gap: int = gap as int;
        match probe {
            Some(b) => {
                if b == prev {
                    lo = mid;
                } else {
                    hi = mid;
                }
            },
            None => {
                proof {
                    assert(call_ensures(sunlit_at, (mid,), None::<bool>));
                }
                return None;
            },
        }
        proof {
            let g: int = hi - lo;
            assert(2 * g <= old_gap + 1);
            assert(old_gap * scale <= SUN_SCAN_STEP_NS + scale - 1);
            assert(g * (2 * scale) <= SUN_SCAN_STEP_NS + 2 * scale - 1) by (nonlinear_arith)
                requires
                    2 * g <= old_gap + 1,
                    old_gap * scale <= SUN_SCAN_STEP_NS + scale - 1,
                    scale >= 1,
                    g >= 0,
            ;
            vstd::arithmetic::power2::lemma_pow2_unfold((n + 1) as nat);
            scale = 2 * scale;
        }
        n = n + 1;
    }
    proof {
        vstd::arithmetic::power2::lemma2_to64();
        assert(call_ensures(sunlit_at, (lo,), Some(prev)));
    }
    Some((cur, hi))
}

/// `n` in base ten with a leading `-` when negative.
pub open spec fn signed_decimal(n: int) -> Seq<char> {
    if n < 0 { seq!['-'] + decimal((-n) as nat) } else { decimal(n as nat) }
}

/// A coarse age for `mins` minutes: minutes under an hour and a half, hours
/// under two days, days beyond.
pub open spec fn coarse_text(mins: int) -> Seq<char> {
    if mins < 90 {
        signed_decimal(mins) + "m"@
    } else if mins < 60 * 48 {
        decimal((mins / 60) as nat) + "h"@
    } else {
        decimal((mins / 1440) as nat) + "d"@
    }
}

/// The element set's age, coarsely: `45m`, `18h`, `5d`, for `mins` whole
/// minutes (chrono's `num_minutes`).
pub fn fmt_dur_coarse(mins: i64) -> (t: String)
    requires
        mins > i64::MIN,
    ensures
        t@ == coarse_text(mins as int),
{
    let mut t = String::new();
    if mins < 90 {
        if mins < 0 {
            push_char(&mut t, '-');
            push_decimal(&mut t, (-mins) as u64);
        } else {
            push_decimal(&mut t, mins as u64);
        }
        t.append("m");
        proof {
            assert(t@ =~= signed_decimal(mins as int) + "m"@);
        }
    } else if mins < 60 * 48 {
        push_decimal(&mut t, (mins / 60) as u64);
        t.append("h");
    } else {
        push_decimal(&mut t, (mins / 1440) as u64);
        t.append("d");
    }
    t
}

/// The index of the first of `tails[i..]` no longer than `room`.
pub open spec fn first_within(tails: Seq<Seq<char>>, i: int, room: nat) -> Option<int>
    decreases tails.len() - i,
{
    if i < 0 || i >= tails.len() {
        None
    } else if tails[i].len() <= room {
        Some(i)
    } else {
        first_within(tails, i + 1, room)
    }
}

pub proof fn lemma_first_within_bounds(tails: Seq<Seq<char>>, i: int, room: nat)
    requires
        0 <= i,
    ensures
        first_within(tails, i, room) matches Some(j) ==> i <= j < tails.len() && tails[j].len() <= room,
    decreases tails.len() - i,
{
    if i < tails.len() && tails[i].len() > room {
        lemma_first_within_bounds(tails, i + 1, room);
    }
}

/// The first of `tails` (widest first) that fits in `room` columns, or an
/// empty tail when none does: the shortest-fit ladder the TLE and RANGE rows
/// degrade their trailing phrase along, so the measured number ahead of it
/// is the last thing to go.
pub fn fitting_tail(tails: &[String], room: usize) -> (t: String)
    ensures
        match first_within(tails@.map_values(|s: String| s@), 0, room as nat) {
            Some(j) => t@ == tails@[j]@,
            None => t@ == Seq::<char>::empty(),
        },
        t@.len() <= room,
{
    let ghost all = tails@.map_values(|s: String| s@);
    let mut i: usize = 0;
    while i < tails.len()
        invariant
            all == tails@.map_values(|s: String| s@),
            first_within(all, 0, room as nat) == first_within(all, i as int, room as nat),
        decreases tails.len() - i,
    {
        assert(all[i as int] == tails@[i as int]@);
        if tails[i].as_str().unicode_len() <= room {
            return tails[i].clone();
        }
        i = i + 1;
    }
    String::new()
}

/// One telemetry row: its label, its value right-aligned into the shared
/// column, and a trailing phrase, each with its colour.
#[derive(Clone, Debug, PartialEq, Eq)]
pub struct TelemetryRow {
    pub label: String,
    pub value: String,
    pub value_color: u32,
    pub tail: String,
    pub tail_color: u32,
}

/// A row label: indented two columns and padded to six.
pub open spec fn label_text(text: Seq<char>) -> Seq<char> {
    "  "@ + padded_right(text, 6)
}

/// Columns a row takes.
pub open spec fn row_width(r: TelemetryRow) -> nat {
    r.label@.len() + r.value@.len() + r.tail@.len()
}

fn row_label(text: &str) -> (l: String)
    ensures
        l@ == label_text(text@),
{
    let mut l = String::from_str("  ");
    push_padded_right(&mut l, text, 6);
    l
}

/// Nanoseconds in an hour.
pub open spec fn hour_nanos() -> int {
    3_600_000_000_000
}

/// The TLE age colour for an age of `total` nanoseconds, judged on its
/// magnitude whichever side of the epoch the clock is: red past three days,
/// amber past a day and a half.
pub open spec fn tle_age_color(total: int) -> u32 {
    let a = if total < 0 { -total } else { total };
    if a > 72 * hour_nanos() {
        Theme::ALERT
    } else if a > 36 * hour_nanos() {
        Theme::CAUTION
    } else {
        Theme::LABEL
    }
}

/// The TLE row's trailing phrases, widest first: the relation and the epoch
/// set off by two spaces, then by one, then the bare relative word.
pub open spec fn tle_tails(behind: bool, stamp: Seq<char>) -> Seq<Seq<char>> {
    let word = if behind { "since"@ } else { "before"@ };
    let bare = if behind { "old"@ } else { "ahead"@ };
    seq!["  "@ + word + " "@ + stamp, " "@ + word + " "@ + stamp, "  "@ + bare]
}

/// The TLE row for an element-set age of `total` nanoseconds (negative when
/// the clock has been scrubbed back before the epoch), the epoch written
/// `stamp`, in `budget` columns. The magnitude drives the colour and the
/// coarse age; the sign only picks the word.
pub open spec fn tle_row_view(total: int, stamp: Seq<char>, budget: nat) -> (Seq<char>, Seq<char>, u32, Seq<char>) {
    let a = if total < 0 { -total } else { total };
    let value = padded_left(coarse_text(a / 60_000_000_000int), VALUE_W as nat);
    let room = if budget > 8 + value.len() { budget - (8 + value.len()) } else { 0 };
    let tails = tle_tails(total >= 0, stamp);
    let tail = match first_within(tails, 0, room as nat) {
        Some(j) => tails[j],
        None => Seq::empty(),
    };
    (label_text("TLE"@), value, tle_age_color(total), tail)
}

/// The TLE row: how far the displayed time is from the element-set epoch
/// (`age`, negative after a backward scrub), and the epoch itself, already
/// written `MM-DD HH:MMZ`, sized to `budget` columns so the trailing phrase
/// degrades instead of running into the border. The age itself is the last
/// thing to go. The age comes as chrono's split of it into whole seconds
/// `secs` (truncated toward zero) and leftover nanoseconds `nanos`.
pub fn tle_row(secs: i64, nanos: i32, stamp: &str, budget: usize) -> (r: TelemetryRow)
    requires
        -1_000_000_000 < nanos < 1_000_000_000,
    ensures
        (r.label@, r.value@, r.value_color, r.tail@)
            == tle_row_view(secs * 1_000_000_000 + nanos, stamp@, budget as nat),
        r.tail_color == Theme::LABEL,
        budget >= r.label@.len() + r.value@.len() ==> row_width(r) <= budget,
{
    proof {
        reveal_strlit("TLE");
        reveal_strlit("  ");
    }
    let total: i128 = (secs as i128) * 1_000_000_000 + (nanos as i128);
    let a: i128 = if total < 0 { -total } else { total };
    let mins: i64 = (a / 60_000_000_000) as i64;
    let color = if a > 72 * 3_600_000_000_000 {
        Theme::ALERT
    } else if a > 36 * 3_600_000_000_000 {
        Theme::CAUTION
    } else {
        Theme::LABEL
    };
    let age = fmt_dur_coarse(mins);
    let mut value = String::new();
    push_padded_left(&mut value, age.as_str(), VALUE_W);
    let label = row_label("TLE");
    let vlen = value.unicode_len();
    let room: usize = if budget > 8 && budget - 8 > vlen { budget - 8 - vlen } else { 0 };
    let behind = total >= 0;
    let word = if behind { "since" } else { "before" };
    let bare = if behind { "old" } else { "ahead" };
    let mut tails: Vec<String> = Vec::new();
    let mut t0 = String::from_str("  ");
    t0.append(word);
    t0.append(" ");
    t0.append(stamp);
    tails.push(t0);
    let mut t1 = String::from_str(" ");
    t1.append(word);
    t1.append(" ");
    t1.append(stamp);
    tails.push(t1);
    let mut t2 = String::from_str("  ");
    t2.append(bare);
    tails.push(t2);
    proof {
        assert(tails@.map_values(|s: String| s@) =~= tle_tails(behind, stamp@));
    }
    let tail = fitting_tail(&tails, room);
    proof {
        let m = tails@.map_values(|s: String| s@);
        lemma_first_within_bounds(m, 0, room as nat);
        if let Some(j) = first_within(m, 0, room as nat) {
            assert(m[j] == tails@[j]@);
        }
    }
    assert(mins == (a as int) / 60_000_000_000int);
    assert(value@ == padded_left(coarse_text((a as int) / 60_000_000_000int), VALUE_W as nat));
    TelemetryRow { label, value, value_color: color, tail, tail_color: Theme::LABEL }
}

/// The RANGE row's trailing phrases, widest first: the elevation and the
/// state set off by two spaces, by one, with the short state word, then the
/// elevation alone.
pub open spec fn range_tails(in_view: bool, elev: Seq<char>) -> Seq<Seq<char>> {
    let full = if in_view { "in view"@ } else { "below horizon"@ };
    let short = if in_view { "in view"@ } else { "below"@ };
    seq![
        "  "@ + elev + "  "@ + full,
        "  "@ + elev + " "@ + full,
        "  "@ + elev + " "@ + short,
        "  "@ + elev,
    ]
}

/// The RANGE row for a slant range written `range` (whole kilometres) and an
/// elevation written `elev` (`el +23°`), in `budget` columns.
pub open spec fn range_row_view(in_view: bool, range: Seq<char>, elev: Seq<char>, budget: nat) -> (Seq<char>, Seq<char>, Seq<char>, u32) {
    let value = padded_left(range, VALUE_W as nat) + " km"@;
    let room = if budget > 8 + value.len() { budget - (8 + value.len()) } else { 0 };
    let tails = range_tails(in_view, elev);
    let tail = match first_within(tails, 0, room as nat) {
        Some(j) => tails[j],
        None => Seq::empty(),
    };
    (label_text("RANGE"@), value, tail, if in_view { Theme::NOMINAL } else { Theme::LABEL })
}

/// The RANGE row: the slant range from the ground station, fixed, then the
/// widest trailing phrase that still fits `budget` columns, in green while
/// the satellite is in view. The prose goes before the elevation does, and
/// the range itself is the last thing to go.
pub fn range_row(in_view: bool, range: &str, elev: &str, budget: usize) -> (r: TelemetryRow)
    requires
        range@.len() + elev@.len() + 40 <= usize::MAX,
    ensures
        (r.label@, r.value@, r.tail@, r.tail_color) == range_row_view(in_view, range@, elev@, budget as nat),
        r.value_color == Theme::VALUE,
        budget >= r.label@.len() + r.value@.len() ==> row_width(r) <= budget,
{
    proof {
        reveal_strlit("RANGE");
        reveal_strlit("  ");
        reveal_strlit(" km");
    }
    let mut value = String::new();
    push_padded_left(&mut value, range, VALUE_W);
    value.append(" km");
    let label = row_label("RANGE");
    let vlen = value.unicode_len();
    let room: usize = if budget > 8 && budget - 8 > vlen { budget - 8 - vlen } else { 0 };
    let full = if in_view { "in view" } else { "below horizon" };
    let short = if in_view { "in view" } else { "below" };
    let mut tails: Vec<String> = Vec::new();
    let mut t = String::from_str("  ");
    t.append(elev);
    t.append("  ");
    t.append(full);
    tails.push(t);
    let mut t = String::from_str("  ");
    t.append(elev);
    t.append(" ");
    t.append(full);
    tails.push(t);
    let mut t = String::from_str("  ");
    t.append(elev);
    t.append(" ");
    t.append(short);
    tails.push(t);
    let mut t = String::from_str("  ");
    t.append(elev);
    tails.push(t);
    proof {
        assert(tails@.map_values(|s: String| s@) =~= range_tails(in_view, elev@));
    }
    let tail = fitting_tail(&tails, room);
    proof {
        let m = tails@.map_values(|s: String| s@);
        lemma_first_within_bounds(m, 0, room as nat);
        if let Some(j) = first_within(m, 0, room as nat) {
            assert(m[j] == tails@[j]@);
        }
    }
    let color = if in_view { Theme::NOMINAL } else { Theme::LABEL };
    TelemetryRow { label, value, value_color: Theme::VALUE, tail, tail_color: color }
}

} // verus!
