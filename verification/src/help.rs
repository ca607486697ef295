//! The `?` reference overlay: a scrollable glossary of every field, symbol
//! and status chip the dashboard shows, its recent activity log, and the
//! scroll position the overlay settles on.

use vstd::prelude::*;
use vstd::string::*;

use crate::layout::{centered, Rect};
use crate::text::{decimal, padded_right, push_char, push_decimal, spaces};

verus! {

/// One line of the overlay, already laid out: a section heading, a key and
/// its description (the key padded to a fixed column), a line of prose, or
/// a blank.
#[derive(Clone, Debug, PartialEq, Eq)]
pub enum HelpLine {
    Heading(String),
    Row(String, String),
    Text(String),
    Blank,
}

/// Width the key column is padded to.
pub const KEY_COLUMN: usize = 14;

/// Whether `s` starts with the overlay's two-column indent.
pub open spec fn indented(s: Seq<char>) -> bool {
    s.len() >= 2 && s[0] == ' ' && s[1] == ' '
}

/// A well-formed overlay line: indented, and a row's description starting no
/// further left than the indent plus the padded key column.
pub open spec fn help_line_ok(l: HelpLine) -> bool {
    match l {
        HelpLine::Heading(t) => indented(t@),
        HelpLine::Row(k, _) => indented(k@) && k@.len() >= 2 + KEY_COLUMN,
        HelpLine::Text(t) => indented(t@),
        HelpLine::Blank => true,
    }
}

/// Every line of `s` is well formed.
#[verifier::opaque]
pub open spec fn all_ok(s: Seq<HelpLine>) -> bool {
    forall|i: int| 0 <= i < s.len() ==> help_line_ok(#[trigger] s[i])
}

/// A line as text: its kind (0 heading, 1 row, 2 prose, 3 blank) and its
/// one or two strings, the second empty where the kind has one.
pub type LineView = (u8, Seq<char>, Seq<char>);

/// What `l` reads as.
pub open spec fn view_line(l: HelpLine) -> LineView {
    match l {
        HelpLine::Heading(t) => (0u8, t@, Seq::empty()),
        HelpLine::Row(k, d) => (1u8, k@, d@),
        HelpLine::Text(t) => (2u8, t@, Seq::empty()),
        HelpLine::Blank => (3u8, Seq::empty(), Seq::empty()),
    }
}

/// Every line of `s` as text.
pub open spec fn views(s: Seq<HelpLine>) -> Seq<LineView> {
    s.map_values(|l: HelpLine| view_line(l))
}

/// A section heading, indented.
pub open spec fn heading_line(title: Seq<char>) -> LineView {
    (0u8, "  "@ + title, Seq::empty())
}

/// A key and its description, the key indented and padded to the key column.
pub open spec fn row_line(key: Seq<char>, desc: Seq<char>) -> LineView {
    (1u8, padded_right("  "@ + key, (2 + KEY_COLUMN) as nat), desc)
}

/// A line of prose, indented.
pub open spec fn text_line(text: Seq<char>) -> LineView {
    (2u8, "  "@ + text, Seq::empty())
}

/// A blank line.
pub open spec fn blank_line() -> LineView {
    (3u8, Seq::empty(), Seq::empty())
}

/// `"  "` followed by `s`.
fn indent(s: &str) -> (t: String)
    ensures
        t@ == "  "@ + s@,
        indented(t@),
{
    proof { reveal_strlit("  "); }
    let mut t = String::from_str("  ");
    t.append(s);
    t
}

fn heading(l: &mut Vec<HelpLine>, title: &str)
    ensures
        final(l)@.len() == old(l)@.len() + 1,
        final(l)@.subrange(0, old(l)@.len() as int) == old(l)@,
        final(l)@.last() is Heading,
        final(l)@.last()->Heading_0@ == "  "@ + title@,
        views(final(l)@) == views(old(l)@).push(heading_line(title@)),
        help_line_ok(final(l)@.last()),
        all_ok(old(l)@) ==> all_ok(final(l)@),
{
    l.push(HelpLine::Heading(indent(title)));
    proof {
        assert(l@.subrange(0, old(l)@.len() as int) =~= old(l)@);
        assert(views(l@) =~= views(old(l)@).push(view_line(l@.last())));
        reveal(all_ok);
        assert(all_ok(old(l)@) ==> all_ok(l@)) by {
            if all_ok(old(l)@) {
                assert forall|i: int| 0 <= i < l@.len() implies help_line_ok(#[trigger] l@[i]) by {
                    if i < old(l)@.len() {
                        assert(l@[i] == old(l)@[i]);
                    }
                }
            }
        }
    }
}

fn row(l: &mut Vec<HelpLine>, key: &str, desc: &str)
    ensures
        final(l)@.len() == old(l)@.len() + 1,
        final(l)@.subrange(0, old(l)@.len() as int) == old(l)@,
        views(final(l)@) == views(old(l)@).push(row_line(key@, desc@)),
        help_line_ok(final(l)@.last()),
        all_ok(old(l)@) ==> all_ok(final(l)@),
{
    let mut k = indent(key);
    let ghost start = k@;
    while k.as_str().unicode_len() < 2 + KEY_COLUMN
        invariant
            indented(k@),
            start == "  "@ + key@,
            k@.len() >= start.len(),
            k@ == start + spaces(k@.len() - start.len()),
            start.len() >= 2 + KEY_COLUMN ==> k@ == start,
            start.len() < 2 + KEY_COLUMN ==> k@.len() <= 2 + KEY_COLUMN,
        decreases 2 + KEY_COLUMN - k@.len(),
    {
        let ghost before = k@;
        push_char(&mut k, ' ');
        proof {
            assert(k@[0] == before[0] && k@[1] == before[1]);
            assert(k@ =~= start + spaces(k@.len() - start.len()));
        }
    }
    proof {
        if start.len() >= 2 + KEY_COLUMN {
            assert(spaces((2 + KEY_COLUMN) as nat - start.len()) =~= Seq::<char>::empty());
            assert(k@ =~= padded_right(start, (2 + KEY_COLUMN) as nat));
        } else {
            assert(k@ =~= padded_right(start, (2 + KEY_COLUMN) as nat));
        }
    }
    let d = String::from_str(desc);
    l.push(HelpLine::Row(k, d));
    proof {
        assert(l@.subrange(0, old(l)@.len() as int) =~= old(l)@);
        assert(views(l@) =~= views(old(l)@).push(view_line(l@.last())));
        reveal(all_ok);
        assert(all_ok(old(l)@) ==> all_ok(l@)) by {
            if all_ok(old(l)@) {
                assert forall|i: int| 0 <= i < l@.len() implies help_line_ok(#[trigger] l@[i]) by {
                    if i < old(l)@.len() {
                        assert(l@[i] == old(l)@[i]);
                    }
                }
            }
        }
    }
}

fn text(l: &mut Vec<HelpLine>, s: &str)
    ensures
        final(l)@.len() == old(l)@.len() + 1,
        final(l)@.subrange(0, old(l)@.len() as int) == old(l)@,
        final(l)@.last() == HelpLine::Text(final(l)@.last()->Text_0),
        final(l)@.last()->Text_0@ == "  "@ + s@,
        views(final(l)@) == views(old(l)@).push(text_line(s@)),
        help_line_ok(final(l)@.last()),
        all_ok(old(l)@) ==> all_ok(final(l)@),
{
    l.push(HelpLine::Text(indent(s)));
    proof {
        assert(l@.subrange(0, old(l)@.len() as int) =~= old(l)@);
        assert(views(l@) =~= views(old(l)@).push(view_line(l@.last())));
        reveal(all_ok);
        assert(all_ok(old(l)@) ==> all_ok(l@)) by {
            if all_ok(old(l)@) {
                assert forall|i: int| 0 <= i < l@.len() implies help_line_ok(#[trigger] l@[i]) by {
                    if i < old(l)@.len() {
                        assert(l@[i] == old(l)@[i]);
                    }
                }
            }
        }
    }
}

fn blank(l: &mut Vec<HelpLine>)
    ensures
        final(l)@.len() == old(l)@.len() + 1,
        final(l)@.subrange(0, old(l)@.len() as int) == old(l)@,
        views(final(l)@) == views(old(l)@).push(blank_line()),
        help_line_ok(final(l)@.last()),
        all_ok(old(l)@) ==> all_ok(final(l)@),
{
    l.push(HelpLine::Blank);
    proof {
        assert(l@.subrange(0, old(l)@.len() as int) =~= old(l)@);
        assert(views(l@) =~= views(old(l)@).push(view_line(l@.last())));
        reveal(all_ok);
        assert(all_ok(old(l)@) ==> all_ok(l@)) by {
            if all_ok(old(l)@) {
                assert forall|i: int| 0 <= i < l@.len() implies help_line_ok(#[trigger] l@[i]) by {
                    if i < old(l)@.len() {
                        assert(l@[i] == old(l)@[i]);
                    }
                }
            }
        }
    }
}

/// The "Keys" section as text.
pub open spec fn keys_lines() -> Seq<LineView> {
    seq![
        heading_line("Keys"@),
        row_line("1 – 6"@, "focus map / tracked / telemetry / passes / weather / launches"@),
        text_line("     each panel's header shows its own number, so the key to focus it"@),
        text_line("     is always visible"@),
        row_line("Tab"@, "cycle focus"@),
        row_line("j / k"@, "scroll the focused list (tracked, passes, launches) or this help"@),
        row_line("PgUp / PgDn"@, "scroll this help by a page"@),
        row_line("Home / End"@, "jump to the top / bottom of this help"@),
        row_line("m"@, "toggle fullscreen map"@),
        row_line("f"@, "follow the satellite on the map"@),
        row_line("+ / -"@, "zoom the follow window in / out (×2 to ×16); - past the"@),
        text_line("     widest level drops back to the whole world, + turns follow on"@),
        row_line("p"@, "toggle labelled cities and ground stations on the map"@),
        row_line("s"@, "search Celestrak's catalogue for a satellite, by name or NORAD id"@),
        row_line("Enter"@, "on Tracked: start tracking the highlighted satellite"@),
        row_line("d"@, "on Tracked: drop the highlighted satellite from the list"@),
        row_line("r"@, "refresh the focused panel's feed(s) now"@),
        row_line("?"@, "toggle this help"@),
        row_line("q / Esc"@, "quit (Esc closes this help first)"@),
        blank_line(),
    ]
}

/// The "Keys" section.
fn section_keys(l: &mut Vec<HelpLine>)
    ensures
        final(l)@.len() == old(l)@.len() + 20,
        final(l)@.subrange(0, old(l)@.len() as int) == old(l)@,
        all_ok(old(l)@) ==> all_ok(final(l)@),
        views(final(l)@) == views(old(l)@) + keys_lines(),
{
    let ghost start = views(l@);
    heading(l, "Keys");
    row(l, "1 – 6", "focus map / tracked / telemetry / passes / weather / launches");
    text(l, "     each panel's header shows its own number, so the key to focus it");
    text(l, "     is always visible");
    row(l, "Tab", "cycle focus");
    row(l, "j / k", "scroll the focused list (tracked, passes, launches) or this help");
    row(l, "PgUp / PgDn", "scroll this help by a page");
    row(l, "Home / End", "jump to the top / bottom of this help");
    row(l, "m", "toggle fullscreen map");
    row(l, "f", "follow the satellite on the map");
    row(l, "+ / -", "zoom the follow window in / out (×2 to ×16); - past the");
    text(l, "     widest level drops back to the whole world, + turns follow on");
    row(l, "p", "toggle labelled cities and ground stations on the map");
    row(l, "s", "search Celestrak's catalogue for a satellite, by name or NORAD id");
    row(l, "Enter", "on Tracked: start tracking the highlighted satellite");
    row(l, "d", "on Tracked: drop the highlighted satellite from the list");
    row(l, "r", "refresh the focused panel's feed(s) now");
    row(l, "?", "toggle this help");
    row(l, "q / Esc", "quit (Esc closes this help first)");
    blank(l);
    assert(views(l@) =~= start + keys_lines());
}

/// The "Time" section as text.
pub open spec fn time_lines() -> Seq<LineView> {
    seq![
        heading_line("Time"@),
        text_line("The displayed clock can be detached from wall time — the whole map,"@),
        text_line("telemetry, passes and the TLE-age warning then show that instant"@),
        text_line("instead of now. Feed ages, the status chips and \"up\" never scrub, and"@),
        text_line("neither does the launch countdown."@),
        row_line("Space"@, "pause / resume the clock"@),
        row_line(", / ."@, "step the speed down / up — 1× 2× 5× 10× 60× 300× 900× 1800×,"@),
        text_line("     and past 1× straight into reverse (< / > do the same)"@),
        row_line("← / →"@, "step the clock back / forward one minute (h / l too)"@),
        row_line("[ / ]"@, "step the clock back / forward one hour"@),
        row_line("n"@, "jump to 30 s before the next pass rises, paused there"@),
        row_line("N"@, "same, but only naked-eye (★) passes"@),
        row_line("g"@, "go to a time — an instant (2026-09-08 04:30), a clock time"@),
        text_line("     (04:30, next occurrence) or an offset (+90m, -2h, +3d)"@),
        row_line("0"@, "snap back to now, running at 1×"@),
        blank_line(),
    ]
}

/// The "Time" section.
fn section_time(l: &mut Vec<HelpLine>)
    ensures
        final(l)@.len() == old(l)@.len() + 16,
        final(l)@.subrange(0, old(l)@.len() as int) == old(l)@,
        all_ok(old(l)@) ==> all_ok(final(l)@),
        views(final(l)@) == views(old(l)@) + time_lines(),
{
    let ghost start = views(l@);
    heading(l, "Time");
    text(l, "The displayed clock can be detached from wall time — the whole map,");
    text(l, "telemetry, passes and the TLE-age warning then show that instant");
    text(l, "instead of now. Feed ages, the status chips and \"up\" never scrub, and");
    text(l, "neither does the launch countdown.");
    row(l, "Space", "pause / resume the clock");
    row(l, ", / .", "step the speed down / up — 1× 2× 5× 10× 60× 300× 900× 1800×,");
    text(l, "     and past 1× straight into reverse (< / > do the same)");
    row(l, "← / →", "step the clock back / forward one minute (h / l too)");
    row(l, "[ / ]", "step the clock back / forward one hour");
    row(l, "n", "jump to 30 s before the next pass rises, paused there");
    row(l, "N", "same, but only naked-eye (★) passes");
    row(l, "g", "go to a time — an instant (2026-09-08 04:30), a clock time");
    text(l, "     (04:30, next occurrence) or an offset (+90m, -2h, +3d)");
    row(l, "0", "snap back to now, running at 1×");
    blank(l);
    assert(views(l@) =~= start + time_lines());
}

/// The "Title bar" section as text.
pub open spec fn title_bar_lines() -> Seq<LineView> {
    seq![
        heading_line("Title bar"@),
        text_line("Object name and NORAD catalogue number on the left, with the COSPAR"@),
        text_line("international designator (e.g. \"1998-067A\") between them when the"@),
        text_line("bar is wide enough to fit it; your ground station's lat/lon, session"@),
        text_line("uptime (\"up\") and the clock on the right."@),
        text_line("The clock shows the simulated instant, green when it is live and amber"@),
        text_line("with a marker when scrubbed: ▸ drifted, ‖ paused, ▸▸60x / ◂◂5x warp."@),
        text_line("While scrubbed it also shows the offset from now (Δ+2h14m, Δ-45m,"@),
        text_line("Δ+3d) beside the marker, when the bar is wide enough."@),
        blank_line(),
    ]
}

/// The "Title bar" section.
fn section_title_bar(l: &mut Vec<HelpLine>)
    ensures
        final(l)@.len() == old(l)@.len() + 10,
        final(l)@.subrange(0, old(l)@.len() as int) == old(l)@,
        all_ok(old(l)@) ==> all_ok(final(l)@),
        views(final(l)@) == views(old(l)@) + title_bar_lines(),
{
    let ghost start = views(l@);
    heading(l, "Title bar");
    text(l, "Object name and NORAD catalogue number on the left, with the COSPAR");
    text(l, "international designator (e.g. \"1998-067A\") between them when the");
    text(l, "bar is wide enough to fit it; your ground station's lat/lon, session");
    text(l, "uptime (\"up\") and the clock on the right.");
    text(l, "The clock shows the simulated instant, green when it is live and amber");
    text(l, "with a marker when scrubbed: ▸ drifted, ‖ paused, ▸▸60x / ◂◂5x warp.");
    text(l, "While scrubbed it also shows the offset from now (Δ+2h14m, Δ-45m,");
    text(l, "Δ+3d) beside the marker, when the bar is wide enough.");
    blank(l);
    assert(views(l@) =~= start + title_bar_lines());
}

/// The "Map" section as text.
pub open spec fn map_lines() -> Seq<LineView> {
    seq![
        heading_line("Map"@),
        row_line("◆"@, "the sub-satellite point — directly beneath the satellite"@),
        row_line("▲"@, "your ground station"@),
        row_line("· / +"@, "with `p` on: a labelled city / satellite ground station"@),
        row_line("bright line"@, "the next 65 minutes of ground track"@),
        row_line("dim line"@, "the past 35 minutes of ground track"@),
        row_line("violet ring"@, "the visibility footprint — where the satellite is above 0°"@),
        row_line("amber dots"@, "the day/night terminator"@),
        row_line("dark ground"@, "the night side of the Earth"@),
        row_line("lighter band"@, "civil twilight — the Sun 0°–6° below the horizon"@),
        row_line("◉"@, "pad of the highlighted launch, with its provider, site and coordinates — see below"@),
        text_line("The map shows the whole world; `f` zooms it to a window centred on"@),
        text_line("the satellite, wrapping across the dateline to keep it dead centre."@),
        text_line("`+` / `-` step that window through four magnifications — ×2, ×4, ×8,"@),
        text_line("×16 the whole-world scale, shown as `MAP ×N` in the header — and `-`"@),
        text_line("past the widest drops back to the whole world. `m` expands the map to"@),
        text_line("fill the screen."@),
        text_line("`p` labels prominent cities and ground stations, drawing as many as"@),
        text_line("fit without overlapping — so a whole-world map shows only a scattered"@),
        text_line("few and more fill in the further `+` zooms in, or `m` widens the map."@),
        text_line("While NEXT PASSES holds focus this pane shows a sky plot of the"@),
        text_line("highlighted pass instead — see below."@),
        blank_line(),
    ]
}

/// The "Map" section.
fn section_map(l: &mut Vec<HelpLine>)
    ensures
        final(l)@.len() == old(l)@.len() + 23,
        final(l)@.subrange(0, old(l)@.len() as int) == old(l)@,
        all_ok(old(l)@) ==> all_ok(final(l)@),
        views(final(l)@) == views(old(l)@) + map_lines(),
{
    let ghost start = views(l@);
    heading(l, "Map");
    row(l, "◆", "the sub-satellite point — directly beneath the satellite");
    row(l, "▲", "your ground station");
    row(l, "· / +", "with `p` on: a labelled city / satellite ground station");
    row(l, "bright line", "the next 65 minutes of ground track");
    row(l, "dim line", "the past 35 minutes of ground track");
    row(l, "violet ring", "the visibility footprint — where the satellite is above 0°");
    row(l, "amber dots", "the day/night terminator");
    row(l, "dark ground", "the night side of the Earth");
    row(l, "lighter band", "civil twilight — the Sun 0°–6° below the horizon");
    row(l, "◉", "pad of the highlighted launch, with its provider, site and coordinates — see below");
    text(l, "The map shows the whole world; `f` zooms it to a window centred on");
    text(l, "the satellite, wrapping across the dateline to keep it dead centre.");
    text(l, "`+` / `-` step that window through four magnifications — ×2, ×4, ×8,");
    text(l, "×16 the whole-world scale, shown as `MAP ×N` in the header — and `-`");
    text(l, "past the widest drops back to the whole world. `m` expands the map to");
    text(l, "fill the screen.");
    text(l, "`p` labels prominent cities and ground stations, drawing as many as");
    text(l, "fit without overlapping — so a whole-world map shows only a scattered");
    text(l, "few and more fill in the further `+` zooms in, or `m` widens the map.");
    text(l, "While NEXT PASSES holds focus this pane shows a sky plot of the");
    text(l, "highlighted pass instead — see below.");
    blank(l);
    assert(views(l@) =~= start + map_lines());
}

/// The "Tracked" section as text.
pub open spec fn tracked_lines() -> Seq<LineView> {
    seq![
        heading_line("Tracked"@),
        text_line("Every satellite ever tracked, most recently (re)tracked first —"@),
        text_line("picked with `Enter`, dropped with `d`."@),
        row_line("●"@, "the satellite currently being tracked"@),
        text_line("The active satellite can't be dropped from the list — switch to"@),
        text_line("something else first."@),
        blank_line(),
    ]
}

/// The "Tracked" section.
fn section_tracked(l: &mut Vec<HelpLine>)
    ensures
        final(l)@.len() == old(l)@.len() + 7,
        final(l)@.subrange(0, old(l)@.len() as int) == old(l)@,
        all_ok(old(l)@) ==> all_ok(final(l)@),
        views(final(l)@) == views(old(l)@) + tracked_lines(),
{
    let ghost start = views(l@);
    heading(l, "Tracked");
    text(l, "Every satellite ever tracked, most recently (re)tracked first —");
    text(l, "picked with `Enter`, dropped with `d`.");
    row(l, "●", "the satellite currently being tracked");
    text(l, "The active satellite can't be dropped from the list — switch to");
    text(l, "something else first.");
    blank(l);
    assert(views(l@) =~= start + tracked_lines());
}

/// The "Telemetry" section as text.
pub open spec fn telemetry_lines() -> Seq<LineView> {
    seq![
        heading_line("Telemetry"@),
        row_line("ALT"@, "altitude above the WGS-84 ellipsoid, in km"@),
        row_line("SPD"@, "inertial speed from SGP4 — not ground-relative — km/h and km/s"@),
        row_line("POS"@, "geodetic latitude / longitude of the sub-satellite point"@),
        row_line("FOOT"@, "radius of the ground circle that can see the satellite above 0°"@),
        row_line("ORB"@, "orbital regime, period and inclination from the element set"@),
        text_line("LEO/MEO/HEO/HIGH by altitude and eccentricity — HEO is eccentric, HIGH"@),
        text_line("is near-circular above the GEO belt; GEO is a near-circular, near-"@),
        text_line("equatorial sidereal orbit, GSO the same period but inclined or"@),
        text_line("eccentric. A `-P` or `-S` suffix marks a polar or sun-synchronous"@),
        text_line("plane, e.g. LEO-P, independent of the regime."@),
        row_line("APSIS"@, "perigee × apogee altitude — the orbit's actual shape"@),
        text_line("Measured from the WGS-84 equatorial radius, not the local ellipsoid ALT"@),
        text_line("uses, so the two can read up to ~20 km apart away from the equator."@),
        row_line("REV"@, "approximate revolution number since launch"@),
        row_line("SUN"@, "sunlit or eclipsed, and time to the next sunrise/sunset"@),
        row_line("RANGE"@, "slant range and elevation from your ground station"@),
        row_line("TLE"@, "time from the element-set epoch — amber past 36h, red past 72h"@),
        text_line("Names the epoch inline, e.g. \"18h since 09-06 23:11Z\" (UTC). Reads \"before\""@),
        text_line("instead of \"since\" when the clock is scrubbed ahead of the epoch."@),
        row_line("ACC"@, "modelled position error, and the along-track timing error it implies"@),
        text_line("Built from the element set's own drag term (B*) — re-propagated with B*"@),
        text_line("nudged 10% and the two positions differenced — floored by a per-regime"@),
        text_line("growth rate. So it is satellite-specific: a decaying LEO degrades faster"@),
        text_line("than a quiet high orbit. Amber past 3 days from epoch, red past 2 weeks;"@),
        text_line("past 30 days it reads \"beyond\" — SGP4 still answers, but nothing here can"@),
        text_line("say how wrong it is."@),
        blank_line(),
    ]
}

/// The "Telemetry" section.
fn section_telemetry(l: &mut Vec<HelpLine>)
    ensures
        final(l)@.len() == old(l)@.len() + 28,
        final(l)@.subrange(0, old(l)@.len() as int) == old(l)@,
        all_ok(old(l)@) ==> all_ok(final(l)@),
        views(final(l)@) == views(old(l)@) + telemetry_lines(),
{
    let ghost start = views(l@);
    heading(l, "Telemetry");
    row(l, "ALT", "altitude above the WGS-84 ellipsoid, in km");
    row(l, "SPD", "inertial speed from SGP4 — not ground-relative — km/h and km/s");
    row(l, "POS", "geodetic latitude / longitude of the sub-satellite point");
    row(l, "FOOT", "radius of the ground circle that can see the satellite above 0°");
    row(l, "ORB", "orbital regime, period and inclination from the element set");
    text(l, "LEO/MEO/HEO/HIGH by altitude and eccentricity — HEO is eccentric, HIGH");
    text(l, "is near-circular above the GEO belt; GEO is a near-circular, near-");
    text(l, "equatorial sidereal orbit, GSO the same period but inclined or");
    text(l, "eccentric. A `-P` or `-S` suffix marks a polar or sun-synchronous");
    text(l, "plane, e.g. LEO-P, independent of the regime.");
    row(l, "APSIS", "perigee × apogee altitude — the orbit's actual shape");
    text(l, "Measured from the WGS-84 equatorial radius, not the local ellipsoid ALT");
    text(l, "uses, so the two can read up to ~20 km apart away from the equator.");
    row(l, "REV", "approximate revolution number since launch");
    row(l, "SUN", "sunlit or eclipsed, and time to the next sunrise/sunset");
    row(l, "RANGE", "slant range and elevation from your ground station");
    row(l, "TLE", "time from the element-set epoch — amber past 36h, red past 72h");
    text(l, "Names the epoch inline, e.g. \"18h since 09-06 23:11Z\" (UTC). Reads \"before\"");
    text(l, "instead of \"since\" when the clock is scrubbed ahead of the epoch.");
    row(l, "ACC", "modelled position error, and the along-track timing error it implies");
    text(l, "Built from the element set's own drag term (B*) — re-propagated with B*");
    text(l, "nudged 10% and the two positions differenced — floored by a per-regime");
    text(l, "growth rate. So it is satellite-specific: a decaying LEO degrades faster");
    text(l, "than a quiet high orbit. Amber past 3 days from epoch, red past 2 weeks;");
    text(l, "past 30 days it reads \"beyond\" — SGP4 still answers, but nothing here can");
    text(l, "say how wrong it is.");
    blank(l);
    assert(views(l@) =~= start + telemetry_lines());
}

/// The "Next passes" section as text.
pub open spec fn next_passes_lines() -> Seq<LineView> {
    seq![
        heading_line("Next passes"@),
        text_line("Passes peaking above 10° elevation within the next 96h, recomputed"@),
        text_line("every 20s. Each row: day, AOS–LOS in local time, duration in"@),
        text_line("minutes, peak elevation, and the AOS→LOS compass azimuths."@),
        row_line("★"@, "visible to the naked eye — satellite sunlit while you're in darkness"@),
        text_line("A footer appears when the ACC timing error above exceeds a second,"@),
        text_line("bounding how far the AOS/LOS times on screen could slip."@),
        text_line("The panel title names your ground station and its UTC offset — the"@),
        text_line("same offset the AOS–LOS times above are shown in."@),
        text_line("Focus this panel (`4`) and scroll (`j`/`k`) to highlight a pass — the"@),
        text_line("map pane then shows a sky plot of it: a polar chart with the zenith"@),
        text_line("at the centre, the horizon at the rim, north up, and elevation rings"@),
        text_line("at 30° and 60°."@),
        row_line("▲ / ▼"@, "the pass rising (AOS) and setting (LOS), on the horizon rim"@),
        row_line("◇"@, "culmination, labelled with its peak elevation"@),
        row_line("◆"@, "the satellite itself — only while the pass is under way"@),
        text_line("     Same filled diamond the map uses, and it moves with the clock: warp"@),
        text_line("     or step the time and watch it climb the arc from ▲ past ◇ out to ▼."@),
        row_line("bright arc"@, "the satellite is sunlit along this stretch of the pass"@),
        row_line("dim arc"@, "it is in the Earth's shadow here"@),
        text_line("The plot's footer gives the AOS / culmination / LOS times, their"@),
        text_line("bearings and the pass length; it clears when focus leaves the panel."@),
        blank_line(),
    ]
}

/// The "Next passes" section.
fn section_next_passes(l: &mut Vec<HelpLine>)
    ensures
        final(l)@.len() == old(l)@.len() + 23,
        final(l)@.subrange(0, old(l)@.len() as int) == old(l)@,
        all_ok(old(l)@) ==> all_ok(final(l)@),
        views(final(l)@) == views(old(l)@) + next_passes_lines(),
{
    let ghost start = views(l@);
    heading(l, "Next passes");
    text(l, "Passes peaking above 10° elevation within the next 96h, recomputed");
    text(l, "every 20s. Each row: day, AOS–LOS in local time, duration in");
    text(l, "minutes, peak elevation, and the AOS→LOS compass azimuths.");
    row(l, "★", "visible to the naked eye — satellite sunlit while you're in darkness");
    text(l, "A footer appears when the ACC timing error above exceeds a second,");
    text(l, "bounding how far the AOS/LOS times on screen could slip.");
    text(l, "The panel title names your ground station and its UTC offset — the");
    text(l, "same offset the AOS–LOS times above are shown in.");
    text(l, "Focus this panel (`4`) and scroll (`j`/`k`) to highlight a pass — the");
    text(l, "map pane then shows a sky plot of it: a polar chart with the zenith");
    text(l, "at the centre, the horizon at the rim, north up, and elevation rings");
    text(l, "at 30° and 60°.");
    row(l, "▲ / ▼", "the pass rising (AOS) and setting (LOS), on the horizon rim");
    row(l, "◇", "culmination, labelled with its peak elevation");
    row(l, "◆", "the satellite itself — only while the pass is under way");
    text(l, "     Same filled diamond the map uses, and it moves with the clock: warp");
    text(l, "     or step the time and watch it climb the arc from ▲ past ◇ out to ▼.");
    row(l, "bright arc", "the satellite is sunlit along this stretch of the pass");
    row(l, "dim arc", "it is in the Earth's shadow here");
    text(l, "The plot's footer gives the AOS / culmination / LOS times, their");
    text(l, "bearings and the pass length; it clears when focus leaves the panel.");
    blank(l);
    assert(views(l@) =~= start + next_passes_lines());
}

/// The "Space weather" section as text.
pub open spec fn space_weather_lines() -> Seq<LineView> {
    seq![
        heading_line("Space weather"@),
        text_line("From NOAA's Space Weather Prediction Center."@),
        row_line("Kp"@, "planetary K-index 0–9; sparkline is the last ~3 days of samples"@),
        text_line("     green below 4, amber from 4, red from 5 (storm level)"@),
        row_line("WIND"@, "solar wind bulk proton speed, km/s"@),
        row_line("Bz"@, "north–south interplanetary field, nT — strongly southward drives"@),
        text_line("     aurora; amber at ≤ −5, red at ≤ −10"@),
        row_line("STORM"@, "NOAA scales 0–5: R radio blackouts, S radiation storms, G geomagnetic"@),
        row_line("AUR"@, "OVATION aurora nowcast probability overhead at your ground station"@),
        text_line("An age marker under the panel title shows how stale the Kp/wind/storm"@),
        text_line("feed is (the aurora nowcast fetches separately, on its own schedule)."@),
        blank_line(),
    ]
}

/// The "Space weather" section.
fn section_space_weather(l: &mut Vec<HelpLine>)
    ensures
        final(l)@.len() == old(l)@.len() + 12,
        final(l)@.subrange(0, old(l)@.len() as int) == old(l)@,
        all_ok(old(l)@) ==> all_ok(final(l)@),
        views(final(l)@) == views(old(l)@) + space_weather_lines(),
{
    let ghost start = views(l@);
    heading(l, "Space weather");
    text(l, "From NOAA's Space Weather Prediction Center.");
    row(l, "Kp", "planetary K-index 0–9; sparkline is the last ~3 days of samples");
    text(l, "     green below 4, amber from 4, red from 5 (storm level)");
    row(l, "WIND", "solar wind bulk proton speed, km/s");
    row(l, "Bz", "north–south interplanetary field, nT — strongly southward drives");
    text(l, "     aurora; amber at ≤ −5, red at ≤ −10");
    row(l, "STORM", "NOAA scales 0–5: R radio blackouts, S radiation storms, G geomagnetic");
    row(l, "AUR", "OVATION aurora nowcast probability overhead at your ground station");
    text(l, "An age marker under the panel title shows how stale the Kp/wind/storm");
    text(l, "feed is (the aurora nowcast fetches separately, on its own schedule).");
    blank(l);
    assert(views(l@) =~= start + space_weather_lines());
}

/// The "Launches" section as text.
pub open spec fn launches_lines() -> Seq<LineView> {
    seq![
        heading_line("Launches"@),
        text_line("A T- countdown (or \"in flight\" / \"TBD\"), name and provider. A"@),
        text_line("\"mirror\" or age marker under the panel title means the list isn't"@),
        text_line("a live pull from the primary launch-tracking host."@),
        row_line("bright name"@, "the provider has committed to the date (Go)"@),
        row_line("dim name"@, "date not confirmed yet (TBD / TBC)"@),
        row_line("amber name"@, "the count is holding"@),
        row_line("red name"@, "the launch failed"@),
        text_line("Focus this panel (`6`) and scroll (`j`/`k`) to highlight a launch —"@),
        text_line("it expands to a second line with provider and pad, and its pad is"@),
        text_line("marked on the map with `◉`, the provider and vehicle name, and the"@),
        text_line("pad's site and coordinates. The marker disappears when focus moves"@),
        text_line("away, is absent for a launch whose pad coordinates the feed doesn't"@),
        text_line("give, and can fall outside the visible area while `f` is following"@),
        text_line("the satellite."@),
        blank_line(),
    ]
}

/// The "Launches" section.
fn section_launches(l: &mut Vec<HelpLine>)
    ensures
        final(l)@.len() == old(l)@.len() + 16,
        final(l)@.subrange(0, old(l)@.len() as int) == old(l)@,
        all_ok(old(l)@) ==> all_ok(final(l)@),
        views(final(l)@) == views(old(l)@) + launches_lines(),
{
    let ghost start = views(l@);
    heading(l, "Launches");
    text(l, "A T- countdown (or \"in flight\" / \"TBD\"), name and provider. A");
    text(l, "\"mirror\" or age marker under the panel title means the list isn't");
    text(l, "a live pull from the primary launch-tracking host.");
    row(l, "bright name", "the provider has committed to the date (Go)");
    row(l, "dim name", "date not confirmed yet (TBD / TBC)");
    row(l, "amber name", "the count is holding");
    row(l, "red name", "the launch failed");
    text(l, "Focus this panel (`6`) and scroll (`j`/`k`) to highlight a launch —");
    text(l, "it expands to a second line with provider and pad, and its pad is");
    text(l, "marked on the map with `◉`, the provider and vehicle name, and the");
    text(l, "pad's site and coordinates. The marker disappears when focus moves");
    text(l, "away, is absent for a launch whose pad coordinates the feed doesn't");
    text(l, "give, and can fall outside the visible area while `f` is following");
    text(l, "the satellite.");
    blank(l);
    assert(views(l@) =~= start + launches_lines());
}

/// The "Feed status chips" section as text.
pub open spec fn feed_chips_lines() -> Seq<LineView> {
    seq![
        heading_line("Feed status chips"@),
        text_line("TLE element set · SWX space weather · AUR aurora nowcast ·"@),
        text_line("LCH launches."@),
        row_line("wait"@, "not fetched yet this session"@),
        row_line("live"@, "fetched successfully, current"@),
        row_line("5s / 12m / 3h"@, "time since the last successful fetch"@),
        row_line("err"@, "the fetch failed and there's nothing to fall back on"@),
        text_line("Colour is judged against how often that feed refetches: green while"@),
        text_line("at most two refreshes could have been missed, amber up to six, then"@),
        text_line("red. Waiting and failed-with-nothing-cached also read amber and red."@),
        row_line("SWX"@, "refetches every 5m — green to 10m, amber to 30m"@),
        row_line("AUR"@, "every 15m — green to 30m, amber to 90m"@),
        row_line("LCH"@, "every 30m — green to 1h, amber to 3h"@),
        row_line("TLE"@, "every 12h — green to 24h, amber to 72h"@),
        text_line("A feed whose last fetch attempt failed reads at least amber whatever"@),
        text_line("its age, and logs why under Recent activity."@),
        text_line("`r` refetches only the focused panel's feeds, without spending a"@),
        text_line("request on anything else."@),
        blank_line(),
    ]
}

/// The "Feed status chips" section.
fn section_feed_chips(l: &mut Vec<HelpLine>)
    ensures
        final(l)@.len() == old(l)@.len() + 19,
        final(l)@.subrange(0, old(l)@.len() as int) == old(l)@,
        all_ok(old(l)@) ==> all_ok(final(l)@),
        views(final(l)@) == views(old(l)@) + feed_chips_lines(),
{
    let ghost start = views(l@);
    heading(l, "Feed status chips");
    text(l, "TLE element set · SWX space weather · AUR aurora nowcast ·");
    text(l, "LCH launches.");
    row(l, "wait", "not fetched yet this session");
    row(l, "live", "fetched successfully, current");
    row(l, "5s / 12m / 3h", "time since the last successful fetch");
    row(l, "err", "the fetch failed and there's nothing to fall back on");
    text(l, "Colour is judged against how often that feed refetches: green while");
    text(l, "at most two refreshes could have been missed, amber up to six, then");
    text(l, "red. Waiting and failed-with-nothing-cached also read amber and red.");
    row(l, "SWX", "refetches every 5m — green to 10m, amber to 30m");
    row(l, "AUR", "every 15m — green to 30m, amber to 90m");
    row(l, "LCH", "every 30m — green to 1h, amber to 3h");
    row(l, "TLE", "every 12h — green to 24h, amber to 72h");
    text(l, "A feed whose last fetch attempt failed reads at least amber whatever");
    text(l, "its age, and logs why under Recent activity.");
    text(l, "`r` refetches only the focused panel's feeds, without spending a");
    text(l, "request on anything else.");
    blank(l);
    assert(views(l@) =~= start + feed_chips_lines());
}

/// The "Offline mode — how the position is known with no network" section as text.
pub open spec fn offline_lines() -> Seq<LineView> {
    seq![
        heading_line("Offline mode — how the position is known with no network"@),
        text_line("The position is computed, not downloaded. Celestrak supplies a"@),
        text_line("GP/TLE element set — a compact orbit description valid for days,"@),
        text_line("not a position — and nadir runs SGP4/SDP4 on it locally at ~4 Hz to"@),
        text_line("get position and velocity at any instant. Everything derived from"@),
        text_line("that is pure math with no I/O: ground track, footprint, sunlit/"@),
        text_line("eclipsed, look angles, the terminator and every pass prediction —"@),
        text_line("so the map and passes panel work fully offline."@),
        text_line("Only the element set needs the network, and at most every 12h; it's"@),
        text_line("cached at ~/.cache/nadir/tle-<norad>.json, keyed by the cache's own"@),
        text_line("age rather than session length — a restart with a cache under 12h old"@),
        text_line("reads it straight from disk instead of refetching. A refresh that"@),
        text_line("fails retries on a 1m-to-30m backoff, not after another 12h."@),
        text_line("Accuracy decays away from that epoch — roughly a km near it, tens of"@),
        text_line("km after a week in low orbit — which the TELEMETRY panel's ACC row"@),
        text_line("estimates and the amber/red TLE age flags."@),
        text_line("What can't be computed, and so goes stale or blank offline: space"@),
        text_line("weather, aurora, and the launch manifest."@),
        text_line("--offline makes zero network requests and loads the last cached"@),
        text_line("TLE, weather and launches, each labelled with its age. A"@),
        text_line("normal run warm-starts from that same cache while it fetches."@),
        blank_line(),
    ]
}

/// The "Offline mode — how the position is known with no network" section.
fn section_offline(l: &mut Vec<HelpLine>)
    ensures
        final(l)@.len() == old(l)@.len() + 22,
        final(l)@.subrange(0, old(l)@.len() as int) == old(l)@,
        all_ok(old(l)@) ==> all_ok(final(l)@),
        views(final(l)@) == views(old(l)@) + offline_lines(),
{
    let ghost start = views(l@);
    heading(l, "Offline mode — how the position is known with no network");
    text(l, "The position is computed, not downloaded. Celestrak supplies a");
    text(l, "GP/TLE element set — a compact orbit description valid for days,");
    text(l, "not a position — and nadir runs SGP4/SDP4 on it locally at ~4 Hz to");
    text(l, "get position and velocity at any instant. Everything derived from");
    text(l, "that is pure math with no I/O: ground track, footprint, sunlit/");
    text(l, "eclipsed, look angles, the terminator and every pass prediction —");
    text(l, "so the map and passes panel work fully offline.");
    text(l, "Only the element set needs the network, and at most every 12h; it's");
    text(l, "cached at ~/.cache/nadir/tle-<norad>.json, keyed by the cache's own");
    text(l, "age rather than session length — a restart with a cache under 12h old");
    text(l, "reads it straight from disk instead of refetching. A refresh that");
    text(l, "fails retries on a 1m-to-30m backoff, not after another 12h.");
    text(l, "Accuracy decays away from that epoch — roughly a km near it, tens of");
    text(l, "km after a week in low orbit — which the TELEMETRY panel's ACC row");
    text(l, "estimates and the amber/red TLE age flags.");
    text(l, "What can't be computed, and so goes stale or blank offline: space");
    text(l, "weather, aurora, and the launch manifest.");
    text(l, "--offline makes zero network requests and loads the last cached");
    text(l, "TLE, weather and launches, each labelled with its age. A");
    text(l, "normal run warm-starts from that same cache while it fetches.");
    blank(l);
    assert(views(l@) =~= start + offline_lines());
}

/// The glossary ahead of the activity log, as text, section by section.
pub open spec fn reference_lines() -> Seq<LineView> {
    keys_lines()
        + time_lines()
        + title_bar_lines()
        + map_lines()
        + tracked_lines()
        + telemetry_lines()
        + next_passes_lines()
        + space_weather_lines()
        + launches_lines()
        + feed_chips_lines()
        + offline_lines()
}

/// Lines of glossary ahead of the activity log.
pub const REFERENCE_LINES: usize = 196;

/// The log entries the overlay lists: the last eight, oldest first.
pub open spec fn recent_entries(log: Seq<Seq<char>>) -> Seq<Seq<char>> {
    if log.len() > 8 { log.skip(log.len() - 8) } else { log }
}

/// The overlay's lines: the glossary (keys, time controls, title bar, map,
/// every panel, the feed chips and offline mode), then the "Recent activity"
/// heading and the last eight log entries, oldest first, or a note that
/// nothing has been logged yet.
pub fn content(log: &[String]) -> (lines: Vec<HelpLine>)
    ensures
        views(lines@).take(REFERENCE_LINES as int) == reference_lines(),
        forall|i: int| 0 <= i < lines@.len() ==> help_line_ok(#[trigger] lines@[i]),
        lines@.len() == REFERENCE_LINES + 1 + (if log@.len() == 0 { 1 } else { recent_entries(log@.map_values(|e: String| e@)).len() }),
        lines@[REFERENCE_LINES as int] is Heading,
        lines@[REFERENCE_LINES as int]->Heading_0@ == "  Recent activity"@,
        log@.len() == 0 ==> lines@[REFERENCE_LINES + 1] is Text
            && lines@[REFERENCE_LINES + 1]->Text_0@ == "  (nothing logged yet)"@,
        forall|j: int| 0 <= j < recent_entries(log@.map_values(|e: String| e@)).len() ==> {
            &&& #[trigger] lines@[REFERENCE_LINES + 1 + j] is Text
            &&& lines@[REFERENCE_LINES + 1 + j]->Text_0@ == "  "@ + recent_entries(log@.map_values(|e: String| e@))[j]
        },
{
    let mut l: Vec<HelpLine> = Vec::new();
    proof { reveal(all_ok); }
    section_keys(&mut l);
    section_time(&mut l);
    section_title_bar(&mut l);
    section_map(&mut l);
    section_tracked(&mut l);
    section_telemetry(&mut l);
    section_next_passes(&mut l);
    section_space_weather(&mut l);
    section_launches(&mut l);
    section_feed_chips(&mut l);
    section_offline(&mut l);
    assert(l@.len() == REFERENCE_LINES);
    let ghost glossary = l@;
    proof {
        assert(views(Seq::<HelpLine>::empty()) =~= Seq::<LineView>::empty());
        assert(views(glossary) =~= reference_lines());
    }
    heading(&mut l, "Recent activity");
    assert(l@.subrange(0, REFERENCE_LINES as int) == glossary);
    proof { reveal_strlit("Recent activity"); reveal_strlit("  Recent activity"); reveal_strlit("  "); }
    let ghost all = log@.map_values(|e: String| e@);
    let ghost recent = recent_entries(all);
    if log.len() == 0 {
        let ghost before = l@;
        text(&mut l, "(nothing logged yet)");
        proof {
            assert(l@.subrange(0, REFERENCE_LINES as int) =~= before.subrange(0, REFERENCE_LINES as int));
            reveal_strlit("(nothing logged yet)");
            reveal_strlit("  (nothing logged yet)");
            assert(l@[REFERENCE_LINES as int] == l@.subrange(0, REFERENCE_LINES + 1)[REFERENCE_LINES as int]);
        }
    } else {
        let first = if log.len() > 8 { log.len() - 8 } else { 0 };
        let mut i = first;
        while i < log.len()
            invariant
                first <= i <= log.len(),
                all == log@.map_values(|e: String| e@),
                recent == recent_entries(all),
                recent.len() == log.len() - first,
                forall|j: int| 0 <= j < recent.len() ==> recent[j] == all[first + j],
                l@.len() == REFERENCE_LINES + 1 + (i - first),
                all_ok(l@),
                l@.subrange(0, REFERENCE_LINES as int) == glossary,
                l@[REFERENCE_LINES as int] is Heading,
                l@[REFERENCE_LINES as int]->Heading_0@ == "  Recent activity"@,
                forall|j: int| 0 <= j < i - first ==> {
                    &&& #[trigger] l@[REFERENCE_LINES + 1 + j] is Text
                    &&& l@[REFERENCE_LINES + 1 + j]->Text_0@ == "  "@ + recent[j]
                },
            decreases log.len() - i,
        {
            let ghost before = l@;
            text(&mut l, log[i].as_str());
            proof {
                assert(l@.subrange(0, REFERENCE_LINES as int) =~= before.subrange(0, REFERENCE_LINES as int));
                assert forall|k: int| 0 <= k < before.len() implies l@[k] == before[k] by {
                    assert(l@.subrange(0, before.len() as int)[k] == before[k]);
                }
                assert(all[i as int] == log@[i as int]@);
                assert(recent[i - first] == all[i as int]);
                assert forall|j: int| 0 <= j < i + 1 - first implies {
                    &&& #[trigger] l@[REFERENCE_LINES + 1 + j] is Text
                    &&& l@[REFERENCE_LINES + 1 + j]->Text_0@ == "  "@ + recent[j]
                } by {
                    if j < i - first {
                        assert(l@[REFERENCE_LINES + 1 + j] == before[REFERENCE_LINES + 1 + j]);
                    }
                }
            }
            i = i + 1;
        }
    }
    proof {
        reveal(all_ok);
        assert(views(l@).take(REFERENCE_LINES as int) =~= views(glossary));
    }
    l
}

/// What the overlay shows inside `area`: its centred box (4 columns
/// narrower than the area, held between 40 and 100, and 2 rows shorter, at
/// least 10), the scroll offset clamped so the last page is as far as it
/// goes, and the `shown/total` position for its footer.
pub open spec fn help_box(area: Rect) -> (u16, u16) {
    let w: int = if area.width > 4 { area.width - 4 } else { 0 };
    let w = if w < 40 { 40 } else if w > 100 { 100 } else { w };
    let h: int = if area.height > 2 { area.height - 2 } else { 0 };
    let h = if h < 10 { 10 } else { h };
    (w as u16, h as u16)
}

/// The overlay's box, its clamped scroll offset and its `shown/total`
/// position label for `total` lines scrolled to `scroll` inside `area`.
/// `End` asks for `u16::MAX`; the clamp settles it on the true bottom.
pub fn help_view(area: Rect, total: u16, scroll: u16) -> (r: (Rect, u16, String))
    requires
        area.x + area.width <= u16::MAX,
        area.y + area.height <= u16::MAX,
    ensures
        ({
            let (w, h) = help_box(area);
            let visible: int = if r.0.height > 2 { r.0.height - 2 } else { 0 };
            let max_scroll: int = if total > visible { total - visible } else { 0 };
            &&& r.0.width == (if w < area.width { w } else { area.width })
            &&& r.0.height == (if h < area.height { h } else { area.height })
            &&& r.0.x == area.x + (area.width - r.0.width) / 2
            &&& r.0.y == area.y + (area.height - r.0.height) / 2
            &&& r.1 == (if scroll < max_scroll { scroll as int } else { max_scroll })
            &&& r.2@ == (if total == 0 { "0/0"@ } else {
                decimal((if r.1 + visible < total { r.1 + visible } else { total as int }) as nat) + "/"@ + decimal(total as nat)
            })
        }),
{
    let w0 = area.width.saturating_sub(4);
    let width = if w0 < 40 { 40 } else if w0 > 100 { 100 } else { w0 };
    let h0 = area.height.saturating_sub(2);
    let height = if h0 < 10 { 10 } else { h0 };
    let popup = centered(area, width, height);
    let visible = popup.height.saturating_sub(2);
    let max_scroll = total.saturating_sub(visible);
    let s = if scroll < max_scroll { scroll } else { max_scroll };
    let pos = if total == 0 {
        String::from_str("0/0")
    } else {
        let shown = if (s as u32) + (visible as u32) < total as u32 { s + visible } else { total };
        let mut p = String::new();
        push_decimal(&mut p, shown as u64);
        p.append("/");
        push_decimal(&mut p, total as u64);
        p
    };
    (popup, s, pos)
}

/// However far the overlay is scrolled, it never scrolls past the page that
/// shows its last line, and the position label never claims more than the
/// total.
pub proof fn lemma_help_scroll_stops_at_the_last_page(total: int, visible: int, scroll: int)
    requires
        0 <= total,
        0 <= visible,
        0 <= scroll,
    ensures
        ({
            let max_scroll = if total > visible { total - visible } else { 0 };
            let s = if scroll < max_scroll { scroll } else { max_scroll };
            &&& s + visible >= total || s == scroll
            &&& s <= scroll
            &&& (if s + visible < total { s + visible } else { total }) <= total
        }),
{
}

} // verus!
