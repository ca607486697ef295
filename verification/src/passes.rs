//! The NEXT PASSES panel's rules: the UTC offset its title states, how the
//! title shares its width between the station name and that offset, which
//! pass the highlight sits on, and the countdown and urgency of a pass that
//! is close enough to matter.

use vstd::prelude::*;
use vstd::string::*;

use crate::fmt::{bearing, bearing_text, station_label, station_text};
use crate::panel::Panel;
use crate::telemetry::signed_decimal;
use crate::text::{decimal, pad2, padded_left, push_char, push_decimal, push_pad2, push_padded_left};
use crate::theme::Theme;

verus! {

/// `+02:00` / `-05:00` / `+05:30` for an offset of `secs` seconds east of
/// UTC, always in digits.
pub open spec fn offset_digits_text(secs: int) -> Seq<char> {
    let sign = if secs < 0 { '-' } else { '+' };
    let a: nat = if secs < 0 { (-secs) as nat } else { secs as nat };
    seq![sign] + pad2(a / 3600) + ":"@ + pad2((a % 3600) / 60)
}

/// `UTC+02:00`, or plain `UTC` at a zero offset.
pub open spec fn utc_offset_text(secs: int) -> Seq<char> {
    if secs == 0 { "UTC"@ } else { "UTC"@ + offset_digits_text(secs) }
}

/// The offset the title states for a list whose first and last pass carry
/// `first` and `last`: one label when they agree, both sides when a
/// daylight-saving change falls between them, the far side always in digits.
pub open spec fn offset_label_text(first: int, last: int) -> Seq<char> {
    if first == last { utc_offset_text(first) } else { utc_offset_text(first) + "→"@ + offset_digits_text(last) }
}

/// `+02:00` / `-05:00` / `+05:30`: an offset of `secs` seconds east of UTC
/// (chrono's `local_minus_utc`) without its `UTC` prefix.
pub fn offset_digits(secs: i32) -> (s: String)
    requires
        secs > i32::MIN,
    ensures
        s@ == offset_digits_text(secs as int),
{
    let a: u64 = if secs < 0 { (-secs) as u64 } else { secs as u64 };
    let mut s = String::new();
    push_char(&mut s, if secs < 0 { '-' } else { '+' });
    push_pad2(&mut s, a / 3600);
    s.append(":");
    push_pad2(&mut s, (a % 3600) / 60);
    proof {
        let sign = if secs < 0 { '-' } else { '+' };
        assert(s@ =~= seq![sign] + pad2((a / 3600) as nat) + ":"@ + pad2(((a % 3600) / 60) as nat));
    }
    s
}

/// `UTC+02:00` / `UTC-05:00` / `UTC+05:30` (minutes matter: India, Nepal)
/// for an offset of `secs` seconds east of UTC, or plain `UTC` at zero.
pub fn utc_offset_label(secs: i32) -> (s: String)
    requires
        secs > i32::MIN,
    ensures
        s@ == utc_offset_text(secs as int),
{
    if secs == 0 {
        return String::from_str("UTC");
    }
    let d = offset_digits(secs);
    let mut s = String::from_str("UTC");
    s.append(d.as_str());
    s
}

/// The UTC offset the rows' local times carry, as the title states it, for
/// the first and last pass's offsets in seconds east of UTC: one label when
/// they agree (`UTC+02:00`), both sides when a daylight-saving change falls
/// between them (`UTC+02:00→+01:00`).
pub fn offset_label(first: i32, last: i32) -> (s: String)
    requires
        first > i32::MIN,
        last > i32::MIN,
    ensures
        s@ == offset_label_text(first as int, last as int),
{
    let mut s = utc_offset_label(first);
    if first != last {
        s.append("→");
        let d = offset_digits(last);
        s.append(d.as_str());
    }
    s
}

/// The panel title's base text.
pub const PASSES_BASE: &'static str = "NEXT PASSES";

/// Columns a panel's block spends around its title and cannot give to it:
/// the leading ` key ` (3), the space after the title (1) and the two border
/// columns.
pub const PANEL_CHROME: usize = 6;

/// The NEXT PASSES title for a panel `width` columns wide, given the offset
/// label and the station's name.
pub open spec fn passes_title_text(width: nat, offset: Seq<char>, location: Option<Seq<char>>) -> Seq<char> {
    let budget: nat = if width > PANEL_CHROME + 11 { (width - PANEL_CHROME - 11) as nat } else { 0 };
    let offset_part = " · "@ + offset;
    let show_offset = budget >= offset_part.len();
    let remaining: nat = if show_offset { (budget - offset_part.len()) as nat } else { budget };
    let name_budget: nat = if remaining > 3 { (remaining - 3) as nat } else { 0 };
    let name_part: Seq<char> = match location {
        Some(full) => match station_text(full, name_budget) {
            Some(n) => " · "@ + n,
            None => Seq::empty(),
        },
        None => Seq::empty(),
    };
    "NEXT PASSES"@ + name_part + (if show_offset { offset_part } else { Seq::empty() })
}

/// The NEXT PASSES panel title: the base title, plus the ground station's
/// name and the UTC offset the rows' times carry, each only when there is
/// room. The offset is kept over the name when both cannot fit, and the name
/// shrinks to its first component before it is dropped.
pub fn passes_title(width: u16, offset: &str, location: Option<&str>) -> (t: String)
    ensures
        t@ == passes_title_text(width as nat, offset@, match location { Some(l) => Some(l@), None => None }),
{
    proof { reveal_strlit("NEXT PASSES"); }
    let budget: usize = (width as usize).saturating_sub(PANEL_CHROME + 11);
    let mut offset_part = String::from_str(" · ");
    offset_part.append(offset);
    let part_len = offset_part.unicode_len();
    let show_offset = budget >= part_len;
    let remaining = if show_offset { budget - part_len } else { budget };
    let mut title = String::from_str("NEXT PASSES");
    match location {
        Some(full) => {
            match station_label(full, remaining.saturating_sub(3)) {
                Some(n) => {
                    title.append(" · ");
                    title.append(n.as_str());
                },
                None => {},
            }
        },
        None => {},
    }
    if show_offset {
        title.append(offset_part.as_str());
    }
    proof {
        let loc = match location { Some(l) => Some(l@), None => None };
        assert(title@ =~= passes_title_text(width as nat, offset@, loc));
    }
    title
}

/// The `Nm SSs` countdown for `secs` seconds, a negative count reading as
/// zero.
pub open spec fn mmss_text(secs: int) -> Seq<char> {
    let s: nat = if secs < 0 { 0 } else { secs as nat };
    decimal(s / 60) + "m"@ + pad2(s % 60) + "s"@
}

/// A plain `Nm SSs` countdown for a pass's AOS or LOS, clamped to zero
/// rather than going negative, for `secs` whole seconds to go.
pub fn fmt_mmss(secs: i64) -> (t: String)
    ensures
        t@ == mmss_text(secs as int),
{
    let s: u64 = if secs < 0 { 0 } else { secs as u64 };
    let mut t = String::new();
    push_decimal(&mut t, s / 60);
    t.append("m");
    push_pad2(&mut t, s % 60);
    t.append("s");
    proof {
        assert(t@ =~= decimal((s / 60) as nat) + "m"@ + pad2((s % 60) as nat) + "s"@);
    }
    t
}

/// The colour and star marker for a pass close enough to matter: the
/// satellite's own colour and `★` for a naked-eye pass, green and a blank
/// otherwise.
pub fn urgency(naked_eye: bool) -> (r: (u32, &'static str))
    ensures
        naked_eye ==> r.0 == Theme::SAT && r.1@ == "★"@,
        !naked_eye ==> r.0 == Theme::NOMINAL && r.1@ == " "@,
{
    if naked_eye { (Theme::SAT, "★") } else { (Theme::NOMINAL, " ") }
}

/// The highlighted pass as its row index and the list's length, or `None`
/// unless NEXT PASSES holds focus and lists something: the same clamp the
/// panel applies to its own highlight, so the sky plot can never show a
/// different pass than the highlighted row.
pub fn selected_pass(focus: Panel, list_pos: usize, total: usize) -> (r: Option<(usize, usize)>)
    ensures
        (focus != Panel::Passes || total == 0) ==> r is None,
        (focus == Panel::Passes && total > 0) ==> r == Some((
            if list_pos < total { list_pos } else { (total - 1) as usize },
            total,
        )),
        r matches Some(p) ==> p.0 < p.1,
{
    if focus != Panel::Passes || total == 0 {
        return None;
    }
    let index = if list_pos < total - 1 { list_pos } else { total - 1 };
    Some((index, total))
}

/// The sky plot's title, `SKY · pass 2 of 7` for row `index` of `total`,
/// plus ` · ★` for a naked-eye pass when that still fits inside a
/// `width`-column pane.
pub open spec fn plot_title_text(index: nat, total: nat, visible: bool, width: nat) -> Seq<char> {
    let base = "SKY · pass "@ + decimal(index + 1) + " of "@ + decimal(total);
    let with_star = base + " · ★"@;
    let budget: nat = if width > PANEL_CHROME { (width - PANEL_CHROME) as nat } else { 0 };
    if visible && with_star.len() <= budget { with_star } else { base }
}

/// `SKY · pass 2 of 7`, plus ` · ★` when the pass is naked-eye and the
/// header has room for it, budgeted against the columns the block's border
/// and key leave.
pub fn plot_title(index: usize, total: usize, visible: bool, width: u16) -> (t: String)
    requires
        index < usize::MAX,
    ensures
        t@ == plot_title_text(index as nat, total as nat, visible, width as nat),
{
    let mut base = String::from_str("SKY · pass ");
    push_decimal(&mut base, (index + 1) as u64);
    base.append(" of ");
    push_decimal(&mut base, total as u64);
    let mut with_star = base.clone();
    with_star.append(" · ★");
    let budget = (width as usize).saturating_sub(PANEL_CHROME);
    if visible && with_star.unicode_len() <= budget {
        with_star
    } else {
        base
    }
}

/// Whether every row width in `widths` is within `budget`.
pub open spec fn all_within(widths: Seq<usize>, budget: nat) -> bool {
    forall|i: int| 0 <= i < widths.len() ==> #[trigger] widths[i] <= budget
}

/// The index of the first of `forms[i..]` whose rows all fit `budget`.
pub open spec fn first_form_fitting(forms: Seq<Seq<usize>>, i: int, budget: nat) -> Option<int>
    decreases forms.len() - i,
{
    if i < 0 || i >= forms.len() {
        None
    } else if all_within(forms[i], budget) {
        Some(i)
    } else {
        first_form_fitting(forms, i + 1, budget)
    }
}

/// The date form every pass row is written in, given the widths of the rows
/// each form (widest first) would produce: the first whose widest row fits
/// `budget` columns, else the last. One form for the whole list, so the
/// columns line up; the real rows are measured, so a list of short
/// bearings earns the year before one with long ones does.
pub fn shared_date_form(forms: &[Vec<usize>], budget: usize) -> (k: usize)
    requires
        forms@.len() > 0,
    ensures
        k == (match first_form_fitting(forms@.map_values(|v: Vec<usize>| v@), 0, budget as nat) {
            Some(j) => j,
            None => forms@.len() - 1,
        }),
        k < forms@.len(),
{
    let ghost all = forms@.map_values(|v: Vec<usize>| v@);
    let mut i: usize = 0;
    while i < forms.len()
        invariant
            all == forms@.map_values(|v: Vec<usize>| v@),
            first_form_fitting(all, 0, budget as nat) == first_form_fitting(all, i as int, budget as nat),
        decreases forms.len() - i,
    {
        let rows = &forms[i];
        let mut j: usize = 0;
        let mut fits = true;
        while j < rows.len()
            invariant
                j <= rows@.len(),
                fits == (forall|m: int| 0 <= m < j ==> #[trigger] rows@[m] <= budget),
            decreases rows.len() - j,
        {
            if rows[j] > budget {
                fits = false;
            }
            j = j + 1;
        }
        assert(all[i as int] == rows@);
        if fits {
            return i;
        }
        i = i + 1;
    }
    forms.len() - 1
}

/// The text of a row for a pass under way or about to rise: the countdown
/// `head`, then the widest of its metadata tails (`full`, then `short`,
/// then nothing) that lets the row, its star and the space after it, fit
/// `budget` columns. The head is what makes the row worth showing, so only
/// the tail narrows.
pub open spec fn alert_text_view(head: Seq<char>, full: Seq<char>, short: Seq<char>, budget: nat) -> Seq<char> {
    if 2 + head.len() + full.len() <= budget {
        head + full
    } else if 2 + head.len() + short.len() <= budget {
        head + short
    } else {
        head
    }
}

pub fn alert_text(head: &str, full: &str, short: &str, budget: usize) -> (t: String)
    ensures
        t@ == alert_text_view(head@, full@, short@, budget as nat),
{
    let h = head.unicode_len();
    let room: usize = if budget > 2 && budget - 2 > h { budget - 2 - h } else { 0 };
    let mut t = String::from_str(head);
    if budget >= 2 && budget - 2 >= h && full.unicode_len() <= room {
        t.append(full);
    } else if budget >= 2 && budget - 2 >= h && short.unicode_len() <= room {
        t.append(short);
    }
    t
}

/// Which row a pass gets in NEXT PASSES, given the instant shown (`now`),
/// the pass's rise and set (`aos`, `los`) and how far ahead of rise the
/// countdown opens (`lead`), all in nanoseconds on one time scale.
#[derive(Clone, Copy, Debug, PartialEq, Eq, Structural)]
pub enum PassRowKind {
    /// Under way: counting down to culmination or set.
    UnderWay,
    /// Rising within the lead: counting down to rise.
    Imminent,
    /// Its ordinary time-range row, brightened when it rises within the hour.
    Ordinary { soon: bool },
}

/// The text of an ordinary NEXT PASSES row after its star cell: the date,
/// the rise–set range, the length in whole minutes right-aligned in two
/// columns, the peak elevation as written, and the bearing last.
pub open spec fn pass_row_text(
    date: Seq<char>,
    aos_hm: Seq<char>,
    los_hm: Seq<char>,
    minutes: int,
    peak: Seq<char>,
    bearing: Seq<char>,
) -> Seq<char> {
    date + " "@ + aos_hm + "–"@ + los_hm + " "@ + padded_left(signed_decimal(minutes), 2) + "m "@ + peak + " "@
        + bearing
}

/// An ordinary NEXT PASSES row, for a pass neither under way nor about to
/// rise: `★ ` for a naked-eye pass (blank otherwise), then the local date
/// (`date`, already written in the list's date form), the local rise and set
/// times (`aos_hm`, `los_hm`), the length in whole minutes, the peak
/// elevation (`peak`, already written in degrees) and the compass bearing of
/// rise, culmination and set; the text bright when the pass rises within the
/// hour (`soon`). No countdown words: those belong to the countdown rows.
pub fn ordinary_pass_row(
    visible: bool,
    soon: bool,
    date: &str,
    aos_hm: &str,
    los_hm: &str,
    minutes: i64,
    peak: &str,
    points: (usize, usize, usize),
) -> (r: (String, String, u32))
    requires
        minutes > i64::MIN,
    ensures
        r.0@ == (if visible { "★ "@ } else { "  "@ }),
        r.1@ == pass_row_text(date@, aos_hm@, los_hm@, minutes as int, peak@,
            bearing_text(points.0 as nat, points.1 as nat, points.2 as nat)),
        r.2 == (if soon { Theme::SAT } else { Theme::VALUE }),
{
    let star = if visible { String::from_str("★ ") } else { String::from_str("  ") };
    let mut m = String::new();
    if minutes < 0 {
        push_char(&mut m, '-');
        push_decimal(&mut m, (-minutes) as u64);
    } else {
        push_decimal(&mut m, minutes as u64);
    }
    proof {
        assert(m@ =~= signed_decimal(minutes as int));
    }
    let mut t = String::from_str(date);
    t.append(" ");
    t.append(aos_hm);
    t.append("–");
    t.append(los_hm);
    t.append(" ");
    push_padded_left(&mut t, m.as_str(), 2);
    t.append("m ");
    t.append(peak);
    t.append(" ");
    let b = bearing(points.0, points.1, points.2);
    t.append(b.as_str());
    proof {
        assert(t@ =~= pass_row_text(date@, aos_hm@, los_hm@, minutes as int, peak@,
            bearing_text(points.0 as nat, points.1 as nat, points.2 as nat)));
    }
    let c = if soon { Theme::SAT } else { Theme::VALUE };
    (star, t, c)
}

/// Nanoseconds in an hour.
pub const HOUR_NS: i64 = 3_600_000_000_000;

/// The row kind for a pass: under way from rise until set, imminent within
/// `lead` before rise, otherwise the ordinary row, `soon` when it rises
/// within the hour (a pass under way counts as soon, too).
pub open spec fn row_kind_of(now: int, aos: int, los: int, lead: int) -> PassRowKind {
    if aos <= now < los {
        PassRowKind::UnderWay
    } else if aos - lead <= now < aos {
        PassRowKind::Imminent
    } else {
        PassRowKind::Ordinary { soon: aos - now < HOUR_NS }
    }
}

/// Which row a pass gets at `now`: the under-way countdown exactly while it
/// is up (from rise until set), the rise countdown exactly within `lead`
/// before it rises, otherwise the ordinary row, brightened exactly when the
/// pass rises less than an hour (3.6 × 10¹² ns) after `now`.
pub proof fn lemma_row_kind_follows_the_clock(now: int, aos: int, los: int, lead: int)
    ensures
        (row_kind_of(now, aos, los, lead) == PassRowKind::UnderWay) == (aos <= now < los),
        (row_kind_of(now, aos, los, lead) == PassRowKind::Imminent) == (!(aos <= now < los) && aos - lead <= now < aos),
        !(aos <= now < los) && !(aos - lead <= now < aos) ==> row_kind_of(now, aos, los, lead)
            == (PassRowKind::Ordinary { soon: aos - now < 3_600_000_000_000 }),
{
}

/// The row a pass gets at `now`.
pub fn pass_row_kind(now: i64, aos: i64, los: i64, lead: i64) -> (k: PassRowKind)
    ensures
        k == row_kind_of(now as int, aos as int, los as int, lead as int),
{
    if aos <= now && now < los {
        return PassRowKind::UnderWay;
    }
    let open: i128 = (aos as i128) - (lead as i128);
    if open <= now as i128 && now < aos {
        return PassRowKind::Imminent;
    }
    PassRowKind::Ordinary { soon: (aos as i128) - (now as i128) < HOUR_NS as i128 }
}

/// Whole seconds in `ns` nanoseconds still to go, a past instant reading as
/// none.
pub open spec fn secs_to_go(ns: int) -> int {
    if ns <= 0 { 0 } else { ns / 1_000_000_000 }
}

fn mmss_between(from: i64, to: i64) -> (t: String)
    ensures
        t@ == mmss_text(secs_to_go(to - from)),
{
    let d: i128 = (to as i128) - (from as i128);
    let secs: i64 = if d <= 0 { 0 } else { (d / 1_000_000_000) as i64 };
    fmt_mmss(secs)
}

/// The head of the row for a pass under way at `now`: counting down to
/// culmination (`peak`) until it arrives, then to set (`los`), switching
/// the instant `now` reaches the peak.
pub fn aos_head(now: i64, peak: i64, los: i64) -> (t: String)
    ensures
        now < peak ==> t@ == "▲ AOS  peak in "@ + mmss_text(secs_to_go(peak - now)),
        now >= peak ==> t@ == "▲ AOS  LOS in "@ + mmss_text(secs_to_go(los - now)),
{
    let mut t = String::new();
    if now < peak {
        t.append("▲ AOS  peak in ");
        let c = mmss_between(now, peak);
        t.append(c.as_str());
    } else {
        t.append("▲ AOS  LOS in ");
        let c = mmss_between(now, los);
        t.append(c.as_str());
    }
    t
}

/// The head of the row for a pass about to rise: the countdown to rise.
pub fn imminent_head(now: i64, aos: i64) -> (t: String)
    ensures
        t@ == "▲ AOS in "@ + mmss_text(secs_to_go(aos - now)),
{
    let mut t = String::from_str("▲ AOS in ");
    let c = mmss_between(now, aos);
    t.append(c.as_str());
    t
}

} // verus!
