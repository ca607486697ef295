//! The LAUNCHES panel's rules: how strongly a launch's status commits its
//! row, the `T-` countdown text, and how the row's width is shared between
//! the vehicle name and the provider.

use vstd::prelude::*;
use vstd::string::*;


use crate::layout::sat_sub;
use crate::panel::Panel;
use crate::status::{has_substring, Health};
use crate::text::{
    all_ws, ascii_lower, back_ws, decimal, is_ws, skip_ws, keeps_ws, lemma_trimmed_map, lemma_trimmed_padded, lemma_trimmed_twice, pad2,
    padded_right, push_decimal, push_pad2, push_padded_right, push_spaces, spaces, to_ascii_lower, trim, trimmed, truncate,
    truncated,
};
use crate::theme::Theme;

verus! {

/// The colour a launch's (trimmed, lower-cased) status reads in: confirmed
/// at full strength, a hold amber, a failure red, anything else receding.
pub open spec fn status_color(status: Seq<char>) -> u32 {
    if status == "go"@ || status == "go for launch"@ || status == "success"@
        || status == "launch successful"@ || status == "in flight"@ {
        Theme::VALUE
    } else if status == "hold"@ || status == "on hold"@ {
        Theme::CAUTION
    } else if status == "failure"@ || status == "launch failure"@ || status == "partial failure"@ {
        Theme::ALERT
    } else {
        Theme::LABEL
    }
}

/// The key a status is matched on: trimmed, then lower-cased.
pub open spec fn status_key(status: Seq<char>) -> Seq<char> {
    trimmed(status).map_values(|ch: char| ascii_lower(ch))
}

/// `c` upper-cased if it is an ASCII letter.
pub open spec fn ascii_upper(c: char) -> char {
    if 'a' <= c <= 'z' { ((c as u32) - 32) as char } else { c }
}

proof fn lemma_case_maps_keep_ws()
    ensures
        keeps_ws(|ch: char| ascii_lower(ch)),
        keeps_ws(|ch: char| ascii_upper(ch)),
        forall|c: char| #[trigger] ascii_lower(ascii_lower(c)) == ascii_lower(c),
        forall|c: char| #[trigger] ascii_lower(ascii_upper(c)) == ascii_lower(c),
{
    assert forall|c: char| #[trigger] is_ws(ascii_lower(c)) == is_ws(c) by {
        if 'A' <= c <= 'Z' {
            assert(ascii_lower(c) as u32 == c as u32 + 32);
        }
    }
    assert forall|c: char| #[trigger] is_ws(ascii_upper(c)) == is_ws(c) by {
        if 'a' <= c <= 'z' {
            assert(ascii_upper(c) as u32 == c as u32 - 32);
        }
    }
    assert forall|c: char| #[trigger] ascii_lower(ascii_lower(c)) == ascii_lower(c) by {
        if 'A' <= c <= 'Z' {
            assert(ascii_lower(c) as u32 == c as u32 + 32);
        }
    }
    assert forall|c: char| #[trigger] ascii_lower(ascii_upper(c)) == ascii_lower(c) by {
        if 'a' <= c <= 'z' {
            assert(ascii_upper(c) as u32 == c as u32 - 32);
            assert(ascii_lower(ascii_upper(c)) as u32 == c as u32);
        }
    }
}

/// A status's colour ignores stray whitespace and case: trimming and
/// lower-casing it again changes nothing, and neither does upper-casing it
/// and padding it with whitespace on either side. Every spelling outside the
/// go, hold and failure families reads in the receding label colour.
pub proof fn lemma_status_colour_ignores_case_and_padding(status: Seq<char>, pre: Seq<char>, post: Seq<char>)
    requires
        all_ws(pre),
        all_ws(post),
    ensures
        status_key(status_key(status)) == status_key(status),
        status_key(pre + status.map_values(|ch: char| ascii_upper(ch)) + post) == status_key(status),
        status_color(status_key(status_key(status))) == status_color(status_key(status)),
        status_color(status_key(pre + status.map_values(|ch: char| ascii_upper(ch)) + post))
            == status_color(status_key(status)),
{
    lemma_case_maps_keep_ws();
    let lower = |ch: char| ascii_lower(ch);
    let upper = |ch: char| ascii_upper(ch);
    let t = trimmed(status);
    lemma_trimmed_map(t, lower);
    lemma_trimmed_twice(status);
    assert(status_key(status_key(status)) =~= status_key(status));
    let up = status.map_values(upper);
    lemma_trimmed_padded(pre, up, post);
    lemma_trimmed_map(status, upper);
    assert(trimmed(up).map_values(lower) =~= t.map_values(lower));
}

/// `s` lower-cased.
pub open spec fn lowered(s: Seq<char>) -> Seq<char> {
    s.map_values(|ch: char| ascii_lower(ch))
}

/// A status spelled `name` in any mix of case, with any whitespace around
/// it, is matched as `name` itself, for a `name` with no whitespace at
/// either end.
proof fn lemma_any_spelling_keys_as_its_name(spelling: Seq<char>, name: Seq<char>, pre: Seq<char>, post: Seq<char>)
    requires
        all_ws(pre),
        all_ws(post),
        lowered(spelling) == name,
        name.len() > 0,
        !is_ws(name[0]),
        !is_ws(name[name.len() - 1]),
    ensures
        status_key(pre + spelling + post) == name,
{
    lemma_case_maps_keep_ws();
    let lower = |ch: char| ascii_lower(ch);
    lemma_trimmed_padded(pre, spelling, post);
    lemma_trimmed_map(spelling, lower);
    assert(skip_ws(name, 0) == 0);
    assert(back_ws(name, 0, name.len() as int) == name.len());
    assert(trimmed(name) =~= name);
}

/// Every Launch Library status reads in its family's colour, spelled in any
/// mix of case and with any whitespace around it: go, go for launch,
/// success, launch successful and in flight at full strength; hold and on
/// hold amber; failure, launch failure and partial failure red; and the
/// unconfirmed TBD, TBC, to be confirmed and to be determined receding.
pub proof fn lemma_each_status_reads_in_its_family_colour(spelling: Seq<char>, pre: Seq<char>, post: Seq<char>)
    requires
        all_ws(pre),
        all_ws(post),
    ensures
        lowered(spelling) == "go"@ || lowered(spelling) == "go for launch"@ || lowered(spelling) == "success"@ || lowered(spelling) == "launch successful"@ || lowered(spelling) == "in flight"@
            ==> status_color(status_key(pre + spelling + post)) == Theme::VALUE,
        lowered(spelling) == "hold"@ || lowered(spelling) == "on hold"@
            ==> status_color(status_key(pre + spelling + post)) == Theme::CAUTION,
        lowered(spelling) == "failure"@ || lowered(spelling) == "launch failure"@ || lowered(spelling) == "partial failure"@
            ==> status_color(status_key(pre + spelling + post)) == Theme::ALERT,
        lowered(spelling) == "tbd"@ || lowered(spelling) == "tbc"@ || lowered(spelling) == "to be confirmed"@ || lowered(spelling) == "to be determined"@
            ==> status_color(status_key(pre + spelling + post)) == Theme::LABEL,
{
    reveal_strlit("go");
    reveal_strlit("go for launch");
    reveal_strlit("success");
    reveal_strlit("launch successful");
    reveal_strlit("in flight");
    reveal_strlit("hold");
    reveal_strlit("on hold");
    reveal_strlit("failure");
    reveal_strlit("launch failure");
    reveal_strlit("partial failure");
    reveal_strlit("tbd");
    reveal_strlit("tbc");
    reveal_strlit("to be confirmed");
    reveal_strlit("to be determined");
    if lowered(spelling) == "go"@ {
        lemma_any_spelling_keys_as_its_name(spelling, "go"@, pre, post);
    }
    if lowered(spelling) == "go for launch"@ {
        lemma_any_spelling_keys_as_its_name(spelling, "go for launch"@, pre, post);
    }
    if lowered(spelling) == "success"@ {
        lemma_any_spelling_keys_as_its_name(spelling, "success"@, pre, post);
    }
    if lowered(spelling) == "launch successful"@ {
        lemma_any_spelling_keys_as_its_name(spelling, "launch successful"@, pre, post);
    }
    if lowered(spelling) == "in flight"@ {
        lemma_any_spelling_keys_as_its_name(spelling, "in flight"@, pre, post);
    }
    if lowered(spelling) == "hold"@ {
        lemma_any_spelling_keys_as_its_name(spelling, "hold"@, pre, post);
    }
    if lowered(spelling) == "on hold"@ {
        lemma_any_spelling_keys_as_its_name(spelling, "on hold"@, pre, post);
    }
    if lowered(spelling) == "failure"@ {
        lemma_any_spelling_keys_as_its_name(spelling, "failure"@, pre, post);
    }
    if lowered(spelling) == "launch failure"@ {
        lemma_any_spelling_keys_as_its_name(spelling, "launch failure"@, pre, post);
    }
    if lowered(spelling) == "partial failure"@ {
        lemma_any_spelling_keys_as_its_name(spelling, "partial failure"@, pre, post);
    }
    if lowered(spelling) == "tbd"@ {
        lemma_any_spelling_keys_as_its_name(spelling, "tbd"@, pre, post);
    }
    if lowered(spelling) == "tbc"@ {
        lemma_any_spelling_keys_as_its_name(spelling, "tbc"@, pre, post);
    }
    if lowered(spelling) == "to be confirmed"@ {
        lemma_any_spelling_keys_as_its_name(spelling, "to be confirmed"@, pre, post);
    }
    if lowered(spelling) == "to be determined"@ {
        lemma_any_spelling_keys_as_its_name(spelling, "to be determined"@, pre, post);
    }
}

/// How much a launch's status commits its row. Launch Library sends either
/// the abbreviation ("Go", "TBD") or the full name ("Go for Launch"), so both
/// are matched, ignoring case and stray whitespace; an unrecognised status is
/// treated as unconfirmed.
pub fn launch_status_color(status: &str) -> (c: u32)
    ensures
        c == status_color(status_key(status@)),
{
    let t = trim(status);
    let l = to_ascii_lower(t.as_str());
    if l == String::from_str("go") || l == String::from_str("go for launch")
        || l == String::from_str("success") || l == String::from_str("launch successful")
        || l == String::from_str("in flight") {
        Theme::VALUE
    } else if l == String::from_str("hold") || l == String::from_str("on hold") {
        Theme::CAUTION
    } else if l == String::from_str("failure") || l == String::from_str("launch failure")
        || l == String::from_str("partial failure") {
        Theme::ALERT
    } else {
        Theme::LABEL
    }
}

/// The countdown text for `secs` seconds to go (a negative count reads as
/// zero): `T-4d 19:18:45` past a day, `T-19:18:45` under it.
pub open spec fn countdown_text(secs: int) -> Seq<char> {
    let s: nat = if secs < 0 { 0 } else { secs as nat };
    let days = s / 86_400;
    let hh = (s % 86_400) / 3600;
    let mm = (s % 3600) / 60;
    let ss = s % 60;
    let clock = pad2(hh) + ":"@ + pad2(mm) + ":"@ + pad2(ss);
    if days > 0 { "T-"@ + decimal(days) + "d "@ + clock } else { "T-"@ + clock }
}

/// A launch countdown in the conventional form, no space after `T-`, for
/// `secs` whole seconds to go (chrono's `num_seconds` of the time left).
pub fn fmt_countdown(secs: i64) -> (t: String)
    ensures
        t@ == countdown_text(secs as int),
{
    let s: u64 = if secs < 0 { 0 } else { secs as u64 };
    let days = s / 86_400;
    let hh = (s % 86_400) / 3600;
    let mm = (s % 3600) / 60;
    let ss = s % 60;
    let mut t = String::from_str("T-");
    if days > 0 {
        push_decimal(&mut t, days);
        t.append("d ");
    }
    push_pad2(&mut t, hh);
    t.append(":");
    push_pad2(&mut t, mm);
    t.append(":");
    push_pad2(&mut t, ss);
    proof {
        let clock = pad2(hh as nat) + ":"@ + pad2(mm as nat) + ":"@ + pad2(ss as nat);
        if days > 0 {
            assert(t@ =~= "T-"@ + decimal(days as nat) + "d "@ + clock);
        } else {
            assert(t@ =~= "T-"@ + clock);
        }
    }
    t
}

/// Columns between the name and the provider.
pub const LAUNCH_GAP: usize = 2;
/// Narrowest provider column worth showing.
pub const PROVIDER_MIN: usize = 10;
/// Narrowest name column before the provider is dropped.
pub const NAME_MIN: usize = 20;

pub open spec fn min_nat(a: int, b: int) -> int {
    if a < b { a } else { b }
}

/// Width of the name and provider columns for a batch of launch rows, given
/// the room left after the countdown (`rest`) and what the batch's widest
/// name and provider need. The name is served first, but a provider column
/// of `PROVIDER_MIN` is reserved before the name may take the whole row;
/// below that reserve the provider is dropped entirely.
pub fn launch_columns(rest: usize, name_nat: usize, provider_nat: usize) -> (r: (usize, usize))
    ensures
        rest < NAME_MIN + LAUNCH_GAP + PROVIDER_MIN ==> r == (min_nat(name_nat as int, rest as int) as usize, 0usize),
        rest >= NAME_MIN + LAUNCH_GAP + PROVIDER_MIN ==> {
            &&& r.0 == min_nat(name_nat as int, rest - LAUNCH_GAP - PROVIDER_MIN)
            &&& r.1 == min_nat(rest - r.0 - LAUNCH_GAP, provider_nat as int)
        },
        r.0 <= name_nat,
        r.1 <= provider_nat,
        r.1 == 0 ==> r.0 <= rest,
        r.1 > 0 ==> r.0 + LAUNCH_GAP + r.1 <= rest,
        r.1 == 0 || r.1 >= min_nat(PROVIDER_MIN as int, provider_nat as int),
{
    if rest < NAME_MIN + LAUNCH_GAP + PROVIDER_MIN {
        return (if name_nat < rest { name_nat } else { rest }, 0);
    }
    let cap = rest - LAUNCH_GAP - PROVIDER_MIN;
    let name_w = if name_nat < cap { name_nat } else { cap };
    let room = rest - name_w - LAUNCH_GAP;
    let provider_w = if room < provider_nat { room } else { provider_nat };
    (name_w, provider_w)
}

/// A launch's countdown cell for `t_minus`, the time left to its scheduled
/// instant (`None` when the feed gives none): the `T-` countdown in the
/// accent colour while it is ahead, `in flight` once it has passed, `TBD`
/// with no date.
pub open spec fn countdown_cell(t_minus: Option<int>) -> (Seq<char>, u32) {
    match t_minus {
        Some(secs) => if secs >= 0 { (countdown_text(secs), Theme::ACCENT) } else { ("in flight"@, Theme::CAUTION) },
        None => ("TBD"@, Theme::LABEL),
    }
}

/// A launch's countdown cell for `t_minus`, the whole seconds left to its
/// scheduled instant (chrono's `num_seconds`), `None` when it has no date.
pub fn launch_countdown(t_minus: Option<i64>) -> (c: (String, u32))
    ensures
        (c.0@, c.1) == countdown_cell(match t_minus { Some(s) => Some(s as int), None => None }),
{
    match t_minus {
        Some(secs) => if secs >= 0 {
            (fmt_countdown(secs), Theme::ACCENT)
        } else {
            (String::from_str("in flight"), Theme::CAUTION)
        },
        None => (String::from_str("TBD"), Theme::LABEL),
    }
}

/// One launch as the panel lists it.
#[derive(Clone, Debug, PartialEq, Eq)]
pub struct LaunchEntry {
    /// The vehicle and mission, e.g. `Falcon 9 Block 5 | Starlink`.
    pub name: String,
    /// The launch provider; `—` when the feed did not know it.
    pub provider: String,
    /// The pad, e.g. `SLC-4E, Vandenberg SFB, CA, USA`.
    pub pad: String,
    /// The feed's status, e.g. `Go for Launch`.
    pub status: String,
}

/// One launch row as drawn: the countdown cell padded to the batch's
/// widest, the name, and either the provider column or, on the highlighted
/// row, a second line with provider and pad.
#[derive(Clone, Debug, PartialEq, Eq)]
pub struct LaunchItem {
    pub countdown: String,
    pub countdown_color: u32,
    pub name: String,
    pub name_color: u32,
    pub provider: Option<String>,
    pub detail: Option<String>,
}

/// The longest of `s`, zero when empty.
pub open spec fn max_len(s: Seq<Seq<char>>) -> nat
    decreases s.len(),
{
    if s.len() == 0 {
        0
    } else {
        let m = max_len(s.drop_last());
        if s.last().len() > m { s.last().len() } else { m }
    }
}

pub open spec fn names_of(l: Seq<LaunchEntry>) -> Seq<Seq<char>> {
    l.map_values(|e: LaunchEntry| e.name@)
}

pub open spec fn providers_of(l: Seq<LaunchEntry>) -> Seq<Seq<char>> {
    l.map_values(|e: LaunchEntry| e.provider@)
}

pub open spec fn countdowns_of(c: Seq<(String, u32)>) -> Seq<Seq<char>> {
    c.map_values(|e: (String, u32)| e.0@)
}

/// Row `i` of a launch list laid out with countdown column `cw`, name and
/// provider columns `name_w` and `provider_w`, and `full` columns for the
/// highlighted row's name and detail line.
pub open spec fn launch_item_ok(
    it: LaunchItem,
    e: LaunchEntry,
    cd: (String, u32),
    highlighted: bool,
    cw: nat,
    name_w: nat,
    provider_w: nat,
    full: nat,
) -> bool {
    &&& it.countdown@ == padded_right(cd.0@, cw) + "  "@
    &&& it.countdown_color == cd.1
    &&& it.name_color == status_color(trimmed(e.status@).map_values(|ch: char| ascii_lower(ch)))
    &&& if highlighted {
        &&& it.name@ == truncated(e.name@, full)
        &&& it.provider is None
        &&& it.detail matches Some(d) && d@ == spaces((cw + 2) as int) + truncated(e.provider@ + " · "@ + e.pad@, full)
    } else {
        &&& it.name@ == truncated(e.name@, name_w)
        &&& it.detail is None
        &&& if provider_w > 0 {
            it.provider matches Some(p) && p@ == "  "@ + truncated(e.provider@, provider_w)
        } else {
            it.provider is None
        }
    }
}

proof fn lemma_max_len_step(s: Seq<Seq<char>>, i: int)
    requires
        0 <= i < s.len(),
    ensures
        s.take(i + 1).drop_last() == s.take(i),
        s.take(i + 1).last() == s[i],
{
    assert(s.take(i + 1).drop_last() =~= s.take(i));
}

/// The widest name in `l`.
fn widest_name(l: &[LaunchEntry]) -> (m: usize)
    ensures
        m == max_len(names_of(l@)),
{
    let mut m: usize = 0;
    let mut i: usize = 0;
    while i < l.len()
        invariant
            i <= l@.len(),
            m == max_len(names_of(l@).take(i as int)),
        decreases l.len() - i,
    {
        proof { lemma_max_len_step(names_of(l@), i as int); }
        let n = l[i].name.unicode_len();
        if n > m {
            m = n;
        }
        i = i + 1;
    }
    proof { assert(names_of(l@).take(l@.len() as int) =~= names_of(l@)); }
    m
}

/// The widest provider in `l`.
fn widest_provider(l: &[LaunchEntry]) -> (m: usize)
    ensures
        m == max_len(providers_of(l@)),
{
    let mut m: usize = 0;
    let mut i: usize = 0;
    while i < l.len()
        invariant
            i <= l@.len(),
            m == max_len(providers_of(l@).take(i as int)),
        decreases l.len() - i,
    {
        proof { lemma_max_len_step(providers_of(l@), i as int); }
        let n = l[i].provider.unicode_len();
        if n > m {
            m = n;
        }
        i = i + 1;
    }
    proof { assert(providers_of(l@).take(l@.len() as int) =~= providers_of(l@)); }
    m
}

/// The widest countdown in `c`.
fn widest_countdown(c: &[(String, u32)]) -> (m: usize)
    ensures
        m == max_len(countdowns_of(c@)),
{
    let mut m: usize = 0;
    let mut i: usize = 0;
    while i < c.len()
        invariant
            i <= c@.len(),
            m == max_len(countdowns_of(c@).take(i as int)),
        decreases c.len() - i,
    {
        proof { lemma_max_len_step(countdowns_of(c@), i as int); }
        let n = c[i].0.unicode_len();
        if n > m {
            m = n;
        }
        i = i + 1;
    }
    proof { assert(countdowns_of(c@).take(c@.len() as int) =~= countdowns_of(c@)); }
    m
}

fn launch_item(
    e: &LaunchEntry,
    cd: &(String, u32),
    highlighted: bool,
    cw: usize,
    name_w: usize,
    provider_w: usize,
    full: usize,
) -> (it: LaunchItem)
    ensures
        launch_item_ok(it, *e, *cd, highlighted, cw as nat, name_w as nat, provider_w as nat, full as nat),
{
    let mut countdown = String::new();
    push_padded_right(&mut countdown, cd.0.as_str(), cw);
    countdown.append("  ");
    let name_color = launch_status_color(e.status.as_str());
    if highlighted {
        let mut whole = String::from_str(e.provider.as_str());
        whole.append(" · ");
        whole.append(e.pad.as_str());
        let mut detail = String::new();
        push_spaces(&mut detail, cw);
        detail.append("  ");
        proof {
            reveal_strlit("  ");
            assert(spaces(cw as int) + "  "@ =~= spaces(cw + 2));
        }
        let cut = truncate(whole.as_str(), full);
        detail.append(cut.as_str());
        LaunchItem {
            countdown,
            countdown_color: cd.1,
            name: truncate(e.name.as_str(), full),
            name_color,
            provider: None,
            detail: Some(detail),
        }
    } else {
        let provider = if provider_w > 0 {
            let mut p = String::from_str("  ");
            let cut = truncate(e.provider.as_str(), provider_w);
            p.append(cut.as_str());
            Some(p)
        } else {
            None
        };
        LaunchItem {
            countdown,
            countdown_color: cd.1,
            name: truncate(e.name.as_str(), name_w),
            name_color,
            provider,
            detail: None,
        }
    }
}

/// The launch list laid out for a panel `width` columns wide (inside its
/// border), with `countdowns[i]` the countdown cell of `launches[i]` and
/// `selected` the highlighted row, if any. The countdown column is as wide
/// as the batch's widest countdown; the name and provider columns share the
/// rest as [`launch_columns`] decides, and the highlighted row alone gets
/// the full width for its name and a second line with provider and pad.
pub fn launch_items(width: usize, launches: &[LaunchEntry], countdowns: &[(String, u32)], selected: Option<usize>)
    -> (items: Vec<LaunchItem>)
    requires
        countdowns@.len() == launches@.len(),
    ensures
        items@.len() == launches@.len(),
        ({
            let cw = max_len(countdowns_of(countdowns@));
            let rest = sat_sub(width as int, cw + LAUNCH_GAP);
            let name_nat = max_len(names_of(launches@));
            let provider_nat = max_len(providers_of(launches@));
            let name_w: int = if rest < NAME_MIN + LAUNCH_GAP + PROVIDER_MIN {
                min_nat(name_nat as int, rest as int)
            } else {
                min_nat(name_nat as int, rest - LAUNCH_GAP - PROVIDER_MIN)
            };
            let provider_w: int = if rest < NAME_MIN + LAUNCH_GAP + PROVIDER_MIN {
                0
            } else {
                min_nat(rest - name_w - LAUNCH_GAP, provider_nat as int)
            };
            forall|i: int| 0 <= i < items@.len() ==> launch_item_ok(
                #[trigger] items@[i], launches@[i], countdowns@[i], selected == Some(i as usize),
                cw, name_w as nat, provider_w as nat, rest,
            )
        }),
{
    let cw = widest_countdown(countdowns);
    let rest: usize = if width > cw && width - cw > LAUNCH_GAP { width - cw - LAUNCH_GAP } else { 0 };
    let name_nat = widest_name(launches);
    let provider_nat = widest_provider(launches);
    let (name_w, provider_w) = launch_columns(rest, name_nat, provider_nat);
    let mut items: Vec<LaunchItem> = Vec::new();
    let mut i: usize = 0;
    while i < launches.len()
        invariant
            i <= launches@.len(),
            countdowns@.len() == launches@.len(),
            items@.len() == i,
            cw == max_len(countdowns_of(countdowns@)),
            cw <= width || rest == 0,
            forall|k: int| 0 <= k < i ==> launch_item_ok(
                #[trigger] items@[k], launches@[k], countdowns@[k], selected == Some(k as usize),
                cw as nat, name_w as nat, provider_w as nat, rest as nat,
            ),
        decreases launches.len() - i,
    {
        let highlighted = match selected {
            Some(s) => s == i,
            None => false,
        };
        let it = launch_item(&launches[i], &countdowns[i], highlighted, cw, name_w, provider_w, rest);
        items.push(it);
        i = i + 1;
    }
    items
}

/// The `title_bottom` note of where the launch list came from, when it is
/// not a live pull from the primary host: the mirror, the age of what is
/// shown, or both; nothing otherwise.
pub fn launch_footer(mirrored: bool, age: Option<&str>) -> (bits: Vec<String>)
    ensures
        !mirrored && age is None ==> bits@.len() == 0,
        mirrored || age is Some ==> bits@.map_values(|b: String| b@) == seq!["launch manifest"@]
            + (if mirrored { seq!["mirror"@] } else { Seq::empty() })
            + (match age { Some(a) => seq![a@ + " old"@], None => Seq::empty() }),
{
    let mut bits: Vec<String> = Vec::new();
    if mirrored || age.is_some() {
        bits.push(String::from_str("launch manifest"));
        if mirrored {
            bits.push(String::from_str("mirror"));
        }
        match age {
            Some(a) => {
                let mut t = String::from_str(a);
                t.append(" old");
                bits.push(t);
            },
            None => {},
        }
    }
    proof {
        if mirrored || age is Some {
            assert(bits@.map_values(|b: String| b@) =~= seq!["launch manifest"@]
                + (if mirrored { seq!["mirror"@] } else { Seq::empty() })
                + (match age { Some(a) => seq![a@ + " old"@], None => Seq::empty() }));
        }
    }
    bits
}

/// Whether `pat` occurs in `t`, searched character by character.
pub fn contains_text(t: &str, pat: &str) -> (b: bool)
    ensures
        b == has_substring(t@, pat@),
{
    let n = t.unicode_len();
    let m = pat.unicode_len();
    if m > n {
        proof {
            assert forall|i: int| 0 <= i && i + pat@.len() <= t@.len() implies #[trigger] t@.subrange(i, i + pat@.len()) != pat@ by {}
        }
        return false;
    }
    let mut i: usize = 0;
    while i <= n - m
        invariant
            n == t@.len(),
            m == pat@.len(),
            m <= n,
            i <= n - m + 1,
            forall|j: int| 0 <= j < i ==> #[trigger] t@.subrange(j, j + m) != pat@,
        decreases n - m + 1 - i,
    {
        let mut k: usize = 0;
        let mut same = true;
        while k < m
            invariant
                k <= m,
                i + m <= n,
                n == t@.len(),
                m == pat@.len(),
                same == (forall|q: int| 0 <= q < k ==> t@[i + q] == pat@[q]),
            decreases m - k,
        {
            if t.get_char(i + k) != pat.get_char(k) {
                same = false;
            }
            k = k + 1;
        }
        if same {
            proof { assert(t@.subrange(i as int, i + m) =~= pat@); }
            return true;
        }
        proof {
            let q = choose|q: int| 0 <= q < m && t@[i + q] != pat@[q];
            assert(t@.subrange(i as int, i + m)[q] != pat@[q]);
        }
        i = i + 1;
    }
    proof {
        assert forall|j: int| 0 <= j && j + pat@.len() <= t@.len() implies #[trigger] t@.subrange(j, j + pat@.len()) != pat@ by {
            assert(j < i);
        }
    }
    false
}

/// What the panel says when it has no rows to list: nothing listed in the
/// manifest, the feed throttled or down, or still waiting for it.
pub fn launch_placeholder(have_manifest: bool, health: &Health) -> (t: &'static str)
    ensures
        have_manifest ==> t@ == "  no upcoming launches listed"@,
        !have_manifest ==> t@ == (match health {
            Health::Error(reason) => if has_substring(reason@, "throttled"@) {
                "  launch feed throttled — retrying"@
            } else {
                "  launch feed unavailable"@
            },
            _ => "  launch manifest pending…"@,
        }),
{
    if have_manifest {
        return "  no upcoming launches listed";
    }
    match health {
        Health::Error(reason) => if contains_text(reason.as_str(), "throttled") {
            "  launch feed throttled — retrying"
        } else {
            "  launch feed unavailable"
        },
        _ => "  launch manifest pending…",
    }
}

/// The highlighted launch row: the list position held inside the list
/// while the panel has focus, nothing otherwise.
pub fn launch_selection(focused: bool, list_pos: usize, len: usize) -> (r: Option<usize>)
    ensures
        !focused ==> r is None,
        focused ==> r == Some(if list_pos < sat_sub(len as int, 1) { list_pos } else { sat_sub(len as int, 1) as usize }),
{
    if !focused {
        return None;
    }
    let last: usize = if len > 0 { len - 1 } else { 0 };
    Some(if list_pos < last { list_pos } else { last })
}

/// The launch whose pad the map marks: the highlighted one, only while
/// LAUNCHES holds focus and lists something, with the same clamp the panel
/// applies, so the marker and the highlighted row always agree.
pub fn selected_launch(focus: Panel, list_pos: usize, len: usize) -> (r: Option<usize>)
    ensures
        (focus != Panel::Launches || len == 0) ==> r is None,
        (focus == Panel::Launches && len > 0) ==> r == Some(if list_pos < len - 1 { list_pos } else { (len - 1) as usize }),
        r matches Some(i) ==> i < len,
{
    if focus != Panel::Launches || len == 0 {
        return None;
    }
    launch_selection(true, list_pos, len)
}

} // verus!
