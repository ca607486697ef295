//! The status bar: the feed chips on its left and the key hints on its
//! right, the hints offered as a ladder of ever shorter tiers of which the
//! widest that fits is shown.

use vstd::prelude::*;
use vstd::string::*;

use crate::panel::Panel;
use crate::theme::Theme;

verus! {

/// `list` joined with `sep` between consecutive entries.
pub open spec fn join(list: Seq<Seq<char>>, sep: Seq<char>) -> Seq<char>
    decreases list.len(),
{
    if list.len() == 0 {
        Seq::empty()
    } else if list.len() == 1 {
        list[0]
    } else {
        join(list.drop_last(), sep) + sep + list.last()
    }
}

/// The views of a list of string slices.
pub open spec fn views(list: Seq<&str>) -> Seq<Seq<char>> {
    list.map_values(|s: &str| s@)
}

/// `parts` joined with `sep`.
pub fn join_strs(parts: &Vec<&str>, sep: &str) -> (out: String)
    ensures
        out@ == join(views(parts@), sep@),
{
    let mut out = String::new();
    let ghost all = views(parts@);
    let mut i: usize = 0;
    while i < parts.len()
        invariant
            i <= parts.len(),
            all == views(parts@),
            out@ == join(all.take(i as int), sep@),
        decreases parts.len() - i,
    {
        if i != 0 {
            out.append(sep);
        }
        out.append(parts[i]);
        proof {
            assert(all.take(i + 1).drop_last() =~= all.take(i as int));
            if i == 0 {
                assert(out@ =~= all.take(1)[0]);
            }
        }
        i = i + 1;
    }
    proof {
        assert(all.take(parts.len() as int) =~= all);
    }
    out
}

/// The separator between key hints: a middle dot, one column wide.
pub open spec fn hint_sep() -> Seq<char> {
    " · "@
}

/// The global keys of hint tier `k`, widest tier first.
pub open spec fn global_keys(k: int) -> Seq<Seq<char>> {
    if k == 0 {
        seq![
            "1-6 focus"@, "Tab"@, "m map"@, "f follow"@, "p places"@, "+/- zoom"@, "s sat"@,
            "r refresh"@, "space pause"@, ",/. warp"@, "g goto"@, "? help"@, "q quit"@,
        ]
    } else if k == 1 {
        seq!["1-6 focus"@, "m map"@, "f follow"@, "r refresh"@, "? help"@, "q quit"@]
    } else if k == 2 {
        seq!["r refresh"@, "? help"@, "q quit"@]
    } else {
        seq!["? help"@]
    }
}

/// Whether `focus` is a panel with a scrollable list.
pub open spec fn scrollable(focus: Panel) -> bool {
    focus == Panel::TrackedList || focus == Panel::Passes || focus == Panel::Launches
}

/// The keys a focused panel adds in front of the global ones.
pub open spec fn panel_keys(focus: Panel) -> Seq<Seq<char>> {
    let scroll: Seq<Seq<char>> = if scrollable(focus) { seq!["j/k scroll"@] } else { Seq::empty() };
    let own: Seq<Seq<char>> = if focus == Panel::TrackedList {
        seq!["Enter track"@, "d remove"@]
    } else {
        Seq::empty()
    };
    scroll + own
}

/// Hint tier `k` for `focus`: the panel's own keys, then tier `k`'s global
/// keys.
pub open spec fn hint_tier(focus: Panel, k: int) -> Seq<char> {
    join(panel_keys(focus) + global_keys(k), hint_sep())
}

/// Every hint tier for `focus`, widest first: the four tiers of keys, then a
/// bare `? help` when the narrowest of them still carries panel keys.
pub open spec fn hint_tiers(focus: Panel) -> Seq<Seq<char>> {
    let four = seq![hint_tier(focus, 0), hint_tier(focus, 1), hint_tier(focus, 2), hint_tier(focus, 3)];
    if four[3] == "? help"@ { four } else { four.push("? help"@) }
}

fn global_key_list(k: usize) -> (v: Vec<&'static str>)
    ensures
        views(v@) == global_keys(k as int),
{
    let mut v: Vec<&'static str> = Vec::new();
    if k == 0 {
        v.push("1-6 focus");
        v.push("Tab");
        v.push("m map");
        v.push("f follow");
        v.push("p places");
        v.push("+/- zoom");
        v.push("s sat");
        v.push("r refresh");
        v.push("space pause");
        v.push(",/. warp");
        v.push("g goto");
        v.push("? help");
        v.push("q quit");
    } else if k == 1 {
        v.push("1-6 focus");
        v.push("m map");
        v.push("f follow");
        v.push("r refresh");
        v.push("? help");
        v.push("q quit");
    } else if k == 2 {
        v.push("r refresh");
        v.push("? help");
        v.push("q quit");
    } else {
        v.push("? help");
    }
    proof {
        assert(views(v@) =~= global_keys(k as int));
    }
    v
}

fn panel_key_list(focus: Panel) -> (v: Vec<&'static str>)
    ensures
        views(v@) == panel_keys(focus),
{
    let mut v: Vec<&'static str> = Vec::new();
    if focus == Panel::TrackedList || focus == Panel::Passes || focus == Panel::Launches {
        v.push("j/k scroll");
    }
    if focus == Panel::TrackedList {
        v.push("Enter track");
        v.push("d remove");
    }
    proof {
        assert(views(v@) =~= panel_keys(focus));
    }
    v
}

/// The key hints for the current focus, widest tier first. A panel's own
/// keys are the last thing dropped as the terminal narrows, and `? help`,
/// which documents all of them, is what survives to the very end.
pub fn key_hints(focus: Panel) -> (tiers: Vec<String>)
    ensures
        tiers@.map_values(|s: String| s@) == hint_tiers(focus),
{
    let mut tiers: Vec<String> = Vec::new();
    let own = panel_key_list(focus);
    let mut k: usize = 0;
    while k < 4
        invariant
            k <= 4,
            views(own@) == panel_keys(focus),
            tiers@.len() == k,
            forall|j: int| 0 <= j < k ==> #[trigger] tiers@[j]@ == hint_tier(focus, j),
        decreases 4 - k,
    {
        let globals = global_key_list(k);
        let mut parts = own.clone();
        let mut g: usize = 0;
        while g < globals.len()
            invariant
                g <= globals.len(),
                views(parts@) == panel_keys(focus) + views(globals@).take(g as int),
            decreases globals.len() - g,
        {
            let ghost before = parts@;
            parts.push(globals[g]);
            proof {
                assert(parts@ == before.push(globals@[g as int]));
                assert(views(parts@) =~= views(before).push(globals@[g as int]@));
                assert(views(globals@).take(g + 1) =~= views(globals@).take(g as int).push(globals@[g as int]@));
                assert(views(parts@) =~= panel_keys(focus) + views(globals@).take(g + 1));
            }
            g = g + 1;
        }
        proof {
            assert(views(globals@).take(globals.len() as int) =~= views(globals@));
        }
        tiers.push(join_strs(&parts, " · "));
        k = k + 1;
    }
    let help = String::from_str("? help");
    let last_is_help = tiers[3] == help;
    if !last_is_help {
        tiers.push(help);
    }
    proof {
        let four = seq![hint_tier(focus, 0), hint_tier(focus, 1), hint_tier(focus, 2), hint_tier(focus, 3)];
        if last_is_help {
            assert(tiers@.map_values(|s: String| s@) =~= four);
        } else {
            assert(tiers@.map_values(|s: String| s@) =~= four.push("? help"@));
        }
    }
    tiers
}

/// Whether a tier of `len` characters fits a `width`-column area with room
/// for the trailing space the caller pads it with.
pub open spec fn hint_fits(len: nat, width: u16) -> bool {
    width > len + 1
}

/// The index of the first of `tiers[i..]` that fits `width`.
pub open spec fn first_fitting(tiers: Seq<Seq<char>>, i: int, width: u16) -> Option<int>
    decreases tiers.len() - i,
{
    if i < 0 || i >= tiers.len() {
        None
    } else if hint_fits(tiers[i].len(), width) {
        Some(i)
    } else {
        first_fitting(tiers, i + 1, width)
    }
}

pub proof fn lemma_first_fitting_fits(tiers: Seq<Seq<char>>, i: int, width: u16)
    requires
        0 <= i,
    ensures
        first_fitting(tiers, i, width) matches Some(j) ==> i <= j < tiers.len() && hint_fits(tiers[j].len(), width),
        first_fitting(tiers, i, width) is None ==> forall|j: int| i <= j < tiers.len() ==> !hint_fits(#[trigger] tiers[j].len(), width),
    decreases tiers.len() - i,
{
    if i < tiers.len() && !hint_fits(tiers[i].len(), width) {
        lemma_first_fitting_fits(tiers, i + 1, width);
    }
}

/// The first of `tiers` that fits in `width` columns, leaving room for the
/// trailing space the caller pads with; `None` when even the last one does
/// not. Widths are counted in characters, not bytes.
pub fn fitting_hint(tiers: &[String], width: u16) -> (r: Option<&str>)
    ensures
        match first_fitting(tiers@.map_values(|s: String| s@), 0, width) {
            Some(j) => r matches Some(s) && s@ == tiers@[j]@,
            None => r is None,
        },
        r matches Some(s) ==> width > s@.len() + 1,
{
    let ghost all = tiers@.map_values(|s: String| s@);
    proof {
        lemma_first_fitting_fits(all, 0, width);
    }
    let mut i: usize = 0;
    while i < tiers.len()
        invariant
            all == tiers@.map_values(|s: String| s@),
            first_fitting(all, 0, width) == first_fitting(all, i as int, width),
        decreases tiers.len() - i,
    {
        let s = tiers[i].as_str();
        let n = s.unicode_len();
        if n < width as usize && (width as usize) - n > 1 {
            assert(all[i as int] == tiers@[i as int]@);
            return Some(s);
        }
        assert(all[i as int] == tiers@[i as int]@);
        i = i + 1;
    }
    None
}

/// Widening the hint area never gets a shorter hint: over tiers that never
/// grow, whatever tier fits `narrow` columns, some tier at least as long,
/// and no later in the ladder, fits `wide` columns.
pub proof fn lemma_wider_area_never_gets_a_shorter_hint(tiers: Seq<Seq<char>>, narrow: u16, wide: u16)
    requires
        narrow <= wide,
        forall|a: int, b: int| 0 <= a <= b < tiers.len() ==> #[trigger] tiers[a].len() >= #[trigger] tiers[b].len(),
    ensures
        first_fitting(tiers, 0, narrow) matches Some(j1) ==> (first_fitting(tiers, 0, wide) matches Some(j2)
            && j2 <= j1 && tiers[j2].len() >= tiers[j1].len()),
{
    lemma_wider_fits_from(tiers, 0, narrow, wide);
}

proof fn lemma_wider_fits_from(tiers: Seq<Seq<char>>, i: int, narrow: u16, wide: u16)
    requires
        0 <= i,
        narrow <= wide,
        forall|a: int, b: int| 0 <= a <= b < tiers.len() ==> #[trigger] tiers[a].len() >= #[trigger] tiers[b].len(),
    ensures
        first_fitting(tiers, i, narrow) matches Some(j1) ==> (first_fitting(tiers, i, wide) matches Some(j2)
            && j2 <= j1 && tiers[j2].len() >= tiers[j1].len()),
    decreases tiers.len() - i,
{
    lemma_first_fitting_fits(tiers, i, narrow);
    if i < tiers.len() {
        if hint_fits(tiers[i].len(), narrow) {
        } else if hint_fits(tiers[i].len(), wide) {
            if let Some(j1) = first_fitting(tiers, i, narrow) {
                assert(tiers[i].len() >= tiers[j1].len());
            }
        } else {
            lemma_wider_fits_from(tiers, i + 1, narrow, wide);
        }
    }
}

/// How fresh a feed is, as its status chip reads it.
#[derive(Clone, Debug, PartialEq, Eq)]
pub enum Health {
    /// Not fetched yet this session.
    Pending,
    /// Fetched successfully and current.
    Live,
    /// Last fetched successfully this long ago, already written out (`12m`).
    Stale(String),
    /// The fetch failed and there is nothing to fall back on.
    Error(String),
}

/// The chip text for a feed's health: `wait`, `live`, its age, or `err`.
pub fn chip_text(health: &Health) -> (s: String)
    ensures
        s@ == (match health {
            Health::Pending => "wait"@,
            Health::Live => "live"@,
            Health::Stale(age) => age@,
            Health::Error(_) => "err"@,
        }),
{
    match health {
        Health::Pending => String::from_str("wait"),
        Health::Live => String::from_str("live"),
        Health::Stale(age) => age.clone(),
        Health::Error(_) => String::from_str("err"),
    }
}

/// A status chip: its label, its colour severity (judged against how often
/// the feed is supposed to refresh) and its text.
pub fn chip(name: &'static str, severity: u8, health: &Health) -> (c: (&'static str, u8, String))
    ensures
        c.0 == name,
        c.1 == severity,
        c.2@ == (match health {
            Health::Pending => "wait"@,
            Health::Live => "live"@,
            Health::Stale(age) => age@,
            Health::Error(_) => "err"@,
        }),
{
    (name, severity, chip_text(health))
}

/// The colour a chip's severity reads in: green, amber, red, else the label
/// colour.
pub fn severity_color(severity: u8) -> (c: u32)
    ensures
        c == (if severity == 0 { Theme::NOMINAL } else if severity == 1 { Theme::CAUTION }
            else if severity == 2 { Theme::ALERT } else { Theme::LABEL }),
{
    match severity {
        0 => Theme::NOMINAL,
        1 => Theme::CAUTION,
        2 => Theme::ALERT,
        _ => Theme::LABEL,
    }
}

/// The hint tiers while the satellite search prompt is open.
pub open spec fn sat_prompt_tiers() -> Seq<Seq<char>> {
    seq![
        "type a name or NORAD id · Enter search/track · ↑↓ select · Esc cancel"@,
        "Enter search/track · ↑↓ select · Esc cancel"@,
        "Enter search · Esc cancel"@,
    ]
}

/// The hint tiers while the downlink picker is open.
pub open spec fn tx_prompt_tiers() -> Seq<Seq<char>> {
    seq![
        "↑↓ select · Enter use this downlink · Esc cancel"@,
        "↑↓ select · Enter use · Esc cancel"@,
        "Enter use · Esc cancel"@,
    ]
}

/// The hint tiers while the go-to-time prompt is open.
pub open spec fn time_prompt_tiers() -> Seq<Seq<char>> {
    seq![
        "a time or offset (2026-09-08 04:30 · 04:30 · +90m) · Enter go · Esc cancel"@,
        "e.g. +90m or 2026-09-08 04:30 · Enter go · Esc cancel"@,
        "Enter go · Esc cancel"@,
    ]
}

/// The hint tiers while the reference overlay is open.
pub open spec fn help_open_tiers() -> Seq<Seq<char>> {
    seq!["j/k scroll · ? close"@, "? close"@]
}

/// The status bar's hint tiers: those of whichever prompt owns the keyboard
/// (search, downlink picker, go-to-time, in that order), else the reference
/// overlay's, else the focused panel's key hints.
pub open spec fn status_tiers(sat_input: bool, tx_input: bool, time_input: bool, show_help: bool, focus: Panel) -> Seq<Seq<char>> {
    if sat_input {
        sat_prompt_tiers()
    } else if tx_input {
        tx_prompt_tiers()
    } else if time_input {
        time_prompt_tiers()
    } else if show_help {
        help_open_tiers()
    } else {
        hint_tiers(focus)
    }
}

fn tiers_of(a: &str, b: &str, c: &str) -> (v: Vec<String>)
    ensures
        v@.map_values(|s: String| s@) == seq![a@, b@, c@],
{
    let mut v: Vec<String> = Vec::new();
    v.push(String::from_str(a));
    v.push(String::from_str(b));
    v.push(String::from_str(c));
    proof { assert(v@.map_values(|s: String| s@) =~= seq![a@, b@, c@]); }
    v
}

/// The hint tiers the status bar picks from, widest first: an open prompt's
/// own keys, the reference overlay's, or the focused panel's. Every prompt's
/// tiers get strictly shorter, so the widest that fits is the most complete.
pub fn status_hints(sat_input: bool, tx_input: bool, time_input: bool, show_help: bool, focus: Panel) -> (tiers: Vec<String>)
    ensures
        tiers@.map_values(|s: String| s@) == status_tiers(sat_input, tx_input, time_input, show_help, focus),
        sat_input || tx_input || time_input || show_help ==> forall|i: int| 0 <= i < tiers@.len() - 1
            ==> #[trigger] tiers@[i]@.len() > tiers@[i + 1]@.len(),
{
    proof {
        reveal_strlit("type a name or NORAD id · Enter search/track · ↑↓ select · Esc cancel");
        reveal_strlit("Enter search/track · ↑↓ select · Esc cancel");
        reveal_strlit("Enter search · Esc cancel");
        reveal_strlit("↑↓ select · Enter use this downlink · Esc cancel");
        reveal_strlit("↑↓ select · Enter use · Esc cancel");
        reveal_strlit("Enter use · Esc cancel");
        reveal_strlit("a time or offset (2026-09-08 04:30 · 04:30 · +90m) · Enter go · Esc cancel");
        reveal_strlit("e.g. +90m or 2026-09-08 04:30 · Enter go · Esc cancel");
        reveal_strlit("Enter go · Esc cancel");
        reveal_strlit("j/k scroll · ? close");
        reveal_strlit("? close");
    }
    let tiers = if sat_input {
        tiers_of(
            "type a name or NORAD id · Enter search/track · ↑↓ select · Esc cancel",
            "Enter search/track · ↑↓ select · Esc cancel",
            "Enter search · Esc cancel",
        )
    } else if tx_input {
        tiers_of(
            "↑↓ select · Enter use this downlink · Esc cancel",
            "↑↓ select · Enter use · Esc cancel",
            "Enter use · Esc cancel",
        )
    } else if time_input {
        tiers_of(
            "a time or offset (2026-09-08 04:30 · 04:30 · +90m) · Enter go · Esc cancel",
            "e.g. +90m or 2026-09-08 04:30 · Enter go · Esc cancel",
            "Enter go · Esc cancel",
        )
    } else if show_help {
        let mut v: Vec<String> = Vec::new();
        v.push(String::from_str("j/k scroll · ? close"));
        v.push(String::from_str("? close"));
        proof { assert(v@.map_values(|s: String| s@) =~= help_open_tiers()); }
        v
    } else {
        key_hints(focus)
    };
    proof {
        let m = tiers@.map_values(|s: String| s@);
        assert(sat_prompt_tiers()[0].len() == 69 && sat_prompt_tiers()[1].len() == 43 && sat_prompt_tiers()[2].len() == 25);
        assert(tx_prompt_tiers()[0].len() == 48 && tx_prompt_tiers()[1].len() == 34 && tx_prompt_tiers()[2].len() == 22);
        assert(time_prompt_tiers()[0].len() == 74 && time_prompt_tiers()[1].len() == 53 && time_prompt_tiers()[2].len() == 21);
        assert(help_open_tiers()[0].len() == 20 && help_open_tiers()[1].len() == 7);
        if sat_input || tx_input || time_input || show_help {
            assert forall|i: int| 0 <= i < tiers@.len() - 1 implies #[trigger] tiers@[i]@.len() > tiers@[i + 1]@.len() by {
                assert(m[i] == tiers@[i]@);
                assert(m[i + 1] == tiers@[i + 1]@);
                assert(m == status_tiers(sat_input, tx_input, time_input, show_help, focus));
                if i == 0 {
                } else {
                    assert(i == 1);
                }
            }
        }
    }
    tiers
}

/// Columns the status chips take: a leading space, then for each chip its
/// label and a space, its text and two spaces.
pub open spec fn chips_width(chips: Seq<(&str, u8, String)>) -> nat
    decreases chips.len(),
{
    if chips.len() == 0 {
        1
    } else {
        chips_width(chips.drop_last()) + chips.last().0@.len() + 1 + chips.last().2@.len() + 2
    }
}

/// The width the status chips are given before the key hints get the rest.
/// Measured in characters, not bytes.
pub fn chip_strip_width(chips: &[(&str, u8, String)]) -> (w: u16)
    requires
        chips_width(chips@) <= u16::MAX,
    ensures
        w == chips_width(chips@),
{
    let mut w: u16 = 1;
    let mut i: usize = 0;
    while i < chips.len()
        invariant
            i <= chips.len(),
            chips_width(chips@) <= u16::MAX,
            w == chips_width(chips@.take(i as int)),
        decreases chips.len() - i,
    {
        proof {
            assert(chips@.take(i + 1).drop_last() =~= chips@.take(i as int));
            lemma_chips_width_prefix(chips@, i + 1);
        }
        let add: usize = chips[i].0.unicode_len() + 1 + chips[i].2.unicode_len() + 2;
        w = w + add as u16;
        i = i + 1;
    }
    proof { assert(chips@.take(chips.len() as int) =~= chips@); }
    w
}

/// A prefix of the chips never takes more room than all of them.
pub proof fn lemma_chips_width_prefix(chips: Seq<(&str, u8, String)>, n: int)
    requires
        0 <= n <= chips.len(),
    ensures
        chips_width(chips.take(n)) <= chips_width(chips),
    decreases chips.len() - n,
{
    if n < chips.len() {
        lemma_chips_width_prefix(chips, n + 1);
        assert(chips.take(n + 1).drop_last() =~= chips.take(n));
    } else {
        assert(chips.take(n) =~= chips);
    }
}

} // verus!

verus! {

/// The total length of the entries of `list`.
pub open spec fn total_len(list: Seq<Seq<char>>) -> nat
    decreases list.len(),
{
    if list.len() == 0 { 0 } else { total_len(list.drop_last()) + list.last().len() }
}

pub proof fn lemma_join_len(list: Seq<Seq<char>>, sep: Seq<char>)
    requires
        list.len() >= 1,
    ensures
        join(list, sep).len() == total_len(list) + (list.len() - 1) * sep.len(),
    decreases list.len(),
{
    if list.len() > 1 {
        lemma_join_len(list.drop_last(), sep);
        assert(list.drop_last().len() >= 1);
        assert((list.len() - 1) * sep.len() == (list.len() - 2) * sep.len() + sep.len()) by (nonlinear_arith)
            requires list.len() >= 2;
    } else {
        assert(list.drop_last().len() == 0);
        assert(total_len(list.drop_last()) == 0);
        assert(list.last() == list[0]);
    }
}

pub proof fn lemma_join_ends_with_last(list: Seq<Seq<char>>, sep: Seq<char>)
    requires
        list.len() >= 1,
    ensures
        join(list, sep).len() >= list.last().len(),
        join(list, sep).subrange(join(list, sep).len() - list.last().len(), join(list, sep).len() as int)
            == list.last(),
{
    let j = join(list, sep);
    if list.len() == 1 {
        assert(j.subrange(0, j.len() as int) =~= j);
    } else {
        let head = join(list.drop_last(), sep) + sep;
        assert(j == head + list.last());
        assert(j.subrange(head.len() as int, j.len() as int) =~= list.last());
    }
}

pub proof fn lemma_total_len_add(a: Seq<Seq<char>>, b: Seq<Seq<char>>)
    ensures
        total_len(a + b) == total_len(a) + total_len(b),
    decreases b.len(),
{
    if b.len() == 0 {
        assert(a + b =~= a);
    } else {
        assert((a + b).drop_last() =~= a + b.drop_last());
        lemma_total_len_add(a, b.drop_last());
    }
}

proof fn lemma_global_lens()
    ensures
        total_len(global_keys(0)) == 92,
        total_len(global_keys(1)) == 43,
        total_len(global_keys(2)) == 21,
        total_len(global_keys(3)) == 6,
        global_keys(0).len() == 13,
        global_keys(1).len() == 6,
        global_keys(2).len() == 3,
        global_keys(3).len() == 1,
        global_keys(3) == seq!["? help"@],
{
    reveal_strlit("1-6 focus");
    reveal_strlit("Tab");
    reveal_strlit("m map");
    reveal_strlit("f follow");
    reveal_strlit("p places");
    reveal_strlit("+/- zoom");
    reveal_strlit("s sat");
    reveal_strlit("r refresh");
    reveal_strlit("space pause");
    reveal_strlit(",/. warp");
    reveal_strlit("g goto");
    reveal_strlit("? help");
    reveal_strlit("q quit");
    reveal_with_fuel(total_len, 14);
}

proof fn lemma_panel_key_lens(focus: Panel)
    ensures
        panel_keys(focus).len() == (if focus == Panel::TrackedList { 3int } else if scrollable(focus) { 1int } else { 0int }),
        total_len(panel_keys(focus)) == (if focus == Panel::TrackedList { 29int } else if scrollable(focus) { 10int } else { 0int }),
{
    reveal_strlit("j/k scroll");
    reveal_strlit("Enter track");
    reveal_strlit("d remove");
    reveal_with_fuel(total_len, 4);
    if focus == Panel::TrackedList {
        assert(panel_keys(focus) =~= seq!["j/k scroll"@, "Enter track"@, "d remove"@]);
    } else if scrollable(focus) {
        assert(panel_keys(focus) =~= seq!["j/k scroll"@]);
    } else {
        assert(panel_keys(focus) =~= Seq::<Seq<char>>::empty());
    }
}

/// Whether `pat` occurs in `t` as a contiguous run.
pub open spec fn has_substring(t: Seq<char>, pat: Seq<char>) -> bool {
    exists|i: int| 0 <= i && i + pat.len() <= t.len() && #[trigger] t.subrange(i, i + pat.len()) == pat
}

pub proof fn lemma_join_has_entry(list: Seq<Seq<char>>, sep: Seq<char>, m: int)
    requires
        0 <= m < list.len(),
    ensures
        has_substring(join(list, sep), list[m]),
    decreases list.len(),
{
    let j = join(list, sep);
    if m == list.len() - 1 {
        lemma_join_ends_with_last(list, sep);
        let i = j.len() - list.last().len();
        assert(j.subrange(i, i + list[m].len()) == list[m]);
    } else {
        lemma_join_has_entry(list.drop_last(), sep, m);
        let inner = join(list.drop_last(), sep);
        let i = choose|i: int| 0 <= i && i + list[m].len() <= inner.len() && #[trigger] inner.subrange(i, i + list[m].len()) == list[m];
        assert(j == inner + sep + list.last());
        assert(j.subrange(i, i + list[m].len()) =~= inner.subrange(i, i + list[m].len()));
    }
}

proof fn lemma_tier_len(focus: Panel, k: int)
    requires
        0 <= k < 4,
    ensures
        hint_tier(focus, k).len() == total_len(panel_keys(focus)) + total_len(global_keys(k))
            + (panel_keys(focus).len() + global_keys(k).len() - 1) * 3,
        has_substring(hint_tier(focus, k), "? help"@),
{
    reveal_strlit(" · ");
    lemma_global_lens();
    let list = panel_keys(focus) + global_keys(k);
    lemma_join_len(list, hint_sep());
    lemma_total_len_add(panel_keys(focus), global_keys(k));
    let at: int = if k == 0 { 11 } else if k == 1 { 4 } else if k == 2 { 1 } else { 0 };
    assert(global_keys(k)[at] == "? help"@);
    assert(list[panel_keys(focus).len() + at] == "? help"@);
    lemma_join_has_entry(list, hint_sep(), panel_keys(focus).len() + at);
}

/// Every hint tier carries `? help`, and each tier is strictly narrower
/// than the one before it, so stepping down the ladder never widens the
/// hint and never loses the way into the help.
pub proof fn lemma_hint_tiers_shrink_and_keep_help(focus: Panel)
    ensures
        hint_tiers(focus).len() >= 4,
        forall|j: int| 0 <= j < hint_tiers(focus).len() - 1 ==>
            (#[trigger] hint_tiers(focus)[j]).len() > hint_tiers(focus)[j + 1].len(),
        forall|j: int| 0 <= j < hint_tiers(focus).len() ==>
            has_substring(#[trigger] hint_tiers(focus)[j], "? help"@),
{
    reveal_strlit("? help");
    lemma_global_lens();
    lemma_panel_key_lens(focus);
    lemma_tier_len(focus, 0);
    lemma_tier_len(focus, 1);
    lemma_tier_len(focus, 2);
    lemma_tier_len(focus, 3);
    let help: Seq<char> = "? help"@;
    assert(help.subrange(0, 6) =~= help);
    if panel_keys(focus).len() == 0 {
        assert(panel_keys(focus) + global_keys(3) =~= seq!["? help"@]);
        assert(hint_tier(focus, 3) == help);
    } else {
        assert(hint_tier(focus, 3).len() > 6);
        assert(hint_tier(focus, 3) != help);
    }
}

} // verus!
