//! The boot splash's rules: the console readout it shows (and its honesty
//! rule: a field not yet resolved reads `…`, never a fabricated value), how
//! many of those rows have revealed at a given moment, and how many
//! background stars the frame is scattered with.

use vstd::prelude::*;
use vstd::string::*;


use crate::layout::Rect;
use crate::panel::Station;
use crate::text::{decimal, push_char, push_decimal};

verus! {

/// How wide the splash's dotted leader column is, each label padded up to it.
pub const BOOT_LEADER_WIDTH: usize = 20;

/// The tracked element set as the splash names it: the object's name and its
/// epoch, already written out.
pub struct ElementSetInfo {
    pub name: String,
    pub epoch: String,
}

/// `n` written with at least three digits.
pub open spec fn pad3(n: nat) -> Seq<char> {
    if n < 10 { "00"@ + decimal(n) } else if n < 100 { "0"@ + decimal(n) } else { decimal(n) }
}

/// A coordinate of `mdeg` thousandths of a degree as unsigned degrees to
/// three decimals followed by its hemisphere letter (`pos` when not
/// negative, `neg` otherwise).
pub open spec fn coord_text(mdeg: int, pos: char, neg: char) -> Seq<char> {
    let a: nat = if mdeg < 0 { (-mdeg) as nat } else { mdeg as nat };
    decimal(a / 1000) + "."@ + pad3(a % 1000) + seq![if mdeg >= 0 { pos } else { neg }]
}

/// The ground-station row's value: `48.137N 11.575E`, or `not configured`.
pub open spec fn station_line(station: Option<Station>) -> Seq<char> {
    match station {
        Some(s) => coord_text(s.lat_mdeg as int, 'N', 'S') + " "@ + coord_text(s.lon_mdeg as int, 'E', 'W'),
        None => "not configured"@,
    }
}

fn push_pad3(s: &mut String, n: u64)
    ensures
        final(s)@ == old(s)@ + pad3(n as nat),
{
    if n < 10 {
        s.append("00");
    } else if n < 100 {
        s.append("0");
    }
    push_decimal(s, n);
}

fn push_coord(s: &mut String, mdeg: i32, pos: char, neg: char)
    ensures
        final(s)@ == old(s)@ + coord_text(mdeg as int, pos, neg),
{
    let a: u64 = if mdeg < 0 { (-(mdeg as i64)) as u64 } else { mdeg as u64 };
    let ghost before = s@;
    push_decimal(s, a / 1000);
    s.append(".");
    push_pad3(s, a % 1000);
    push_char(s, if mdeg >= 0 { pos } else { neg });
    proof {
        assert(s@ =~= before + coord_text(mdeg as int, pos, neg));
    }
}

/// The splash's rows in reveal order, as `(label, value)`.
pub open spec fn boot_rows(station: Option<Station>, tle: Option<(Seq<char>, Seq<char>)>, sat: u64, offline: bool) -> Seq<(Seq<char>, Seq<char>)> {
    let name = match tle { Some(t) => t.0, None => "…"@ };
    let epoch = match tle { Some(t) => t.1, None => "…"@ };
    let feeds = if offline { "offline — cache only"@ } else { "celestrak · swpc · launch library"@ };
    seq![
        ("ground station"@, station_line(station)),
        ("element set"@, name + " · "@ + decimal(sat as nat)),
        ("epoch"@, epoch),
        ("propagator"@, "SGP4/SDP4  local, no network"@),
        ("frames"@, "TEME → ECEF → WGS84"@),
        ("feeds"@, feeds),
    ]
}

/// The splash's content, in reveal order, as plain `(label, value)` text.
/// It mirrors what the dashboard is about to show: the configured ground
/// station, the NORAD id (known from the start), and the element set's name
/// and epoch only once it has arrived, `…` until then.
pub fn boot_lines(station: Option<Station>, tle: Option<&ElementSetInfo>, sat: u64, offline: bool)
    -> (lines: Vec<(&'static str, String)>)
    ensures
        lines@.map_values(|l: (&'static str, String)| (l.0@, l.1@)) == boot_rows(
            station,
            match tle { Some(t) => Some((t.name@, t.epoch@)), None => None },
            sat,
            offline,
        ),
{
    let station_value = match station {
        Some(s) => {
            let mut v = String::new();
            push_coord(&mut v, s.lat_mdeg, 'N', 'S');
            v.append(" ");
            push_coord(&mut v, s.lon_mdeg, 'E', 'W');
            v
        },
        None => String::from_str("not configured"),
    };
    let mut element = match tle {
        Some(t) => t.name.clone(),
        None => String::from_str("…"),
    };
    element.append(" · ");
    push_decimal(&mut element, sat);
    let epoch = match tle {
        Some(t) => t.epoch.clone(),
        None => String::from_str("…"),
    };
    let feeds = if offline {
        String::from_str("offline — cache only")
    } else {
        String::from_str("celestrak · swpc · launch library")
    };
    let mut lines: Vec<(&'static str, String)> = Vec::new();
    lines.push(("ground station", station_value));
    lines.push(("element set", element));
    lines.push(("epoch", epoch));
    lines.push(("propagator", String::from_str("SGP4/SDP4  local, no network")));
    lines.push(("frames", String::from_str("TEME → ECEF → WGS84")));
    lines.push(("feeds", feeds));
    proof {
        let t = match tle { Some(t) => Some((t.name@, t.epoch@)), None => None };
        assert(lines@.map_values(|l: (&'static str, String)| (l.0@, l.1@)) =~= boot_rows(station, t, sat, offline));
    }
    lines
}

/// How many of `total` rows show `uptime` into a `splash`-long splash (both
/// in one unit):
/// the rows reveal across the first third of the splash, at least one from
/// the very first frame, all of them from the one-third mark on.
pub open spec fn reveal_rows(uptime: nat, splash: nat, total: nat) -> nat {
    if total == 0 {
        0
    } else if 3 * uptime >= splash {
        if splash == 0 && uptime == 0 { 1 } else { total }
    } else {
        let shown: int = (3 * uptime * total + splash - 1) as int / splash as int;
        if shown < 1 { 1 } else { shown as nat }
    }
}

/// How many of `total` rows should be visible `uptime_ns` nanoseconds into a
/// `splash_ns`-long boot screen: the rows reveal across the first third
/// only, reaching `total` at a third of the splash and holding there, with
/// at least one row showing from the very first frame.
pub fn splash_reveal_count(uptime_ns: u64, splash_ns: u64, total: usize) -> (n: usize)
    ensures
        n == reveal_rows(uptime_ns as nat, splash_ns as nat, total as nat),
        total > 0 ==> 1 <= n <= total,
        total == 0 ==> n == 0,
{
    if total == 0 {
        return 0;
    }
    let u = uptime_ns as u128;
    let s = splash_ns as u128;
    if 3 * u >= s {
        if s == 0 && u == 0 { 1 } else { total }
    } else {
        let t = total as u128;
        proof {
            assert(3 * u * t < s * t) by (nonlinear_arith)
                requires 3 * u < s, t > 0;
            assert(s * t <= 0xffff_ffff_ffff_ffff * 0xffff_ffff_ffff_ffff) by (nonlinear_arith)
                requires s <= 0xffff_ffff_ffff_ffff, t <= 0xffff_ffff_ffff_ffff;
            assert(((3 * u * t + s - 1) as int) / (s as int) <= t as int) by (nonlinear_arith)
                requires 3 * u < s, t > 0, s > 0;
        }
        let shown = (3 * u * t + s - 1) / s;
        if shown < 1 { 1 } else { shown as usize }
    }
}

/// The number of revealed rows never falls as uptime grows: whatever
/// [`splash_reveal_count`] shows at one instant it still shows later.
pub proof fn lemma_reveal_is_monotonic(u1: nat, u2: nat, splash: nat, total: nat)
    requires
        u1 <= u2,
    ensures
        reveal_rows(u1, splash, total) <= reveal_rows(u2, splash, total),
{
    if total > 0 && 3 * u2 < splash {
        assert(3 * u1 * total <= 3 * u2 * total) by (nonlinear_arith)
            requires u1 <= u2;
        vstd::arithmetic::div_mod::lemma_div_is_ordered(
            (3 * u1 * total + splash - 1) as int,
            (3 * u2 * total + splash - 1) as int,
            splash as int,
        );
    } else if total > 0 && 3 * u1 < splash {
        assert(((3 * u1 * total + splash - 1) as int) / (splash as int) <= total as int) by (nonlinear_arith)
            requires 3 * u1 < splash, total > 0;
    }
}

/// How many background stars the splash scatters over `area`: one per fifty
/// cells, clamped to between 40 and 260.
pub fn star_count(area: Rect) -> (n: usize)
    ensures
        n == (if area.width * area.height / 50 < 40 { 40 } else if area.width * area.height / 50 > 260 { 260 }
            else { area.width * area.height / 50 }),
{
    let w = area.width as u32;
    let h = area.height as u32;
    assert(w * h <= 65535 * 65535) by (nonlinear_arith)
        requires w <= 65535, h <= 65535;
    let cells = w * h / 50;
    if cells < 40 { 40 } else if cells > 260 { 260 } else { cells as usize }
}

/// One readout row below the splash's header, as shown: a label, its
/// dotted leader and its value once revealed, a blank line before that.
#[derive(Clone, Debug, PartialEq, Eq)]
pub enum BootRow {
    Blank,
    Row { label: String, leader: String, value: String },
}

/// The dotted leader after a label `len` characters long.
pub open spec fn leader_dots(len: nat) -> Seq<char> {
    Seq::new(if len < BOOT_LEADER_WIDTH { (BOOT_LEADER_WIDTH - len) as nat } else { 0 }, |i: int| '.')
}

/// Row `i` of the readout with `revealed` rows revealed: the label indented
/// two columns, its leader and the value, or nothing yet.
pub open spec fn boot_row_view(line: (Seq<char>, Seq<char>), i: int, revealed: nat) -> Option<(Seq<char>, Seq<char>, Seq<char>)> {
    if i < revealed {
        Some(("  "@ + line.0 + " "@, leader_dots(line.0.len()), " "@ + line.1))
    } else {
        None
    }
}

/// A `BootRow` by its view.
pub open spec fn boot_row_of(r: BootRow) -> Option<(Seq<char>, Seq<char>, Seq<char>)> {
    match r {
        BootRow::Blank => None,
        BootRow::Row { label, leader, value } => Some((label@, leader@, value@)),
    }
}

/// The readout rows for `lines` with the first `revealed` filled in. There
/// is one row per line whatever `revealed` is, so the splash box keeps its
/// size as rows reveal.
pub fn boot_body(lines: &[(&'static str, String)], revealed: usize) -> (rows: Vec<BootRow>)
    ensures
        rows@.len() == lines@.len(),
        forall|i: int| 0 <= i < rows@.len() ==> boot_row_of(#[trigger] rows@[i])
            == boot_row_view((lines@[i].0@, lines@[i].1@), i, revealed as nat),
{
    let mut rows: Vec<BootRow> = Vec::new();
    let mut i: usize = 0;
    while i < lines.len()
        invariant
            i <= lines@.len(),
            rows@.len() == i,
            forall|k: int| 0 <= k < i ==> boot_row_of(#[trigger] rows@[k])
                == boot_row_view((lines@[k].0@, lines@[k].1@), k, revealed as nat),
        decreases lines.len() - i,
    {
        if i < revealed {
            let (l, v) = (lines[i].0, &lines[i].1);
            let mut label = String::from_str("  ");
            label.append(l);
            label.append(" ");
            let n = l.unicode_len();
            let mut leader = String::new();
            let fill: usize = if n < BOOT_LEADER_WIDTH { BOOT_LEADER_WIDTH - n } else { 0 };
            let mut k: usize = 0;
            while k < fill
                invariant
                    k <= fill,
                    leader@ == Seq::new(k as nat, |j: int| '.'),
                decreases fill - k,
            {
                push_char(&mut leader, '.');
                k = k + 1;
                proof { assert(leader@ =~= Seq::new(k as nat, |j: int| '.')); }
            }
            let mut value = String::from_str(" ");
            value.append(v.as_str());
            rows.push(BootRow::Row { label, leader, value });
        } else {
            rows.push(BootRow::Blank);
        }
        i = i + 1;
    }
    rows
}

/// Revealing more rows never moves or reshapes the rows already revealed:
/// the readout has as many rows at every step, and a row, once revealed,
/// reads the same from then on.
pub proof fn lemma_reveal_keeps_rows_in_place(lines: Seq<(Seq<char>, Seq<char>)>, i: int, r1: nat, r2: nat)
    requires
        0 <= i < lines.len(),
        r1 <= r2,
        i < r1,
    ensures
        boot_row_view(lines[i], i, r1) == boot_row_view(lines[i], i, r2),
        boot_row_view(lines[i], i, r1) is Some,
{
}

} // verus!
