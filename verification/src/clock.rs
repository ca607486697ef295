//! The title bar's clock furniture: the transport marker for the simulated
//! clock, and the compact signed offset from wall time shown while the clock
//! is scrubbed.

use vstd::prelude::*;
use vstd::string::*;

use crate::text::{decimal, push_char, push_decimal};

verus! {

/// What the simulated clock is doing relative to wall time.
#[derive(Clone, Copy, Debug, PartialEq, Eq, Structural)]
pub enum ClockState {
    /// Locked to wall time.
    Live,
    /// Running at 1× but detached from wall time.
    Drifted,
    Paused,
    /// Running at this signed multiple of real time (never 0 or 1).
    Warp(i64),
}

/// The transport marker text for `state` (see [`clock_marker`]).
pub open spec fn marker_text(state: ClockState) -> Seq<char> {
    match state {
        ClockState::Live => "▸ "@,
        ClockState::Drifted => "▸ "@,
        ClockState::Paused => "‖ "@,
        ClockState::Warp(r) => if r == -1 {
            "◂ "@
        } else if r <= -2 {
            "◂◂"@ + decimal((-r) as nat) + "x "@
        } else {
            "▸▸"@ + decimal(r as nat) + "x "@
        },
    }
}

/// The title-bar transport marker for the simulated clock, and whether the
/// clock is locked to wall time (which colours it and the clock green rather
/// than amber). Single-width glyphs only, since the title bar measures
/// everything in characters.
pub fn clock_marker(state: ClockState) -> (r: (String, bool))
    requires
        state != ClockState::Warp(i64::MIN),
    ensures
        r.0@ == marker_text(state),
        r.1 == (state == ClockState::Live),
{
    match state {
        ClockState::Live => (String::from_str("▸ "), true),
        ClockState::Drifted => (String::from_str("▸ "), false),
        ClockState::Paused => (String::from_str("‖ "), false),
        ClockState::Warp(r) => {
            if r == -1 {
                (String::from_str("◂ "), false)
            } else if r <= -2 {
                let mut s = String::from_str("◂◂");
                push_decimal(&mut s, (-r) as u64);
                s.append("x ");
                (s, false)
            } else {
                let mut s = String::from_str("▸▸");
                push_decimal(&mut s, r as u64);
                s.append("x ");
                (s, false)
            }
        },
    }
}

/// The unit-suffixed body of an offset of `secs` (positive) seconds: the two
/// most significant of days, hours, minutes and seconds, the finer dropped
/// when it is zero.
pub open spec fn offset_body(secs: nat) -> Seq<char> {
    let days = secs / 86_400;
    let hours = secs / 3_600 % 24;
    let mins = secs / 60 % 60;
    let s = secs % 60;
    if days > 0 {
        if hours > 0 { decimal(days) + "d"@ + decimal(hours) + "h"@ } else { decimal(days) + "d"@ }
    } else if hours > 0 {
        if mins > 0 { decimal(hours) + "h"@ + decimal(mins) + "m"@ } else { decimal(hours) + "h"@ }
    } else if mins > 0 {
        if s > 0 { decimal(mins) + "m"@ + decimal(s) + "s"@ } else { decimal(mins) + "m"@ }
    } else {
        decimal(s) + "s"@
    }
}

/// The clock offset text for an offset of `secs` whole seconds: empty for
/// zero, else `Δ`, the sign and [`offset_body`].
pub open spec fn offset_text(secs: int) -> Seq<char> {
    if secs == 0 {
        Seq::empty()
    } else {
        let sign = if secs < 0 { '-' } else { '+' };
        seq!['Δ', sign] + offset_body(if secs < 0 { (-secs) as nat } else { secs as nat })
    }
}

/// The offset names the two most significant units it has, the finer only
/// when it is not zero, with no padding: a span `a` seconds long (`a` the
/// offset's size) reads `{a}s` under a minute, `{m}m{s}s` or `{m}m` under an
/// hour, `{h}h{m}m` or `{h}h` under a day, and `{d}d{h}h` or `{d}d` beyond,
/// after `Δ` and the sign.
pub proof fn lemma_offset_names_its_two_largest_units(secs: int)
    requires
        secs != 0,
    ensures
        ({
            let a: int = if secs < 0 { -secs } else { secs };
            let head = seq!['Δ', if secs < 0 { '-' } else { '+' }];
            let (d, h, m, s) = (a / 86_400, a % 86_400 / 3_600, a % 3_600 / 60, a % 60);
            &&& a < 60 ==> offset_text(secs) == head + decimal(a as nat) + "s"@
            &&& 60 <= a < 3_600 && s > 0 ==> offset_text(secs) == head + decimal(m as nat) + "m"@ + decimal(s as nat) + "s"@
            &&& 60 <= a < 3_600 && s == 0 ==> offset_text(secs) == head + decimal(m as nat) + "m"@
            &&& 3_600 <= a < 86_400 && m > 0 ==> offset_text(secs) == head + decimal(h as nat) + "h"@ + decimal(m as nat) + "m"@
            &&& 3_600 <= a < 86_400 && m == 0 ==> offset_text(secs) == head + decimal(h as nat) + "h"@
            &&& 86_400 <= a && h > 0 ==> offset_text(secs) == head + decimal(d as nat) + "d"@ + decimal(h as nat) + "h"@
            &&& 86_400 <= a && h == 0 ==> offset_text(secs) == head + decimal(d as nat) + "d"@
        }),
{
    let a: nat = if secs < 0 { (-secs) as nat } else { secs as nat };
    assert(a / 3_600 % 24 == a % 86_400 / 3_600) by (nonlinear_arith)
        requires a >= 0;
    assert(a / 60 % 60 == a % 3_600 / 60) by (nonlinear_arith)
        requires a >= 0;
    if a < 86_400 {
        assert(a % 86_400 == a);
        assert(a / 86_400 == 0);
    }
    if a < 3_600 {
        assert(a % 3_600 == a);
        assert(a / 3_600 == 0);
    }
    if a < 60 {
        assert(a / 60 == 0);
    }
}

/// Turning the offset around flips only its sign: the text is empty exactly
/// at zero, otherwise starts `Δ+` ahead of wall time and `Δ-` behind it,
/// and the text for `-secs` is the text for `secs` with that one sign
/// character swapped.
pub proof fn lemma_negated_offset_flips_only_the_sign(secs: int)
    ensures
        (offset_text(secs).len() == 0) == (secs == 0),
        secs != 0 ==> offset_text(secs).len() >= 2 && offset_text(secs)[0] == 'Δ'
            && offset_text(secs)[1] == (if secs < 0 { '-' } else { '+' }),
        secs != 0 ==> offset_text(-secs) == offset_text(secs).update(1, if secs < 0 { '+' } else { '-' }),
{
    if secs != 0 {
        let a: nat = if secs < 0 { (-secs) as nat } else { secs as nat };
        let b: nat = if -secs < 0 { secs as nat } else { (-secs) as nat };
        assert(a == b);
        assert(offset_text(-secs) =~= offset_text(secs).update(1, if secs < 0 { '+' } else { '-' }));
    }
}

/// The clock's offset from wall time, compact and signed: `Δ+2h14m`,
/// `Δ-45m`, `Δ+3d`, `Δ+40d`; empty for a sub-second offset. `secs` is the
/// offset's whole seconds (chrono's `num_seconds`).
pub fn fmt_clock_offset(secs: i64) -> (s: String)
    requires
        secs > i64::MIN,
    ensures
        s@ == offset_text(secs as int),
{
    if secs == 0 {
        return String::new();
    }
    let a: u64 = if secs < 0 { (-secs) as u64 } else { secs as u64 };
    let mut s = String::new();
    push_char(&mut s, 'Δ');
    push_char(&mut s, if secs < 0 { '-' } else { '+' });
    let days = a / 86_400;
    let hours = a / 3_600 % 24;
    let mins = a / 60 % 60;
    let sec = a % 60;
    if days > 0 {
        push_decimal(&mut s, days);
        s.append("d");
        if hours > 0 {
            push_decimal(&mut s, hours);
            s.append("h");
        }
    } else if hours > 0 {
        push_decimal(&mut s, hours);
        s.append("h");
        if mins > 0 {
            push_decimal(&mut s, mins);
            s.append("m");
        }
    } else if mins > 0 {
        push_decimal(&mut s, mins);
        s.append("m");
        if sec > 0 {
            push_decimal(&mut s, sec);
            s.append("s");
        }
    } else {
        push_decimal(&mut s, sec);
        s.append("s");
    }
    proof {
        let sign = if secs < 0 { '-' } else { '+' };
        assert(s@ =~= seq!['Δ', sign] + offset_body(a as nat));
    }
    s
}

} // verus!
