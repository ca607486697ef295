//! The SPACE WEATHER panel's storm scales: NOAA's R, S and G levels, each
//! coloured by how severe it reads.

use vstd::prelude::*;
use vstd::string::*;

use crate::text::{decimal, push_decimal};
use crate::theme::Theme;

verus! {

/// The colour of a storm-scale level: green at 0, amber at 1 and 2, red
/// from 3 up.
pub open spec fn scale_color(level: u8) -> u32 {
    if level == 0 {
        Theme::NOMINAL
    } else if level <= 2 {
        Theme::CAUTION
    } else {
        Theme::ALERT
    }
}

/// One storm scale as the STORM row shows it, `G2`, in its level's colour.
pub fn storm_scale(letter: &str, level: u8) -> (r: (String, u32))
    ensures
        r.0@ == letter@ + decimal(level as nat),
        r.1 == scale_color(level),
{
    let mut t = String::from_str(letter);
    push_decimal(&mut t, level as u64);
    let c = match level {
        0 => Theme::NOMINAL,
        1 | 2 => Theme::CAUTION,
        _ => Theme::ALERT,
    };
    (t, c)
}

} // verus!
