//! The dashboard palette: a calm mission-control console, cyan structure,
//! green nominal, amber caution, red alert, on the terminal's own background.

use vstd::prelude::*;

verus! {

/// The palette, each colour a packed `0xRRGGBB` value. Every colour the panels use is named here, so two panels
/// that mean the same thing can never drift apart in hue.
pub struct Theme;

impl Theme {
    pub const FRAME: u32 = 0x465A64; // rgb(70, 90, 100)
    pub const FRAME_FOCUS: u32 = 0x78DCEB; // rgb(120, 220, 235)
    pub const LABEL: u32 = 0x8296A0; // rgb(130, 150, 160)
    pub const VALUE: u32 = 0xDCE6EB; // rgb(220, 230, 235)
    pub const NOMINAL: u32 = 0x78E696; // rgb(120, 230, 150)
    pub const CAUTION: u32 = 0xF0C878; // rgb(240, 200, 120)
    pub const ALERT: u32 = 0xF07878; // rgb(240, 120, 120)
    pub const ACCENT: u32 = 0x78C8F0; // rgb(120, 200, 240)
    pub const SAT: u32 = 0xFFF096; // rgb(255, 240, 150)
    /// The bright half of the then/now pair: the ground track ahead of the
    /// satellite on the map, the sunlit stretch of a pass on the sky plot.
    pub const TRACK_FUTURE: u32 = 0x78C8F0; // rgb(120, 200, 240)
    /// The receding half of the same pair.
    pub const TRACK_PAST: u32 = 0x466478; // rgb(70, 100, 120)
    /// The visibility footprint, in the one lane the map has left.
    pub const FOOTPRINT: u32 = 0xAF9BEB; // rgb(175, 155, 235)
    pub const NIGHT: u32 = 0x161A2A; // rgb(22, 26, 42)
    pub const TWILIGHT: u32 = 0x262C42; // rgb(38, 44, 66)
    pub const COAST: u32 = 0x506E78; // rgb(80, 110, 120)
    pub const STATION: u32 = 0x78E696; // rgb(120, 230, 150)
    pub const PAD: u32 = 0xEB96D7; // rgb(235, 150, 215)
    /// Reference scenery (cities, stars, elevation rings): a neutral slate a
    /// notch below `LABEL`.
    pub const PLACE: u32 = 0x697882; // rgb(105, 120, 130)
}

} // verus!
