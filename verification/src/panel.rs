//! The six focusable panels, and the slice of application state the panels'
//! layout decisions read.

use vstd::prelude::*;

use crate::theme::Theme;

verus! {

/// A focusable panel, in the order of its focus key `1`–`6`.
#[derive(Clone, Copy, Debug, PartialEq, Eq, Hash, Structural)]
pub enum Panel {
    MapView,
    TrackedList,
    Telemetry,
    Passes,
    Weather,
    Launches,
}

impl Panel {
    /// Every panel, in focus-key order.
    pub const ALL: [Panel; 6] = [
        Panel::MapView,
        Panel::TrackedList,
        Panel::Telemetry,
        Panel::Passes,
        Panel::Weather,
        Panel::Launches,
    ];
}

impl Panel {
    /// The panel's focus key.
    pub fn key(self) -> (c: char)
        ensures
            c == (match self {
                Panel::MapView => '1',
                Panel::TrackedList => '2',
                Panel::Telemetry => '3',
                Panel::Passes => '4',
                Panel::Weather => '5',
                Panel::Launches => '6',
            }),
    {
        match self {
            Panel::MapView => '1',
            Panel::TrackedList => '2',
            Panel::Telemetry => '3',
            Panel::Passes => '4',
            Panel::Weather => '5',
            Panel::Launches => '6',
        }
    }
}

/// A ground station's position in thousandths of a degree, north and east
/// positive.
#[derive(Clone, Copy, Debug, PartialEq, Eq, Structural)]
pub struct Station {
    pub lat_mdeg: i32,
    pub lon_mdeg: i32,
}

impl Station {
    pub fn new(lat_mdeg: i32, lon_mdeg: i32) -> (s: Station)
        ensures
            s.lat_mdeg == lat_mdeg,
            s.lon_mdeg == lon_mdeg,
    {
        Station { lat_mdeg, lon_mdeg }
    }
}

/// The application state the panels' layout decisions read: which panel has
/// focus, where the focused list's highlight sits, and the configured ground
/// station, if any.
pub struct App {
    pub focus: Panel,
    pub list_pos: usize,
    pub ground_station: Option<Station>,
}

/// Whether `panel` holds focus.
pub fn is_focused(app: &App, panel: Panel) -> (b: bool)
    ensures
        b == (app.focus == panel),
{
    app.focus == panel
}

/// The colours a panel's frame is drawn in: its border, and its title after
/// the focus key. Both brighten while the panel holds focus.
pub fn frame_colors(focused: bool) -> (c: (u32, u32))
    ensures
        c == (if focused { (Theme::FRAME_FOCUS, Theme::FRAME_FOCUS) } else { (Theme::FRAME, Theme::LABEL) }),
{
    if focused {
        (Theme::FRAME_FOCUS, Theme::FRAME_FOCUS)
    } else {
        (Theme::FRAME, Theme::LABEL)
    }
}

} // verus!
