//! Layout, text-fitting and hit-testing logic of the nadir terminal dashboard,
//! with the rules each panel follows stated as contracts.

pub mod text;
pub mod theme;
pub mod panel;
pub mod layout;
pub mod hit;
pub mod status;
pub mod clock;
pub mod launches;
pub mod fmt;
pub mod passes;
pub mod telemetry;
pub mod splash;
pub mod map;
pub mod help;
pub mod title;
pub mod popup;
pub mod scroll;
pub mod sky;
pub mod tracked_list;
pub mod weather;
pub mod anim;
pub mod egg;
pub mod places;
pub mod stars;
