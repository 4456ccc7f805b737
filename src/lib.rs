//! State tracking for a tiling compositor's workspaces and windows, and the
//! small status widgets shown next to it.

pub mod battery_display;
pub mod clock;
pub mod hyprland;
pub mod text;
