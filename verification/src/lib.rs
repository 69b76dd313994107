//! Theming for Omarchy applications: the active theme's colors, parsed, completed and handed out
//! as the roles an interface plays.

pub mod api;
pub mod color;
pub mod modes;
pub mod theme;

pub use api::{Palette, PaletteSeed};
pub use color::{Level, Ramp, Role, Roles};
pub use modes::{represent, Representation};
pub use theme::{Mode, Rgb, Theme, ThemeColors, ThemeError};
