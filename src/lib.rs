//! Resolution of the style configuration for a diff renderer: which theme is
//! active, whether the appearance is light or dark, and the background and
//! foreground overrides of removed and added lines.

pub mod color;
pub mod style;
pub mod theme;
pub mod cli;
pub mod config;
