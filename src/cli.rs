use vstd::prelude::*;

verus! {

/// The options that decide the style configuration, as given by the user.
#[derive(Clone, Debug)]
pub struct Opt {
    /// The theme to use; `none` (in any case) selects no theme.
    pub theme: Option<String>,
    /// A light appearance is requested.
    pub light: bool,
    /// A dark appearance is requested.
    pub dark: bool,
    /// Background of removed lines.
    pub minus_color: Option<String>,
    /// Background of changed regions within removed lines.
    pub minus_emph_color: Option<String>,
    /// Background of added lines.
    pub plus_color: Option<String>,
    /// Background of changed regions within added lines.
    pub plus_emph_color: Option<String>,
    /// Removed lines keep their highlighted foreground.
    pub highlight_removed: bool,
    /// The width of a tab stop.
    pub tab_width: usize,
}

} // verus!
