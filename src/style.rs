use vstd::prelude::*;
use syntect::highlighting::FontStyle;
use crate::color::{Color, color_from_arg, opaque, resolved_color, text_of};

verus! {

#[verifier::external_type_specification]
#[verifier::external_body]
pub struct ExFontStyle(syntect::highlighting::FontStyle);

/// Relies on syntect's `FontStyle::empty`: the set of no font flags.
pub assume_specification[ syntect::highlighting::FontStyle::empty ]() -> FontStyle;

/// A change to apply over a base style; a field that is `None` keeps the
/// base style's value.
#[derive(Clone, Copy, Debug)]
pub struct StyleModifier {
    pub foreground: Option<Color>,
    pub background: Option<Color>,
    pub font_style: Option<FontStyle>,
}

/// A complete style.
#[derive(Clone, Copy, Debug)]
pub struct Style {
    pub foreground: Color,
    pub background: Color,
    pub font_style: FontStyle,
}

/// The four kinds of highlighted diff lines.
#[derive(Clone, Copy, Debug, PartialEq, Eq, Structural)]
pub enum Category {
    /// A removed line.
    Minus,
    /// A changed region within a removed line.
    MinusEmph,
    /// An added line.
    Plus,
    /// A changed region within an added line.
    PlusEmph,
}

impl Category {
    pub open spec fn is_removed(self) -> bool {
        self is Minus || self is MinusEmph
    }
}

/// The default background of each category, under a light or a dark theme.
pub open spec fn default_background(category: Category, light: bool) -> Color {
    match (category, light) {
        (Category::Minus, true) => opaque(0xff, 0xe0, 0xe0),
        (Category::MinusEmph, true) => opaque(0xff, 0xc0, 0xc0),
        (Category::Plus, true) => opaque(0xd0, 0xff, 0xd0),
        (Category::PlusEmph, true) => opaque(0xa0, 0xef, 0xa0),
        (Category::Minus, false) => opaque(0x3f, 0x00, 0x01),
        (Category::MinusEmph, false) => opaque(0x90, 0x10, 0x11),
        (Category::Plus, false) => opaque(0x01, 0x3f, 0x01),
        (Category::PlusEmph, false) => opaque(0x00, 0x60, 0x00),
    }
}

/// The color that stands for "emit no color".
pub open spec fn no_color_value() -> Color {
    opaque(0, 0, 0)
}

/// The color that stands for "emit no color".
pub fn no_color() -> (c: Color)
    ensures
        c == no_color_value(),
{
    Color { r: 0, g: 0, b: 0, a: 0xff }
}

/// The default background of `category` under a light (`light`) or dark theme.
pub fn theme_default(category: Category, light: bool) -> (c: Color)
    ensures
        c == default_background(category, light),
{
    if light {
        match category {
            Category::Minus => Color { r: 0xff, g: 0xe0, b: 0xe0, a: 0xff },
            Category::MinusEmph => Color { r: 0xff, g: 0xc0, b: 0xc0, a: 0xff },
            Category::Plus => Color { r: 0xd0, g: 0xff, b: 0xd0, a: 0xff },
            Category::PlusEmph => Color { r: 0xa0, g: 0xef, b: 0xa0, a: 0xff },
        }
    } else {
        match category {
            Category::Minus => Color { r: 0x3f, g: 0x00, b: 0x01, a: 0xff },
            Category::MinusEmph => Color { r: 0x90, g: 0x10, b: 0x11, a: 0xff },
            Category::Plus => Color { r: 0x01, g: 0x3f, b: 0x01, a: 0xff },
            Category::PlusEmph => Color { r: 0x00, g: 0x60, b: 0x00, a: 0xff },
        }
    }
}

/// The foreground override: the no-color sentinel when the foreground is
/// suppressed, else none (the highlighted foreground is kept).
pub open spec fn foreground_override(suppress_foreground: bool) -> Option<Color> {
    if suppress_foreground {
        Some(no_color_value())
    } else {
        None
    }
}

/// Builds the modifier of one category: its background is the override when
/// that denotes a color, else the default for the appearance; its foreground
/// is suppressed on request; its font style is left alone.
pub fn build_style_modifier(
    user_color: Option<&String>,
    is_light_theme: bool,
    light_theme_default: Color,
    dark_theme_default: Color,
    suppress_foreground: bool,
) -> (m: StyleModifier)
    ensures
        m.background == Some(
            resolved_color(text_of(user_color), is_light_theme, light_theme_default, dark_theme_default),
        ),
        m.foreground == foreground_override(suppress_foreground),
        m.font_style.is_none(),
{
    let background = color_from_arg(user_color, is_light_theme, light_theme_default, dark_theme_default);
    let foreground = if suppress_foreground {
        Some(no_color())
    } else {
        None
    };
    StyleModifier { foreground, background: Some(background), font_style: None }
}

/// The style that emits no color and no font flags.
pub fn get_no_style() -> (s: Style)
    ensures
        s.foreground == no_color_value(),
        s.background == no_color_value(),
{
    Style { foreground: no_color(), background: no_color(), font_style: FontStyle::empty() }
}

} // verus!
