use vstd::prelude::*;

verus! {

/// A terminal color as red, green, blue and alpha components.
#[derive(Clone, Copy, Debug, PartialEq, Eq, Structural)]
pub struct Color {
    pub r: u8,
    pub g: u8,
    pub b: u8,
    pub a: u8,
}

/// An opaque color (alpha 0xff).
pub open spec fn opaque(r: u8, g: u8, b: u8) -> Color {
    Color { r, g, b, a: 0xff }
}

/// Whether `c` is a hexadecimal digit, in either case.
pub open spec fn is_hex_digit(c: char) -> bool {
    ('0' <= c && c <= '9') || ('a' <= c && c <= 'f') || ('A' <= c && c <= 'F')
}

/// The value of the hexadecimal digit `c` (0 for any other character).
pub open spec fn hex_value(c: char) -> u8 {
    if '0' <= c && c <= '9' {
        (c as u32 - '0' as u32) as u8
    } else if 'a' <= c && c <= 'f' {
        (c as u32 - 'a' as u32 + 10) as u8
    } else if 'A' <= c && c <= 'F' {
        (c as u32 - 'A' as u32 + 10) as u8
    } else {
        0
    }
}

/// The byte written by the two digits at `i` and `i + 1`.
pub open spec fn hex_pair(s: Seq<char>, i: int) -> u8 {
    (16 * hex_value(s[i]) + hex_value(s[i + 1])) as u8
}

/// The color that the text `s` denotes: `#` followed by three digits (one per
/// component, taken as they are), six digits (`#rrggbb`) or eight digits
/// (`#rrggbbaa`). Any other text denotes no color.
pub open spec fn color_of_text(s: Seq<char>) -> Option<Color> {
    if s.len() == 0 || s[0] != '#' || !(forall|i: int| 1 <= i < s.len() ==> is_hex_digit(#[trigger] s[i])) {
        None
    } else if s.len() == 4 {
        Some(opaque(hex_value(s[1]), hex_value(s[2]), hex_value(s[3])))
    } else if s.len() == 7 {
        Some(opaque(hex_pair(s, 1), hex_pair(s, 3), hex_pair(s, 5)))
    } else if s.len() == 9 {
        Some(Color { r: hex_pair(s, 1), g: hex_pair(s, 3), b: hex_pair(s, 5), a: hex_pair(s, 7) })
    } else {
        None
    }
}

/// Relies on syntect's `Color::from_str`, which accepts `#` followed by 3, 6
/// or 8 hexadecimal digits (three digits give the components as they are,
/// with alpha 0xff) and refuses everything else.
#[verifier::external_body]
pub(crate) fn parse_color(s: &str) -> (r: Option<Color>)
    ensures
        r == color_of_text(s@),
{
    <syntect::highlighting::Color as std::str::FromStr>::from_str(s).ok().map(
        |c| Color { r: c.r, g: c.g, b: c.b, a: c.a },
    )
}

/// The text of an optional argument.
pub open spec fn text_of(arg: Option<&String>) -> Option<Seq<char>> {
    match arg {
        Some(s) => Some(s@),
        None => None,
    }
}

/// The color chosen from a parsed override and the two defaults.
pub open spec fn fallback_color(
    parsed: Option<Color>,
    is_light_theme: bool,
    light_theme_default: Color,
    dark_theme_default: Color,
) -> Color {
    match parsed {
        Some(c) => c,
        None => if is_light_theme {
            light_theme_default
        } else {
            dark_theme_default
        },
    }
}

/// The color that an optional override resolves to: the color it denotes,
/// when it is given and denotes one, else the default for the appearance.
pub open spec fn resolved_color(
    arg: Option<Seq<char>>,
    is_light_theme: bool,
    light_theme_default: Color,
    dark_theme_default: Color,
) -> Color {
    let parsed = match arg {
        Some(s) => color_of_text(s),
        None => None,
    };
    fallback_color(parsed, is_light_theme, light_theme_default, dark_theme_default)
}

/// Resolves a color override that has already been parsed.
pub fn color_from_parsed(
    parsed: Option<Color>,
    is_light_theme: bool,
    light_theme_default: Color,
    dark_theme_default: Color,
) -> (r: Color)
    ensures
        r == fallback_color(parsed, is_light_theme, light_theme_default, dark_theme_default),
{
    match parsed {
        Some(c) => c,
        None => if is_light_theme {
            light_theme_default
        } else {
            dark_theme_default
        },
    }
}

/// Resolves an optional color override: text that does not denote a color is
/// treated as absent, and an absent override gives the default for the
/// appearance.
pub fn color_from_arg(
    arg: Option<&String>,
    is_light_theme: bool,
    light_theme_default: Color,
    dark_theme_default: Color,
) -> (r: Color)
    ensures
        r == resolved_color(text_of(arg), is_light_theme, light_theme_default, dark_theme_default),
{
    let parsed = match arg {
        Some(s) => parse_color(s.as_str()),
        None => None,
    };
    color_from_parsed(parsed, is_light_theme, light_theme_default, dark_theme_default)
}

/// An override that denotes a color resolves to that color, whatever the
/// appearance and the defaults.
pub proof fn lemma_parsed_override_wins(
    s: Seq<char>,
    is_light_theme: bool,
    light_theme_default: Color,
    dark_theme_default: Color,
)
    requires
        color_of_text(s) is Some,
    ensures
        resolved_color(Some(s), is_light_theme, light_theme_default, dark_theme_default)
            == color_of_text(s)->0,
{
}

/// An override that denotes no color resolves to exactly the default for the
/// appearance.
pub proof fn lemma_malformed_override_falls_back(
    s: Seq<char>,
    is_light_theme: bool,
    light_theme_default: Color,
    dark_theme_default: Color,
)
    requires
        color_of_text(s) is None,
    ensures
        resolved_color(Some(s), is_light_theme, light_theme_default, dark_theme_default) == (
        if is_light_theme {
            light_theme_default
        } else {
            dark_theme_default
        }),
{
}

} // verus!
