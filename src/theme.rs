use vstd::prelude::*;
use vstd::string::*;
use syntect::highlighting::{Theme, ThemeSet};
use crate::color::text_of;
use crate::config::{ConfigError, option_text};

verus! {

#[verifier::external_type_specification]
#[verifier::external_body]
pub struct ExTheme(syntect::highlighting::Theme);

#[verifier::external_type_specification]
#[verifier::external_body]
pub struct ExThemeSet(syntect::highlighting::ThemeSet);

/// The names under which a theme set holds a theme.
pub uninterp spec fn theme_names(set: ThemeSet) -> Set<Seq<char>>;

/// Relies on the `themes` map of syntect's `ThemeSet`: `BTreeMap::get` finds
/// a theme exactly when one is stored under `name`.
#[verifier::external_body]
fn find_theme<'a>(theme_set: &'a ThemeSet, name: &str) -> (r: Option<&'a Theme>)
    ensures
        r is Some <==> theme_names(*theme_set).contains(name@),
{
    theme_set.themes.get(name)
}

/// The theme used when none is named and a light appearance is requested.
pub const DEFAULT_LIGHT_THEME: &'static str = "GitHub";

/// The theme used when none is named and a dark appearance is requested.
pub const DEFAULT_DARK_THEME: &'static str = "Monokai Extended";

/// The themes known to have a light background.
pub open spec fn is_known_light(name: Seq<char>) -> bool {
    name == "GitHub"@ || name == "Monokai Extended Light"@ || name == "OneHalfLight"@ || name
        == "ansi-light"@
}

/// Whether `name` is `none` in any mix of upper and lower case. No character
/// outside ASCII has one of these four letters as its lowercase form, so
/// folding ASCII letters alone decides it.
pub open spec fn names_no_theme(name: Seq<char>) -> bool {
    &&& name.len() == 4
    &&& (name[0] == 'n' || name[0] == 'N')
    &&& (name[1] == 'o' || name[1] == 'O')
    &&& (name[2] == 'n' || name[2] == 'N')
    &&& (name[3] == 'e' || name[3] == 'E')
}

/// The theme name in effect: the one given, else the default for the
/// requested appearance.
pub open spec fn chosen_theme_name(theme: Option<Seq<char>>, light: bool) -> Seq<char> {
    match theme {
        Some(t) => t,
        None => if light {
            DEFAULT_LIGHT_THEME@
        } else {
            DEFAULT_DARK_THEME@
        },
    }
}

/// Whether the appearance is light: without a theme, light unless dark was
/// asked for; with one, whether that theme is known to be light.
pub open spec fn light_appearance(theme_name: Seq<char>, dark: bool) -> bool {
    if names_no_theme(theme_name) {
        !dark
    } else {
        is_known_light(theme_name)
    }
}

/// With no theme named, the default theme is the light one when a light
/// appearance is requested and the dark one otherwise.
pub proof fn lemma_default_theme_follows_request(light: bool)
    ensures
        chosen_theme_name(None, light) == (if light {
            DEFAULT_LIGHT_THEME@
        } else {
            DEFAULT_DARK_THEME@
        }),
{
}

/// A theme known to be light gives a light appearance, even when a dark one
/// is asked for.
pub proof fn lemma_light_theme_overrides_dark_flag(theme_name: Seq<char>, dark: bool)
    requires
        is_known_light(theme_name),
    ensures
        light_appearance(theme_name, dark),
{
    reveal_strlit("GitHub");
    reveal_strlit("Monokai Extended Light");
    reveal_strlit("OneHalfLight");
    reveal_strlit("ansi-light");
}

/// Without a theme, the appearance is light exactly when dark is not asked for.
pub proof fn lemma_no_theme_light_unless_dark(theme_name: Seq<char>, dark: bool)
    requires
        names_no_theme(theme_name),
    ensures
        light_appearance(theme_name, dark) == !dark,
{
}

/// Whether two strings hold the same characters.
pub fn same_text(a: &str, b: &str) -> (r: bool)
    ensures
        r == (a@ == b@),
{
    let n = a.unicode_len();
    if n != b.unicode_len() {
        return false;
    }
    let mut i: usize = 0;
    while i < n
        invariant
            n == a@.len(),
            n == b@.len(),
            i <= n,
            forall|j: int| 0 <= j < i ==> a@[j] == b@[j],
        decreases n - i,
    {
        if a.get_char(i) != b.get_char(i) {
            return false;
        }
        i = i + 1;
    }
    assert(a@ =~= b@);
    true
}

/// Whether `name` selects no theme (`none`, compared without regard to case).
pub fn is_no_theme(name: &str) -> (r: bool)
    ensures
        r == names_no_theme(name@),
{
    if name.unicode_len() != 4 {
        return false;
    }
    let c0 = name.get_char(0);
    let c1 = name.get_char(1);
    let c2 = name.get_char(2);
    let c3 = name.get_char(3);
    (c0 == 'n' || c0 == 'N') && (c1 == 'o' || c1 == 'O') && (c2 == 'n' || c2 == 'N') && (c3 == 'e'
        || c3 == 'E')
}

/// Whether `name` is one of the themes known to have a light background.
pub fn is_light_theme(name: &str) -> (r: bool)
    ensures
        r == is_known_light(name@),
{
    same_text(name, "GitHub") || same_text(name, "Monokai Extended Light") || same_text(
        name,
        "OneHalfLight",
    ) || same_text(name, "ansi-light")
}

/// The theme name in effect: `theme` when given, else the default theme for
/// the requested appearance.
pub fn theme_name_for<'a>(theme: Option<&'a String>, light: bool) -> (r: &'a str)
    ensures
        r@ == chosen_theme_name(text_of(theme), light),
{
    match theme {
        Some(t) => t.as_str(),
        None => if light {
            DEFAULT_LIGHT_THEME
        } else {
            DEFAULT_DARK_THEME
        },
    }
}

} // verus!

verus! {

/// The outcome of theme selection.
pub struct ThemeSelection<'a> {
    /// The active theme; `None` when no theme was selected.
    pub theme: Option<&'a Theme>,
    /// The theme name in effect.
    pub theme_name: &'a str,
    /// Whether the appearance is light.
    pub is_light_theme: bool,
}

/// Selects the theme named by `theme`, or the default one for the requested
/// appearance, and decides whether the appearance is light.
///
/// Fails exactly when the name in effect is not `none` and the theme set holds
/// no theme of that name.
pub fn select_theme<'a>(
    theme: &'a Option<String>,
    light: bool,
    dark: bool,
    theme_set: &'a ThemeSet,
) -> (r: Result<ThemeSelection<'a>, ConfigError>)
    ensures
        r is Err <==> !names_no_theme(chosen_theme_name(option_text(*theme), light))
            && !theme_names(*theme_set).contains(chosen_theme_name(option_text(*theme), light)),
        r matches Err(ConfigError::UnknownTheme(n)) ==> n@ == chosen_theme_name(
            option_text(*theme),
            light,
        ),
        r matches Ok(s) ==> {
            &&& s.theme_name@ == chosen_theme_name(option_text(*theme), light)
            &&& (s.theme is None <==> names_no_theme(s.theme_name@))
            &&& s.is_light_theme == light_appearance(s.theme_name@, dark)
        },
{
    let theme_name = theme_name_for(theme.as_ref(), light);
    if is_no_theme(theme_name) {
        Ok(ThemeSelection { theme: None, theme_name, is_light_theme: !dark })
    } else {
        match find_theme(theme_set, theme_name) {
            Some(t) => Ok(
                ThemeSelection { theme: Some(t), theme_name, is_light_theme: is_light_theme(theme_name) },
            ),
            None => Err(ConfigError::UnknownTheme(theme_name.to_owned())),
        }
    }
}

} // verus!
