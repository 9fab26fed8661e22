use vstd::prelude::*;
use syntect::highlighting::Theme;
use syntect::highlighting::ThemeSet;
use syntect::parsing::SyntaxSet;
use crate::cli::Opt;
use crate::color::{Color, resolved_color};
use crate::style::{
    Category,
    Style,
    StyleModifier,
    build_style_modifier,
    default_background,
    foreground_override,
    get_no_style,
    no_color_value,
    theme_default,
};
use crate::theme::{chosen_theme_name, light_appearance, names_no_theme, select_theme, theme_names};

verus! {

#[verifier::external_type_specification]
#[verifier::external_body]
pub struct ExSyntaxSet(syntect::parsing::SyntaxSet);

/// Why a configuration could not be made.
#[derive(Clone, Debug, PartialEq, Eq)]
pub enum ConfigError {
    /// The theme set holds no theme of this name.
    UnknownTheme(String),
}

/// The number of lines buffered before they are painted.
pub const MAX_BUFFERED_LINES: usize = 32;

/// The text of an optional option value.
pub open spec fn option_text(o: Option<String>) -> Option<Seq<char>> {
    match o {
        Some(s) => Some(s@),
        None => None,
    }
}

/// The theme name that `opt` puts in effect.
pub open spec fn opt_theme_name(opt: Opt) -> Seq<char> {
    chosen_theme_name(option_text(opt.theme), opt.light)
}

/// Whether `opt` leads to a light appearance.
pub open spec fn opt_is_light(opt: Opt) -> bool {
    light_appearance(opt_theme_name(opt), opt.dark)
}

/// The background that `opt` gives to `category`.
pub open spec fn opt_background(opt: Opt, category: Category) -> Color {
    let arg = match category {
        Category::Minus => opt.minus_color,
        Category::MinusEmph => opt.minus_emph_color,
        Category::Plus => opt.plus_color,
        Category::PlusEmph => opt.plus_emph_color,
    };
    resolved_color(
        option_text(arg),
        opt_is_light(opt),
        default_background(category, true),
        default_background(category, false),
    )
}

/// The resolved style configuration.
pub struct Config<'a> {
    pub theme: Option<&'a Theme>,
    pub theme_name: &'a str,
    pub is_light_theme: bool,
    pub minus_style_modifier: StyleModifier,
    pub minus_emph_style_modifier: StyleModifier,
    pub plus_style_modifier: StyleModifier,
    pub plus_emph_style_modifier: StyleModifier,
    pub syntax_set: &'a SyntaxSet,
    pub terminal_width: usize,
    pub width: Option<usize>,
    pub tab_width: usize,
    pub opt: &'a Opt,
    pub no_style: Style,
    pub max_buffered_lines: usize,
}

/// Whether `m` is the modifier that `opt` gives to `category`: its background
/// resolved, its foreground suppressed on removed lines unless they keep their
/// highlighting, its font style untouched.
pub open spec fn modifier_of(m: StyleModifier, opt: Opt, category: Category) -> bool {
    &&& m.background == Some(opt_background(opt, category))
    &&& m.foreground == foreground_override(category.is_removed() && !opt.highlight_removed)
    &&& m.font_style is None
}

/// On removed lines the foreground is the no-color sentinel, unless they keep
/// their highlighting, in which case it is left unset; on added lines it is
/// always left unset.
pub proof fn lemma_foreground_by_category(m: StyleModifier, opt: Opt, category: Category)
    requires
        modifier_of(m, opt, category),
    ensures
        category.is_removed() ==> m.foreground == (if opt.highlight_removed {
            None
        } else {
            Some(no_color_value())
        }),
        !category.is_removed() ==> m.foreground is None,
{
}

/// Resolves the style configuration from the options and the theme set.
///
/// Fails exactly when a theme other than `none` is in effect and the theme
/// set holds no theme of that name.
pub fn get_config<'a>(
    opt: &'a Opt,
    syntax_set: &'a SyntaxSet,
    theme_set: &'a ThemeSet,
    terminal_width: usize,
    width: Option<usize>,
) -> (r: Result<Config<'a>, ConfigError>)
    ensures
        r is Err <==> !names_no_theme(opt_theme_name(*opt)) && !theme_names(*theme_set).contains(
            opt_theme_name(*opt),
        ),
        r matches Err(ConfigError::UnknownTheme(n)) ==> n@ == opt_theme_name(*opt),
        r matches Ok(c) ==> {
            &&& c.theme_name@ == opt_theme_name(*opt)
            &&& (c.theme is None <==> names_no_theme(opt_theme_name(*opt)))
            &&& c.is_light_theme == opt_is_light(*opt)
            &&& modifier_of(c.minus_style_modifier, *opt, Category::Minus)
            &&& modifier_of(c.minus_emph_style_modifier, *opt, Category::MinusEmph)
            &&& modifier_of(c.plus_style_modifier, *opt, Category::Plus)
            &&& modifier_of(c.plus_emph_style_modifier, *opt, Category::PlusEmph)
            &&& c.syntax_set == syntax_set
            &&& c.terminal_width == terminal_width
            &&& c.width == width
            &&& c.tab_width == opt.tab_width
            &&& c.opt == opt
            &&& c.no_style.foreground == no_color_value()
            &&& c.no_style.background == no_color_value()
            &&& c.max_buffered_lines == MAX_BUFFERED_LINES
        },
{
    let selection = match select_theme(&opt.theme, opt.light, opt.dark, theme_set) {
        Ok(s) => s,
        Err(e) => return Err(e),
    };
    let is_light = selection.is_light_theme;
    let suppress_removed_foreground = !opt.highlight_removed;
    let minus_style_modifier = build_style_modifier(
        opt.minus_color.as_ref(),
        is_light,
        theme_default(Category::Minus, true),
        theme_default(Category::Minus, false),
        suppress_removed_foreground,
    );
    let minus_emph_style_modifier = build_style_modifier(
        opt.minus_emph_color.as_ref(),
        is_light,
        theme_default(Category::MinusEmph, true),
        theme_default(Category::MinusEmph, false),
        suppress_removed_foreground,
    );
    let plus_style_modifier = build_style_modifier(
        opt.plus_color.as_ref(),
        is_light,
        theme_default(Category::Plus, true),
        theme_default(Category::Plus, false),
        false,
    );
    let plus_emph_style_modifier = build_style_modifier(
        opt.plus_emph_color.as_ref(),
        is_light,
        theme_default(Category::PlusEmph, true),
        theme_default(Category::PlusEmph, false),
        false,
    );
    Ok(
        Config {
            theme: selection.theme,
            theme_name: selection.theme_name,
            is_light_theme: is_light,
            minus_style_modifier,
            minus_emph_style_modifier,
            plus_style_modifier,
            plus_emph_style_modifier,
            syntax_set,
            terminal_width,
            width,
            tab_width: opt.tab_width,
            opt,
            no_style: get_no_style(),
            max_buffered_lines: MAX_BUFFERED_LINES,
        },
    )
}

} // verus!
