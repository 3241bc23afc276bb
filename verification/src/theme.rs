//! The theme preference and what follows from it: its stored form, whether
//! it is dark, and its colours.

use crate::custom::{CustomTheme, CustomThemeView, RegistryView, ThemeRegistry};
use crate::text::{ascii_lowercase, eq_ignore_ascii_case, equals_ignore_ascii_case};
use crate::tokens::{ColorTokens, ColorTokensView};
use std::rc::Rc;
use vstd::prelude::*;

verus! {

/// A theme preference: one of the two built-in palettes, whatever the system
/// prefers, or a custom theme.
#[derive(Debug, PartialEq)]
pub enum Theme {
    Light,
    Dark,
    System,
    Custom(Rc<CustomTheme>),
}

/// What a `Theme` holds, as sequences of characters.
pub enum ThemeView {
    Light,
    Dark,
    System,
    Custom(CustomThemeView),
}

/// The palette of the light theme.
pub open spec fn light_palette() -> ColorTokensView {
    ColorTokensView {
        primary: "#ffffff"@,
        secondary: "#f0f0f0"@,
        background: "#ffffff"@,
        text: "#000000"@,
        error: None,
        warning: None,
        success: None,
    }
}

/// The palette of the dark theme.
pub open spec fn dark_palette() -> ColorTokensView {
    ColorTokensView {
        primary: "#000000"@,
        secondary: "#1a1a1a"@,
        background: "#000000"@,
        text: "#ffffff"@,
        error: None,
        warning: None,
        success: None,
    }
}

/// The built-in theme that `s` names, whatever the case of its letters.
pub open spec fn parse_theme(s: Seq<char>) -> Option<ThemeView> {
    if eq_ignore_ascii_case(s, "light"@) {
        Some(ThemeView::Light)
    } else if eq_ignore_ascii_case(s, "dark"@) {
        Some(ThemeView::Dark)
    } else if eq_ignore_ascii_case(s, "system"@) {
        Some(ThemeView::System)
    } else {
        None
    }
}

impl ThemeView {
    /// The string under which the theme is stored: the lower-case name of a
    /// built-in theme, the name of a custom theme as it is.
    pub open spec fn canonical(self) -> Seq<char> {
        match self {
            ThemeView::Light => "light"@,
            ThemeView::Dark => "dark"@,
            ThemeView::System => "system"@,
            ThemeView::Custom(custom) => custom.name,
        }
    }

    /// Whether the theme counts as dark. The system theme goes by
    /// `system_fallback`, and is not dark without one. A custom theme is dark
    /// unless its background, with its letters in lower case, is `#ffffff`.
    pub open spec fn is_dark(self, system_fallback: Option<bool>) -> bool {
        match self {
            ThemeView::Dark => true,
            ThemeView::Light => false,
            ThemeView::System => match system_fallback {
                Some(dark) => dark,
                None => false,
            },
            ThemeView::Custom(custom) => ascii_lowercase(custom.tokens.background) != "#ffffff"@,
        }
    }

    /// The colours of the theme. The system theme has the light palette. A
    /// custom theme has its tokens over those of its base, and its own
    /// tokens alone where there is no registry or the base is not registered.
    pub open spec fn colors(self, available_themes: Option<RegistryView>) -> ColorTokensView {
        match self {
            ThemeView::Light => light_palette(),
            ThemeView::Dark => dark_palette(),
            ThemeView::System => light_palette(),
            ThemeView::Custom(custom) => match available_themes {
                Some(registry) => match custom.composed(registry) {
                    Ok(tokens) => tokens,
                    Err(_) => custom.tokens,
                },
                None => custom.tokens,
            },
        }
    }
}

impl View for Theme {
    type V = ThemeView;

    open spec fn view(&self) -> ThemeView {
        match self {
            Theme::Light => ThemeView::Light,
            Theme::Dark => ThemeView::Dark,
            Theme::System => ThemeView::System,
            Theme::Custom(custom) => ThemeView::Custom(custom@),
        }
    }
}

impl DeepView for Theme {
    type V = ThemeView;

    open spec fn deep_view(&self) -> ThemeView {
        self@
    }
}

impl Clone for Theme {
    fn clone(&self) -> (r: Self)
        ensures
            r == *self,
    {
        match self {
            Theme::Light => Theme::Light,
            Theme::Dark => Theme::Dark,
            Theme::System => Theme::System,
            Theme::Custom(custom) => Theme::Custom(Rc::clone(custom)),
        }
    }
}

impl Default for Theme {
    fn default() -> (r: Self)
        ensures
            r == Theme::System,
    {
        Theme::System
    }
}

impl core::str::FromStr for Theme {
    type Err = ();

    /// Reads a built-in theme from its name, whatever the case of its
    /// letters. Any other string is refused: a custom theme is looked up in
    /// the registry, never read from a string.
    fn from_str(s: &str) -> (r: Result<Self, Self::Err>)
        ensures
            match r {
                Ok(theme) => parse_theme(s@) == Some(theme@),
                Err(_) => parse_theme(s@) is None,
            },
    {
        if equals_ignore_ascii_case(s, "light") {
            Ok(Theme::Light)
        } else if equals_ignore_ascii_case(s, "dark") {
            Ok(Theme::Dark)
        } else if equals_ignore_ascii_case(s, "system") {
            Ok(Theme::System)
        } else {
            Err(())
        }
    }
}

/// `#ffffff` has no capital letter.
proof fn lemma_white_is_lowercase()
    ensures
        ascii_lowercase("#ffffff"@) == "#ffffff"@,
{
    reveal_strlit("#ffffff");
    assert(ascii_lowercase("#ffffff"@) =~= "#ffffff"@);
}

/// The light palette.
fn light_tokens() -> (r: ColorTokens)
    ensures
        r@ == light_palette(),
{
    ColorTokens {
        primary: String::from_str("#ffffff"),
        secondary: String::from_str("#f0f0f0"),
        background: String::from_str("#ffffff"),
        text: String::from_str("#000000"),
        error: None,
        warning: None,
        success: None,
    }
}

/// The dark palette.
fn dark_tokens() -> (r: ColorTokens)
    ensures
        r@ == dark_palette(),
{
    ColorTokens {
        primary: String::from_str("#000000"),
        secondary: String::from_str("#1a1a1a"),
        background: String::from_str("#000000"),
        text: String::from_str("#ffffff"),
        error: None,
        warning: None,
        success: None,
    }
}

impl Theme {
    /// The string under which the theme is stored.
    pub fn as_str(&self) -> (r: String)
        ensures
            r@ == self@.canonical(),
    {
        match self {
            Theme::Light => String::from_str("light"),
            Theme::Dark => String::from_str("dark"),
            Theme::System => String::from_str("system"),
            Theme::Custom(custom) => custom.name.clone(),
        }
    }

    /// Whether the theme counts as dark.
    pub fn is_dark(&self, system_fallback: Option<bool>) -> (r: bool)
        ensures
            r == self@.is_dark(system_fallback),
    {
        match self {
            Theme::Dark => true,
            Theme::Light => false,
            Theme::System => match system_fallback {
                Some(dark) => dark,
                None => false,
            },
            Theme::Custom(custom) => {
                proof {
                    lemma_white_is_lowercase();
                }
                !equals_ignore_ascii_case(custom.tokens.background.as_str(), "#ffffff")
            },
        }
    }

    /// The colours of the theme.
    pub fn colors(&self, available_themes: Option<&ThemeRegistry>) -> (r: ColorTokens)
        ensures
            r@ == self@.colors(available_themes.deep_view()),
    {
        match self {
            Theme::Light => light_tokens(),
            Theme::Dark => dark_tokens(),
            Theme::System => light_tokens(),
            Theme::Custom(custom) => match available_themes {
                Some(themes) => match custom.compose_with_base(themes) {
                    Ok(tokens) => tokens,
                    Err(_) => custom.tokens.clone(),
                },
                None => custom.tokens.clone(),
            },
        }
    }
}

} // verus!
