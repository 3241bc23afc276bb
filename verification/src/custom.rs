//! Custom themes and the registry that holds them by name.

use crate::text::{blank, is_blank};
use crate::tokens::{outcome_view, ColorTokens, ColorTokensView};
use std::rc::Rc;
use vstd::hash_map::StringHashMap;
use vstd::prelude::*;

verus! {

/// A named set of colour tokens, which may name another registered theme as
/// the base that supplies what it leaves out.
#[derive(Debug, PartialEq)]
pub struct CustomTheme {
    pub name: String,
    pub tokens: ColorTokens,
    pub base: Option<String>,
}

/// What a `CustomTheme` holds, as sequences of characters.
pub struct CustomThemeView {
    pub name: Seq<char>,
    pub tokens: ColorTokensView,
    pub base: Option<Seq<char>>,
}

/// The registered custom themes, by name.
pub type RegistryView = Map<Seq<char>, CustomThemeView>;

/// Whether each theme of `registry` stands under its own name.
pub open spec fn keyed_by_name(registry: RegistryView) -> bool {
    forall|name: Seq<char>| #[trigger]
        registry.contains_key(name) ==> registry[name].name == name
}

/// The message that reports a theme without a name.
pub open spec fn empty_name_message() -> Seq<char> {
    "Theme name cannot be empty."@
}

/// The message that reports `base` as missing from the registry.
pub open spec fn base_not_found_message(base: Seq<char>) -> Seq<char> {
    "Base theme '"@ + base + "' not found."@
}

/// The characters of a composition outcome.
pub open spec fn composed_view(r: Result<ColorTokens, String>) -> Result<
    ColorTokensView,
    Seq<char>,
> {
    match r {
        Ok(tokens) => Ok(tokens@),
        Err(message) => Err(message@),
    }
}

impl CustomThemeView {
    /// The outcome of validation: the name must hold more than white space,
    /// and then the tokens must be valid.
    pub open spec fn validated(self) -> Result<(), Seq<char>> {
        if is_blank(self.name) {
            Err(empty_name_message())
        } else {
            self.tokens.validated()
        }
    }

    /// The tokens of the theme over those of its base. Without a base they
    /// are the theme's own; a base that `registry` does not hold is an error.
    pub open spec fn composed(self, registry: RegistryView) -> Result<ColorTokensView, Seq<char>> {
        match self.base {
            None => Ok(self.tokens),
            Some(base) => if registry.contains_key(base) {
                Ok(registry[base].tokens.merge_with(self.tokens))
            } else {
                Err(base_not_found_message(base))
            },
        }
    }
}

impl View for CustomTheme {
    type V = CustomThemeView;

    open spec fn view(&self) -> CustomThemeView {
        CustomThemeView { name: self.name@, tokens: self.tokens@, base: self.base.deep_view() }
    }
}

impl DeepView for CustomTheme {
    type V = CustomThemeView;

    open spec fn deep_view(&self) -> CustomThemeView {
        self@
    }
}

impl Clone for CustomTheme {
    fn clone(&self) -> (r: Self)
        ensures
            r == *self,
    {
        CustomTheme {
            name: self.name.clone(),
            tokens: self.tokens.clone(),
            base: match &self.base {
                Some(base) => Some(base.clone()),
                None => None,
            },
        }
    }
}

/// The custom themes that have been registered, each under its own name.
pub struct ThemeRegistry {
    themes: StringHashMap<Rc<CustomTheme>>,
}

impl View for ThemeRegistry {
    type V = RegistryView;

    closed spec fn view(&self) -> RegistryView {
        self.themes@.map_values(|theme: Rc<CustomTheme>| theme@)
    }
}

impl DeepView for ThemeRegistry {
    type V = RegistryView;

    open spec fn deep_view(&self) -> RegistryView {
        self@
    }
}

impl ThemeRegistry {
    /// A registry without themes.
    pub fn new() -> (r: Self)
        ensures
            r@ == Map::<Seq<char>, CustomThemeView>::empty(),
    {
        let r = ThemeRegistry { themes: StringHashMap::new() };
        assert(r@ =~= Map::<Seq<char>, CustomThemeView>::empty());
        r
    }

    /// Puts `theme` under its name, in place of a theme that had that name.
    pub fn register(&mut self, theme: Rc<CustomTheme>)
        ensures
            final(self)@ == old(self)@.insert(theme@.name, theme@),
    {
        let name = theme.name.clone();
        self.themes.insert(name, theme);
        assert(self@ =~= old(self)@.insert(theme@.name, theme@));
    }

    /// The theme registered under `name`, if there is one.
    pub fn get(&self, name: &str) -> (r: Option<&Rc<CustomTheme>>)
        ensures
            match r {
                Some(theme) => self@.contains_key(name@) && theme@ == self@[name@],
                None => !self@.contains_key(name@),
            },
    {
        self.themes.get(name)
    }

    /// Whether a theme is registered under `name`.
    pub fn contains(&self, name: &str) -> (r: bool)
        ensures
            r == self@.contains_key(name@),
    {
        self.themes.contains_key(name)
    }

    /// The number of registered themes.
    pub fn len(&self) -> (r: usize)
        ensures
            r == self@.len(),
    {
        broadcast use vstd::hash_map::group_hash_map_axioms;
        let n = self.themes.len();
        assert(self@.dom() =~= self.themes@.dom());
        n
    }
}

/// Builds the message that reports `base` as missing from the registry.
fn base_not_found(base: &String) -> (r: String)
    ensures
        r@ == base_not_found_message(base@),
{
    String::from_str("Base theme '").concat(base.as_str()).concat("' not found.")
}

impl CustomTheme {
    /// Checks that the name holds more than white space, and then that the
    /// tokens are valid.
    pub fn validate(&self) -> (r: Result<(), String>)
        ensures
            outcome_view(r) == self@.validated(),
    {
        if blank(self.name.as_str()) {
            return Err(String::from_str("Theme name cannot be empty."));
        }
        self.tokens.validate()
    }

    /// Lays the theme's tokens over those of its base, which is looked up in
    /// `available_themes`. A theme without a base keeps its own tokens; a base
    /// that is not registered is an error.
    pub fn compose_with_base(&self, available_themes: &ThemeRegistry) -> (r: Result<
        ColorTokens,
        String,
    >)
        ensures
            composed_view(r) == self@.composed(available_themes@),
    {
        match &self.base {
            Some(base_name) => match available_themes.get(base_name.as_str()) {
                Some(base_theme) => Ok(base_theme.tokens.merge_with(&self.tokens)),
                None => Err(base_not_found(base_name)),
            },
            None => Ok(self.tokens.clone()),
        }
    }
}

} // verus!
