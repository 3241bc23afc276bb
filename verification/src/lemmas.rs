//! What holds of the operations of this crate, stated over their models.

use crate::color::{is_hex_color, is_hex_digits};
use crate::custom::{base_not_found_message, keyed_by_name, CustomThemeView, RegistryView};
use crate::resolver::{scheduled_theme, EventView, ResolverView};
use crate::text::{ascii_lowercase, eq_ignore_ascii_case};
use crate::theme::{dark_palette, light_palette, parse_theme, ThemeView};
use crate::tokens::{invalid_color_message, ColorField, ColorTokensView};
use vstd::prelude::*;

verus! {

/// Three or six hexadecimal digits are a hex colour, and so are they behind
/// one `#`.
pub proof fn lemma_hex_digits_are_colors(digits: Seq<char>)
    requires
        is_hex_digits(digits),
    ensures
        is_hex_color(digits),
        is_hex_color(seq!['#'] + digits),
{
    let prefixed = seq!['#'] + digits;
    assert(prefixed[0] == '#');
    assert(prefixed.subrange(1, prefixed.len() as int) =~= digits);
}

/// A hex colour is three or six hexadecimal digits, or that behind one `#`.
pub proof fn lemma_colors_are_hex_digits(color: Seq<char>)
    requires
        is_hex_color(color),
    ensures
        is_hex_digits(color) || exists|digits: Seq<char>|
            is_hex_digits(digits) && color == seq!['#'] + digits,
{
    if !is_hex_digits(color) {
        let digits = color.subrange(1, color.len() as int);
        assert(color =~= seq!['#'] + digits);
    }
}

/// Validation succeeds on exactly those tokens whose four required colours
/// are hex colours. On all others it fails with the message that names the
/// first required colour, in the order primary, secondary, background,
/// text, that is not one, and that colour's value.
pub proof fn lemma_validate_names_first_invalid(tokens: ColorTokensView)
    ensures
        tokens.validated() is Ok <==> is_hex_color(tokens.primary) && is_hex_color(
            tokens.secondary,
        ) && is_hex_color(tokens.background) && is_hex_color(tokens.text),
        !is_hex_color(tokens.primary) ==> tokens.validated() == Err::<(), Seq<char>>(
            invalid_color_message(ColorField::Primary, tokens.primary),
        ),
        is_hex_color(tokens.primary) && !is_hex_color(tokens.secondary) ==> tokens.validated()
            == Err::<(), Seq<char>>(invalid_color_message(ColorField::Secondary, tokens.secondary)),
        is_hex_color(tokens.primary) && is_hex_color(tokens.secondary) && !is_hex_color(
            tokens.background,
        ) ==> tokens.validated() == Err::<(), Seq<char>>(
            invalid_color_message(ColorField::Background, tokens.background),
        ),
        is_hex_color(tokens.primary) && is_hex_color(tokens.secondary) && is_hex_color(
            tokens.background,
        ) && !is_hex_color(tokens.text) ==> tokens.validated() == Err::<(), Seq<char>>(
            invalid_color_message(ColorField::Text, tokens.text),
        ),
{
}

/// A merge takes the four required colours from the tokens laid over, and
/// each optional colour from them where they have it, else from the tokens
/// beneath.
pub proof fn lemma_merge_overrides(base: ColorTokensView, over: ColorTokensView)
    ensures
        base.merge_with(over).primary == over.primary,
        base.merge_with(over).secondary == over.secondary,
        base.merge_with(over).background == over.background,
        base.merge_with(over).text == over.text,
        over.error is Some ==> base.merge_with(over).error == over.error,
        over.error is None ==> base.merge_with(over).error == base.error,
        over.warning is Some ==> base.merge_with(over).warning == over.warning,
        over.warning is None ==> base.merge_with(over).warning == base.warning,
        over.success is Some ==> base.merge_with(over).success == over.success,
        over.success is None ==> base.merge_with(over).success == base.success,
{
}

/// A theme without a base composes to its own tokens; one whose base is
/// registered composes to its tokens over the base's; one whose base is not
/// registered fails to compose, with the message that names the base.
pub proof fn lemma_compose_cases(theme: CustomThemeView, registry: RegistryView)
    ensures
        theme.base is None ==> theme.composed(registry) == Ok::<ColorTokensView, Seq<char>>(
            theme.tokens,
        ),
        theme.base is Some && registry.contains_key(theme.base->0) ==> theme.composed(registry)
            == Ok::<ColorTokensView, Seq<char>>(
            registry[theme.base->0].tokens.merge_with(theme.tokens),
        ),
        theme.base is Some && !registry.contains_key(theme.base->0) ==> theme.composed(registry)
            == Err::<ColorTokensView, Seq<char>>(base_not_found_message(theme.base->0)),
{
}

/// Each built-in theme is read back from the string it is stored under.
pub proof fn lemma_parse_round_trip(theme: ThemeView)
    requires
        !(theme is Custom),
    ensures
        parse_theme(theme.canonical()) == Some(theme),
{
    reveal_strlit("light");
    reveal_strlit("dark");
    reveal_strlit("system");
    match theme {
        ThemeView::Light => {},
        ThemeView::Dark => {
            assert(ascii_lowercase("dark"@).len() != ascii_lowercase("light"@).len());
        },
        ThemeView::System => {
            assert(ascii_lowercase("system"@).len() != ascii_lowercase("light"@).len());
            assert(ascii_lowercase("system"@).len() != ascii_lowercase("dark"@).len());
        },
        ThemeView::Custom(_) => {},
    }
}

/// Two strings that differ in the case of their ASCII letters only are read
/// as the same theme, or are both refused.
pub proof fn lemma_parse_ignores_case(a: Seq<char>, b: Seq<char>)
    requires
        eq_ignore_ascii_case(a, b),
    ensures
        parse_theme(a) == parse_theme(b),
{
}

/// No string is read as a custom theme.
pub proof fn lemma_parse_gives_built_in(s: Seq<char>)
    ensures
        parse_theme(s) matches Some(theme) ==> !(theme is Custom),
{
}

/// The dark theme is dark and the light theme is not, whatever the system
/// prefers. The system theme is as dark as the system is said to be, and not
/// dark where nothing is said. A custom theme is dark unless its background
/// is `#ffffff` in some case of its letters.
pub proof fn lemma_is_dark_cases(theme: ThemeView, system_fallback: Option<bool>)
    ensures
        theme is Dark ==> theme.is_dark(system_fallback),
        theme is Light ==> !theme.is_dark(system_fallback),
        theme is System && system_fallback is None ==> !theme.is_dark(system_fallback),
        theme is System && system_fallback is Some ==> theme.is_dark(system_fallback)
            == system_fallback->0,
        theme matches ThemeView::Custom(custom) ==> theme.is_dark(system_fallback)
            == !eq_ignore_ascii_case(custom.tokens.background, "#ffffff"@),
{
    reveal_strlit("#ffffff");
    assert(ascii_lowercase("#ffffff"@) =~= "#ffffff"@);
}

/// A forced theme decides the resolved tokens, whatever is declared or
/// previewed. Without one, a preview decides them, whatever is declared.
/// Without either, the declared theme decides them, and the system's
/// preference does where the system theme is declared.
pub proof fn lemma_resolution_priority(state: ResolverView)
    ensures
        state.forced_theme is Some ==> state.resolve() == state.forced_theme->0.colors(
            Some(state.registry),
        ),
        state.forced_theme is None && state.preview_theme is Some ==> state.resolve()
            == state.preview_theme->0.colors(Some(state.registry)),
        state.forced_theme is None && state.preview_theme is None && state.declared_theme is System
            ==> state.resolve() == state.system_preference.colors(Some(state.registry)),
        state.forced_theme is None && state.preview_theme is None && !(state.declared_theme
            is System) ==> state.resolve() == state.declared_theme.colors(Some(state.registry)),
{
}

/// With the dark theme forced, the resolved tokens are the dark palette.
/// With nothing forced and the light theme previewed, they are the light
/// palette.
pub proof fn lemma_built_in_overrides(state: ResolverView)
    ensures
        state.forced_theme == Some(ThemeView::Dark) ==> state.resolve() == dark_palette(),
        state.forced_theme is None && state.preview_theme == Some(ThemeView::Light)
            ==> state.resolve() == light_palette(),
{
}

/// With the system theme declared and nothing forced or previewed, the
/// resolved tokens are the palette of the built-in theme that the system
/// prefers.
pub proof fn lemma_system_follows_preference(state: ResolverView)
    requires
        state.wf(),
        state.declared_theme is System,
        state.forced_theme is None,
        state.preview_theme is None,
    ensures
        state.system_preference is Dark ==> state.resolved_theme == dark_palette(),
        state.system_preference is Light ==> state.resolved_theme == light_palette(),
{
}

/// Every event leaves a well-formed state well-formed, and leaves the
/// forced theme as it is.
pub proof fn lemma_step_keeps_wf(state: ResolverView, event: EventView)
    requires
        state.wf(),
    ensures
        state.step(event).wf(),
        state.step(event).forced_theme == state.forced_theme,
{
}

/// A preview, a custom theme, and a change of the system's preference leave
/// the declared theme as it is; the time-of-day rule overwrites it.
pub proof fn lemma_declared_theme_changes(state: ResolverView, event: EventView)
    ensures
        event is ApplyPreview || event is SetCustomTheme || event is SystemPreferenceChanged
            ==> state.step(event).declared_theme == state.declared_theme,
        event matches EventView::Tick(hour) ==> state.step(event).declared_theme
            == scheduled_theme(hour),
        event matches EventView::SetTheme(theme) ==> state.step(event).declared_theme == theme,
        event is ResetToSystem ==> state.step(event).declared_theme is System,
{
}

/// Once a valid custom theme without a base is registered and declared, and
/// nothing is forced or previewed, the resolved tokens are the theme's own.
pub proof fn lemma_registered_theme_resolves_to_own_tokens(
    state: ResolverView,
    theme: CustomThemeView,
)
    requires
        state.forced_theme is None,
        state.preview_theme is None,
        theme.validated() is Ok,
        theme.base is None,
    ensures
        state.set_custom_theme(theme).set_theme(ThemeView::Custom(theme)).resolved_theme
            == theme.tokens,
{
}

/// Once a valid custom theme and then a valid custom theme based on it are
/// registered, and the second is declared with nothing forced or previewed,
/// the four required colours of the resolved tokens are the second theme's
/// own. Where the two themes differ in name, the resolved tokens are the
/// second theme's over the first's.
pub proof fn lemma_based_theme_resolves_to_merge(
    state: ResolverView,
    base: CustomThemeView,
    theme: CustomThemeView,
)
    requires
        state.forced_theme is None,
        state.preview_theme is None,
        base.validated() is Ok,
        theme.validated() is Ok,
        theme.base == Some(base.name),
    ensures
        ({
            let resolved = state.set_custom_theme(base).set_custom_theme(theme).set_theme(
                ThemeView::Custom(theme),
            ).resolved_theme;
            &&& resolved.primary == theme.tokens.primary
            &&& resolved.secondary == theme.tokens.secondary
            &&& resolved.background == theme.tokens.background
            &&& resolved.text == theme.tokens.text
            &&& theme.name != base.name ==> resolved == base.tokens.merge_with(theme.tokens)
        }),
{
}

/// An empty registry holds each theme under its own name, and so does a
/// registry to which a theme was added under its name.
pub proof fn lemma_registry_keyed_by_name(registry: RegistryView, theme: CustomThemeView)
    ensures
        keyed_by_name(Map::<Seq<char>, CustomThemeView>::empty()),
        keyed_by_name(registry) ==> keyed_by_name(registry.insert(theme.name, theme)),
{
}

} // verus!
