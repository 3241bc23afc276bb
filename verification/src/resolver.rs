//! The resolver: the state of a theme provider, the events it hears of, and
//! the tokens that the state resolves to.

use crate::custom::{CustomTheme, CustomThemeView, RegistryView, ThemeRegistry};
use crate::theme::{parse_theme, Theme, ThemeView};
use crate::tokens::{outcome_view, ColorTokens, ColorTokensView};
use std::rc::Rc;
use std::str::FromStr;
use vstd::prelude::*;

verus! {

/// The first hour of the day on which the time-of-day rule picks the light theme.
pub const DAY_START_HOUR: u32 = 7;

/// The first hour of the evening on which the time-of-day rule picks the dark theme.
pub const DAY_END_HOUR: u32 = 19;

/// The time between two applications of the time-of-day rule, in milliseconds.
pub const REEVALUATION_PERIOD_MS: u32 = 60_000;

/// The theme that the time-of-day rule picks at `hour`: light from
/// `DAY_START_HOUR` up to, and not including, `DAY_END_HOUR`, else dark.
pub open spec fn scheduled_theme(hour: u32) -> ThemeView {
    if DAY_START_HOUR <= hour && hour < DAY_END_HOUR {
        ThemeView::Light
    } else {
        ThemeView::Dark
    }
}

/// The built-in theme for a system that prefers dark colours, or does not.
pub open spec fn preferred_theme(dark: bool) -> ThemeView {
    if dark {
        ThemeView::Dark
    } else {
        ThemeView::Light
    }
}

/// The theme a resolver starts with: the stored one where a string is
/// stored and names a built-in theme, else `default_theme`.
pub open spec fn initial_declared(stored: Option<Seq<char>>, default_theme: ThemeView) -> ThemeView {
    match stored {
        Some(s) => match parse_theme(s) {
            Some(theme) => theme,
            None => default_theme,
        },
        None => default_theme,
    }
}

/// The theme that is in effect: the forced theme if there is one, else the
/// preview if there is one, else the declared theme, with the system's
/// preference in place of `System`.
pub open spec fn effective_theme(
    declared_theme: ThemeView,
    system_preference: ThemeView,
    forced_theme: Option<ThemeView>,
    preview_theme: Option<ThemeView>,
) -> ThemeView {
    match forced_theme {
        Some(forced) => forced,
        None => match preview_theme {
            Some(preview) => preview,
            None => match declared_theme {
                ThemeView::System => system_preference,
                declared => declared,
            },
        },
    }
}

/// What a resolver holds: the inputs of resolution and the tokens they
/// resolve to.
pub struct ResolverView {
    pub declared_theme: ThemeView,
    pub system_preference: ThemeView,
    pub forced_theme: Option<ThemeView>,
    pub preview_theme: Option<ThemeView>,
    pub registry: RegistryView,
    pub resolved_theme: ColorTokensView,
}

/// What an `Event` holds, as sequences of characters.
pub enum EventView {
    SetTheme(ThemeView),
    SetCustomTheme(CustomThemeView),
    ResetToSystem,
    ApplyPreview(ThemeView),
    SystemPreferenceChanged(bool),
    StorageChanged(Option<Seq<char>>),
    Tick(u32),
}

/// What an `Action` holds, as sequences of characters.
pub enum ActionView {
    Nothing,
    Persist(Seq<char>),
    Report(Seq<char>),
}

impl ResolverView {
    /// The theme that is in effect.
    pub open spec fn effective(self) -> ThemeView {
        effective_theme(
            self.declared_theme,
            self.system_preference,
            self.forced_theme,
            self.preview_theme,
        )
    }

    /// The tokens that the inputs resolve to: the colours of the theme in
    /// effect, with the registry at hand.
    pub open spec fn resolve(self) -> ColorTokensView {
        self.effective().colors(Some(self.registry))
    }

    /// The system's preference is light or dark, and the resolved tokens are
    /// those that the inputs resolve to.
    pub open spec fn wf(self) -> bool {
        &&& self.system_preference is Light || self.system_preference is Dark
        &&& self.resolved_theme == self.resolve()
    }

    /// The same inputs, resolved anew.
    pub open spec fn refreshed(self) -> ResolverView {
        ResolverView { resolved_theme: self.resolve(), ..self }
    }

    /// The state a resolver starts in: nothing previewed, the system taken
    /// to prefer light colours until it says otherwise, and the tokens
    /// resolved from that.
    pub open spec fn initial(
        stored: Option<Seq<char>>,
        default_theme: ThemeView,
        forced_theme: Option<ThemeView>,
        registry: RegistryView,
    ) -> ResolverView {
        let declared_theme = initial_declared(stored, default_theme);
        let system_preference = ThemeView::Light;
        ResolverView {
            declared_theme,
            system_preference,
            forced_theme,
            preview_theme: None,
            registry,
            resolved_theme: effective_theme(
                declared_theme,
                system_preference,
                forced_theme,
                None,
            ).colors(Some(registry)),
        }
    }

    /// The state after `theme` was declared.
    pub open spec fn set_theme(self, theme: ThemeView) -> ResolverView {
        ResolverView { declared_theme: theme, ..self }.refreshed()
    }

    /// The state after `theme` was offered to the registry: registered under
    /// its name if it is valid, refused without any change if it is not.
    pub open spec fn set_custom_theme(self, theme: CustomThemeView) -> ResolverView {
        if theme.validated() is Ok {
            ResolverView { registry: self.registry.insert(theme.name, theme), ..self }.refreshed()
        } else {
            self
        }
    }

    /// The state after `theme` was put up as the preview.
    pub open spec fn apply_preview(self, theme: ThemeView) -> ResolverView {
        ResolverView { preview_theme: Some(theme), ..self }.refreshed()
    }

    /// The state after the system said whether it prefers dark colours.
    pub open spec fn system_preference_changed(self, dark: bool) -> ResolverView {
        ResolverView { system_preference: preferred_theme(dark), ..self }.refreshed()
    }

    /// The state after the stored string was changed from outside: it is
    /// declared if it names a built-in theme, and ignored if not.
    pub open spec fn storage_changed(self, value: Option<Seq<char>>) -> ResolverView {
        match value {
            Some(s) => match parse_theme(s) {
                Some(theme) => self.set_theme(theme),
                None => self,
            },
            None => self,
        }
    }

    /// The state after the time-of-day rule was applied at `hour`.
    pub open spec fn tick(self, hour: u32) -> ResolverView {
        self.set_theme(scheduled_theme(hour))
    }

    /// The state after `event`.
    pub open spec fn step(self, event: EventView) -> ResolverView {
        match event {
            EventView::SetTheme(theme) => self.set_theme(theme),
            EventView::SetCustomTheme(theme) => self.set_custom_theme(theme),
            EventView::ResetToSystem => self.set_theme(ThemeView::System),
            EventView::ApplyPreview(theme) => self.apply_preview(theme),
            EventView::SystemPreferenceChanged(dark) => self.system_preference_changed(dark),
            EventView::StorageChanged(value) => self.storage_changed(value),
            EventView::Tick(hour) => self.tick(hour),
        }
    }
}

/// What the provider has to do after `event`: store the declared theme,
/// report a custom theme that was refused, or nothing.
pub open spec fn action_for(event: EventView) -> ActionView {
    match event {
        EventView::SetTheme(theme) => ActionView::Persist(theme.canonical()),
        EventView::ResetToSystem => ActionView::Persist(ThemeView::System.canonical()),
        EventView::SetCustomTheme(theme) => match theme.validated() {
            Ok(_) => ActionView::Nothing,
            Err(message) => ActionView::Report(message),
        },
        _ => ActionView::Nothing,
    }
}

/// Something that happened to a provider and that its resolver must hear of.
#[derive(Debug, PartialEq)]
pub enum Event {
    /// The user declared a theme.
    SetTheme(Theme),
    /// A custom theme was offered to the registry.
    SetCustomTheme(Rc<CustomTheme>),
    /// The user went back to the system theme.
    ResetToSystem,
    /// A theme was put up as the preview.
    ApplyPreview(Theme),
    /// The system said whether it prefers dark colours.
    SystemPreferenceChanged(bool),
    /// The stored string was changed from outside; this is what the store
    /// holds now.
    StorageChanged(Option<String>),
    /// The period of the time-of-day rule has passed; this is the hour of
    /// the local time.
    Tick(u32),
}

impl View for Event {
    type V = EventView;

    open spec fn view(&self) -> EventView {
        match self {
            Event::SetTheme(theme) => EventView::SetTheme(theme@),
            Event::SetCustomTheme(theme) => EventView::SetCustomTheme(theme@),
            Event::ResetToSystem => EventView::ResetToSystem,
            Event::ApplyPreview(theme) => EventView::ApplyPreview(theme@),
            Event::SystemPreferenceChanged(dark) => EventView::SystemPreferenceChanged(*dark),
            Event::StorageChanged(value) => EventView::StorageChanged(value.deep_view()),
            Event::Tick(hour) => EventView::Tick(*hour),
        }
    }
}

/// What the provider has to do once its resolver has heard of an event,
/// before it renders the resolved tokens.
#[derive(Debug, PartialEq)]
pub enum Action {
    /// Nothing.
    Nothing,
    /// Put the string into the store, as far as the store allows.
    Persist(String),
    /// Report the message: a custom theme was refused.
    Report(String),
}

impl View for Action {
    type V = ActionView;

    open spec fn view(&self) -> ActionView {
        match self {
            Action::Nothing => ActionView::Nothing,
            Action::Persist(stored) => ActionView::Persist(stored@),
            Action::Report(message) => ActionView::Report(message@),
        }
    }
}

/// The state of one theme provider: what was declared, what the system
/// prefers, what is forced or previewed, the registered custom themes, and
/// the tokens that all of this resolves to.
pub struct ResolverState {
    declared_theme: Theme,
    system_preference: Theme,
    forced_theme: Option<Theme>,
    preview_theme: Option<Theme>,
    registry: ThemeRegistry,
    resolved_theme: ColorTokens,
}

impl View for ResolverState {
    type V = ResolverView;

    closed spec fn view(&self) -> ResolverView {
        ResolverView {
            declared_theme: self.declared_theme@,
            system_preference: self.system_preference@,
            forced_theme: self.forced_theme.deep_view(),
            preview_theme: self.preview_theme.deep_view(),
            registry: self.registry@,
            resolved_theme: self.resolved_theme@,
        }
    }
}

/// The theme that the time-of-day rule picks at `hour`.
pub fn theme_for_hour(hour: u32) -> (r: Theme)
    ensures
        r@ == scheduled_theme(hour),
{
    if DAY_START_HOUR <= hour && hour < DAY_END_HOUR {
        Theme::Light
    } else {
        Theme::Dark
    }
}

/// The theme a resolver starts with: the stored one where a string is
/// stored and names a built-in theme, else `default_theme`.
pub fn initial_theme(stored: Option<&str>, default_theme: Theme) -> (r: Theme)
    ensures
        r@ == initial_declared(stored.deep_view(), default_theme@),
{
    match stored {
        Some(s) => match Theme::from_str(s) {
            Ok(theme) => theme,
            Err(_) => default_theme,
        },
        None => default_theme,
    }
}

/// Picks the theme that is in effect.
fn pick_effective<'a>(
    declared_theme: &'a Theme,
    system_preference: &'a Theme,
    forced_theme: &'a Option<Theme>,
    preview_theme: &'a Option<Theme>,
) -> (r: &'a Theme)
    ensures
        r@ == effective_theme(
            declared_theme@,
            system_preference@,
            forced_theme.deep_view(),
            preview_theme.deep_view(),
        ),
{
    match forced_theme {
        Some(forced) => forced,
        None => match preview_theme {
            Some(preview) => preview,
            None => match declared_theme {
                Theme::System => system_preference,
                declared => declared,
            },
        },
    }
}

impl ResolverState {
    /// Whether the system's preference is light or dark and the resolved
    /// tokens are those that the inputs resolve to. `new` gives such a
    /// state, and every operation keeps it such.
    pub open spec fn wf(&self) -> bool {
        self@.wf()
    }

    /// A resolver for a provider that found `stored` in its store.
    pub fn new(
        stored: Option<&str>,
        default_theme: Theme,
        forced_theme: Option<Theme>,
        registry: ThemeRegistry,
    ) -> (r: Self)
        ensures
            r@ == ResolverView::initial(
                stored.deep_view(),
                default_theme@,
                forced_theme.deep_view(),
                registry@,
            ),
            r.wf(),
    {
        let declared_theme = initial_theme(stored, default_theme);
        let system_preference = Theme::Light;
        let preview_theme: Option<Theme> = None;
        let resolved_theme = pick_effective(
            &declared_theme,
            &system_preference,
            &forced_theme,
            &preview_theme,
        ).colors(Some(&registry));
        ResolverState {
            declared_theme,
            system_preference,
            forced_theme,
            preview_theme,
            registry,
            resolved_theme,
        }
    }

    /// The theme that is in effect.
    pub fn effective_theme(&self) -> (r: &Theme)
        ensures
            r@ == self@.effective(),
    {
        pick_effective(
            &self.declared_theme,
            &self.system_preference,
            &self.forced_theme,
            &self.preview_theme,
        )
    }

    /// The tokens that the inputs resolve to, computed from the inputs.
    pub fn resolve(&self) -> (r: ColorTokens)
        ensures
            r@ == self@.resolve(),
    {
        self.effective_theme().colors(Some(&self.registry))
    }

    /// Resolves the inputs anew.
    fn refresh(&mut self)
        ensures
            final(self)@ == old(self)@.refreshed(),
    {
        self.resolved_theme = self.resolve();
    }

    /// The tokens to render: those that were resolved when the inputs last
    /// changed.
    pub fn resolved_theme(&self) -> (r: &ColorTokens)
        ensures
            r@ == self@.resolved_theme,
            self.wf() ==> r@ == self@.resolve(),
    {
        &self.resolved_theme
    }

    /// The theme that was declared last.
    pub fn theme(&self) -> (r: &Theme)
        ensures
            r@ == self@.declared_theme,
    {
        &self.declared_theme
    }

    /// The built-in theme that the system prefers.
    pub fn system_theme(&self) -> (r: &Theme)
        ensures
            r@ == self@.system_preference,
    {
        &self.system_preference
    }

    /// The theme that overrides every choice, if there is one.
    pub fn forced_theme(&self) -> (r: &Option<Theme>)
        ensures
            r.deep_view() == self@.forced_theme,
    {
        &self.forced_theme
    }

    /// The theme that is previewed, if there is one.
    pub fn preview_theme(&self) -> (r: &Option<Theme>)
        ensures
            r.deep_view() == self@.preview_theme,
    {
        &self.preview_theme
    }

    /// The registered custom themes.
    pub fn custom_themes(&self) -> (r: &ThemeRegistry)
        ensures
            r@ == self@.registry,
    {
        &self.registry
    }

    /// Declares `theme`. Returns the string to put into the store; whether
    /// storing succeeds has no bearing on the state.
    pub fn set_theme(&mut self, theme: Theme) -> (stored: String)
        ensures
            final(self)@ == old(self)@.set_theme(theme@),
            old(self).wf() ==> final(self).wf(),
            stored@ == theme@.canonical(),
    {
        let stored = theme.as_str();
        self.declared_theme = theme;
        self.refresh();
        stored
    }

    /// Offers `theme` to the registry. A valid theme is registered under its
    /// name, in place of one that had the name; an invalid one is refused
    /// with the reason, and nothing changes. The declared theme stays.
    pub fn set_custom_theme(&mut self, theme: Rc<CustomTheme>) -> (r: Result<(), String>)
        ensures
            final(self)@ == old(self)@.set_custom_theme(theme@),
            old(self).wf() ==> final(self).wf(),
            outcome_view(r) == theme@.validated(),
    {
        match theme.validate() {
            Ok(()) => {
                self.registry.register(theme);
                self.refresh();
                Ok(())
            },
            Err(message) => Err(message),
        }
    }

    /// Declares the system theme. Returns the string to put into the store.
    pub fn reset_to_system(&mut self) -> (stored: String)
        ensures
            final(self)@ == old(self)@.set_theme(ThemeView::System),
            old(self).wf() ==> final(self).wf(),
            stored@ == ThemeView::System.canonical(),
    {
        self.set_theme(Theme::System)
    }

    /// Puts `theme` up as the preview. The declared theme stays, and nothing
    /// is to be stored.
    pub fn apply_preview(&mut self, theme: Theme)
        ensures
            final(self)@ == old(self)@.apply_preview(theme@),
            old(self).wf() ==> final(self).wf(),
    {
        self.preview_theme = Some(theme);
        self.refresh();
    }

    /// Takes note of whether the system prefers dark colours. What was
    /// declared stays as it is.
    pub fn system_preference_changed(&mut self, dark: bool)
        ensures
            final(self)@ == old(self)@.system_preference_changed(dark),
            old(self).wf() ==> final(self).wf(),
    {
        self.system_preference = if dark {
            Theme::Dark
        } else {
            Theme::Light
        };
        self.refresh();
    }

    /// Takes note of a change to the stored string that was made from
    /// outside. `value` is what the store holds now: a built-in theme is
    /// declared, anything else is passed over.
    pub fn storage_changed(&mut self, value: Option<&str>)
        ensures
            final(self)@ == old(self)@.storage_changed(value.deep_view()),
            old(self).wf() ==> final(self).wf(),
    {
        match value {
            Some(s) => match Theme::from_str(s) {
                Ok(theme) => {
                    self.declared_theme = theme;
                    self.refresh();
                },
                Err(_) => {},
            },
            None => {},
        }
    }

    /// Applies the time-of-day rule at `hour`, the hour of the local time.
    /// The rule overwrites what was declared.
    pub fn tick(&mut self, hour: u32)
        ensures
            final(self)@ == old(self)@.tick(hour),
            old(self).wf() ==> final(self).wf(),
    {
        self.declared_theme = theme_for_hour(hour);
        self.refresh();
    }

    /// Hears of `event`: brings the state up to date and says what the
    /// provider has to do.
    pub fn handle(&mut self, event: Event) -> (action: Action)
        ensures
            final(self)@ == old(self)@.step(event@),
            old(self).wf() ==> final(self).wf(),
            action@ == action_for(event@),
    {
        match event {
            Event::SetTheme(theme) => Action::Persist(self.set_theme(theme)),
            Event::SetCustomTheme(theme) => match self.set_custom_theme(theme) {
                Ok(()) => Action::Nothing,
                Err(message) => Action::Report(message),
            },
            Event::ResetToSystem => Action::Persist(self.reset_to_system()),
            Event::ApplyPreview(theme) => {
                self.apply_preview(theme);
                Action::Nothing
            },
            Event::SystemPreferenceChanged(dark) => {
                self.system_preference_changed(dark);
                Action::Nothing
            },
            Event::StorageChanged(value) => {
                match &value {
                    Some(s) => self.storage_changed(Some(s.as_str())),
                    None => self.storage_changed(None),
                }
                Action::Nothing
            },
            Event::Tick(hour) => {
                self.tick(hour);
                Action::Nothing
            },
        }
    }
}

} // verus!
