//! Colour tokens, their merge and their validation.

use crate::color::{is_hex_color, is_valid_hex};
use vstd::prelude::*;

verus! {

/// One of the four colours that every set of tokens must define.
#[derive(Debug, Clone, Copy, PartialEq, Eq, Structural)]
pub enum ColorField {
    Primary,
    Secondary,
    Background,
    Text,
}

impl ColorField {
    /// The name under which the field is reported.
    pub open spec fn label(self) -> Seq<char> {
        match self {
            ColorField::Primary => "primary"@,
            ColorField::Secondary => "secondary"@,
            ColorField::Background => "background"@,
            ColorField::Text => "text"@,
        }
    }

    /// The name under which the field is reported.
    pub fn name(self) -> (r: &'static str)
        ensures
            r@ == self.label(),
    {
        match self {
            ColorField::Primary => "primary",
            ColorField::Secondary => "secondary",
            ColorField::Background => "background",
            ColorField::Text => "text",
        }
    }
}

/// The colours of a theme. The four required colours are meant to be hex
/// colours; nothing checks that until `validate` is called.
#[derive(Debug, PartialEq)]
pub struct ColorTokens {
    pub primary: String,
    pub secondary: String,
    pub background: String,
    pub text: String,
    pub error: Option<String>,
    pub warning: Option<String>,
    pub success: Option<String>,
}

/// What a `ColorTokens` value holds, as sequences of characters.
pub struct ColorTokensView {
    pub primary: Seq<char>,
    pub secondary: Seq<char>,
    pub background: Seq<char>,
    pub text: Seq<char>,
    pub error: Option<Seq<char>>,
    pub warning: Option<Seq<char>>,
    pub success: Option<Seq<char>>,
}

/// The message that reports `value` as an invalid colour for `field`.
pub open spec fn invalid_color_message(field: ColorField, value: Seq<char>) -> Seq<char> {
    "Invalid hex color for '"@ + field.label() + "': "@ + value
}

/// The characters of a validation outcome.
pub open spec fn outcome_view(r: Result<(), String>) -> Result<(), Seq<char>> {
    match r {
        Ok(()) => Ok(()),
        Err(message) => Err(message@),
    }
}

impl ColorTokensView {
    /// The value of one required colour.
    pub open spec fn get(self, field: ColorField) -> Seq<char> {
        match field {
            ColorField::Primary => self.primary,
            ColorField::Secondary => self.secondary,
            ColorField::Background => self.background,
            ColorField::Text => self.text,
        }
    }

    /// `other` laid over `self`: the required colours are `other`'s; an
    /// optional colour is `other`'s where it has one, else `self`'s.
    pub open spec fn merge_with(self, other: ColorTokensView) -> ColorTokensView {
        ColorTokensView {
            primary: other.primary,
            secondary: other.secondary,
            background: other.background,
            text: other.text,
            error: if other.error is Some { other.error } else { self.error },
            warning: if other.warning is Some { other.warning } else { self.warning },
            success: if other.success is Some { other.success } else { self.success },
        }
    }

    /// The first required colour, in the order primary, secondary,
    /// background, text, that is not a hex colour.
    pub open spec fn first_invalid(self) -> Option<ColorField> {
        if !is_hex_color(self.primary) {
            Some(ColorField::Primary)
        } else if !is_hex_color(self.secondary) {
            Some(ColorField::Secondary)
        } else if !is_hex_color(self.background) {
            Some(ColorField::Background)
        } else if !is_hex_color(self.text) {
            Some(ColorField::Text)
        } else {
            None
        }
    }

    /// The outcome of validation: success, or the message for the first
    /// required colour that is not a hex colour.
    pub open spec fn validated(self) -> Result<(), Seq<char>> {
        match self.first_invalid() {
            None => Ok(()),
            Some(field) => Err(invalid_color_message(field, self.get(field))),
        }
    }
}

impl View for ColorTokens {
    type V = ColorTokensView;

    open spec fn view(&self) -> ColorTokensView {
        ColorTokensView {
            primary: self.primary@,
            secondary: self.secondary@,
            background: self.background@,
            text: self.text@,
            error: self.error.deep_view(),
            warning: self.warning.deep_view(),
            success: self.success.deep_view(),
        }
    }
}

impl DeepView for ColorTokens {
    type V = ColorTokensView;

    open spec fn deep_view(&self) -> ColorTokensView {
        self@
    }
}

/// A copy of an optional string.
fn clone_opt(s: &Option<String>) -> (r: Option<String>)
    ensures
        r == *s,
{
    match s {
        Some(s) => Some(s.clone()),
        None => None,
    }
}

/// `over` where it holds a string, else `under`.
fn overlay(under: &Option<String>, over: &Option<String>) -> (r: Option<String>)
    ensures
        r == if over is Some { *over } else { *under },
{
    match over {
        Some(s) => Some(s.clone()),
        None => clone_opt(under),
    }
}

/// Builds the message that reports `value` as an invalid colour for `field`.
fn invalid_color(field: ColorField, value: &String) -> (r: String)
    ensures
        r@ == invalid_color_message(field, value@),
{
    String::from_str("Invalid hex color for '").concat(field.name()).concat("': ").concat(
        value.as_str(),
    )
}

impl Clone for ColorTokens {
    fn clone(&self) -> (r: Self)
        ensures
            r == *self,
    {
        ColorTokens {
            primary: self.primary.clone(),
            secondary: self.secondary.clone(),
            background: self.background.clone(),
            text: self.text.clone(),
            error: clone_opt(&self.error),
            warning: clone_opt(&self.warning),
            success: clone_opt(&self.success),
        }
    }
}

impl ColorTokens {
    /// Lays `other` over `self`. The required colours of the result are
    /// `other`'s; each optional colour is `other`'s where it has one, else
    /// `self`'s.
    pub fn merge_with(&self, other: &ColorTokens) -> (r: ColorTokens)
        ensures
            r@ == self@.merge_with(other@),
    {
        ColorTokens {
            primary: other.primary.clone(),
            secondary: other.secondary.clone(),
            background: other.background.clone(),
            text: other.text.clone(),
            error: overlay(&self.error, &other.error),
            warning: overlay(&self.warning, &other.warning),
            success: overlay(&self.success, &other.success),
        }
    }

    /// Checks that the four required colours are hex colours. Fails with the
    /// message for the first one that is not.
    pub fn validate(&self) -> (r: Result<(), String>)
        ensures
            outcome_view(r) == self@.validated(),
    {
        if !is_valid_hex(self.primary.as_str()) {
            return Err(invalid_color(ColorField::Primary, &self.primary));
        }
        if !is_valid_hex(self.secondary.as_str()) {
            return Err(invalid_color(ColorField::Secondary, &self.secondary));
        }
        if !is_valid_hex(self.background.as_str()) {
            return Err(invalid_color(ColorField::Background, &self.background));
        }
        if !is_valid_hex(self.text.as_str()) {
            return Err(invalid_color(ColorField::Text, &self.text));
        }
        Ok(())
    }
}

} // verus!
