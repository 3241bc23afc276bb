//! Theme resolution for component-based user interfaces.
//!
//! A declared theme preference is combined with the system colour scheme, an
//! optional forced theme, an optional preview and a registry of custom themes
//! into the colour tokens that are rendered.

pub mod color;
pub mod custom;
pub mod lemmas;
pub mod resolver;
pub mod storage;
pub mod text;
pub mod theme;
pub mod tokens;

pub use custom::{CustomTheme, ThemeRegistry};
pub use resolver::{Action, Event, ResolverState};
pub use storage::StorageType;
pub use theme::Theme;
pub use tokens::{ColorField, ColorTokens};
