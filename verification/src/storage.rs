//! Where a provider keeps the selected theme.

use vstd::prelude::*;

verus! {

/// The key under which the selected theme is stored, unless another is given.
pub const DEFAULT_STORAGE_KEY: &'static str = "theme";

/// The media query that tells whether the system prefers dark colours.
pub const SYSTEM_THEME_QUERY: &'static str = "(prefers-color-scheme: dark)";

/// The key-value store in which the selected theme is persisted.
#[derive(Debug, Clone, Copy, PartialEq, Eq, Structural)]
pub enum StorageType {
    /// The durable store, kept across sessions.
    LocalStorage,
    /// The store that lives as long as the session.
    SessionStorage,
}

impl Default for StorageType {
    fn default() -> (r: Self)
        ensures
            r == StorageType::LocalStorage,
    {
        StorageType::LocalStorage
    }
}

} // verus!
