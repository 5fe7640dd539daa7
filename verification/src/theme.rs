//! The user's choice of theme.

use vstd::prelude::*;

verus! {

/// Which theme the user prefers.
#[derive(Clone, Copy, Debug, PartialEq, Eq, Structural)]
pub enum ThemePreference {
    /// Whatever the system uses.
    System,
    Light,
    Dark,
}

impl ThemePreference {
    /// The name shown to the user.
    pub open spec fn label_text(self) -> Seq<char> {
        match self {
            ThemePreference::System => "System"@,
            ThemePreference::Light => "Light"@,
            ThemePreference::Dark => "Dark"@,
        }
    }

    /// The name shown to the user.
    pub fn label(self) -> (label: &'static str)
        ensures
            label@ == self.label_text(),
    {
        match self {
            ThemePreference::System => "System",
            ThemePreference::Light => "Light",
            ThemePreference::Dark => "Dark",
        }
    }
}

} // verus!
