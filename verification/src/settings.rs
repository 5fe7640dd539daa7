//! The choices that the settings offer.

use vstd::prelude::*;
use crate::theme::ThemePreference;

verus! {

/// The themes a user can choose from, in the order in which they are
/// offered.
pub fn theme_options() -> (options: Vec<ThemePreference>)
    ensures
        options@ == seq![ThemePreference::System, ThemePreference::Light, ThemePreference::Dark],
{
    let mut options: Vec<ThemePreference> = Vec::new();
    options.push(ThemePreference::System);
    options.push(ThemePreference::Light);
    options.push(ThemePreference::Dark);
    options
}

} // verus!
