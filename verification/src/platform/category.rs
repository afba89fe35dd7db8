//! Storage categories for organizing saved data.

use vstd::prelude::*;

verus! {

pub const SETTINGS: &'static str = "settings";
pub const PRESETS: &'static str = "presets";
pub const BOOKMARKS: &'static str = "bookmarks";
pub const PALETTES: &'static str = "palettes";
pub const PREFERENCES: &'static str = "preferences";

/// Every category, in the order `clear_all` clears them.
pub fn all() -> (v: Vec<&'static str>)
    ensures
        v@.len() == 5,
        v@[0] == SETTINGS,
        v@[1] == PRESETS,
        v@[2] == BOOKMARKS,
        v@[3] == PALETTES,
        v@[4] == PREFERENCES,
{
    vec![SETTINGS, PRESETS, BOOKMARKS, PALETTES, PREFERENCES]
}

} // verus!
