//! Application settings.

use vstd::prelude::*;

use crate::history::clamp_capacity;
use crate::i18n::UiLang;

verus! {

/// The settings of the application.
#[derive(Clone, Copy, Debug, PartialEq, Eq, Structural)]
pub struct Settings {
    /// Hide the main window to the tray when it is closed (where there is a tray).
    pub hide_on_close: bool,
    /// How many history entries to keep.
    pub history_capacity: usize,
    /// Automatic direction: Chinese input is translated to English, other input to Chinese.
    pub auto_direction: bool,
    /// Interface language (English by default).
    pub ui_lang: UiLang,
}

impl Default for Settings {
    fn default() -> (r: Self)
        ensures
            r == (Settings {
                hide_on_close: true,
                history_capacity: 200,
                auto_direction: true,
                ui_lang: UiLang::En,
            }),
    {
        Settings { hide_on_close: true, history_capacity: 200, auto_direction: true, ui_lang: UiLang::En }
    }
}

impl Settings {
    /// The settings as read from storage (or the defaults when there were none),
    /// with the history capacity clamped to 1..=10000.
    pub fn load(stored: Settings) -> (r: Settings)
        ensures
            r == (Settings { history_capacity: clamp_capacity(stored.history_capacity), ..stored }),
    {
        let mut s = stored;
        s.history_capacity = if s.history_capacity < 1 {
            1
        } else if s.history_capacity > 10_000 {
            10_000
        } else {
            s.history_capacity
        };
        s
    }
}

/// Loaded settings always keep between 1 and 10000 history entries, and
/// loading them again changes nothing.
pub proof fn law_loaded_capacity_in_range(stored: Settings)
    ensures
        1 <= clamp_capacity(stored.history_capacity) <= 10_000,
        clamp_capacity(clamp_capacity(stored.history_capacity)) == clamp_capacity(stored.history_capacity),
{
}

/// Settings that were saved read back unchanged: loading keeps settings whose
/// capacity is already in range.
pub proof fn law_saved_settings_reload(s: Settings)
    requires
        1 <= s.history_capacity <= 10_000,
    ensures
        (Settings { history_capacity: clamp_capacity(s.history_capacity), ..s }) == s,
{
}

} // verus!
