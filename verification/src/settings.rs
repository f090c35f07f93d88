//! What the buttons of the settings window decide.
use vstd::prelude::*;
use crate::autoplay::{AutoplayContext, AutoplayType};
use crate::ui::AppTheme;

verus! {

/// The buttons at the bottom of the settings window.
#[derive(Debug, Clone, Copy, PartialEq, Eq, Structural)]
pub enum SettingsButton {
    /// Apply the selection and save it to the configuration file.
    Apply,
    /// Apply the selection without saving it (the "OK" button).
    Confirm,
    /// Drop the selection.
    Cancel,
}

/// What the window does after a button was pressed.
#[derive(Debug, Clone, Copy, PartialEq, Eq, Structural)]
pub struct SettingsOutcome {
    /// The selection replaces the shared configuration.
    pub apply: bool,
    /// The selection is written to the configuration file.
    pub save: bool,
    /// The selection is reset to the shared configuration.
    pub reset: bool,
    /// The window closes (and has no unapplied changes any more).
    pub close: bool,
    /// The theme to switch the window to, if it changed.
    pub theme: Option<AppTheme>,
}

/// The settings window's decision on a button: Cancel resets the selection,
/// OK applies it, Apply applies and saves it; each closes the window. When
/// the selection is applied, a changed theme is switched to and a changed
/// autoplay rule takes effect at once.
pub fn settings_outcome(
    button: SettingsButton,
    selected_theme: AppTheme,
    shared_theme: AppTheme,
    selected: AutoplayType,
    shared: AutoplayType,
    autoplay: &mut AutoplayContext,
) -> (out: SettingsOutcome)
    ensures
        out.apply == (button != SettingsButton::Cancel),
        out.save == (button == SettingsButton::Apply),
        out.reset == (button == SettingsButton::Cancel),
        out.close,
        out.theme == if out.apply && selected_theme != shared_theme {
            Some(selected_theme)
        } else {
            None::<AppTheme>
        },
        final(autoplay).autoplay_rule() == if out.apply && selected != shared {
            selected
        } else {
            old(autoplay).autoplay_rule()
        },
        final(autoplay).pending_new_track() == old(autoplay).pending_new_track(),
        final(autoplay).controlled() == old(autoplay).controlled(),
{
    let apply = match button {
        SettingsButton::Cancel => false,
        _ => true,
    };
    let save = match button {
        SettingsButton::Apply => true,
        _ => false,
    };
    let theme = if apply && selected_theme != shared_theme {
        Some(selected_theme)
    } else {
        None
    };
    if apply && selected != shared {
        autoplay.set_autoplay(selected);
    }
    SettingsOutcome { apply, save, reset: !apply, close: true, theme }
}

} // verus!
