use vstd::prelude::*;
use crate::theme::{Theme, canonical_value, theme_of, theme_from_value};

verus! {

/// Where the appearance flags live, under the current user's hive.
pub const PERSONALIZE_SECTION: &'static str = "Software\\Microsoft\\Windows\\CurrentVersion\\Themes\\Personalize";

/// The flag for application appearance: 0 is dark, nonzero is light.
pub const APPS_USE_LIGHT_THEME: &'static str = "AppsUseLightTheme";

/// The optional flag for window chrome and taskbar appearance.
pub const SYSTEM_USES_LIGHT_THEME: &'static str = "SystemUsesLightTheme";

/// What is reported when the preference section or its flag cannot be used.
pub const SYSTEM_REQUIREMENTS_MESSAGE: &'static str = "This program requires Windows 10 14393 or above";

/// The setting named in the change notification sent after a toggle.
pub const THEME_SETTING_NAME: &'static str = "ImmersiveColorSet";

/// How long, in milliseconds, the notification waits on each window.
pub const BROADCAST_TIMEOUT_MS: u32 = 100;

/// Every failure of a toggle: the section, or its flag, is not usable here.
#[derive(Debug, Clone, Copy, PartialEq, Eq, Structural)]
pub enum ToggleError {
    UnsupportedPlatform,
}

/// The two flags of the personalization section. `None` stands for a key
/// that is missing or does not hold a 32-bit integer.
#[derive(Debug, Clone, Copy, PartialEq, Eq, Structural)]
pub struct PreferenceSection {
    pub apps_use_light_theme: Option<u32>,
    pub system_uses_light_theme: Option<u32>,
}

/// The preference store as this program sees it: the personalization
/// section, or `None` where it cannot be opened for reading and writing.
#[derive(Debug, Clone, Copy, PartialEq, Eq, Structural)]
pub struct PreferenceStore {
    pub personalize: Option<PreferenceSection>,
}

/// The theme found before a toggle and the theme set by it.
#[derive(Debug, Clone, Copy, PartialEq, Eq, Structural)]
pub struct ToggleReport {
    pub detected: Theme,
    pub applied: Theme,
}

/// The section after `theme` is written: the primary flag takes its value,
/// and the system flag takes it too where it exists.
pub open spec fn section_with_theme(s: PreferenceSection, theme: Theme) -> PreferenceSection {
    PreferenceSection {
        apps_use_light_theme: Some(theme.spec_value()),
        system_uses_light_theme: match s.system_uses_light_theme {
            Some(_) => Some(theme.spec_value()),
            None => None,
        },
    }
}

/// The outcome of one toggle of the store.
pub open spec fn toggle_result(s: PreferenceStore) -> Result<ToggleReport, ToggleError> {
    match s.personalize {
        Some(sec) => match sec.apps_use_light_theme {
            Some(v) => Ok(
                ToggleReport { detected: theme_of(v), applied: theme_of(v).spec_opposite() },
            ),
            None => Err(ToggleError::UnsupportedPlatform),
        },
        None => Err(ToggleError::UnsupportedPlatform),
    }
}

/// The store after one toggle; unchanged where the toggle fails.
pub open spec fn toggled(s: PreferenceStore) -> PreferenceStore {
    match s.personalize {
        Some(sec) => match sec.apps_use_light_theme {
            Some(v) => PreferenceStore {
                personalize: Some(section_with_theme(sec, theme_of(v).spec_opposite())),
            },
            None => s,
        },
        None => s,
    }
}

/// Reads the theme that the section's primary flag stands for.
pub fn get_windows_theme(section: &PreferenceSection) -> (r: Result<Theme, ToggleError>)
    ensures
        match section.apps_use_light_theme {
            Some(v) => r == Ok::<Theme, ToggleError>(theme_of(v)),
            None => r == Err::<Theme, ToggleError>(ToggleError::UnsupportedPlatform),
        },
{
    match section.apps_use_light_theme {
        Some(v) => Ok(theme_from_value(v)),
        None => Err(ToggleError::UnsupportedPlatform),
    }
}

/// Writes `theme` to the primary flag, and to the system flag where that
/// flag exists; a missing system flag is left missing.
pub fn set_windows_theme(theme: Theme, section: &mut PreferenceSection)
    ensures
        *final(section) == section_with_theme(*old(section), theme),
{
    let value = theme.registry_value();
    section.apps_use_light_theme = Some(value);
    if section.system_uses_light_theme.is_some() {
        section.system_uses_light_theme = Some(value);
    }
}

/// Toggles the stored theme: decodes the primary flag, writes the opposite
/// theme back, and reports both. Fails, writing nothing, where the section
/// cannot be opened or its primary flag cannot be read.
pub fn run(store: &mut PreferenceStore) -> (r: Result<ToggleReport, ToggleError>)
    ensures
        r == toggle_result(*old(store)),
        *final(store) == toggled(*old(store)),
{
    match &mut store.personalize {
        None => Err(ToggleError::UnsupportedPlatform),
        Some(section) => {
            let detected = match get_windows_theme(section) {
                Ok(t) => t,
                Err(e) => {
                    return Err(e);
                },
            };
            let applied = detected.opposite();
            set_windows_theme(applied, section);
            Ok(ToggleReport { detected, applied })
        },
    }
}

/// Toggling twice brings the primary flag back to the canonical value (0 or 1)
/// of what it stood for at first: the same theme, though not always the same
/// integer when it started outside 0 and 1.
pub proof fn lemma_toggle_twice_restores_theme(s: PreferenceStore, v: u32)
    requires
        s.personalize matches Some(sec) && sec.apps_use_light_theme == Some(v),
    ensures
        toggle_result(s) is Ok,
        toggle_result(toggled(s)) is Ok,
        toggled(toggled(s)).personalize matches Some(sec2) && sec2.apps_use_light_theme == Some(
            canonical_value(v),
        ),
        theme_of(canonical_value(v)) == theme_of(v),
        toggled(toggled(s)) == toggled(
            toggled(
                PreferenceStore {
                    personalize: Some(
                        PreferenceSection {
                            apps_use_light_theme: Some(canonical_value(v)),
                            ..s.personalize->0
                        },
                    ),
                },
            ),
        ),
{
}

/// Where the system flag is missing, a toggle of a readable section still
/// succeeds, and the system flag stays missing.
pub proof fn lemma_missing_system_flag_stays_missing(s: PreferenceStore)
    requires
        s.personalize matches Some(sec) && sec.apps_use_light_theme is Some
            && sec.system_uses_light_theme is None,
    ensures
        toggle_result(s) is Ok,
        toggled(s).personalize matches Some(sec2) && sec2.system_uses_light_theme is None,
{
}

/// Where the system flag exists, after a toggle it holds the value newly
/// written to the primary flag.
pub proof fn lemma_system_flag_mirrors_primary(s: PreferenceStore)
    requires
        s.personalize matches Some(sec) && sec.apps_use_light_theme is Some
            && sec.system_uses_light_theme is Some,
    ensures
        toggled(s).personalize matches Some(sec2) && sec2.system_uses_light_theme is Some
            && sec2.system_uses_light_theme == sec2.apps_use_light_theme,
        toggle_result(s) matches Ok(rep) && toggled(s).personalize->0.apps_use_light_theme == Some(
            rep.applied.spec_value(),
        ),
{
}

/// Where the section cannot be opened, a toggle fails as an unsupported
/// platform and writes to neither flag.
pub proof fn lemma_unopenable_section_fails_without_writes(s: PreferenceStore)
    requires
        s.personalize is None,
    ensures
        toggle_result(s) == Err::<ToggleReport, ToggleError>(ToggleError::UnsupportedPlatform),
        toggled(s) == s,
{
}

} // verus!
