use theme_toggle::store::{
    get_windows_theme, run, set_windows_theme, PreferenceSection, PreferenceStore, ToggleError,
    ToggleReport,
};
use theme_toggle::theme::{theme_from_value, Theme};

fn store_with(apps: Option<u32>, system: Option<u32>) -> PreferenceStore {
    PreferenceStore {
        personalize: Some(PreferenceSection {
            apps_use_light_theme: apps,
            system_uses_light_theme: system,
        }),
    }
}

#[test]
fn zero_decodes_as_dark() {
    assert_eq!(theme_from_value(0), Theme::Dark);
}

#[test]
fn nonzero_decodes_as_light() {
    for v in [1u32, 2, 5, 255, u32::MAX] {
        assert_eq!(theme_from_value(v), Theme::Light);
    }
}

#[test]
fn opposite_swaps_themes() {
    assert_eq!(Theme::Light.opposite(), Theme::Dark);
    assert_eq!(Theme::Dark.opposite(), Theme::Light);
}

#[test]
fn registry_values_are_canonical() {
    assert_eq!(Theme::Light.registry_value(), 1);
    assert_eq!(Theme::Dark.registry_value(), 0);
}

#[test]
fn light_without_system_flag() {
    let mut store = store_with(Some(1), None);
    let report = run(&mut store).unwrap();
    assert_eq!(report.detected, Theme::Light);
    assert_eq!(report.applied, Theme::Dark);
    assert_eq!(format!("{:?}", report.detected), "Light");
    assert_eq!(format!("{:?}", report.applied), "Dark");
    assert_eq!(store, store_with(Some(0), None));
}

#[test]
fn dark_with_dark_system_flag() {
    let mut store = store_with(Some(0), Some(0));
    let report = run(&mut store).unwrap();
    assert_eq!(
        report,
        ToggleReport {
            detected: Theme::Dark,
            applied: Theme::Light
        }
    );
    assert_eq!(store, store_with(Some(1), Some(1)));
}

#[test]
fn malformed_value_counts_as_light() {
    let mut store = store_with(Some(5), None);
    let report = run(&mut store).unwrap();
    assert_eq!(report.detected, Theme::Light);
    assert_eq!(store.personalize.unwrap().apps_use_light_theme, Some(0));
}

#[test]
fn toggling_twice_gives_canonical_value() {
    for (start, expected) in [(0u32, 0u32), (1, 1), (2, 1), (255, 1)] {
        let mut store = store_with(Some(start), Some(7));
        run(&mut store).unwrap();
        run(&mut store).unwrap();
        assert_eq!(store, store_with(Some(expected), Some(expected)));
    }
}

#[test]
fn system_flag_takes_new_value() {
    let mut store = store_with(Some(1), Some(1));
    run(&mut store).unwrap();
    assert_eq!(store, store_with(Some(0), Some(0)));
}

#[test]
fn unopenable_section_is_unsupported() {
    let mut store = PreferenceStore { personalize: None };
    assert_eq!(run(&mut store), Err(ToggleError::UnsupportedPlatform));
    assert_eq!(store, PreferenceStore { personalize: None });
}

#[test]
fn missing_primary_flag_is_unsupported() {
    let mut store = store_with(None, Some(1));
    assert_eq!(run(&mut store), Err(ToggleError::UnsupportedPlatform));
    assert_eq!(store, store_with(None, Some(1)));
    let section = store.personalize.unwrap();
    assert_eq!(get_windows_theme(&section), Err(ToggleError::UnsupportedPlatform));
}

#[test]
fn set_theme_leaves_missing_system_flag_missing() {
    let mut section = PreferenceSection {
        apps_use_light_theme: Some(0),
        system_uses_light_theme: None,
    };
    set_windows_theme(Theme::Light, &mut section);
    assert_eq!(section.apps_use_light_theme, Some(1));
    assert_eq!(section.system_uses_light_theme, None);
    assert_eq!(get_windows_theme(&section), Ok(Theme::Light));
}
