use grok_pager::settings::catalog::CatalogDefaults;
use grok_pager::settings::layout::{section_for, sections_for, OTHER_SECTION};
use grok_pager::settings::registry::{SettingCategory, SettingsRegistry};

fn registry() -> SettingsRegistry {
    SettingsRegistry::defaults(&CatalogDefaults {
        on_windows: false,
        remember_tool_approvals: true,
        respect_manual_folds: true,
        side_by_side_edit: false,
        display_refresh_auto_cadence: true,
        ask_user_question_timeout_enabled: true,
    })
}

#[test]
fn every_setting_has_a_section() {
    let registry = registry();
    let orphans: Vec<&str> = registry
        .all()
        .iter()
        .filter(|meta| section_for(meta.key) == OTHER_SECTION)
        .map(|meta| meta.key)
        .collect();
    assert!(orphans.is_empty(), "settings with no declared section: {orphans:?}");
}

#[test]
fn every_section_is_declared_for_its_category() {
    let registry = registry();
    for meta in registry.all() {
        let section = section_for(meta.key);
        let declared = sections_for(meta.category);
        assert!(
            declared.contains(&section),
            "`{}` maps to section `{section}`, which is not in sections_for({:?}) = {declared:?}",
            meta.key,
            meta.category,
        );
    }
}

#[test]
fn declared_sections_are_unique_per_category() {
    for category in SettingCategory::all() {
        let mut seen = Vec::new();
        for section in sections_for(category) {
            assert!(!seen.contains(&section), "duplicate section `{section}` in sections_for({category:?})");
            seen.push(section);
        }
    }
}
