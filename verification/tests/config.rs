use kanji_master::config::{
    data_fixes, default_dark_mode, default_interface_language, default_onboarding_seen, DataOnDisk,
};

#[test]
fn stored_configuration_defaults() {
    assert!(default_dark_mode());
    assert_eq!(default_interface_language(), "English");
    assert!(default_onboarding_seen());
}

#[test]
fn only_missing_paths_with_available_replacements_change() {
    let found = DataOnDisk {
        db_exists: false,
        bundled_db_exists: true,
        svg_exists: true,
        bundled_svg_is_dir: true,
        localization_exists: false,
        seeded_en_exists: false,
    };
    let f = data_fixes(&found);
    assert!(f.use_bundled_db);
    assert!(!f.use_bundled_svg);
    assert!(!f.use_seeded_localization);
    assert!(f.changed());
    let none = data_fixes(&DataOnDisk {
        db_exists: true,
        bundled_db_exists: true,
        svg_exists: false,
        bundled_svg_is_dir: false,
        localization_exists: true,
        seeded_en_exists: true,
    });
    assert!(!none.changed());
}
