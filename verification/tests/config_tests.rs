use cpdb_rs::config::PrinterConfig;
use cpdb_rs::maps::StrMap;

#[test]
fn default_config_is_empty() {
    let config = PrinterConfig::default();
    assert!(config.last_printer_id.is_none());
    assert!(config.last_backend.is_none());
    assert!(config.global_settings.is_empty());
    assert!(config.printer_settings.is_empty());
    assert!(!config.has_printer());
}

#[test]
fn set_last_printer_works() {
    let mut config = PrinterConfig::new();
    config.set_last_printer("HP-123", "CUPS");
    assert_eq!(config.last_printer_id.as_deref(), Some("HP-123"));
    assert_eq!(config.last_backend.as_deref(), Some("CUPS"));
    assert!(config.has_printer());
}

#[test]
fn global_settings_store_and_fallback() {
    let mut config = PrinterConfig::new();
    config.set_global_setting("copies".to_string(), "2".to_string());
    assert_eq!(config.get_global_setting("copies"), Some("2"));
    assert_eq!(config.get_global_setting("nonexistent"), None);

    // check fallback via get_setting_for
    assert_eq!(
        config.get_setting_for("HP-123", "CUPS", "copies"),
        Some("2")
    );
}

#[test]
fn printer_specific_overrides() {
    let mut config = PrinterConfig::new();
    config.set_global_setting("copies".to_string(), "1".to_string());
    config.set_global_setting("media".to_string(), "Letter".to_string());

    let mut hp_settings = StrMap::new();
    hp_settings.insert("media".to_string(), "A4".to_string());
    config.set_settings_for("HP-123", "CUPS", hp_settings);

    // HP-123 should have media=A4 (overridden) and copies=1 (fallback)
    assert_eq!(
        config.get_setting_for("HP-123", "CUPS", "media"),
        Some("A4")
    );
    assert_eq!(
        config.get_setting_for("HP-123", "CUPS", "copies"),
        Some("1")
    );

    // Update a single setting for HP-123 via set_setting_for
    config.set_setting_for(
        "HP-123",
        "CUPS",
        "sides".to_string(),
        "two-sided-long-edge".to_string(),
    );
    assert_eq!(
        config.get_setting_for("HP-123", "CUPS", "sides"),
        Some("two-sided-long-edge")
    );

    // General settings for HP-123 should be merged
    let merged = config.get_settings_for("HP-123", "CUPS");
    assert_eq!(merged.get("media").map(|s| s.as_str()), Some("A4"));
    assert_eq!(merged.get("copies").map(|s| s.as_str()), Some("1"));
    assert_eq!(
        merged.get("sides").map(|s| s.as_str()),
        Some("two-sided-long-edge")
    );

    // Remove HP-123 settings and check it falls back to Letter
    config.remove_settings_for("HP-123", "CUPS");
    assert_eq!(
        config.get_setting_for("HP-123", "CUPS", "media"),
        Some("Letter")
    );
    assert_eq!(config.get_setting_for("HP-123", "CUPS", "sides"), None);
}

#[test]
fn setting_written_is_read_back_only_for_its_printer() {
    let mut config = PrinterConfig::new();
    config.set_setting_for("P1", "CUPS", "copies".to_string(), "4".to_string());
    assert_eq!(config.get_setting_for("P1", "CUPS", "copies"), Some("4"));
    assert_eq!(config.get_setting_for("P2", "CUPS", "copies"), None);
    assert_eq!(config.get_setting_for("P1", "FILE", "copies"), None);
    assert_eq!(config.get_global_setting("copies"), None);
    config.set_setting_for("P1", "CUPS", "copies".to_string(), "5".to_string());
    assert_eq!(config.get_setting_for("P1", "CUPS", "copies"), Some("5"));
    assert_eq!(config.printer_settings.len(), 1);
}

#[test]
fn merged_settings_match_single_lookups() {
    let mut config = PrinterConfig::new();
    config.set_global_setting("copies".to_string(), "1".to_string());
    config.set_global_setting("sides".to_string(), "one-sided".to_string());
    config.set_setting_for("P", "B", "sides".to_string(), "two-sided-long-edge".to_string());
    config.set_setting_for("P", "B", "media".to_string(), "A4".to_string());
    let merged = config.get_settings_for("P", "B");
    assert_eq!(merged.len(), 3);
    for key in ["copies", "sides", "media", "absent"] {
        assert_eq!(
            merged.get(key).map(|s| s.as_str()),
            config.get_setting_for("P", "B", key)
        );
    }
    // the merge does not change the stored maps
    assert_eq!(config.global_settings.len(), 2);
    assert_eq!(config.get_global_setting("sides"), Some("one-sided"));
}

#[test]
fn replaced_settings_drop_the_old_ones() {
    let mut config = PrinterConfig::new();
    config.set_setting_for("P", "B", "copies".to_string(), "9".to_string());
    let mut fresh = StrMap::new();
    fresh.insert("media".to_string(), "A5".to_string());
    config.set_settings_for("P", "B", fresh);
    assert_eq!(config.get_setting_for("P", "B", "copies"), None);
    assert_eq!(config.get_setting_for("P", "B", "media"), Some("A5"));
}

#[test]
fn cloned_config_is_independent() {
    let mut config = PrinterConfig::new();
    config.set_last_printer("P", "CUPS");
    config.set_global_setting("copies".to_string(), "2".to_string());
    config.set_setting_for("P", "CUPS", "media".to_string(), "A4".to_string());
    let copy = config.clone();
    config.set_setting_for("P", "CUPS", "media".to_string(), "A3".to_string());
    config.set_global_setting("copies".to_string(), "3".to_string());
    assert_eq!(copy.get_setting_for("P", "CUPS", "media"), Some("A4"));
    assert_eq!(copy.get_global_setting("copies"), Some("2"));
    assert_eq!(copy.last_printer_id.as_deref(), Some("P"));
    assert_eq!(config.get_setting_for("P", "CUPS", "media"), Some("A3"));
}

#[test]
fn configs_compare_by_contents() {
    let mut config = PrinterConfig::new();
    config.set_last_printer("Epson", "CUPS");
    config.set_global_setting("copies".to_string(), "3".to_string());
    let mut ep_settings = StrMap::new();
    ep_settings.insert("media".to_string(), "A4".to_string());
    config.set_settings_for("Epson", "CUPS", ep_settings);

    let copy = config.clone();
    assert_eq!(config, copy);

    let mut other = config.clone();
    other.set_setting_for("Epson", "CUPS", "media".to_string(), "Letter".to_string());
    assert_ne!(config, other);

    let mut other = config.clone();
    other.set_global_setting("copies".to_string(), "4".to_string());
    assert_ne!(config, other);

    let mut other = config.clone();
    other.set_last_printer("Epson", "IPP");
    assert_ne!(config, other);

    assert_eq!(PrinterConfig::new(), PrinterConfig::default());
}
