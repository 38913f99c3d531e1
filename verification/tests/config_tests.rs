use fersk::config::{Config, ConfigError};

#[test]
fn from_file_reads_the_work_path() {
    let cfg = Config::from_file("work-path = \"/var/cache/fersk\"\n").unwrap();
    assert_eq!(cfg.work_path, "/var/cache/fersk");
}

#[test]
fn from_file_ignores_unrelated_entries() {
    let cfg = Config::from_file("other = 3\nwork-path = \"/tmp/w\"\n").unwrap();
    assert_eq!(cfg.work_path, "/tmp/w");
}

#[test]
fn from_file_rejects_unparsable_text() {
    assert!(matches!(Config::from_file("this is [ not toml"), Err(ConfigError::Invalid)));
}

#[test]
fn from_file_rejects_a_missing_entry() {
    assert!(matches!(Config::from_file("other = 3\n"), Err(ConfigError::Invalid)));
}

#[test]
fn from_file_rejects_a_non_string_entry() {
    assert!(matches!(Config::from_file("work-path = 3\n"), Err(ConfigError::Invalid)));
}

#[test]
fn from_location_parses_existing_contents() {
    let text = "work-path = \"/tmp/w\"".to_string();
    let cfg = Config::from_location(Some(&text)).unwrap();
    assert_eq!(cfg.work_path, "/tmp/w");
}

#[test]
fn from_location_falls_back_to_the_cache_directory() {
    match Config::from_location(None) {
        Ok(cfg) => assert!(!cfg.work_path.is_empty()),
        Err(e) => assert!(matches!(e, ConfigError::NoCacheDirectory)),
    }
}

#[test]
fn default_location_ends_with_the_tool_directory() {
    if let Some(p) = Config::default_location() {
        assert!(p.ends_with("/fersk"));
    }
}

#[test]
fn config_file_path_is_inside_the_location() {
    assert_eq!(Config::path_from_location("/home/u/.config/fersk"), "/home/u/.config/fersk/config.toml");
}
