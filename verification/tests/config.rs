use turbo_notes::{Config, ConfigError, Theme};

fn config() -> Config {
    Config::new("/data/turbo-notes".to_string())
}

#[test]
fn default_theme() {
    let t = Theme::default();
    assert_eq!(t.primary_color, "cyan");
    assert_eq!(t.secondary_color, "blue");
    assert_eq!(t.background_color, "black");
    assert_eq!(t.text_color, "white");
    assert_eq!(t.accent_color, "yellow");
}

#[test]
fn first_start_settings() {
    let c = config();
    assert_eq!(c.notes_dir, "/data/turbo-notes");
    assert!(!c.auto_start);
    assert_eq!(c.widget_hotkey, "Ctrl+Shift+N");
    assert_eq!(c.theme.primary_color, "cyan");
    assert_eq!(c.theme.accent_color, "yellow");
    assert_eq!(c.max_recent_notes, 100);
    assert!(c.backup_enabled);
    assert_eq!(c.backup_interval_hours, 24);
}

#[test]
fn set_notes_dir_changes_only_the_directory() {
    let mut c = config();
    c.set_notes_dir("/elsewhere".to_string());
    assert_eq!(c.notes_dir, "/elsewhere");
    assert_eq!(c.widget_hotkey, "Ctrl+Shift+N");
    assert_eq!(c.max_recent_notes, 100);
}

#[test]
fn auto_start_on_and_off() {
    let mut c = config();
    c.enable_auto_start();
    assert!(c.auto_start);
    c.enable_auto_start();
    assert!(c.auto_start);
    c.disable_auto_start();
    assert!(!c.auto_start);
    c.disable_auto_start();
    assert!(!c.auto_start);
}

#[test]
fn set_widget_hotkey_changes_the_hotkey() {
    let mut c = config();
    c.set_widget_hotkey("Alt+N".to_string());
    assert_eq!(c.widget_hotkey, "Alt+N");
    assert_eq!(c.notes_dir, "/data/turbo-notes");
}

#[test]
fn update_theme_replaces_the_theme() {
    let mut c = config();
    let mut t = Theme::default();
    t.primary_color = "red".to_string();
    c.update_theme(t);
    assert_eq!(c.theme.primary_color, "red");
    assert_eq!(c.theme.secondary_color, "blue");
}

#[test]
fn should_backup_follows_the_setting() {
    let mut c = config();
    assert!(c.should_backup());
    c.backup_enabled = false;
    assert!(!c.should_backup());
}

#[test]
fn validate_accepts_the_first_start_settings() {
    assert_eq!(config().validate(true), Ok(()));
}

#[test]
fn validate_reports_a_missing_directory() {
    assert_eq!(config().validate(false), Err(ConfigError::Io));
}

#[test]
fn validate_reports_an_empty_hotkey() {
    let mut c = config();
    c.set_widget_hotkey(String::new());
    assert_eq!(c.validate(true), Err(ConfigError::EmptyHotkey));
}

#[test]
fn validate_reports_a_backup_interval_of_zero() {
    let mut c = config();
    c.backup_interval_hours = 0;
    assert_eq!(c.validate(true), Err(ConfigError::ZeroBackupInterval));
    c.backup_interval_hours = 1;
    assert_eq!(c.validate(true), Ok(()));
}

#[test]
fn validate_reports_the_first_fault() {
    let mut c = config();
    c.set_widget_hotkey(String::new());
    c.backup_interval_hours = 0;
    assert_eq!(c.validate(true), Err(ConfigError::EmptyHotkey));
    assert_eq!(c.validate(false), Err(ConfigError::Io));
}

#[test]
fn config_error_messages() {
    assert_eq!(ConfigError::EmptyHotkey.message(), "Widget hotkey cannot be empty");
    assert_eq!(ConfigError::ZeroBackupInterval.message(), "Backup interval must be greater than 0");
    assert!(ConfigError::EmptyHotkey.is_validation());
    assert!(ConfigError::ZeroBackupInterval.is_validation());
    assert!(!ConfigError::Io.is_validation());
    assert!(!ConfigError::Io.message().is_empty());
}

#[test]
fn config_clone_copies_every_setting() {
    let mut c = config();
    c.enable_auto_start();
    c.max_recent_notes = 7;
    let d = c.clone();
    assert_eq!(d.notes_dir, c.notes_dir);
    assert_eq!(d.auto_start, c.auto_start);
    assert_eq!(d.widget_hotkey, c.widget_hotkey);
    assert_eq!(d.theme.text_color, c.theme.text_color);
    assert_eq!(d.max_recent_notes, 7);
    assert_eq!(d.backup_enabled, c.backup_enabled);
    assert_eq!(d.backup_interval_hours, c.backup_interval_hours);
}

#[test]
fn default_notes_dir_prefers_the_data_directory() {
    let data = Some("/home/u/.local/share/turbo-notes".to_string());
    let home = Some("/home/u/.turbo-notes".to_string());
    assert_eq!(Config::default_notes_dir(data.clone(), home.clone()), "/home/u/.local/share/turbo-notes");
    assert_eq!(Config::default_notes_dir(data, None), "/home/u/.local/share/turbo-notes");
}

#[test]
fn default_notes_dir_falls_back_to_the_home_directory() {
    let home = Some("/home/u/.turbo-notes".to_string());
    assert_eq!(Config::default_notes_dir(None, home), "/home/u/.turbo-notes");
}

#[test]
fn default_notes_dir_without_any_directory() {
    assert_eq!(Config::default_notes_dir(None, None), "./turbo-notes-data");
}
