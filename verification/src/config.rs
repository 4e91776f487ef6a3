//! The settings of the tool: where the notes live, how the tool looks, and
//! when it backs up.

use vstd::prelude::*;

verus! {

/// Why a configuration is refused.
#[derive(Debug, Clone, Copy, PartialEq, Eq, Structural)]
pub enum ConfigError {
    /// The notes directory is missing and could not be made.
    Io,
    /// The hotkey of the widget is empty.
    EmptyHotkey,
    /// The hours between two backups are zero.
    ZeroBackupInterval,
}

impl ConfigError {
    /// Whether a field of the configuration is at fault, not the file system.
    pub open spec fn spec_is_validation(self) -> bool {
        self != ConfigError::Io
    }

    /// Whether a field of the configuration is at fault, not the file system.
    pub fn is_validation(&self) -> (r: bool)
        ensures
            r == self.spec_is_validation(),
    {
        match self {
            ConfigError::Io => false,
            ConfigError::EmptyHotkey => true,
            ConfigError::ZeroBackupInterval => true,
        }
    }

    /// The error in words.
    pub fn message(&self) -> (r: &'static str)
        ensures
            r@ == match self {
                ConfigError::Io => "Notes directory cannot be created"@,
                ConfigError::EmptyHotkey => "Widget hotkey cannot be empty"@,
                ConfigError::ZeroBackupInterval => "Backup interval must be greater than 0"@,
            },
    {
        match self {
            ConfigError::Io => "Notes directory cannot be created",
            ConfigError::EmptyHotkey => "Widget hotkey cannot be empty",
            ConfigError::ZeroBackupInterval => "Backup interval must be greater than 0",
        }
    }
}

/// The colours of the interface, by name.
#[derive(Debug)]
pub struct Theme {
    pub primary_color: String,
    pub secondary_color: String,
    pub background_color: String,
    pub text_color: String,
    pub accent_color: String,
}

/// What a theme is, as mathematics.
pub struct ThemeView {
    pub primary_color: Seq<char>,
    pub secondary_color: Seq<char>,
    pub background_color: Seq<char>,
    pub text_color: Seq<char>,
    pub accent_color: Seq<char>,
}

impl View for Theme {
    type V = ThemeView;

    open spec fn view(&self) -> ThemeView {
        ThemeView {
            primary_color: self.primary_color@,
            secondary_color: self.secondary_color@,
            background_color: self.background_color@,
            text_color: self.text_color@,
            accent_color: self.accent_color@,
        }
    }
}

impl ThemeView {
    /// Cyan and blue on black, with white text and yellow accents.
    pub open spec fn standard() -> ThemeView {
        ThemeView {
            primary_color: "cyan"@,
            secondary_color: "blue"@,
            background_color: "black"@,
            text_color: "white"@,
            accent_color: "yellow"@,
        }
    }
}

impl Default for Theme {
    /// The standard theme.
    fn default() -> (r: Theme)
        ensures
            r@ == ThemeView::standard(),
    {
        Theme {
            primary_color: "cyan".to_owned(),
            secondary_color: "blue".to_owned(),
            background_color: "black".to_owned(),
            text_color: "white".to_owned(),
            accent_color: "yellow".to_owned(),
        }
    }
}

impl Clone for Theme {
    /// A copy with the same colours.
    fn clone(&self) -> (r: Theme)
        ensures
            r@ == self@,
    {
        Theme {
            primary_color: self.primary_color.clone(),
            secondary_color: self.secondary_color.clone(),
            background_color: self.background_color.clone(),
            text_color: self.text_color.clone(),
            accent_color: self.accent_color.clone(),
        }
    }
}

/// The settings.
#[derive(Debug)]
pub struct Config {
    pub notes_dir: String,
    pub auto_start: bool,
    pub widget_hotkey: String,
    pub theme: Theme,
    pub max_recent_notes: usize,
    pub backup_enabled: bool,
    pub backup_interval_hours: u64,
}

/// What the settings are, as mathematics.
pub struct ConfigView {
    pub notes_dir: Seq<char>,
    pub auto_start: bool,
    pub widget_hotkey: Seq<char>,
    pub theme: ThemeView,
    pub max_recent_notes: usize,
    pub backup_enabled: bool,
    pub backup_interval_hours: u64,
}

impl View for Config {
    type V = ConfigView;

    open spec fn view(&self) -> ConfigView {
        ConfigView {
            notes_dir: self.notes_dir@,
            auto_start: self.auto_start,
            widget_hotkey: self.widget_hotkey@,
            theme: self.theme@,
            max_recent_notes: self.max_recent_notes,
            backup_enabled: self.backup_enabled,
            backup_interval_hours: self.backup_interval_hours,
        }
    }
}

impl ConfigView {
    /// The settings of a first start, for the notes directory `notes_dir`: no
    /// start with the system, the hotkey Ctrl+Shift+N, the standard theme, a
    /// hundred recent notes, and a backup every day.
    pub open spec fn standard(notes_dir: Seq<char>) -> ConfigView {
        ConfigView {
            notes_dir,
            auto_start: false,
            widget_hotkey: "Ctrl+Shift+N"@,
            theme: ThemeView::standard(),
            max_recent_notes: 100,
            backup_enabled: true,
            backup_interval_hours: 24,
        }
    }

    /// The notes directory of a first start: the one in the user's data
    /// directory where there is such a directory, else the one in the home
    /// directory, else one beside the program.
    pub open spec fn first_notes_dir(
        in_data_dir: Option<Seq<char>>,
        in_home_dir: Option<Seq<char>>,
    ) -> Seq<char> {
        match in_data_dir {
            Some(path) => path,
            None => match in_home_dir {
                Some(path) => path,
                None => "./turbo-notes-data"@,
            },
        }
    }

    /// What is wrong with these settings, if anything: first a notes
    /// directory that is not there, then an empty hotkey, then a backup
    /// interval of zero hours.
    pub open spec fn fault(self, notes_dir_ready: bool) -> Option<ConfigError> {
        if !notes_dir_ready {
            Some(ConfigError::Io)
        } else if self.widget_hotkey.len() == 0 {
            Some(ConfigError::EmptyHotkey)
        } else if self.backup_interval_hours == 0 {
            Some(ConfigError::ZeroBackupInterval)
        } else {
            None
        }
    }
}

impl Config {
    /// The settings of a first start, for the notes directory `notes_dir`.
    pub fn new(notes_dir: String) -> (r: Config)
        ensures
            r@ == ConfigView::standard(notes_dir@),
    {
        Config {
            notes_dir,
            auto_start: false,
            widget_hotkey: "Ctrl+Shift+N".to_owned(),
            theme: Theme::default(),
            max_recent_notes: 100,
            backup_enabled: true,
            backup_interval_hours: 24,
        }
    }

    /// The notes directory of a first start. `in_data_dir` is the path of
    /// `turbo-notes` in the user's data directory and `in_home_dir` that of
    /// `.turbo-notes` in the home directory, each where the system has such a
    /// directory.
    pub fn default_notes_dir(in_data_dir: Option<String>, in_home_dir: Option<String>) -> (r:
        String)
        ensures
            r@ == ConfigView::first_notes_dir(
                match in_data_dir {
                    Some(path) => Some(path@),
                    None => None,
                },
                match in_home_dir {
                    Some(path) => Some(path@),
                    None => None,
                },
            ),
    {
        match in_data_dir {
            Some(path) => path,
            None => match in_home_dir {
                Some(path) => path,
                None => "./turbo-notes-data".to_owned(),
            },
        }
    }

    /// Moves the notes to the directory `path`.
    pub fn set_notes_dir(&mut self, path: String)
        ensures
            final(self)@ == (ConfigView { notes_dir: path@, ..old(self)@ }),
    {
        self.notes_dir = path;
    }

    /// Lets the tool start with the system.
    pub fn enable_auto_start(&mut self)
        ensures
            final(self)@ == (ConfigView { auto_start: true, ..old(self)@ }),
    {
        self.auto_start = true;
    }

    /// Keeps the tool from starting with the system.
    pub fn disable_auto_start(&mut self)
        ensures
            final(self)@ == (ConfigView { auto_start: false, ..old(self)@ }),
    {
        self.auto_start = false;
    }

    /// Sets the hotkey that opens the widget.
    pub fn set_widget_hotkey(&mut self, hotkey: String)
        ensures
            final(self)@ == (ConfigView { widget_hotkey: hotkey@, ..old(self)@ }),
    {
        self.widget_hotkey = hotkey;
    }

    /// Replaces the theme.
    pub fn update_theme(&mut self, theme: Theme)
        ensures
            final(self)@ == (ConfigView { theme: theme@, ..old(self)@ }),
    {
        self.theme = theme;
    }

    /// Whether backups are made.
    pub fn should_backup(&self) -> (r: bool)
        ensures
            r == self@.backup_enabled,
    {
        self.backup_enabled
    }

    /// Checks the settings, once the caller has seen to the notes directory:
    /// `notes_dir_ready` says whether it is there, after an attempt to make it
    /// where it was missing. The first fault found is reported.
    pub fn validate(&self, notes_dir_ready: bool) -> (r: Result<(), ConfigError>)
        ensures
            match self@.fault(notes_dir_ready) {
                Some(fault) => r == Err::<(), ConfigError>(fault),
                None => r is Ok,
            },
    {
        if !notes_dir_ready {
            return Err(ConfigError::Io);
        }
        if self.widget_hotkey.as_str().is_empty() {
            return Err(ConfigError::EmptyHotkey);
        }
        if self.backup_interval_hours == 0 {
            return Err(ConfigError::ZeroBackupInterval);
        }
        Ok(())
    }
}

impl Clone for Config {
    /// A copy with the same settings.
    fn clone(&self) -> (r: Config)
        ensures
            r@ == self@,
    {
        Config {
            notes_dir: self.notes_dir.clone(),
            auto_start: self.auto_start,
            widget_hotkey: self.widget_hotkey.clone(),
            theme: self.theme.clone(),
            max_recent_notes: self.max_recent_notes,
            backup_enabled: self.backup_enabled,
            backup_interval_hours: self.backup_interval_hours,
        }
    }
}

} // verus!
