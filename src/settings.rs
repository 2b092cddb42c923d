//! User preferences and how a stored preferences file is read back.
//!
//! The file itself is a JSON object whose key `theme` holds one of the
//! tokens of [`ThemeChoice::token`]; locating, reading, writing and framing
//! it is left to the caller, which reports what it found as a
//! [`StoredSettings`].

use vstd::prelude::*;

verus! {

#[derive(Debug, Clone, Copy, PartialEq, Eq, Structural)]
pub enum ThemeChoice {
    Light,
    Dark,
}

/// The token under which a theme is stored.
pub open spec fn theme_token(t: ThemeChoice) -> Seq<char> {
    match t {
        ThemeChoice::Light => "Light"@,
        ThemeChoice::Dark => "Dark"@,
    }
}

/// The theme that a stored token names, if any.
pub open spec fn theme_from_token(s: Seq<char>) -> Option<ThemeChoice> {
    if s == "Light"@ {
        Some(ThemeChoice::Light)
    } else if s == "Dark"@ {
        Some(ThemeChoice::Dark)
    } else {
        None
    }
}

impl ThemeChoice {
    /// The token under which this theme is stored.
    pub fn token(&self) -> (r: &'static str)
        ensures
            r@ == theme_token(*self),
    {
        match self {
            ThemeChoice::Light => "Light",
            ThemeChoice::Dark => "Dark",
        }
    }

    /// The theme stored under `s`, or `None` for an unknown token.
    pub fn from_token(s: &str) -> (r: Option<ThemeChoice>)
        ensures
            r == theme_from_token(s@),
    {
        let given = s.to_owned();
        let light = "Light".to_owned();
        let dark = "Dark".to_owned();
        if given.eq(&light) {
            Some(ThemeChoice::Light)
        } else if given.eq(&dark) {
            Some(ThemeChoice::Dark)
        } else {
            None
        }
    }
}

#[derive(Debug, Clone, Copy, PartialEq, Eq, Structural)]
pub struct AppSettings {
    pub theme: ThemeChoice,
}

/// The settings used when none are stored: the dark theme.
pub open spec fn default_settings() -> AppSettings {
    AppSettings { theme: ThemeChoice::Dark }
}

impl Default for AppSettings {
    fn default() -> (r: AppSettings)
        ensures
            r == default_settings(),
    {
        AppSettings { theme: ThemeChoice::Dark }
    }
}

impl AppSettings {
    /// The theme token to write under the key `theme`.
    pub fn stored_theme(&self) -> (r: String)
        ensures
            r@ == theme_token(self.theme),
    {
        self.theme.token().to_owned()
    }

    /// Turns what was found at the settings location into settings or an
    /// error message.
    pub fn from_stored(stored: StoredSettings) -> (r: Result<AppSettings, String>)
        ensures
            load_result_view(r) == load_outcome(stored),
    {
        match stored {
            StoredSettings::NoConfigDir => Err(missing_config_dir()),
            StoredSettings::NotFound => Ok(AppSettings::default()),
            StoredSettings::Failed(e) => Err(e),
            StoredSettings::Theme(token) => match ThemeChoice::from_token(token.as_str()) {
                Some(theme) => Ok(AppSettings { theme }),
                None => {
                    let mut msg = "unknown theme ".to_owned();
                    msg.append(token.as_str());
                    Err(msg)
                },
            },
        }
    }
}

/// What was found where the settings are kept.
#[derive(Debug)]
pub enum StoredSettings {
    /// No per-user configuration directory could be determined.
    NoConfigDir,
    /// The settings file does not exist.
    NotFound,
    /// The file could not be read or is not a settings object; the cause.
    Failed(String),
    /// The file holds a settings object with this theme token.
    Theme(String),
}

/// The result of loading from what was found, with the error as text.
pub open spec fn load_outcome(stored: StoredSettings) -> Result<AppSettings, Seq<char>> {
    match stored {
        StoredSettings::NoConfigDir => Err("Could not find config directory"@),
        StoredSettings::NotFound => Ok(default_settings()),
        StoredSettings::Failed(e) => Err(e@),
        StoredSettings::Theme(token) => match theme_from_token(token@) {
            Some(theme) => Ok(AppSettings { theme }),
            None => Err("unknown theme "@ + token@),
        },
    }
}

pub open spec fn load_result_view(r: Result<AppSettings, String>) -> Result<
    AppSettings,
    Seq<char>,
> {
    match r {
        Ok(s) => Ok(s),
        Err(e) => Err(e@),
    }
}

/// The error reported when no configuration directory can be determined.
pub fn missing_config_dir() -> (r: String)
    ensures
        r@ == "Could not find config directory"@,
{
    "Could not find config directory".to_owned()
}

/// A missing settings file is no error: loading yields the defaults.
pub proof fn lemma_missing_file_gives_defaults()
    ensures
        load_outcome(StoredSettings::NotFound) == Ok::<AppSettings, Seq<char>>(default_settings()),
{
}

/// Settings written as their theme token read back as the same settings.
pub proof fn lemma_settings_round_trip(settings: AppSettings, stored: String)
    requires
        stored@ == theme_token(settings.theme),
    ensures
        load_outcome(StoredSettings::Theme(stored)) == Ok::<AppSettings, Seq<char>>(settings),
{
    reveal_strlit("Light");
    reveal_strlit("Dark");
    assert("Light"@.len() != "Dark"@.len());
}

} // verus!
