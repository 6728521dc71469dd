//! The user's settings and how they are rebuilt from stored entries.
use vstd::prelude::*;
use vstd::string::*;

use crate::protocol::opt_view;
use crate::text::prefixed;

verus! {

#[derive(Debug)]
pub enum ConfigError {
    LoadFailed(String),
    SaveFailed(String),
    StoreNotAvailable,
}

impl ConfigError {
    pub open spec fn message(&self) -> Seq<char> {
        match self {
            ConfigError::LoadFailed(s) => "Failed to load config: "@ + s@,
            ConfigError::SaveFailed(s) => "Failed to save config: "@ + s@,
            ConfigError::StoreNotAvailable => "Store not available"@,
        }
    }

    pub fn to_string(&self) -> (r: String)
        ensures
            r@ == self.message(),
    {
        match self {
            ConfigError::LoadFailed(s) => prefixed("Failed to load config: ", s.as_str()),
            ConfigError::SaveFailed(s) => prefixed("Failed to save config: ", s.as_str()),
            ConfigError::StoreNotAvailable => String::from_str("Store not available"),
        }
    }
}

/// The name of the settings store.
pub open spec fn store_path() -> Seq<char> {
    "config.json"@
}

#[derive(Debug, Clone)]
pub struct AppConfig {
    pub api_key: String,
    pub hotkey: String,
    pub language: String,
    pub keyboard_max_chars: usize,
    pub enable_blacklist: bool,
}

/// The hotkey used when none is stored.
pub open spec fn default_hotkey() -> Seq<char> {
    "CommandOrControl+Shift+\\"@
}

impl Default for AppConfig {
    /// No key, the default hotkey, Chinese, up to 10 bytes typed, blacklist on.
    fn default() -> (r: Self)
        ensures
            r.api_key@.len() == 0,
            r.hotkey@ == default_hotkey(),
            r.language@ == "zh"@,
            r.keyboard_max_chars == 10,
            r.enable_blacklist,
    {
        AppConfig {
            api_key: String::new(),
            hotkey: String::from_str("CommandOrControl+Shift+\\"),
            language: String::from_str("zh"),
            keyboard_max_chars: 10,
            enable_blacklist: true,
        }
    }
}

/// Whether a non-empty key was found.
pub open spec fn key_given(api_key: Option<String>) -> bool {
    match api_key {
        Some(k) => k@.len() > 0,
        None => false,
    }
}

/// Loads and saves the settings through the host's store.
pub struct ConfigManager;

impl ConfigManager {
    /// The name of the settings store.
    pub fn store_path() -> (r: &'static str)
        ensures
            r@ == store_path(),
    {
        "config.json"
    }

    /// The settings rebuilt from the entries found in the store. Without a
    /// non-empty key the defaults are used whole; otherwise each absent entry
    /// takes its default.
    pub fn from_stored(
        api_key: Option<String>,
        hotkey: Option<String>,
        language: Option<String>,
        keyboard_max_chars: Option<u64>,
        enable_blacklist: Option<bool>,
    ) -> (r: AppConfig)
        ensures
            !key_given(api_key) ==> r.api_key@.len() == 0 && r.hotkey@
                == default_hotkey() && r.language@ == "zh"@ && r.keyboard_max_chars == 10
                && r.enable_blacklist,
            key_given(api_key) ==> r.api_key@ == opt_view(api_key),
            key_given(api_key) ==> r.hotkey@ == match hotkey {
                Some(h) => h@,
                None => default_hotkey(),
            },
            key_given(api_key) ==> r.language@ == match language {
                Some(l) => l@,
                None => "zh"@,
            },
            key_given(api_key) ==> r.keyboard_max_chars == match keyboard_max_chars {
                Some(n) => n as usize,
                None => 10usize,
            },
            key_given(api_key) ==> r.enable_blacklist == match enable_blacklist {
                Some(b) => b,
                None => true,
            },
    {
        let api_key = match api_key {
            Some(k) => k,
            None => String::new(),
        };
        if api_key.as_str().is_empty() {
            return AppConfig::default();
        }
        AppConfig {
            api_key,
            hotkey: match hotkey {
                Some(h) => h,
                None => String::from_str("CommandOrControl+Shift+\\"),
            },
            language: match language {
                Some(l) => l,
                None => String::from_str("zh"),
            },
            keyboard_max_chars: match keyboard_max_chars {
                Some(n) => n as usize,
                None => 10,
            },
            enable_blacklist: match enable_blacklist {
                Some(b) => b,
                None => true,
            },
        }
    }
}

} // verus!
