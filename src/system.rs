//! What the host knows of windows and hotkeys: the target window's
//! description, the applications that never receive typed text, terminal
//! detection, and the errors of window and hotkey handling.
use vstd::prelude::*;
use vstd::string::*;

use crate::text::{contains_seq, prefixed, str_contains};

verus! {

#[derive(Debug)]
pub enum WindowError {
    GetWindowFailed(String),
    NoActiveWindow,
}

impl WindowError {
    pub open spec fn message(&self) -> Seq<char> {
        match self {
            WindowError::GetWindowFailed(s) => "Failed to get active window: "@ + s@,
            WindowError::NoActiveWindow => "No active window found"@,
        }
    }

    pub fn to_string(&self) -> (r: String)
        ensures
            r@ == self.message(),
    {
        match self {
            WindowError::GetWindowFailed(s) => prefixed("Failed to get active window: ", s.as_str()),
            WindowError::NoActiveWindow => String::from_str("No active window found"),
        }
    }
}

/// A window: its application, title, process, and position and size as
/// (x, y, width, height).
#[derive(Debug)]
pub struct WindowInfo {
    pub app_name: String,
    pub title: String,
    pub process_id: u32,
    pub position: (i32, i32, u32, u32),
}

impl Clone for WindowInfo {
    fn clone(&self) -> (r: Self)
        ensures
            r.app_name@ == self.app_name@,
            r.title@ == self.title@,
            r.process_id == self.process_id,
            r.position == self.position,
    {
        WindowInfo {
            app_name: self.app_name.clone(),
            title: self.title.clone(),
            process_id: self.process_id,
            position: self.position,
        }
    }
}

/// Password managers: never a target of typed text.
pub open spec fn blacklist_names() -> Seq<Seq<char>> {
    seq![
        "1Password"@,
        "Bitwarden"@,
        "Keychain Access"@,
        "LastPass"@,
        "KeePass"@,
        "Dashlane"@,
    ]
}

/// Terminal emulators.
pub open spec fn terminal_names() -> Seq<Seq<char>> {
    seq!["Terminal"@, "iTerm"@, "Alacritty"@, "Kitty"@, "WezTerm"@, "Hyper"@]
}

/// Whether `app` contains one of `names`.
pub open spec fn names_any(app: Seq<char>, names: Seq<Seq<char>>) -> bool {
    exists|i: int| 0 <= i < names.len() && #[trigger] contains_seq(app, names[i])
}

fn contains_any6(app: &str, a: &str, b: &str, c: &str, d: &str, e: &str, f: &str) -> (r: bool)
    ensures
        r == names_any(app@, seq![a@, b@, c@, d@, e@, f@]),
{
    let ghost names = seq![a@, b@, c@, d@, e@, f@];
    let r = str_contains(app, a) || str_contains(app, b) || str_contains(app, c)
        || str_contains(app, d) || str_contains(app, e) || str_contains(app, f);
    proof {
        if r {
            if contains_seq(app@, a@) {
                assert(contains_seq(app@, names[0]));
            } else if contains_seq(app@, b@) {
                assert(contains_seq(app@, names[1]));
            } else if contains_seq(app@, c@) {
                assert(contains_seq(app@, names[2]));
            } else if contains_seq(app@, d@) {
                assert(contains_seq(app@, names[3]));
            } else if contains_seq(app@, e@) {
                assert(contains_seq(app@, names[4]));
            } else {
                assert(contains_seq(app@, names[5]));
            }
        } else {
            assert forall|i: int| 0 <= i < names.len() implies !#[trigger] contains_seq(
                app@,
                names[i],
            ) by {
                assert(names[i] == a@ || names[i] == b@ || names[i] == c@ || names[i] == d@
                    || names[i] == e@ || names[i] == f@);
            }
        }
    }
    r
}

impl WindowInfo {
    /// Whether the window belongs to a password manager.
    pub fn is_blacklisted(&self) -> (r: bool)
        ensures
            r == names_any(self.app_name@, blacklist_names()),
    {
        WindowTracker::is_blacklisted(self)
    }
}

pub struct WindowTracker;

impl WindowTracker {
    /// Whether the application name contains one of the blacklisted names.
    pub fn is_blacklisted(window: &WindowInfo) -> (r: bool)
        ensures
            r == names_any(window.app_name@, blacklist_names()),
    {
        contains_any6(
            window.app_name.as_str(),
            "1Password",
            "Bitwarden",
            "Keychain Access",
            "LastPass",
            "KeePass",
            "Dashlane",
        )
    }

    /// The blacklisted application names.
    pub fn get_blacklist() -> (r: Vec<String>)
        ensures
            r@.len() == blacklist_names().len(),
            forall|i: int| 0 <= i < r@.len() ==> #[trigger] r@[i]@ == blacklist_names()[i],
    {
        let mut v: Vec<String> = Vec::new();
        v.push(String::from_str("1Password"));
        v.push(String::from_str("Bitwarden"));
        v.push(String::from_str("Keychain Access"));
        v.push(String::from_str("LastPass"));
        v.push(String::from_str("KeePass"));
        v.push(String::from_str("Dashlane"));
        v
    }

    /// Whether the application name contains the name of a terminal.
    pub fn is_terminal(window: &WindowInfo) -> (r: bool)
        ensures
            r == names_any(window.app_name@, terminal_names()),
    {
        contains_any6(
            window.app_name.as_str(),
            "Terminal",
            "iTerm",
            "Alacritty",
            "Kitty",
            "WezTerm",
            "Hyper",
        )
    }
}

#[derive(Debug)]
pub enum HotkeyError {
    RegisterFailed(String),
    UnregisterFailed(String),
    InvalidFormat(String),
}

impl HotkeyError {
    pub open spec fn message(&self) -> Seq<char> {
        match self {
            HotkeyError::RegisterFailed(s) => "Failed to register hotkey: "@ + s@,
            HotkeyError::UnregisterFailed(s) => "Failed to unregister hotkey: "@ + s@,
            HotkeyError::InvalidFormat(s) => "Invalid hotkey format: "@ + s@,
        }
    }

    pub fn to_string(&self) -> (r: String)
        ensures
            r@ == self.message(),
    {
        match self {
            HotkeyError::RegisterFailed(s) => prefixed("Failed to register hotkey: ", s.as_str()),
            HotkeyError::UnregisterFailed(s) => prefixed(
                "Failed to unregister hotkey: ",
                s.as_str(),
            ),
            HotkeyError::InvalidFormat(s) => prefixed("Invalid hotkey format: ", s.as_str()),
        }
    }
}

/// Registers the global hotkey with the host.
pub struct HotkeyManager;

} // verus!
