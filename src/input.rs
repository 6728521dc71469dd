//! Choosing how transcribed text reaches the target window, and the errors
//! of the ways it can be delivered.
use vstd::prelude::*;
use vstd::string::*;

use crate::system::{blacklist_names, names_any, WindowInfo};
use crate::text::{decimal, decimal_digits, prefixed};

verus! {

#[derive(Debug)]
pub enum KeyboardError {
    InitFailed,
    TypeFailed(String),
}

impl KeyboardError {
    pub open spec fn message(&self) -> Seq<char> {
        match self {
            KeyboardError::InitFailed => "Failed to initialize keyboard controller"@,
            KeyboardError::TypeFailed(s) => "Failed to type text: "@ + s@,
        }
    }

    pub fn to_string(&self) -> (r: String)
        ensures
            r@ == self.message(),
    {
        match self {
            KeyboardError::InitFailed => String::from_str("Failed to initialize keyboard controller"),
            KeyboardError::TypeFailed(s) => prefixed("Failed to type text: ", s.as_str()),
        }
    }
}

#[derive(Debug)]
pub enum ClipboardError {
    ReadFailed(String),
    WriteFailed(String),
    Keyboard(KeyboardError),
}

impl ClipboardError {
    pub open spec fn message(&self) -> Seq<char> {
        match self {
            ClipboardError::ReadFailed(s) => "Failed to read clipboard: "@ + s@,
            ClipboardError::WriteFailed(s) => "Failed to write clipboard: "@ + s@,
            ClipboardError::Keyboard(e) => "Keyboard error: "@ + e.message(),
        }
    }

    pub fn to_string(&self) -> (r: String)
        ensures
            r@ == self.message(),
    {
        match self {
            ClipboardError::ReadFailed(s) => prefixed("Failed to read clipboard: ", s.as_str()),
            ClipboardError::WriteFailed(s) => prefixed("Failed to write clipboard: ", s.as_str()),
            ClipboardError::Keyboard(e) => {
                let inner = e.to_string();
                prefixed("Keyboard error: ", inner.as_str())
            },
        }
    }
}

#[derive(Debug)]
pub enum FocusError {
    WindowNotFound(String),
    HideFailed(String),
    ShowFailed(String),
    FocusFailed(String),
}

impl FocusError {
    pub open spec fn message(&self) -> Seq<char> {
        match self {
            FocusError::WindowNotFound(s) => "Window not found: "@ + s@,
            FocusError::HideFailed(s) => "Failed to hide window: "@ + s@,
            FocusError::ShowFailed(s) => "Failed to show window: "@ + s@,
            FocusError::FocusFailed(s) => "Failed to focus window: "@ + s@,
        }
    }

    pub fn to_string(&self) -> (r: String)
        ensures
            r@ == self.message(),
    {
        match self {
            FocusError::WindowNotFound(s) => prefixed("Window not found: ", s.as_str()),
            FocusError::HideFailed(s) => prefixed("Failed to hide window: ", s.as_str()),
            FocusError::ShowFailed(s) => prefixed("Failed to show window: ", s.as_str()),
            FocusError::FocusFailed(s) => prefixed("Failed to focus window: ", s.as_str()),
        }
    }
}

#[derive(Debug)]
pub enum InjectorError {
    Keyboard(KeyboardError),
    Clipboard(ClipboardError),
    Focus(FocusError),
    /// The target application is blacklisted; carries its name.
    Blacklisted(String),
    /// The text is too long: its length and the limit, in bytes.
    TextTooLong(usize, usize),
}

impl InjectorError {
    pub open spec fn message(&self) -> Seq<char> {
        match self {
            InjectorError::Keyboard(e) => "Keyboard error: "@ + e.message(),
            InjectorError::Clipboard(e) => "Clipboard error: "@ + e.message(),
            InjectorError::Focus(e) => "Focus error: "@ + e.message(),
            InjectorError::Blacklisted(s) => "Target window is blacklisted: "@ + s@,
            InjectorError::TextTooLong(n, max) => "Text too long: "@ + decimal_digits(n as nat)
                + " chars (max: "@ + decimal_digits(max as nat) + ")"@,
        }
    }

    pub fn to_string(&self) -> (r: String)
        ensures
            r@ == self.message(),
    {
        match self {
            InjectorError::Keyboard(e) => {
                let inner = e.to_string();
                prefixed("Keyboard error: ", inner.as_str())
            },
            InjectorError::Clipboard(e) => {
                let inner = e.to_string();
                prefixed("Clipboard error: ", inner.as_str())
            },
            InjectorError::Focus(e) => {
                let inner = e.to_string();
                prefixed("Focus error: ", inner.as_str())
            },
            InjectorError::Blacklisted(s) => prefixed("Target window is blacklisted: ", s.as_str()),
            InjectorError::TextTooLong(n, max) => {
                let mut out = String::from_str("Text too long: ");
                let n_text = decimal(*n);
                out.append(n_text.as_str());
                out.append(" chars (max: ");
                let max_text = decimal(*max);
                out.append(max_text.as_str());
                out.append(")");
                out
            },
        }
    }
}

/// How text reaches the target window.
#[derive(Debug, Clone, Copy, PartialEq, Eq, Structural)]
pub enum InjectionStrategy {
    /// Simulated typing, for short text.
    Keyboard,
    /// Pasting through the clipboard, for long text.
    Clipboard,
}

#[derive(Debug, Clone, Copy, PartialEq, Eq, Structural)]
pub struct InjectionConfig {
    /// The longest text, in bytes, that is typed rather than pasted.
    pub keyboard_max_chars: usize,
    pub typing_delay_ms: u64,
    pub focus_wait_ms: u64,
    pub enable_blacklist: bool,
    /// The longest text, in bytes, that is delivered at all.
    pub max_text_length: usize,
    /// Whether pasting also presses the paste shortcut.
    pub auto_paste: bool,
}

impl InjectionConfig {
    /// Typing up to 10 bytes, 5 ms per key, 50 ms for focus, blacklist on,
    /// at most 10000 bytes, no automatic paste.
    pub open spec fn spec_default() -> InjectionConfig {
        InjectionConfig {
            keyboard_max_chars: 10,
            typing_delay_ms: 5,
            focus_wait_ms: 50,
            enable_blacklist: true,
            max_text_length: 10000,
            auto_paste: false,
        }
    }
}

impl Default for InjectionConfig {
    fn default() -> (r: Self)
        ensures
            r == InjectionConfig::spec_default(),
    {
        InjectionConfig {
            keyboard_max_chars: 10,
            typing_delay_ms: 5,
            focus_wait_ms: 50,
            enable_blacklist: true,
            max_text_length: 10000,
            auto_paste: false,
        }
    }
}

/// The strategy for a text of `text_len` bytes.
pub open spec fn strategy_for(text_len: nat, config: InjectionConfig) -> InjectionStrategy {
    if text_len <= config.keyboard_max_chars {
        InjectionStrategy::Keyboard
    } else {
        InjectionStrategy::Clipboard
    }
}

/// Typing for text up to the keyboard limit, the clipboard beyond it.
pub fn select_strategy(text: &str, config: &InjectionConfig) -> (r: InjectionStrategy)
    ensures
        r == strategy_for(text.len() as nat, *config),
{
    if text.len() <= config.keyboard_max_chars {
        InjectionStrategy::Keyboard
    } else {
        InjectionStrategy::Clipboard
    }
}

/// Checks a delivery of `text` to `window` before any is attempted: text
/// over the length limit is refused, then a blacklisted target when the
/// blacklist is on; otherwise the strategy for the text's length.
pub fn plan_injection(text: &str, window: &WindowInfo, config: &InjectionConfig) -> (r: Result<
    InjectionStrategy,
    InjectorError,
>)
    ensures
        text.len() > config.max_text_length ==> (r matches Err(
            InjectorError::TextTooLong(n, max),
        ) && n == text.len() && max == config.max_text_length),
        text.len() <= config.max_text_length && config.enable_blacklist && names_any(
            window.app_name@,
            blacklist_names(),
        ) ==> (r matches Err(InjectorError::Blacklisted(name)) && name@ == window.app_name@),
        text.len() <= config.max_text_length && !(config.enable_blacklist
            && names_any(window.app_name@, blacklist_names())) ==> r == Ok::<
            InjectionStrategy,
            InjectorError,
        >(strategy_for(text.len() as nat, *config)),
{
    let n = text.len();
    if n > config.max_text_length {
        return Err(InjectorError::TextTooLong(n, config.max_text_length));
    }
    if config.enable_blacklist && window.is_blacklisted() {
        return Err(InjectorError::Blacklisted(window.app_name.clone()));
    }
    Ok(select_strategy(text, config))
}

} // verus!
