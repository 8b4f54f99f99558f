use vstd::prelude::*;

pub mod macos;

verus! {

/// A physical key, named after its position on a US keyboard. The keys stand
/// in the order of their virtual key codes.
#[derive(Clone, Copy, Debug, PartialEq, Eq, Hash, Structural)]
pub enum KeyCode {
    KeyA,
    KeyS,
    KeyD,
    KeyF,
    KeyH,
    KeyG,
    KeyZ,
    KeyX,
    KeyC,
    KeyV,
    IntlBackslash,
    KeyB,
    KeyQ,
    KeyW,
    KeyE,
    KeyR,
    KeyY,
    KeyT,
    Digit1,
    Digit2,
    Digit3,
    Digit4,
    Digit6,
    Digit5,
    Equal,
    Digit9,
    Digit7,
    Minus,
    Digit8,
    Digit0,
    BracketRight,
    KeyO,
    KeyU,
    BracketLeft,
    KeyI,
    KeyP,
    Enter,
    KeyL,
    KeyJ,
    Quote,
    KeyK,
    Semicolon,
    Backslash,
    Comma,
    Slash,
    KeyN,
    KeyM,
    Period,
    Tab,
    Space,
    Backquote,
    Backspace,
    NumpadEnter,
    Escape,
    MetaRight,
    MetaLeft,
    ShiftLeft,
    CapsLock,
    AltLeft,
    ControlLeft,
    ShiftRight,
    AltRight,
    ControlRight,
    Fn,
    F17,
    NumpadDecimal,
    NumpadMultiply,
    NumpadAdd,
    NumLock,
    AudioVolumeUp,
    AudioVolumeDown,
    AudioVolumeMute,
    NumpadDivide,
    NumpadSubtract,
    F18,
    F19,
    NumpadEqual,
    Numpad0,
    Numpad1,
    Numpad2,
    Numpad3,
    Numpad4,
    Numpad5,
    Numpad6,
    Numpad7,
    F20,
    Numpad8,
    Numpad9,
    IntlYen,
    IntlRo,
    NumpadComma,
    F5,
    F6,
    F7,
    F3,
    F8,
    F9,
    Lang2,
    F11,
    Lang1,
    F13,
    F16,
    F14,
    F10,
    ContextMenu,
    F12,
    F15,
    Insert,
    Home,
    PageUp,
    Delete,
    F4,
    End,
    F2,
    PageDown,
    F1,
    ArrowLeft,
    ArrowRight,
    ArrowDown,
    ArrowUp,
}

/// The modifier keys that are held down together with a key.
#[derive(Clone, Copy, Debug, PartialEq, Eq, Hash, Structural)]
pub struct Modifiers {
    pub shift: bool,
    pub control: bool,
    pub alt: bool,
    pub meta: bool,
}

impl Modifiers {
    /// No modifier at all.
    pub open spec fn spec_empty() -> Modifiers {
        Modifiers { shift: false, control: false, alt: false, meta: false }
    }

    /// No modifier at all.
    pub fn empty() -> (r: Modifiers)
        ensures
            r == Modifiers::spec_empty(),
    {
        Modifiers { shift: false, control: false, alt: false, meta: false }
    }

    /// Whether no modifier is set.
    pub fn is_empty(&self) -> (r: bool)
        ensures
            r == (*self == Modifiers::spec_empty()),
    {
        !self.shift && !self.control && !self.alt && !self.meta
    }
}

/// A key together with the modifiers that have to be held down with it.
#[derive(Clone, Copy, Debug, PartialEq, Eq, Hash, Structural)]
pub struct Hotkey {
    pub key_code: KeyCode,
    pub modifiers: Modifiers,
}

impl KeyCode {
    /// The hotkey made of this key and the given modifiers.
    pub fn with_modifiers(self, modifiers: Modifiers) -> (r: Hotkey)
        ensures
            r == (Hotkey { key_code: self, modifiers }),
    {
        Hotkey { key_code: self, modifiers }
    }
}

/// Whether a hook should keep the key presses it handles from reaching other
/// applications.
#[derive(Clone, Copy, Debug, PartialEq, Eq, Structural)]
pub enum ConsumePreference {
    /// No preference, the hook chooses.
    NoPreference,
    /// Consume if possible.
    PreferConsume,
    /// Do not consume if possible.
    PreferNoConsume,
    /// Consuming is required.
    MustConsume,
    /// Not consuming is required.
    MustNotConsume,
}

/// What can go wrong when working with a hook.
#[derive(Clone, Copy, Debug, PartialEq, Eq, Structural)]
pub enum Error {
    /// The hotkey is registered already.
    AlreadyRegistered,
    /// The hotkey to unregister was never registered.
    NotRegistered,
    /// The platform's event machinery failed.
    Platform(macos::Error),
}

impl From<macos::Error> for Error {
    fn from(e: macos::Error) -> (r: Error) {
        Error::Platform(e)
    }
}

impl vstd::std_specs::convert::FromSpecImpl<macos::Error> for Error {
    open spec fn obeys_from_spec() -> bool {
        true
    }

    open spec fn from_spec(e: macos::Error) -> Error {
        Error::Platform(e)
    }
}

} // verus!
