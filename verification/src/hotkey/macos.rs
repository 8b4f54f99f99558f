use vstd::prelude::*;
use crate::hotkey::{ConsumePreference, Hotkey, KeyCode, Modifiers};
use crate::hotkey::Error as HookError;

verus! {

/// What can go wrong while the event tap is set up.
#[derive(Clone, Copy, Debug, PartialEq, Eq, Structural)]
#[non_exhaustive]
pub enum Error {
    CouldntCreateEventTap,
    CouldntCreateRunLoopSource,
    CouldntGetCurrentRunLoop,
    ThreadStoppedUnexpectedly,
}

impl Error {
    /// The description that `message` returns.
    pub open spec fn spec_message(self) -> Seq<char> {
        match self {
            Error::CouldntCreateEventTap => "Failed creating the event tap."@,
            Error::CouldntCreateRunLoopSource => "Failed creating the run loop source."@,
            Error::CouldntGetCurrentRunLoop => "Failed getting the current run loop."@,
            Error::ThreadStoppedUnexpectedly => "The background thread stopped unexpectedly."@,
        }
    }

    /// A description of the error for people.
    pub fn message(&self) -> (r: &'static str)
        ensures
            r@ == self.spec_message(),
    {
        match self {
            Error::CouldntCreateEventTap => "Failed creating the event tap.",
            Error::CouldntCreateRunLoopSource => "Failed creating the run loop source.",
            Error::CouldntGetCurrentRunLoop => "Failed getting the current run loop.",
            Error::ThreadStoppedUnexpectedly => "The background thread stopped unexpectedly.",
        }
    }
}

/// The bit of an event's flags that is set while a shift key is held.
pub const EVENT_FLAG_SHIFT: u64 = 0x0002_0000;

/// The bit of an event's flags that is set while a control key is held.
pub const EVENT_FLAG_CONTROL: u64 = 0x0004_0000;

/// The bit of an event's flags that is set while an option key is held.
pub const EVENT_FLAG_OPTION: u64 = 0x0008_0000;

/// The bit of an event's flags that is set while a command key is held.
pub const EVENT_FLAG_COMMAND: u64 = 0x0010_0000;

/// The key that a virtual key code of a key-down event stands for.
pub open spec fn spec_key_code_from_virtual(code: i64) -> Option<KeyCode> {
    match code {
        0x00 => Some(KeyCode::KeyA),
        0x01 => Some(KeyCode::KeyS),
        0x02 => Some(KeyCode::KeyD),
        0x03 => Some(KeyCode::KeyF),
        0x04 => Some(KeyCode::KeyH),
        0x05 => Some(KeyCode::KeyG),
        0x06 => Some(KeyCode::KeyZ),
        0x07 => Some(KeyCode::KeyX),
        0x08 => Some(KeyCode::KeyC),
        0x09 => Some(KeyCode::KeyV),
        0x0A => Some(KeyCode::IntlBackslash),
        0x0B => Some(KeyCode::KeyB),
        0x0C => Some(KeyCode::KeyQ),
        0x0D => Some(KeyCode::KeyW),
        0x0E => Some(KeyCode::KeyE),
        0x0F => Some(KeyCode::KeyR),
        0x10 => Some(KeyCode::KeyY),
        0x11 => Some(KeyCode::KeyT),
        0x12 => Some(KeyCode::Digit1),
        0x13 => Some(KeyCode::Digit2),
        0x14 => Some(KeyCode::Digit3),
        0x15 => Some(KeyCode::Digit4),
        0x16 => Some(KeyCode::Digit6),
        0x17 => Some(KeyCode::Digit5),
        0x18 => Some(KeyCode::Equal),
        0x19 => Some(KeyCode::Digit9),
        0x1A => Some(KeyCode::Digit7),
        0x1B => Some(KeyCode::Minus),
        0x1C => Some(KeyCode::Digit8),
        0x1D => Some(KeyCode::Digit0),
        0x1E => Some(KeyCode::BracketRight),
        0x1F => Some(KeyCode::KeyO),
        0x20 => Some(KeyCode::KeyU),
        0x21 => Some(KeyCode::BracketLeft),
        0x22 => Some(KeyCode::KeyI),
        0x23 => Some(KeyCode::KeyP),
        0x24 => Some(KeyCode::Enter),
        0x25 => Some(KeyCode::KeyL),
        0x26 => Some(KeyCode::KeyJ),
        0x27 => Some(KeyCode::Quote),
        0x28 => Some(KeyCode::KeyK),
        0x29 => Some(KeyCode::Semicolon),
        0x2A => Some(KeyCode::Backslash),
        0x2B => Some(KeyCode::Comma),
        0x2C => Some(KeyCode::Slash),
        0x2D => Some(KeyCode::KeyN),
        0x2E => Some(KeyCode::KeyM),
        0x2F => Some(KeyCode::Period),
        0x30 => Some(KeyCode::Tab),
        0x31 => Some(KeyCode::Space),
        0x32 => Some(KeyCode::Backquote),
        0x33 => Some(KeyCode::Backspace),
        0x34 => Some(KeyCode::NumpadEnter),
        0x35 => Some(KeyCode::Escape),
        0x36 => Some(KeyCode::MetaRight),
        0x37 => Some(KeyCode::MetaLeft),
        0x38 => Some(KeyCode::ShiftLeft),
        0x39 => Some(KeyCode::CapsLock),
        0x3A => Some(KeyCode::AltLeft),
        0x3B => Some(KeyCode::ControlLeft),
        0x3C => Some(KeyCode::ShiftRight),
        0x3D => Some(KeyCode::AltRight),
        0x3E => Some(KeyCode::ControlRight),
        0x3F => Some(KeyCode::Fn),
        0x40 => Some(KeyCode::F17),
        0x41 => Some(KeyCode::NumpadDecimal),
        0x43 => Some(KeyCode::NumpadMultiply),
        0x45 => Some(KeyCode::NumpadAdd),
        0x47 => Some(KeyCode::NumLock),
        0x48 => Some(KeyCode::AudioVolumeUp),
        0x49 => Some(KeyCode::AudioVolumeDown),
        0x4A => Some(KeyCode::AudioVolumeMute),
        0x4B => Some(KeyCode::NumpadDivide),
        0x4C => Some(KeyCode::NumpadEnter),
        0x4E => Some(KeyCode::NumpadSubtract),
        0x4F => Some(KeyCode::F18),
        0x50 => Some(KeyCode::F19),
        0x51 => Some(KeyCode::NumpadEqual),
        0x52 => Some(KeyCode::Numpad0),
        0x53 => Some(KeyCode::Numpad1),
        0x54 => Some(KeyCode::Numpad2),
        0x55 => Some(KeyCode::Numpad3),
        0x56 => Some(KeyCode::Numpad4),
        0x57 => Some(KeyCode::Numpad5),
        0x58 => Some(KeyCode::Numpad6),
        0x59 => Some(KeyCode::Numpad7),
        0x5A => Some(KeyCode::F20),
        0x5B => Some(KeyCode::Numpad8),
        0x5C => Some(KeyCode::Numpad9),
        0x5D => Some(KeyCode::IntlYen),
        0x5E => Some(KeyCode::IntlRo),
        0x5F => Some(KeyCode::NumpadComma),
        0x60 => Some(KeyCode::F5),
        0x61 => Some(KeyCode::F6),
        0x62 => Some(KeyCode::F7),
        0x63 => Some(KeyCode::F3),
        0x64 => Some(KeyCode::F8),
        0x65 => Some(KeyCode::F9),
        0x66 => Some(KeyCode::Lang2),
        0x67 => Some(KeyCode::F11),
        0x68 => Some(KeyCode::Lang1),
        0x69 => Some(KeyCode::F13),
        0x6A => Some(KeyCode::F16),
        0x6B => Some(KeyCode::F14),
        0x6D => Some(KeyCode::F10),
        0x6E => Some(KeyCode::ContextMenu),
        0x6F => Some(KeyCode::F12),
        0x71 => Some(KeyCode::F15),
        0x72 => Some(KeyCode::Insert),
        0x73 => Some(KeyCode::Home),
        0x74 => Some(KeyCode::PageUp),
        0x75 => Some(KeyCode::Delete),
        0x76 => Some(KeyCode::F4),
        0x77 => Some(KeyCode::End),
        0x78 => Some(KeyCode::F2),
        0x79 => Some(KeyCode::PageDown),
        0x7A => Some(KeyCode::F1),
        0x7B => Some(KeyCode::ArrowLeft),
        0x7C => Some(KeyCode::ArrowRight),
        0x7D => Some(KeyCode::ArrowDown),
        0x7E => Some(KeyCode::ArrowUp),
        _ => None,
    }
}

/// The key that a virtual key code of a key-down event stands for, `None` for
/// a code that belongs to no key.
pub fn key_code_from_virtual(code: i64) -> (r: Option<KeyCode>)
    ensures
        r == spec_key_code_from_virtual(code),
{
    match code {
        0x00 => Some(KeyCode::KeyA),
        0x01 => Some(KeyCode::KeyS),
        0x02 => Some(KeyCode::KeyD),
        0x03 => Some(KeyCode::KeyF),
        0x04 => Some(KeyCode::KeyH),
        0x05 => Some(KeyCode::KeyG),
        0x06 => Some(KeyCode::KeyZ),
        0x07 => Some(KeyCode::KeyX),
        0x08 => Some(KeyCode::KeyC),
        0x09 => Some(KeyCode::KeyV),
        0x0A => Some(KeyCode::IntlBackslash),
        0x0B => Some(KeyCode::KeyB),
        0x0C => Some(KeyCode::KeyQ),
        0x0D => Some(KeyCode::KeyW),
        0x0E => Some(KeyCode::KeyE),
        0x0F => Some(KeyCode::KeyR),
        0x10 => Some(KeyCode::KeyY),
        0x11 => Some(KeyCode::KeyT),
        0x12 => Some(KeyCode::Digit1),
        0x13 => Some(KeyCode::Digit2),
        0x14 => Some(KeyCode::Digit3),
        0x15 => Some(KeyCode::Digit4),
        0x16 => Some(KeyCode::Digit6),
        0x17 => Some(KeyCode::Digit5),
        0x18 => Some(KeyCode::Equal),
        0x19 => Some(KeyCode::Digit9),
        0x1A => Some(KeyCode::Digit7),
        0x1B => Some(KeyCode::Minus),
        0x1C => Some(KeyCode::Digit8),
        0x1D => Some(KeyCode::Digit0),
        0x1E => Some(KeyCode::BracketRight),
        0x1F => Some(KeyCode::KeyO),
        0x20 => Some(KeyCode::KeyU),
        0x21 => Some(KeyCode::BracketLeft),
        0x22 => Some(KeyCode::KeyI),
        0x23 => Some(KeyCode::KeyP),
        0x24 => Some(KeyCode::Enter),
        0x25 => Some(KeyCode::KeyL),
        0x26 => Some(KeyCode::KeyJ),
        0x27 => Some(KeyCode::Quote),
        0x28 => Some(KeyCode::KeyK),
        0x29 => Some(KeyCode::Semicolon),
        0x2A => Some(KeyCode::Backslash),
        0x2B => Some(KeyCode::Comma),
        0x2C => Some(KeyCode::Slash),
        0x2D => Some(KeyCode::KeyN),
        0x2E => Some(KeyCode::KeyM),
        0x2F => Some(KeyCode::Period),
        0x30 => Some(KeyCode::Tab),
        0x31 => Some(KeyCode::Space),
        0x32 => Some(KeyCode::Backquote),
        0x33 => Some(KeyCode::Backspace),
        0x34 => Some(KeyCode::NumpadEnter),
        0x35 => Some(KeyCode::Escape),
        0x36 => Some(KeyCode::MetaRight),
        0x37 => Some(KeyCode::MetaLeft),
        0x38 => Some(KeyCode::ShiftLeft),
        0x39 => Some(KeyCode::CapsLock),
        0x3A => Some(KeyCode::AltLeft),
        0x3B => Some(KeyCode::ControlLeft),
        0x3C => Some(KeyCode::ShiftRight),
        0x3D => Some(KeyCode::AltRight),
        0x3E => Some(KeyCode::ControlRight),
        0x3F => Some(KeyCode::Fn),
        0x40 => Some(KeyCode::F17),
        0x41 => Some(KeyCode::NumpadDecimal),
        0x43 => Some(KeyCode::NumpadMultiply),
        0x45 => Some(KeyCode::NumpadAdd),
        0x47 => Some(KeyCode::NumLock),
        0x48 => Some(KeyCode::AudioVolumeUp),
        0x49 => Some(KeyCode::AudioVolumeDown),
        0x4A => Some(KeyCode::AudioVolumeMute),
        0x4B => Some(KeyCode::NumpadDivide),
        0x4C => Some(KeyCode::NumpadEnter),
        0x4E => Some(KeyCode::NumpadSubtract),
        0x4F => Some(KeyCode::F18),
        0x50 => Some(KeyCode::F19),
        0x51 => Some(KeyCode::NumpadEqual),
        0x52 => Some(KeyCode::Numpad0),
        0x53 => Some(KeyCode::Numpad1),
        0x54 => Some(KeyCode::Numpad2),
        0x55 => Some(KeyCode::Numpad3),
        0x56 => Some(KeyCode::Numpad4),
        0x57 => Some(KeyCode::Numpad5),
        0x58 => Some(KeyCode::Numpad6),
        0x59 => Some(KeyCode::Numpad7),
        0x5A => Some(KeyCode::F20),
        0x5B => Some(KeyCode::Numpad8),
        0x5C => Some(KeyCode::Numpad9),
        0x5D => Some(KeyCode::IntlYen),
        0x5E => Some(KeyCode::IntlRo),
        0x5F => Some(KeyCode::NumpadComma),
        0x60 => Some(KeyCode::F5),
        0x61 => Some(KeyCode::F6),
        0x62 => Some(KeyCode::F7),
        0x63 => Some(KeyCode::F3),
        0x64 => Some(KeyCode::F8),
        0x65 => Some(KeyCode::F9),
        0x66 => Some(KeyCode::Lang2),
        0x67 => Some(KeyCode::F11),
        0x68 => Some(KeyCode::Lang1),
        0x69 => Some(KeyCode::F13),
        0x6A => Some(KeyCode::F16),
        0x6B => Some(KeyCode::F14),
        0x6D => Some(KeyCode::F10),
        0x6E => Some(KeyCode::ContextMenu),
        0x6F => Some(KeyCode::F12),
        0x71 => Some(KeyCode::F15),
        0x72 => Some(KeyCode::Insert),
        0x73 => Some(KeyCode::Home),
        0x74 => Some(KeyCode::PageUp),
        0x75 => Some(KeyCode::Delete),
        0x76 => Some(KeyCode::F4),
        0x77 => Some(KeyCode::End),
        0x78 => Some(KeyCode::F2),
        0x79 => Some(KeyCode::PageDown),
        0x7A => Some(KeyCode::F1),
        0x7B => Some(KeyCode::ArrowLeft),
        0x7C => Some(KeyCode::ArrowRight),
        0x7D => Some(KeyCode::ArrowDown),
        0x7E => Some(KeyCode::ArrowUp),
        _ => None,
    }
}

/// The virtual key code of a key whose label depends on the keyboard layout.
pub open spec fn spec_layout_dependent_code(key_code: KeyCode) -> Option<u16> {
    match key_code {
        KeyCode::Backquote => Some(0x32),
        KeyCode::Backslash => Some(0x2A),
        KeyCode::BracketLeft => Some(0x21),
        KeyCode::BracketRight => Some(0x1E),
        KeyCode::Comma => Some(0x2B),
        KeyCode::Digit0 => Some(0x1D),
        KeyCode::Digit1 => Some(0x12),
        KeyCode::Digit2 => Some(0x13),
        KeyCode::Digit3 => Some(0x14),
        KeyCode::Digit4 => Some(0x15),
        KeyCode::Digit5 => Some(0x17),
        KeyCode::Digit6 => Some(0x16),
        KeyCode::Digit7 => Some(0x1A),
        KeyCode::Digit8 => Some(0x1C),
        KeyCode::Digit9 => Some(0x19),
        KeyCode::Equal => Some(0x18),
        KeyCode::IntlBackslash => Some(0x0A),
        KeyCode::IntlRo => Some(0x5E),
        KeyCode::IntlYen => Some(0x5D),
        KeyCode::KeyA => Some(0x00),
        KeyCode::KeyB => Some(0x0B),
        KeyCode::KeyC => Some(0x08),
        KeyCode::KeyD => Some(0x02),
        KeyCode::KeyE => Some(0x0E),
        KeyCode::KeyF => Some(0x03),
        KeyCode::KeyG => Some(0x05),
        KeyCode::KeyH => Some(0x04),
        KeyCode::KeyI => Some(0x22),
        KeyCode::KeyJ => Some(0x26),
        KeyCode::KeyK => Some(0x28),
        KeyCode::KeyL => Some(0x25),
        KeyCode::KeyM => Some(0x2E),
        KeyCode::KeyN => Some(0x2D),
        KeyCode::KeyO => Some(0x1F),
        KeyCode::KeyP => Some(0x23),
        KeyCode::KeyQ => Some(0x0C),
        KeyCode::KeyR => Some(0x0F),
        KeyCode::KeyS => Some(0x01),
        KeyCode::KeyT => Some(0x11),
        KeyCode::KeyU => Some(0x20),
        KeyCode::KeyV => Some(0x09),
        KeyCode::KeyW => Some(0x0D),
        KeyCode::KeyX => Some(0x07),
        KeyCode::KeyY => Some(0x10),
        KeyCode::KeyZ => Some(0x06),
        KeyCode::Minus => Some(0x1B),
        KeyCode::Period => Some(0x2F),
        KeyCode::Quote => Some(0x27),
        KeyCode::Semicolon => Some(0x29),
        KeyCode::Slash => Some(0x2C),
        _ => None,
    }
}

/// The virtual key code to translate through the keyboard layout in order to
/// learn what is printed on the key, `None` for a key that reads the same on
/// every layout.
pub fn layout_dependent_code(key_code: KeyCode) -> (r: Option<u16>)
    ensures
        r == spec_layout_dependent_code(key_code),
{
    match key_code {
        KeyCode::Backquote => Some(0x32),
        KeyCode::Backslash => Some(0x2A),
        KeyCode::BracketLeft => Some(0x21),
        KeyCode::BracketRight => Some(0x1E),
        KeyCode::Comma => Some(0x2B),
        KeyCode::Digit0 => Some(0x1D),
        KeyCode::Digit1 => Some(0x12),
        KeyCode::Digit2 => Some(0x13),
        KeyCode::Digit3 => Some(0x14),
        KeyCode::Digit4 => Some(0x15),
        KeyCode::Digit5 => Some(0x17),
        KeyCode::Digit6 => Some(0x16),
        KeyCode::Digit7 => Some(0x1A),
        KeyCode::Digit8 => Some(0x1C),
        KeyCode::Digit9 => Some(0x19),
        KeyCode::Equal => Some(0x18),
        KeyCode::IntlBackslash => Some(0x0A),
        KeyCode::IntlRo => Some(0x5E),
        KeyCode::IntlYen => Some(0x5D),
        KeyCode::KeyA => Some(0x00),
        KeyCode::KeyB => Some(0x0B),
        KeyCode::KeyC => Some(0x08),
        KeyCode::KeyD => Some(0x02),
        KeyCode::KeyE => Some(0x0E),
        KeyCode::KeyF => Some(0x03),
        KeyCode::KeyG => Some(0x05),
        KeyCode::KeyH => Some(0x04),
        KeyCode::KeyI => Some(0x22),
        KeyCode::KeyJ => Some(0x26),
        KeyCode::KeyK => Some(0x28),
        KeyCode::KeyL => Some(0x25),
        KeyCode::KeyM => Some(0x2E),
        KeyCode::KeyN => Some(0x2D),
        KeyCode::KeyO => Some(0x1F),
        KeyCode::KeyP => Some(0x23),
        KeyCode::KeyQ => Some(0x0C),
        KeyCode::KeyR => Some(0x0F),
        KeyCode::KeyS => Some(0x01),
        KeyCode::KeyT => Some(0x11),
        KeyCode::KeyU => Some(0x20),
        KeyCode::KeyV => Some(0x09),
        KeyCode::KeyW => Some(0x0D),
        KeyCode::KeyX => Some(0x07),
        KeyCode::KeyY => Some(0x10),
        KeyCode::KeyZ => Some(0x06),
        KeyCode::Minus => Some(0x1B),
        KeyCode::Period => Some(0x2F),
        KeyCode::Quote => Some(0x27),
        KeyCode::Semicolon => Some(0x29),
        KeyCode::Slash => Some(0x2C),
        _ => None,
    }
}

/// Translating a key to its layout dependent code and back gives the key.
pub proof fn lemma_layout_dependent_code_round_trip(key_code: KeyCode)
    ensures
        spec_layout_dependent_code(key_code) matches Some(code)
            ==> spec_key_code_from_virtual(code as i64) == Some(key_code),
{
}

/// The modifiers that an event's flags report, without the one that the
/// pressed key itself stands for.
pub open spec fn spec_event_modifiers(flags: u64, key_code: KeyCode) -> Modifiers {
    Modifiers {
        shift: flags & EVENT_FLAG_SHIFT == EVENT_FLAG_SHIFT
            && !(key_code == KeyCode::ShiftLeft || key_code == KeyCode::ShiftRight),
        control: flags & EVENT_FLAG_CONTROL == EVENT_FLAG_CONTROL
            && !(key_code == KeyCode::ControlLeft || key_code == KeyCode::ControlRight),
        alt: flags & EVENT_FLAG_OPTION == EVENT_FLAG_OPTION
            && !(key_code == KeyCode::AltLeft || key_code == KeyCode::AltRight),
        meta: flags & EVENT_FLAG_COMMAND == EVENT_FLAG_COMMAND
            && !(key_code == KeyCode::MetaLeft || key_code == KeyCode::MetaRight),
    }
}

/// The modifiers that an event's flags report, without the one that the
/// pressed key itself stands for.
pub fn event_modifiers(flags: u64, key_code: KeyCode) -> (r: Modifiers)
    ensures
        r == spec_event_modifiers(flags, key_code),
{
    let mut modifiers = Modifiers::empty();
    if flags & EVENT_FLAG_SHIFT == EVENT_FLAG_SHIFT
        && !(key_code == KeyCode::ShiftLeft || key_code == KeyCode::ShiftRight)
    {
        modifiers.shift = true;
    }
    if flags & EVENT_FLAG_CONTROL == EVENT_FLAG_CONTROL
        && !(key_code == KeyCode::ControlLeft || key_code == KeyCode::ControlRight)
    {
        modifiers.control = true;
    }
    if flags & EVENT_FLAG_OPTION == EVENT_FLAG_OPTION
        && !(key_code == KeyCode::AltLeft || key_code == KeyCode::AltRight)
    {
        modifiers.alt = true;
    }
    if flags & EVENT_FLAG_COMMAND == EVENT_FLAG_COMMAND
        && !(key_code == KeyCode::MetaLeft || key_code == KeyCode::MetaRight)
    {
        modifiers.meta = true;
    }
    modifiers
}

/// The hotkey that a key-down event amounts to: none for a repeated key and
/// for a virtual key code that belongs to no key.
pub open spec fn spec_event_hotkey(autorepeat: i64, virtual_key: i64, flags: u64) -> Option<Hotkey> {
    if autorepeat != 0 {
        None
    } else {
        match spec_key_code_from_virtual(virtual_key) {
            Some(key_code) => Some(
                Hotkey { key_code, modifiers: spec_event_modifiers(flags, key_code) },
            ),
            None => None,
        }
    }
}

/// The hotkey that a key-down event amounts to, from the event's autorepeat
/// field, its virtual key code and its flags.
pub fn event_hotkey(autorepeat: i64, virtual_key: i64, flags: u64) -> (r: Option<Hotkey>)
    ensures
        r == spec_event_hotkey(autorepeat, virtual_key, flags),
{
    if autorepeat != 0 {
        return None;
    }
    match key_code_from_virtual(virtual_key) {
        Some(key_code) => Some(key_code.with_modifiers(event_modifiers(flags, key_code))),
        None => None,
    }
}

/// The registrations that a list of hotkeys and callbacks amounts to.
pub open spec fn registrations<F>(entries: Seq<(Hotkey, F)>) -> Map<Hotkey, F>
    decreases entries.len(),
{
    if entries.len() == 0 {
        Map::empty()
    } else {
        registrations(entries.drop_last()).insert(entries.last().0, entries.last().1)
    }
}

/// No hotkey occurs twice in the list.
pub open spec fn distinct_hotkeys<F>(entries: Seq<(Hotkey, F)>) -> bool {
    forall|i: int, j: int|
        0 <= i < entries.len() && 0 <= j < entries.len() && i != j ==> entries[i].0 != entries[j].0
}

proof fn lemma_registrations_domain<F>(entries: Seq<(Hotkey, F)>, hotkey: Hotkey)
    ensures
        registrations(entries).contains_key(hotkey) <==> exists|i: int|
            0 <= i < entries.len() && (#[trigger] entries[i]).0 == hotkey,
    decreases entries.len(),
{
    if entries.len() > 0 {
        let init = entries.drop_last();
        lemma_registrations_domain(init, hotkey);
        if registrations(entries).contains_key(hotkey) {
            if entries.last().0 == hotkey {
                assert(entries[entries.len() - 1].0 == hotkey);
            } else {
                let i = choose|i: int| 0 <= i < init.len() && (#[trigger] init[i]).0 == hotkey;
                assert(entries[i].0 == hotkey);
            }
        }
        if exists|i: int| 0 <= i < entries.len() && (#[trigger] entries[i]).0 == hotkey {
            let i = choose|i: int| 0 <= i < entries.len() && (#[trigger] entries[i]).0 == hotkey;
            if i < entries.len() - 1 {
                assert(init[i].0 == hotkey);
            }
        }
    }
}

proof fn lemma_registrations_value<F>(entries: Seq<(Hotkey, F)>, i: int)
    requires
        distinct_hotkeys(entries),
        0 <= i < entries.len(),
    ensures
        registrations(entries).contains_key(entries[i].0),
        registrations(entries)[entries[i].0] == entries[i].1,
    decreases entries.len(),
{
    let init = entries.drop_last();
    if i < entries.len() - 1 {
        assert(distinct_hotkeys(init)) by {
            assert forall|a: int, b: int|
                0 <= a < init.len() && 0 <= b < init.len() && a != b implies init[a].0
                != init[b].0 by {
                assert(entries[a].0 != entries[b].0);
            }
        }
        lemma_registrations_value(init, i);
        assert(entries[i].0 != entries[entries.len() - 1].0);
    }
}

proof fn lemma_registrations_remove<F>(entries: Seq<(Hotkey, F)>, i: int)
    requires
        distinct_hotkeys(entries),
        0 <= i < entries.len(),
    ensures
        distinct_hotkeys(entries.remove(i)),
        registrations(entries.remove(i)) == registrations(entries).remove(entries[i].0),
    decreases entries.len(),
{
    let rest = entries.remove(i);
    assert(distinct_hotkeys(rest)) by {
        assert forall|a: int, b: int|
            0 <= a < rest.len() && 0 <= b < rest.len() && a != b implies rest[a].0 != rest[b].0 by {
            let a0 = if a < i { a } else { a + 1 };
            let b0 = if b < i { b } else { b + 1 };
            assert(entries[a0].0 != entries[b0].0);
        }
    }
    let init = entries.drop_last();
    if i == entries.len() - 1 {
        assert(rest == init);
        assert(!registrations(init).contains_key(entries[i].0)) by {
            lemma_registrations_domain(init, entries[i].0);
            if exists|k: int| 0 <= k < init.len() && (#[trigger] init[k]).0 == entries[i].0 {
                let k = choose|k: int| 0 <= k < init.len() && (#[trigger] init[k]).0 == entries[i].0;
                assert(entries[k].0 != entries[i].0);
            }
        }
        assert(registrations(entries).remove(entries[i].0) == registrations(init));
    } else {
        assert(distinct_hotkeys(init)) by {
            assert forall|a: int, b: int|
                0 <= a < init.len() && 0 <= b < init.len() && a != b implies init[a].0
                != init[b].0 by {
                assert(entries[a].0 != entries[b].0);
            }
        }
        lemma_registrations_remove(init, i);
        assert(rest.drop_last() == init.remove(i));
        assert(rest.last() == entries.last());
        assert(entries[i].0 != entries[entries.len() - 1].0);
        assert(registrations(rest) == registrations(init).remove(entries[i].0).insert(
            entries.last().0,
            entries.last().1,
        ));
        assert(registrations(rest) == registrations(entries).remove(entries[i].0));
    }
}

/// A hook keeps the hotkeys that are listened to, each with the callback to
/// run when it is pressed.
pub struct Hook<F> {
    consuming: bool,
    entries: Vec<(Hotkey, F)>,
}

impl<F> View for Hook<F> {
    type V = Map<Hotkey, F>;

    /// The callback of every registered hotkey.
    closed spec fn view(&self) -> Map<Hotkey, F> {
        registrations(self.entries@)
    }
}

impl<F> Hook<F> {
    /// Every hotkey is kept once.
    pub closed spec fn wf(&self) -> bool {
        distinct_hotkeys(self.entries@)
    }

    /// Whether handled key presses are kept from other applications.
    pub closed spec fn is_consuming(&self) -> bool {
        self.consuming
    }

    /// Whether a preference asks the hook to consume the key presses it handles.
    pub open spec fn wants_consuming(consume: ConsumePreference) -> bool {
        consume == ConsumePreference::PreferConsume || consume == ConsumePreference::MustConsume
    }

    /// A hook without any hotkey.
    pub fn new(consume: ConsumePreference) -> (r: Self)
        ensures
            r.wf(),
            r@ == Map::<Hotkey, F>::empty(),
            r.is_consuming() == Self::wants_consuming(consume),
    {
        let consuming = match consume {
            ConsumePreference::PreferConsume | ConsumePreference::MustConsume => true,
            _ => false,
        };
        Hook { consuming, entries: Vec::new() }
    }

    /// Whether handled key presses are kept from other applications.
    pub fn consuming(&self) -> (r: bool)
        ensures
            r == self.is_consuming(),
    {
        self.consuming
    }

    fn position(&self, hotkey: Hotkey) -> (r: Option<usize>)
        ensures
            match r {
                Some(i) => i < self.entries@.len() && self.entries@[i as int].0 == hotkey,
                None => !self@.contains_key(hotkey),
            },
    {
        let mut i: usize = 0;
        while i < self.entries.len()
            invariant
                i <= self.entries@.len(),
                forall|k: int| 0 <= k < i ==> (#[trigger] self.entries@[k]).0 != hotkey,
            decreases self.entries@.len() - i,
        {
            if self.entries[i].0 == hotkey {
                return Some(i);
            }
            i += 1;
        }
        proof {
            lemma_registrations_domain(self.entries@, hotkey);
        }
        None
    }

    /// Whether the hotkey has a callback.
    pub fn is_registered(&self, hotkey: Hotkey) -> (r: bool)
        ensures
            r == self@.contains_key(hotkey),
    {
        match self.position(hotkey) {
            Some(i) => {
                proof {
                    lemma_registrations_domain(self.entries@, hotkey);
                }
                true
            },
            None => false,
        }
    }

    /// The number of registered hotkeys.
    pub fn len(&self) -> (r: usize)
        requires
            self.wf(),
        ensures
            r == self@.dom().len(),
    {
        proof {
            lemma_registrations_len(self.entries@);
        }
        self.entries.len()
    }

    /// Registers a callback for a hotkey that has none yet. A hotkey that has
    /// one keeps it, and the call fails.
    pub fn register(&mut self, hotkey: Hotkey, callback: F) -> (r: Result<(), HookError>)
        requires
            old(self).wf(),
        ensures
            final(self).wf(),
            final(self).is_consuming() == old(self).is_consuming(),
            old(self)@.contains_key(hotkey) ==> r == Err::<(), HookError>(HookError::AlreadyRegistered)
                && final(self)@ == old(self)@,
            !old(self)@.contains_key(hotkey) ==> r == Ok::<(), HookError>(()) && final(self)@ == old(
                self,
            )@.insert(hotkey, callback),
    {
        match self.position(hotkey) {
            Some(i) => {
                proof {
                    lemma_registrations_domain(self.entries@, hotkey);
                }
                Err(HookError::AlreadyRegistered)
            },
            None => {
                proof {
                    lemma_registrations_domain(self.entries@, hotkey);
                    assert(self.entries@.push((hotkey, callback)).drop_last() == self.entries@);
                }
                self.entries.push((hotkey, callback));
                Ok(())
            },
        }
    }

    /// Takes a hotkey and its callback out. Fails for a hotkey that is not
    /// registered.
    pub fn unregister(&mut self, hotkey: Hotkey) -> (r: Result<(), HookError>)
        requires
            old(self).wf(),
        ensures
            final(self).wf(),
            final(self).is_consuming() == old(self).is_consuming(),
            final(self)@ == old(self)@.remove(hotkey),
            old(self)@.contains_key(hotkey) ==> r == Ok::<(), HookError>(()),
            !old(self)@.contains_key(hotkey) ==> r == Err::<(), HookError>(HookError::NotRegistered),
    {
        match self.position(hotkey) {
            Some(i) => {
                proof {
                    lemma_registrations_domain(self.entries@, hotkey);
                    lemma_registrations_remove(self.entries@, i as int);
                }
                let _ = self.entries.remove(i);
                Ok(())
            },
            None => {
                assert(self@.remove(hotkey) == self@);
                Err(HookError::NotRegistered)
            },
        }
    }

    /// The callback of a hotkey, to run it.
    pub fn callback(&self, hotkey: Hotkey) -> (r: Option<&F>)
        requires
            self.wf(),
        ensures
            match r {
                Some(callback) => self@.contains_key(hotkey) && *callback == self@[hotkey],
                None => !self@.contains_key(hotkey),
            },
    {
        match self.position(hotkey) {
            Some(i) => {
                proof {
                    lemma_registrations_value(self.entries@, i as int);
                }
                Some(&self.entries[i].1)
            },
            None => None,
        }
    }

    /// The callback of a hotkey, to run it where running changes it.
    pub fn callback_mut(&mut self, hotkey: Hotkey) -> (r: Option<&mut F>)
        requires
            old(self).wf(),
        ensures
            final(self).wf(),
            final(self).is_consuming() == old(self).is_consuming(),
            match r {
                Some(callback) => old(self)@.contains_key(hotkey) && *callback == old(self)@[hotkey]
                    && final(self)@ == old(self)@.insert(hotkey, *final(callback)),
                None => !old(self)@.contains_key(hotkey) && final(self)@ == old(self)@,
            },
    {
        match self.position(hotkey) {
            Some(i) => {
                proof {
                    lemma_registrations_value(self.entries@, i as int);
                    assert forall|f: F| #[trigger]
                        registrations(self.entries@.update(i as int, (hotkey, f))) == self@.insert(
                            hotkey,
                            f,
                        ) && distinct_hotkeys(self.entries@.update(i as int, (hotkey, f))) by {
                        lemma_registrations_update(self.entries@, i as int, f);
                    }
                }
                let entry = &mut self.entries[i];
                Some(&mut entry.1)
            },
            None => None,
        }
    }

    /// What a key-down event calls for: the callback to run, after which the
    /// event is to be dropped, or nothing, and the event passes on unchanged.
    /// A repeated key, a key code that belongs to no key and a hotkey without
    /// a callback all pass on.
    pub fn key_down(&mut self, autorepeat: i64, virtual_key: i64, flags: u64) -> (r: Option<&mut F>)
        requires
            old(self).wf(),
        ensures
            final(self).wf(),
            final(self).is_consuming() == old(self).is_consuming(),
            match r {
                Some(callback) => spec_event_hotkey(autorepeat, virtual_key, flags) matches Some(
                    hotkey,
                ) && old(self)@.contains_key(hotkey) && *callback == old(self)@[hotkey] && final(self)@
                    == old(self)@.insert(hotkey, *final(callback)),
                None => final(self)@ == old(self)@ && (spec_event_hotkey(
                    autorepeat,
                    virtual_key,
                    flags,
                ) matches Some(hotkey) ==> !old(self)@.contains_key(hotkey)),
            },
    {
        match event_hotkey(autorepeat, virtual_key, flags) {
            Some(hotkey) => self.callback_mut(hotkey),
            None => None,
        }
    }
}

/// What decoding UTF-16 code units gives: none where a surrogate stands
/// without its partner.
pub uninterp spec fn utf16_text(units: Seq<u16>) -> Option<Seq<char>>;

/// `String::from_utf16`: decodes UTF-16 code units, and fails where they
/// hold an unpaired surrogate.
#[verifier::external_body]
fn string_from_utf16(units: &[u16]) -> (r: Option<String>)
    ensures
        match r {
            Some(text) => utf16_text(units@) == Some(text@),
            None => utf16_text(units@) is None,
        },
{
    String::from_utf16(units).ok()
}

/// The text on a key, from the code units that translating the key through
/// the keyboard layout gave and their number. A key that gives no unit, or
/// units that are no text, has none.
pub fn resolved_text(units: &[u16], len: usize) -> (r: Option<String>)
    requires
        len <= units@.len(),
    ensures
        match r {
            Some(text) => len > 0 && utf16_text(units@.subrange(0, len as int)) == Some(text@),
            None => len == 0 || utf16_text(units@.subrange(0, len as int)) is None,
        },
{
    if len == 0 {
        return None;
    }
    string_from_utf16(vstd::slice::slice_subrange(units, 0, len))
}

proof fn lemma_registrations_update<F>(entries: Seq<(Hotkey, F)>, i: int, callback: F)
    requires
        distinct_hotkeys(entries),
        0 <= i < entries.len(),
    ensures
        distinct_hotkeys(entries.update(i, (entries[i].0, callback))),
        registrations(entries.update(i, (entries[i].0, callback))) == registrations(entries).insert(
            entries[i].0,
            callback,
        ),
    decreases entries.len(),
{
    let changed = entries.update(i, (entries[i].0, callback));
    assert(distinct_hotkeys(changed)) by {
        assert forall|a: int, b: int|
            0 <= a < changed.len() && 0 <= b < changed.len() && a != b implies changed[a].0
            != changed[b].0 by {
            assert(entries[a].0 != entries[b].0);
        }
    }
    let init = entries.drop_last();
    if i == entries.len() - 1 {
        assert(changed.drop_last() == init);
        assert(registrations(changed) == registrations(entries).insert(entries[i].0, callback));
    } else {
        assert(distinct_hotkeys(init)) by {
            assert forall|a: int, b: int|
                0 <= a < init.len() && 0 <= b < init.len() && a != b implies init[a].0
                != init[b].0 by {
                assert(entries[a].0 != entries[b].0);
            }
        }
        lemma_registrations_update(init, i, callback);
        assert(changed.drop_last() == init.update(i, (entries[i].0, callback)));
        assert(changed.last() == entries.last());
        assert(entries[i].0 != entries[entries.len() - 1].0);
        assert(registrations(changed) == registrations(entries).insert(entries[i].0, callback));
    }
}

proof fn lemma_registrations_len<F>(entries: Seq<(Hotkey, F)>)
    requires
        distinct_hotkeys(entries),
    ensures
        registrations(entries).dom().finite(),
        registrations(entries).dom().len() == entries.len(),
    decreases entries.len(),
{
    if entries.len() == 0 {
        assert(registrations(entries).dom() == Set::<Hotkey>::empty());
    } else {
        let init = entries.drop_last();
        assert(distinct_hotkeys(init)) by {
            assert forall|a: int, b: int|
                0 <= a < init.len() && 0 <= b < init.len() && a != b implies init[a].0
                != init[b].0 by {
                assert(entries[a].0 != entries[b].0);
            }
        }
        lemma_registrations_len(init);
        lemma_registrations_domain(init, entries.last().0);
        if exists|k: int| 0 <= k < init.len() && (#[trigger] init[k]).0 == entries.last().0 {
            let k = choose|k: int| 0 <= k < init.len() && (#[trigger] init[k]).0 == entries.last().0;
            assert(entries[k].0 != entries[entries.len() - 1].0);
        }
        assert(registrations(entries).dom() == registrations(init).dom().insert(entries.last().0));
    }
}

} // verus!
