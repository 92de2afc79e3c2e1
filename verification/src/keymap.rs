//! Key identities and key tables.
//!
//! The raw input hook reports which physical key went down; the library keeps
//! its own notion of key identity, [`KeyId`], and owns the two tables that the
//! recorder applies to it: the platform virtual-key code a key press is
//! recorded under, and the printable character (if any) that feeds text
//! aggregation. Hosts translate their hook's key type into [`KeyId`] before
//! handing a sample to the core.

use vstd::prelude::*;

verus! {

/// Which key went down, as the library models keys.
#[derive(Clone, Copy, Debug, PartialEq, Eq, Structural)]
pub enum KeyId {
    Alt,
    AltGr,
    Backspace,
    CapsLock,
    ControlLeft,
    ControlRight,
    Delete,
    DownArrow,
    End,
    Escape,
    F1,
    F2,
    F3,
    F4,
    F5,
    F6,
    F7,
    F8,
    F9,
    F10,
    F11,
    F12,
    Home,
    LeftArrow,
    MetaLeft,
    MetaRight,
    PageDown,
    PageUp,
    Return,
    RightArrow,
    ShiftLeft,
    ShiftRight,
    Space,
    Tab,
    UpArrow,
    Num0,
    Num1,
    Num2,
    Num3,
    Num4,
    Num5,
    Num6,
    Num7,
    Num8,
    Num9,
    KeyA,
    KeyB,
    KeyC,
    KeyD,
    KeyE,
    KeyF,
    KeyG,
    KeyH,
    KeyI,
    KeyJ,
    KeyK,
    KeyL,
    KeyM,
    KeyN,
    KeyO,
    KeyP,
    KeyQ,
    KeyR,
    KeyS,
    KeyT,
    KeyU,
    KeyV,
    KeyW,
    KeyX,
    KeyY,
    KeyZ,
    Unknown,
}

/// The virtual-key code each key is recorded under; zero for a key the
/// table does not know.
pub open spec fn spec_key_code(key: KeyId) -> u16 {
    match key {
        KeyId::Alt => 0x12,
        KeyId::AltGr => 0x12,
        KeyId::Backspace => 0x08,
        KeyId::CapsLock => 0x14,
        KeyId::ControlLeft => 0x11,
        KeyId::ControlRight => 0x11,
        KeyId::Delete => 0x2E,
        KeyId::DownArrow => 0x28,
        KeyId::End => 0x23,
        KeyId::Escape => 0x1B,
        KeyId::F1 => 0x70,
        KeyId::F2 => 0x71,
        KeyId::F3 => 0x72,
        KeyId::F4 => 0x73,
        KeyId::F5 => 0x74,
        KeyId::F6 => 0x75,
        KeyId::F7 => 0x76,
        KeyId::F8 => 0x77,
        KeyId::F9 => 0x78,
        KeyId::F10 => 0x79,
        KeyId::F11 => 0x7A,
        KeyId::F12 => 0x7B,
        KeyId::Home => 0x24,
        KeyId::LeftArrow => 0x25,
        KeyId::MetaLeft => 0x5B,
        KeyId::MetaRight => 0x5B,
        KeyId::PageDown => 0x22,
        KeyId::PageUp => 0x21,
        KeyId::Return => 0x0D,
        KeyId::RightArrow => 0x27,
        KeyId::ShiftLeft => 0x10,
        KeyId::ShiftRight => 0x10,
        KeyId::Space => 0x20,
        KeyId::Tab => 0x09,
        KeyId::UpArrow => 0x26,
        KeyId::Num0 => 0x30,
        KeyId::Num1 => 0x31,
        KeyId::Num2 => 0x32,
        KeyId::Num3 => 0x33,
        KeyId::Num4 => 0x34,
        KeyId::Num5 => 0x35,
        KeyId::Num6 => 0x36,
        KeyId::Num7 => 0x37,
        KeyId::Num8 => 0x38,
        KeyId::Num9 => 0x39,
        KeyId::KeyA => 0x41,
        KeyId::KeyB => 0x42,
        KeyId::KeyC => 0x43,
        KeyId::KeyD => 0x44,
        KeyId::KeyE => 0x45,
        KeyId::KeyF => 0x46,
        KeyId::KeyG => 0x47,
        KeyId::KeyH => 0x48,
        KeyId::KeyI => 0x49,
        KeyId::KeyJ => 0x4A,
        KeyId::KeyK => 0x4B,
        KeyId::KeyL => 0x4C,
        KeyId::KeyM => 0x4D,
        KeyId::KeyN => 0x4E,
        KeyId::KeyO => 0x4F,
        KeyId::KeyP => 0x50,
        KeyId::KeyQ => 0x51,
        KeyId::KeyR => 0x52,
        KeyId::KeyS => 0x53,
        KeyId::KeyT => 0x54,
        KeyId::KeyU => 0x55,
        KeyId::KeyV => 0x56,
        KeyId::KeyW => 0x57,
        KeyId::KeyX => 0x58,
        KeyId::KeyY => 0x59,
        KeyId::KeyZ => 0x5A,
        KeyId::Unknown => 0x00,
    }
}

/// Looks up the virtual-key code a key press is recorded under.
pub fn key_to_code(key: KeyId) -> (code: u16)
    ensures
        code == spec_key_code(key),
{
    match key {
        KeyId::Alt => 0x12,
        KeyId::AltGr => 0x12,
        KeyId::Backspace => 0x08,
        KeyId::CapsLock => 0x14,
        KeyId::ControlLeft => 0x11,
        KeyId::ControlRight => 0x11,
        KeyId::Delete => 0x2E,
        KeyId::DownArrow => 0x28,
        KeyId::End => 0x23,
        KeyId::Escape => 0x1B,
        KeyId::F1 => 0x70,
        KeyId::F2 => 0x71,
        KeyId::F3 => 0x72,
        KeyId::F4 => 0x73,
        KeyId::F5 => 0x74,
        KeyId::F6 => 0x75,
        KeyId::F7 => 0x76,
        KeyId::F8 => 0x77,
        KeyId::F9 => 0x78,
        KeyId::F10 => 0x79,
        KeyId::F11 => 0x7A,
        KeyId::F12 => 0x7B,
        KeyId::Home => 0x24,
        KeyId::LeftArrow => 0x25,
        KeyId::MetaLeft => 0x5B,
        KeyId::MetaRight => 0x5B,
        KeyId::PageDown => 0x22,
        KeyId::PageUp => 0x21,
        KeyId::Return => 0x0D,
        KeyId::RightArrow => 0x27,
        KeyId::ShiftLeft => 0x10,
        KeyId::ShiftRight => 0x10,
        KeyId::Space => 0x20,
        KeyId::Tab => 0x09,
        KeyId::UpArrow => 0x26,
        KeyId::Num0 => 0x30,
        KeyId::Num1 => 0x31,
        KeyId::Num2 => 0x32,
        KeyId::Num3 => 0x33,
        KeyId::Num4 => 0x34,
        KeyId::Num5 => 0x35,
        KeyId::Num6 => 0x36,
        KeyId::Num7 => 0x37,
        KeyId::Num8 => 0x38,
        KeyId::Num9 => 0x39,
        KeyId::KeyA => 0x41,
        KeyId::KeyB => 0x42,
        KeyId::KeyC => 0x43,
        KeyId::KeyD => 0x44,
        KeyId::KeyE => 0x45,
        KeyId::KeyF => 0x46,
        KeyId::KeyG => 0x47,
        KeyId::KeyH => 0x48,
        KeyId::KeyI => 0x49,
        KeyId::KeyJ => 0x4A,
        KeyId::KeyK => 0x4B,
        KeyId::KeyL => 0x4C,
        KeyId::KeyM => 0x4D,
        KeyId::KeyN => 0x4E,
        KeyId::KeyO => 0x4F,
        KeyId::KeyP => 0x50,
        KeyId::KeyQ => 0x51,
        KeyId::KeyR => 0x52,
        KeyId::KeyS => 0x53,
        KeyId::KeyT => 0x54,
        KeyId::KeyU => 0x55,
        KeyId::KeyV => 0x56,
        KeyId::KeyW => 0x57,
        KeyId::KeyX => 0x58,
        KeyId::KeyY => 0x59,
        KeyId::KeyZ => 0x5A,
        KeyId::Unknown => 0x00,
    }
}

/// The printable character a key contributes to text aggregation, if any.
pub open spec fn spec_key_char(key: KeyId) -> Option<char> {
    match key {
        KeyId::Return => Some('\n'),
        KeyId::Space => Some(' '),
        KeyId::Tab => Some('\t'),
        KeyId::Num0 => Some('0'),
        KeyId::Num1 => Some('1'),
        KeyId::Num2 => Some('2'),
        KeyId::Num3 => Some('3'),
        KeyId::Num4 => Some('4'),
        KeyId::Num5 => Some('5'),
        KeyId::Num6 => Some('6'),
        KeyId::Num7 => Some('7'),
        KeyId::Num8 => Some('8'),
        KeyId::Num9 => Some('9'),
        KeyId::KeyA => Some('a'),
        KeyId::KeyB => Some('b'),
        KeyId::KeyC => Some('c'),
        KeyId::KeyD => Some('d'),
        KeyId::KeyE => Some('e'),
        KeyId::KeyF => Some('f'),
        KeyId::KeyG => Some('g'),
        KeyId::KeyH => Some('h'),
        KeyId::KeyI => Some('i'),
        KeyId::KeyJ => Some('j'),
        KeyId::KeyK => Some('k'),
        KeyId::KeyL => Some('l'),
        KeyId::KeyM => Some('m'),
        KeyId::KeyN => Some('n'),
        KeyId::KeyO => Some('o'),
        KeyId::KeyP => Some('p'),
        KeyId::KeyQ => Some('q'),
        KeyId::KeyR => Some('r'),
        KeyId::KeyS => Some('s'),
        KeyId::KeyT => Some('t'),
        KeyId::KeyU => Some('u'),
        KeyId::KeyV => Some('v'),
        KeyId::KeyW => Some('w'),
        KeyId::KeyX => Some('x'),
        KeyId::KeyY => Some('y'),
        KeyId::KeyZ => Some('z'),
        _ => None,
    }
}

/// Looks up the printable character a key feeds into text aggregation.
pub fn key_to_char(key: KeyId) -> (c: Option<char>)
    ensures
        c == spec_key_char(key),
{
    match key {
        KeyId::Return => Some('\n'),
        KeyId::Space => Some(' '),
        KeyId::Tab => Some('\t'),
        KeyId::Num0 => Some('0'),
        KeyId::Num1 => Some('1'),
        KeyId::Num2 => Some('2'),
        KeyId::Num3 => Some('3'),
        KeyId::Num4 => Some('4'),
        KeyId::Num5 => Some('5'),
        KeyId::Num6 => Some('6'),
        KeyId::Num7 => Some('7'),
        KeyId::Num8 => Some('8'),
        KeyId::Num9 => Some('9'),
        KeyId::KeyA => Some('a'),
        KeyId::KeyB => Some('b'),
        KeyId::KeyC => Some('c'),
        KeyId::KeyD => Some('d'),
        KeyId::KeyE => Some('e'),
        KeyId::KeyF => Some('f'),
        KeyId::KeyG => Some('g'),
        KeyId::KeyH => Some('h'),
        KeyId::KeyI => Some('i'),
        KeyId::KeyJ => Some('j'),
        KeyId::KeyK => Some('k'),
        KeyId::KeyL => Some('l'),
        KeyId::KeyM => Some('m'),
        KeyId::KeyN => Some('n'),
        KeyId::KeyO => Some('o'),
        KeyId::KeyP => Some('p'),
        KeyId::KeyQ => Some('q'),
        KeyId::KeyR => Some('r'),
        KeyId::KeyS => Some('s'),
        KeyId::KeyT => Some('t'),
        KeyId::KeyU => Some('u'),
        KeyId::KeyV => Some('v'),
        KeyId::KeyW => Some('w'),
        KeyId::KeyX => Some('x'),
        KeyId::KeyY => Some('y'),
        KeyId::KeyZ => Some('z'),
        _ => None,
    }
}

/// Whether a key contributes a printable character.
pub open spec fn is_printable(key: KeyId) -> bool {
    spec_key_char(key) is Some
}

/// The virtual-key code for the page-up key on the host this library targets.
pub const KEY_CODE_PAGE_UP: u8 = 116;
/// The virtual-key code for the page-down key.
pub const KEY_CODE_PAGE_DOWN: u8 = 121;
/// The virtual-key code for the return key.
pub const KEY_CODE_RETURN: u8 = 36;
/// The virtual-key code for the tab key.
pub const KEY_CODE_TAB: u8 = 48;
/// The virtual-key code for the escape key.
pub const KEY_CODE_ESCAPE: u8 = 53;
/// The virtual-key code for the space key.
pub const KEY_CODE_SPACE: u8 = 49;
/// The virtual-key code for the delete (backspace) key.
pub const KEY_CODE_DELETE: u8 = 51;
/// The virtual-key code for the up arrow.
pub const KEY_CODE_ARROW_UP: u8 = 126;
/// The virtual-key code for the down arrow.
pub const KEY_CODE_ARROW_DOWN: u8 = 125;
/// The virtual-key code for the left arrow.
pub const KEY_CODE_ARROW_LEFT: u8 = 123;
/// The virtual-key code for the right arrow.
pub const KEY_CODE_ARROW_RIGHT: u8 = 124;
/// The virtual-key code for the home key.
pub const KEY_CODE_HOME: u8 = 115;
/// The virtual-key code for the end key.
pub const KEY_CODE_END: u8 = 119;

/// The character code used for case-insensitive name comparison: upper-case
/// ASCII letters fold onto their lower-case code, everything else is itself.
pub open spec fn lower_code(c: char) -> int {
    if 'A' <= c && c <= 'Z' {
        c as int + 32
    } else {
        c as int
    }
}

/// Two character sequences are equal up to ASCII case.
pub open spec fn ascii_lower_eq(a: Seq<char>, b: Seq<char>) -> bool {
    a.len() == b.len() && forall|j: int| 0 <= j < a.len() ==> lower_code(a[j]) == lower_code(b[j])
}

/// Compares two strings for equality ignoring ASCII case.
pub fn eq_ignore_ascii_case(a: &str, b: &str) -> (r: bool)
    ensures
        r == ascii_lower_eq(a@, b@),
{
    let n = a.unicode_len();
    if n != b.unicode_len() {
        return false;
    }
    let mut i: usize = 0;
    while i < n
        invariant
            i <= n,
            n == a@.len(),
            n == b@.len(),
            forall|j: int| 0 <= j < i ==> lower_code(a@[j]) == lower_code(b@[j]),
        decreases n - i,
    {
        let ca = a.get_char(i);
        let cb = b.get_char(i);
        let la: u32 = if ca >= 'A' && ca <= 'Z' {
            ca as u32 + 32
        } else {
            ca as u32
        };
        let lb: u32 = if cb >= 'A' && cb <= 'Z' {
            cb as u32 + 32
        } else {
            cb as u32
        };
        if la != lb {
            return false;
        }
        i = i + 1;
    }
    true
}

/// The virtual-key code a key name denotes, compared ignoring ASCII case;
/// `None` for a name the library does not know.
pub open spec fn spec_key_name_code(s: Seq<char>) -> Option<u8> {
    if ascii_lower_eq(s, "pageup"@) || ascii_lower_eq(s, "page_up"@) {
        Some(KEY_CODE_PAGE_UP)
    } else if ascii_lower_eq(s, "pagedown"@) || ascii_lower_eq(s, "page_down"@) {
        Some(KEY_CODE_PAGE_DOWN)
    } else if ascii_lower_eq(s, "return"@) || ascii_lower_eq(s, "enter"@) {
        Some(KEY_CODE_RETURN)
    } else if ascii_lower_eq(s, "tab"@) {
        Some(KEY_CODE_TAB)
    } else if ascii_lower_eq(s, "escape"@) || ascii_lower_eq(s, "esc"@) {
        Some(KEY_CODE_ESCAPE)
    } else if ascii_lower_eq(s, "space"@) {
        Some(KEY_CODE_SPACE)
    } else if ascii_lower_eq(s, "delete"@) || ascii_lower_eq(s, "backspace"@) {
        Some(KEY_CODE_DELETE)
    } else if ascii_lower_eq(s, "up"@) || ascii_lower_eq(s, "arrow_up"@) {
        Some(KEY_CODE_ARROW_UP)
    } else if ascii_lower_eq(s, "down"@) || ascii_lower_eq(s, "arrow_down"@) {
        Some(KEY_CODE_ARROW_DOWN)
    } else if ascii_lower_eq(s, "left"@) || ascii_lower_eq(s, "arrow_left"@) {
        Some(KEY_CODE_ARROW_LEFT)
    } else if ascii_lower_eq(s, "right"@) || ascii_lower_eq(s, "arrow_right"@) {
        Some(KEY_CODE_ARROW_RIGHT)
    } else if ascii_lower_eq(s, "home"@) {
        Some(KEY_CODE_HOME)
    } else if ascii_lower_eq(s, "end"@) {
        Some(KEY_CODE_END)
    } else {
        None
    }
}

/// Resolves a key name, as a host or a command line writes it, to the
/// virtual-key code to inject; names are read ignoring ASCII case.
pub fn key_name_to_code(name: &str) -> (r: Option<u8>)
    ensures
        r == spec_key_name_code(name@),
{
    if eq_ignore_ascii_case(name, "pageup") || eq_ignore_ascii_case(name, "page_up") {
        Some(KEY_CODE_PAGE_UP)
    } else if eq_ignore_ascii_case(name, "pagedown") || eq_ignore_ascii_case(name, "page_down") {
        Some(KEY_CODE_PAGE_DOWN)
    } else if eq_ignore_ascii_case(name, "return") || eq_ignore_ascii_case(name, "enter") {
        Some(KEY_CODE_RETURN)
    } else if eq_ignore_ascii_case(name, "tab") {
        Some(KEY_CODE_TAB)
    } else if eq_ignore_ascii_case(name, "escape") || eq_ignore_ascii_case(name, "esc") {
        Some(KEY_CODE_ESCAPE)
    } else if eq_ignore_ascii_case(name, "space") {
        Some(KEY_CODE_SPACE)
    } else if eq_ignore_ascii_case(name, "delete") || eq_ignore_ascii_case(name, "backspace") {
        Some(KEY_CODE_DELETE)
    } else if eq_ignore_ascii_case(name, "up") || eq_ignore_ascii_case(name, "arrow_up") {
        Some(KEY_CODE_ARROW_UP)
    } else if eq_ignore_ascii_case(name, "down") || eq_ignore_ascii_case(name, "arrow_down") {
        Some(KEY_CODE_ARROW_DOWN)
    } else if eq_ignore_ascii_case(name, "left") || eq_ignore_ascii_case(name, "arrow_left") {
        Some(KEY_CODE_ARROW_LEFT)
    } else if eq_ignore_ascii_case(name, "right") || eq_ignore_ascii_case(name, "arrow_right") {
        Some(KEY_CODE_ARROW_RIGHT)
    } else if eq_ignore_ascii_case(name, "home") {
        Some(KEY_CODE_HOME)
    } else if eq_ignore_ascii_case(name, "end") {
        Some(KEY_CODE_END)
    } else {
        None
    }
}

} // verus!
