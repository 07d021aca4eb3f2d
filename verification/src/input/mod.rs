//! Keyboard input: the keys the library distinguishes, the events it emits,
//! and the classifier that tells typing from shortcuts and navigation.

pub mod classifier;

pub use classifier::KeystrokeClassifier;

use vstd::prelude::*;

verus! {

/// Events emitted by the input monitor.
#[derive(Debug, Clone)]
pub enum InputEvent {
    /// User is actively typing meaningful text.
    TypingActive,
    /// User paused typing for the configured delay.
    TypingPaused { buffer: String },
    /// A non-typing key was pressed (modifier, shortcut, navigation).
    NonTyping,
}

/// A physical key as the keyboard hook reports it. The keys that produce
/// buffered text and the shortcut modifiers are named; every other key is
/// `Other`.
#[derive(Debug, Clone, Copy, PartialEq, Eq, Structural)]
pub enum KeyCode {
    KeyA, KeyB, KeyC, KeyD, KeyE, KeyF, KeyG, KeyH, KeyI, KeyJ, KeyK, KeyL, KeyM,
    KeyN, KeyO, KeyP, KeyQ, KeyR, KeyS, KeyT, KeyU, KeyV, KeyW, KeyX, KeyY, KeyZ,
    Num0, Num1, Num2, Num3, Num4, Num5, Num6, Num7, Num8, Num9,
    Space, Dot, Comma, SemiColon, Quote, Minus, Equal, Slash,
    /// Shortcut modifiers: while one is held, keys form shortcuts, not text.
    ControlLeft, ControlRight, Alt, AltGr, MetaLeft, MetaRight,
    /// A modifier, navigation, function or other special key.
    Other,
}

/// The character a key contributes to the typing buffer, if any.
pub open spec fn key_char(key: KeyCode) -> Option<char> {
    match key {
        KeyCode::KeyA => Some('a'),
        KeyCode::KeyB => Some('b'),
        KeyCode::KeyC => Some('c'),
        KeyCode::KeyD => Some('d'),
        KeyCode::KeyE => Some('e'),
        KeyCode::KeyF => Some('f'),
        KeyCode::KeyG => Some('g'),
        KeyCode::KeyH => Some('h'),
        KeyCode::KeyI => Some('i'),
        KeyCode::KeyJ => Some('j'),
        KeyCode::KeyK => Some('k'),
        KeyCode::KeyL => Some('l'),
        KeyCode::KeyM => Some('m'),
        KeyCode::KeyN => Some('n'),
        KeyCode::KeyO => Some('o'),
        KeyCode::KeyP => Some('p'),
        KeyCode::KeyQ => Some('q'),
        KeyCode::KeyR => Some('r'),
        KeyCode::KeyS => Some('s'),
        KeyCode::KeyT => Some('t'),
        KeyCode::KeyU => Some('u'),
        KeyCode::KeyV => Some('v'),
        KeyCode::KeyW => Some('w'),
        KeyCode::KeyX => Some('x'),
        KeyCode::KeyY => Some('y'),
        KeyCode::KeyZ => Some('z'),
        KeyCode::Num0 => Some('0'),
        KeyCode::Num1 => Some('1'),
        KeyCode::Num2 => Some('2'),
        KeyCode::Num3 => Some('3'),
        KeyCode::Num4 => Some('4'),
        KeyCode::Num5 => Some('5'),
        KeyCode::Num6 => Some('6'),
        KeyCode::Num7 => Some('7'),
        KeyCode::Num8 => Some('8'),
        KeyCode::Num9 => Some('9'),
        KeyCode::Space => Some(' '),
        KeyCode::Dot => Some('.'),
        KeyCode::Comma => Some(','),
        KeyCode::SemiColon => Some(';'),
        KeyCode::Quote => Some('\''),
        KeyCode::Minus => Some('-'),
        KeyCode::Equal => Some('='),
        KeyCode::Slash => Some('/'),
        _ => None,
    }
}

/// Whether a key types a letter or a digit.
pub open spec fn is_alphanumeric_key(key: KeyCode) -> bool {
    match key_char(key) {
        Some(c) => ('a' <= c && c <= 'z') || ('0' <= c && c <= '9'),
        None => false,
    }
}

/// Whether a key is a shortcut modifier (Control, Alt or Meta, either side).
/// Shift is not one: it is held to type capitals.
pub open spec fn is_shortcut_modifier(key: KeyCode) -> bool {
    ||| key is ControlLeft
    ||| key is ControlRight
    ||| key is Alt
    ||| key is AltGr
    ||| key is MetaLeft
    ||| key is MetaRight
}

/// Whether a key is a shortcut modifier.
pub fn shortcut_modifier(key: KeyCode) -> (r: bool)
    ensures
        r == is_shortcut_modifier(key),
{
    match key {
        KeyCode::ControlLeft | KeyCode::ControlRight | KeyCode::Alt | KeyCode::AltGr | KeyCode::MetaLeft
        | KeyCode::MetaRight => true,
        _ => false,
    }
}

/// Whether a key types a letter or a digit.
pub fn alphanumeric_key(key: KeyCode) -> (r: bool)
    ensures
        r == is_alphanumeric_key(key),
{
    match key_to_char(key) {
        Some(c) => ('a' <= c && c <= 'z') || ('0' <= c && c <= '9'),
        None => false,
    }
}

/// Maps a key to the character it adds to the typing buffer.
pub fn key_to_char(key: KeyCode) -> (r: Option<char>)
    ensures
        r == key_char(key),
{
    match key {
        KeyCode::KeyA => Some('a'),
        KeyCode::KeyB => Some('b'),
        KeyCode::KeyC => Some('c'),
        KeyCode::KeyD => Some('d'),
        KeyCode::KeyE => Some('e'),
        KeyCode::KeyF => Some('f'),
        KeyCode::KeyG => Some('g'),
        KeyCode::KeyH => Some('h'),
        KeyCode::KeyI => Some('i'),
        KeyCode::KeyJ => Some('j'),
        KeyCode::KeyK => Some('k'),
        KeyCode::KeyL => Some('l'),
        KeyCode::KeyM => Some('m'),
        KeyCode::KeyN => Some('n'),
        KeyCode::KeyO => Some('o'),
        KeyCode::KeyP => Some('p'),
        KeyCode::KeyQ => Some('q'),
        KeyCode::KeyR => Some('r'),
        KeyCode::KeyS => Some('s'),
        KeyCode::KeyT => Some('t'),
        KeyCode::KeyU => Some('u'),
        KeyCode::KeyV => Some('v'),
        KeyCode::KeyW => Some('w'),
        KeyCode::KeyX => Some('x'),
        KeyCode::KeyY => Some('y'),
        KeyCode::KeyZ => Some('z'),
        KeyCode::Num0 => Some('0'),
        KeyCode::Num1 => Some('1'),
        KeyCode::Num2 => Some('2'),
        KeyCode::Num3 => Some('3'),
        KeyCode::Num4 => Some('4'),
        KeyCode::Num5 => Some('5'),
        KeyCode::Num6 => Some('6'),
        KeyCode::Num7 => Some('7'),
        KeyCode::Num8 => Some('8'),
        KeyCode::Num9 => Some('9'),
        KeyCode::Space => Some(' '),
        KeyCode::Dot => Some('.'),
        KeyCode::Comma => Some(','),
        KeyCode::SemiColon => Some(';'),
        KeyCode::Quote => Some('\''),
        KeyCode::Minus => Some('-'),
        KeyCode::Equal => Some('='),
        KeyCode::Slash => Some('/'),
        _ => None,
    }
}

} // verus!
