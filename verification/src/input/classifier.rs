//! Tells meaningful typing from shortcuts and navigation.

use vstd::prelude::*;
use std::time::Instant;
use super::{alphanumeric_key, is_alphanumeric_key, is_shortcut_modifier, key_char, key_to_char, shortcut_modifier, InputEvent, KeyCode};
use crate::text::{drain_front, string_of};

verus! {

#[verifier::external_type_specification]
#[verifier::external_body]
pub struct ExInstant(std::time::Instant);

/// Calls `Instant::now`. Nothing is claimed of the instant returned.
#[verifier::external_body]
fn instant_now() -> (r: Instant) {
    Instant::now()
}

/// Calls `Instant::elapsed` and converts the duration to nanoseconds.
/// Nothing is claimed of the value: it depends on the clock.
#[verifier::external_body]
fn nanos_since(start: &Instant) -> (r: u128) {
    start.elapsed().as_nanos()
}

/// Length of the typing window, in nanoseconds.
pub const TYPING_WINDOW_NANOS: u128 = 2_000_000_000;

/// Most characters the typing buffer keeps.
pub const MAX_TYPED_CHARS: usize = 200;

/// Letters and digits that must be typed in one window to count as
/// meaningful typing.
pub const TYPING_KEY_THRESHOLD: usize = 3;

/// Which shortcut modifiers are held down.
#[derive(Debug, Clone, Copy, PartialEq, Eq, Structural)]
pub struct HeldModifiers {
    pub control_left: bool,
    pub control_right: bool,
    pub alt: bool,
    pub alt_gr: bool,
    pub meta_left: bool,
    pub meta_right: bool,
}

/// No modifier held.
pub open spec fn none_held() -> HeldModifiers {
    HeldModifiers {
        control_left: false,
        control_right: false,
        alt: false,
        alt_gr: false,
        meta_left: false,
        meta_right: false,
    }
}

/// Whether any shortcut modifier is held.
pub open spec fn any_held(m: HeldModifiers) -> bool {
    m.control_left || m.control_right || m.alt || m.alt_gr || m.meta_left || m.meta_right
}

/// The held modifiers after `key` goes down (`down`) or up; keys that are not
/// shortcut modifiers change nothing.
pub open spec fn with_key(m: HeldModifiers, key: KeyCode, down: bool) -> HeldModifiers {
    match key {
        KeyCode::ControlLeft => HeldModifiers { control_left: down, ..m },
        KeyCode::ControlRight => HeldModifiers { control_right: down, ..m },
        KeyCode::Alt => HeldModifiers { alt: down, ..m },
        KeyCode::AltGr => HeldModifiers { alt_gr: down, ..m },
        KeyCode::MetaLeft => HeldModifiers { meta_left: down, ..m },
        KeyCode::MetaRight => HeldModifiers { meta_right: down, ..m },
        _ => m,
    }
}

fn set_key(m: HeldModifiers, key: KeyCode, down: bool) -> (r: HeldModifiers)
    ensures
        r == with_key(m, key, down),
{
    match key {
        KeyCode::ControlLeft => HeldModifiers { control_left: down, ..m },
        KeyCode::ControlRight => HeldModifiers { control_right: down, ..m },
        KeyCode::Alt => HeldModifiers { alt: down, ..m },
        KeyCode::AltGr => HeldModifiers { alt_gr: down, ..m },
        KeyCode::MetaLeft => HeldModifiers { meta_left: down, ..m },
        KeyCode::MetaRight => HeldModifiers { meta_right: down, ..m },
        _ => m,
    }
}

fn held(m: HeldModifiers) -> (r: bool)
    ensures
        r == any_held(m),
{
    m.control_left || m.control_right || m.alt || m.alt_gr || m.meta_left || m.meta_right
}

/// The last `max` characters of `s`.
pub open spec fn keep_last_chars(s: Seq<char>, max: nat) -> Seq<char> {
    if s.len() > max {
        s.skip(s.len() - max)
    } else {
        s
    }
}

/// The key count a key press starts from: zero when the window has expired.
pub open spec fn count_base(count: nat, window_expired: bool) -> nat {
    if window_expired {
        0
    } else {
        count
    }
}

/// The count of letters and digits after a key press. A shortcut modifier,
/// any key pressed while one is held, and any key that types nothing reset
/// it; a letter or digit adds one; space and punctuation leave it.
pub open spec fn count_after(count: nat, window_expired: bool, modifier_held: bool, key: KeyCode) -> nat {
    if modifier_held || is_shortcut_modifier(key) || key_char(key) is None {
        0
    } else if is_alphanumeric_key(key) {
        count_base(count, window_expired) + 1
    } else {
        count_base(count, window_expired)
    }
}

/// The typing buffer after a key press: the key's character, if it types
/// one, is appended, keeping the last 200. Held modifiers do not matter
/// here: they decide what counts as typing, not what is buffered.
pub open spec fn typed_after(typed: Seq<char>, key: KeyCode) -> Seq<char> {
    match key_char(key) {
        Some(c) => keep_last_chars(typed.push(c), MAX_TYPED_CHARS as nat),
        None => typed,
    }
}

/// Whether the typing window has expired after `elapsed` nanoseconds: more
/// than two seconds since it opened.
pub open spec fn window_expired_after(elapsed: u128) -> bool {
    elapsed > TYPING_WINDOW_NANOS
}

/// Whether the typing window has expired after `elapsed` nanoseconds.
pub fn window_expired(elapsed: u128) -> (r: bool)
    ensures
        r == window_expired_after(elapsed),
{
    elapsed > TYPING_WINDOW_NANOS
}

/// Whether a key press is classified as active typing: no shortcut modifier
/// is held, the key types a character, and the letters and digits counted in
/// the window reach the threshold.
pub open spec fn typing_active_after(count: nat, window_expired: bool, modifier_held: bool, key: KeyCode) -> bool {
    &&& !modifier_held
    &&& key_char(key) is Some
    &&& count_after(count, window_expired, modifier_held, key) >= TYPING_KEY_THRESHOLD
}

/// Classifies keystrokes as meaningful typing vs shortcuts/navigation.
///
/// "Meaningful typing" = 3 or more letters or digits within 2 seconds,
/// without a shortcut modifier held and without a special key in between.
pub struct KeystrokeClassifier {
    buffer: Vec<char>,
    key_count: usize,
    window_start: Instant,
    modifiers: HeldModifiers,
}

impl KeystrokeClassifier {
    #[verifier::type_invariant]
    spec fn buffer_capped(self) -> bool {
        self.buffer@.len() <= MAX_TYPED_CHARS
    }

    /// The buffered characters, oldest first.
    pub closed spec fn typed(&self) -> Seq<char> {
        self.buffer@
    }

    /// Letters and digits counted in the current window.
    pub closed spec fn count(&self) -> nat {
        self.key_count as nat
    }

    /// The shortcut modifiers held down.
    pub closed spec fn held_modifiers(&self) -> HeldModifiers {
        self.modifiers
    }

    pub fn new() -> (c: Self)
        ensures
            c.typed() == Seq::<char>::empty(),
            c.count() == 0,
            c.held_modifiers() == none_held(),
    {
        KeystrokeClassifier {
            buffer: Vec::new(),
            key_count: 0,
            window_start: instant_now(),
            modifiers: HeldModifiers {
                control_left: false,
                control_right: false,
                alt: false,
                alt_gr: false,
                meta_left: false,
                meta_right: false,
            },
        }
    }

    /// The number of letters and digits counted in the current window.
    pub fn key_count(&self) -> (r: usize)
        ensures
            r == self.count(),
    {
        self.key_count
    }

    /// The instant the current typing window opened.
    pub closed spec fn window_opened(&self) -> Instant {
        self.window_start
    }

    /// Nanoseconds since the current typing window opened, read from the
    /// clock. Nothing is known of the value: it depends on the clock.
    pub fn elapsed_in_window(&self) -> (r: u128) {
        nanos_since(&self.window_start)
    }

    /// Classifies one key press, reading the clock: the key is classified as
    /// `classify_at` does with the time since the window opened.
    pub fn classify(&mut self, key: KeyCode) -> (r: InputEvent)
        requires
            old(self).count() < usize::MAX,
        ensures
            final(self).held_modifiers() == with_key(old(self).held_modifiers(), key, true),
            final(self).typed() == typed_after(old(self).typed(), key),
            exists|elapsed: u128|
                {
                    &&& final(self).count() == count_after(old(self).count(), window_expired_after(elapsed), any_held(old(self).held_modifiers()), key)
                    &&& (r is TypingActive) == typing_active_after(old(self).count(), window_expired_after(elapsed), any_held(old(self).held_modifiers()), key)
                    &&& !window_expired_after(elapsed) ==> final(self).window_opened() == old(self).window_opened()
                },
            r is TypingActive || r is NonTyping,
    {
        let elapsed = self.elapsed_in_window();
        self.classify_at(key, elapsed)
    }

    /// Classifies one key press `elapsed` nanoseconds after the current
    /// window opened. When more than two seconds have passed, the count
    /// starts again from zero in a new window opened now; otherwise the
    /// window stays.
    pub fn classify_at(&mut self, key: KeyCode, elapsed: u128) -> (r: InputEvent)
        requires
            old(self).count() < usize::MAX,
        ensures
            final(self).held_modifiers() == with_key(old(self).held_modifiers(), key, true),
            final(self).typed() == typed_after(old(self).typed(), key),
            final(self).count() == count_after(old(self).count(), window_expired_after(elapsed), any_held(old(self).held_modifiers()), key),
            (r is TypingActive) == typing_active_after(old(self).count(), window_expired_after(elapsed), any_held(old(self).held_modifiers()), key),
            !window_expired_after(elapsed) ==> final(self).window_opened() == old(self).window_opened(),
            r is TypingActive || r is NonTyping,
    {
        proof {
            use_type_invariant(&*self);
        }
        let expired = window_expired(elapsed);
        if expired {
            self.window_start = instant_now();
        }
        self.classify_in_window(key, expired)
    }

    /// Classifies one key press, given whether the typing window has expired.
    pub fn classify_in_window(&mut self, key: KeyCode, window_expired: bool) -> (r: InputEvent)
        requires
            old(self).count() < usize::MAX,
        ensures
            final(self).held_modifiers() == with_key(old(self).held_modifiers(), key, true),
            final(self).typed() == typed_after(old(self).typed(), key),
            final(self).count() == count_after(old(self).count(), window_expired, any_held(old(self).held_modifiers()), key),
            (r is TypingActive) == typing_active_after(old(self).count(), window_expired, any_held(old(self).held_modifiers()), key),
            final(self).window_opened() == old(self).window_opened(),
            r is TypingActive || r is NonTyping,
    {
        proof {
            use_type_invariant(&*self);
        }
        if window_expired {
            self.key_count = 0;
        }
        let modifier_held = held(self.modifiers);
        if shortcut_modifier(key) {
            self.modifiers = set_key(self.modifiers, key, true);
            self.key_count = 0;
            return InputEvent::NonTyping;
        }
        match key_to_char(key) {
            Some(ch) => {
                let mut buffer: Vec<char> = Vec::new();
                std::mem::swap(&mut buffer, &mut self.buffer);
                buffer.push(ch);
                if buffer.len() > MAX_TYPED_CHARS {
                    let drain_to = buffer.len() - MAX_TYPED_CHARS;
                    drain_front(&mut buffer, drain_to);
                }
                self.buffer = buffer;
                if modifier_held {
                    self.key_count = 0;
                } else if alphanumeric_key(key) {
                    self.key_count = self.key_count + 1;
                }
                if !modifier_held && self.key_count >= TYPING_KEY_THRESHOLD {
                    InputEvent::TypingActive
                } else {
                    InputEvent::NonTyping
                }
            },
            None => {
                self.key_count = 0;
                InputEvent::NonTyping
            },
        }
    }

    /// Records a key being released: a shortcut modifier stops being held.
    pub fn release(&mut self, key: KeyCode)
        ensures
            final(self).held_modifiers() == with_key(old(self).held_modifiers(), key, false),
            final(self).typed() == old(self).typed(),
            final(self).count() == old(self).count(),
    {
        proof {
            use_type_invariant(&*self);
        }
        self.modifiers = set_key(self.modifiers, key, false);
    }

    /// Returns the buffered text and empties the buffer (called when typing
    /// pauses). The key count starts again from zero.
    pub fn drain_buffer(&mut self) -> (r: String)
        ensures
            r@ == old(self).typed(),
            final(self).typed() == Seq::<char>::empty(),
            final(self).count() == 0,
            final(self).held_modifiers() == old(self).held_modifiers(),
    {
        let text = string_of(&self.buffer);
        self.buffer = Vec::new();
        self.key_count = 0;
        text
    }
}

impl Default for KeystrokeClassifier {
    fn default() -> (c: Self)
        ensures
            c.typed() == Seq::<char>::empty(),
            c.count() == 0,
            c.held_modifiers() == none_held(),
    {
        Self::new()
    }
}

/// The typing buffer never holds more than its limit.
pub proof fn lemma_typed_stays_capped(typed: Seq<char>, key: KeyCode)
    requires
        typed.len() <= MAX_TYPED_CHARS,
    ensures
        typed_after(typed, key).len() <= MAX_TYPED_CHARS,
{
}

/// A special key or a shortcut modifier never counts as typing and resets the count.
pub proof fn lemma_special_key_resets(count: nat, window_expired: bool, modifier_held: bool, key: KeyCode)
    requires
        key_char(key) is None,
    ensures
        !typing_active_after(count, window_expired, modifier_held, key),
        count_after(count, window_expired, modifier_held, key) == 0,
{
}

/// While a shortcut modifier is held, no key counts as typing.
pub proof fn lemma_held_modifier_is_never_typing(count: nat, window_expired: bool, key: KeyCode)
    ensures
        !typing_active_after(count, window_expired, true, key),
        count_after(count, window_expired, true, key) == 0,
{
}

/// A modifier pressed and released again leaves no modifier held.
pub proof fn lemma_press_release_restores(key: KeyCode)
    ensures
        !any_held(with_key(with_key(none_held(), key, true), key, false)),
{
}

/// Starting from a fresh count with no modifier held, three letters or
/// digits inside one window are classified as: not typing, not typing, typing.
pub proof fn lemma_third_key_in_window_is_typing(k1: KeyCode, k2: KeyCode, k3: KeyCode)
    requires
        is_alphanumeric_key(k1),
        is_alphanumeric_key(k2),
        is_alphanumeric_key(k3),
    ensures
        !typing_active_after(0, false, false, k1),
        !typing_active_after(count_after(0, false, false, k1), false, false, k2),
        typing_active_after(count_after(count_after(0, false, false, k1), false, false, k2), false, false, k3),
{
}

/// Space and punctuation alone are never meaningful typing: from a fresh
/// count they leave it at zero.
pub proof fn lemma_punctuation_does_not_count(count: nat, window_expired: bool, key: KeyCode)
    requires
        key_char(key) is Some,
        !is_alphanumeric_key(key),
    ensures
        count_after(count, window_expired, false, key) == count_base(count, window_expired),
        count_after(0, window_expired, false, key) == 0,
        !typing_active_after(0, window_expired, false, key),
{
}

/// A letter or digit pressed after the window expired counts as the first of
/// a new window.
pub proof fn lemma_expired_window_starts_over(count: nat, key: KeyCode)
    requires
        is_alphanumeric_key(key),
    ensures
        count_after(count, true, false, key) == 1,
        !typing_active_after(count, true, false, key),
{
}

/// The window is two seconds: a letter or digit pressed at most two seconds
/// after the window opened adds to the count, and one pressed later starts a
/// new count of one.
pub proof fn lemma_window_is_two_seconds(count: nat, elapsed: u128, key: KeyCode)
    requires
        is_alphanumeric_key(key),
    ensures
        elapsed <= 2_000_000_000 ==> count_after(count, window_expired_after(elapsed), false, key) == count + 1,
        elapsed > 2_000_000_000 ==> count_after(count, window_expired_after(elapsed), false, key) == 1,
{
}

/// Once three letters or digits are counted in an open window, every key that
/// types a character (space and punctuation included) is active typing while
/// no shortcut modifier is held; a key that types nothing, or any key under a
/// held modifier, never is.
pub proof fn lemma_typing_stays_active(count: nat, key: KeyCode)
    ensures
        count >= 3 && key_char(key) is Some ==> typing_active_after(count, false, false, key),
        key_char(key) is None ==> !typing_active_after(count, false, false, key),
        !typing_active_after(count, false, true, key),
{
}

/// Every typed character is kept, in order: below the limit it is appended
/// as is; at the limit the oldest character makes room for it; a key that
/// types nothing leaves the buffer alone.
pub proof fn lemma_typed_keeps_every_character(typed: Seq<char>, key: KeyCode)
    requires
        typed.len() <= MAX_TYPED_CHARS,
    ensures
        key_char(key) is None ==> typed_after(typed, key) == typed,
        key_char(key) is Some && typed.len() < MAX_TYPED_CHARS ==> typed_after(typed, key) == typed.push(key_char(key)->0),
        key_char(key) is Some && typed.len() == MAX_TYPED_CHARS ==> typed_after(typed, key) == typed.drop_first().push(key_char(key)->0),
{
    if key_char(key) is Some && typed.len() == MAX_TYPED_CHARS {
        assert(typed.push(key_char(key)->0).skip(1) =~= typed.drop_first().push(key_char(key)->0));
    }
}

/// Shortcut modifiers and special keys type nothing; letters and digits do.
pub proof fn lemma_which_keys_type(key: KeyCode)
    ensures
        is_shortcut_modifier(key) || key is Other ==> key_char(key) is None,
        is_alphanumeric_key(key) ==> key_char(key) is Some,
{
}

} // verus!
