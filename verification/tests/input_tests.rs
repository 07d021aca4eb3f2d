use whisp_core::input::classifier::{window_expired, KeystrokeClassifier};
use whisp_core::input::{key_to_char, InputEvent, KeyCode};

fn is_active(e: &InputEvent) -> bool {
    matches!(e, InputEvent::TypingActive)
}

#[test]
fn keys_map_to_characters() {
    assert_eq!(key_to_char(KeyCode::KeyA), Some('a'));
    assert_eq!(key_to_char(KeyCode::KeyZ), Some('z'));
    assert_eq!(key_to_char(KeyCode::Num0), Some('0'));
    assert_eq!(key_to_char(KeyCode::Num9), Some('9'));
    assert_eq!(key_to_char(KeyCode::Space), Some(' '));
    assert_eq!(key_to_char(KeyCode::Quote), Some('\''));
    assert_eq!(key_to_char(KeyCode::Slash), Some('/'));
    assert_eq!(key_to_char(KeyCode::Other), None);
}

#[test]
fn third_text_key_in_window_is_typing() {
    let mut c = KeystrokeClassifier::new();
    assert!(!is_active(&c.classify_in_window(KeyCode::KeyH, false)));
    assert!(!is_active(&c.classify_in_window(KeyCode::KeyI, false)));
    assert!(is_active(&c.classify_in_window(KeyCode::Num7, false)));
    assert!(is_active(&c.classify_in_window(KeyCode::KeyX, false)));
    assert_eq!(c.key_count(), 4);
}

#[test]
fn space_and_punctuation_do_not_count() {
    let mut c = KeystrokeClassifier::new();
    assert!(!is_active(&c.classify_in_window(KeyCode::Space, false)));
    assert!(!is_active(&c.classify_in_window(KeyCode::Dot, false)));
    assert!(!is_active(&c.classify_in_window(KeyCode::Comma, false)));
    assert_eq!(c.key_count(), 0);
    assert_eq!(c.drain_buffer(), " .,");
}

#[test]
fn punctuation_between_letters_keeps_the_count() {
    let mut c = KeystrokeClassifier::new();
    c.classify_in_window(KeyCode::KeyH, false);
    c.classify_in_window(KeyCode::KeyI, false);
    assert!(!is_active(&c.classify_in_window(KeyCode::Space, false)));
    assert_eq!(c.key_count(), 2);
    assert!(is_active(&c.classify_in_window(KeyCode::KeyY, false)));
}

#[test]
fn keys_under_a_held_modifier_are_shortcuts() {
    let mut c = KeystrokeClassifier::new();
    assert!(!is_active(&c.classify_in_window(KeyCode::ControlLeft, false)));
    assert!(!is_active(&c.classify_in_window(KeyCode::KeyA, false)));
    assert!(!is_active(&c.classify_in_window(KeyCode::KeyB, false)));
    assert!(!is_active(&c.classify_in_window(KeyCode::KeyC, false)));
    assert_eq!(c.key_count(), 0);
    assert_eq!(c.drain_buffer(), "abc");
}

#[test]
fn typing_resumes_after_the_modifier_is_released() {
    let mut c = KeystrokeClassifier::new();
    c.classify_in_window(KeyCode::MetaLeft, false);
    c.classify_in_window(KeyCode::KeyC, false);
    c.release(KeyCode::MetaLeft);
    assert!(!is_active(&c.classify_in_window(KeyCode::KeyA, false)));
    assert!(!is_active(&c.classify_in_window(KeyCode::KeyB, false)));
    assert!(is_active(&c.classify_in_window(KeyCode::KeyC, false)));
    assert_eq!(c.drain_buffer(), "cabc");
}

#[test]
fn releasing_one_of_two_modifiers_keeps_shortcut_mode() {
    let mut c = KeystrokeClassifier::new();
    c.classify_in_window(KeyCode::ControlLeft, false);
    c.classify_in_window(KeyCode::Alt, false);
    c.release(KeyCode::ControlLeft);
    c.classify_in_window(KeyCode::KeyA, false);
    c.classify_in_window(KeyCode::KeyB, false);
    assert!(!is_active(&c.classify_in_window(KeyCode::KeyC, false)));
    c.release(KeyCode::Alt);
    c.classify_in_window(KeyCode::KeyA, false);
    c.classify_in_window(KeyCode::KeyB, false);
    assert!(is_active(&c.classify_in_window(KeyCode::KeyC, false)));
}

#[test]
fn special_key_resets_count() {
    let mut c = KeystrokeClassifier::new();
    c.classify_in_window(KeyCode::KeyA, false);
    c.classify_in_window(KeyCode::KeyB, false);
    assert!(matches!(c.classify_in_window(KeyCode::Other, false), InputEvent::NonTyping));
    assert_eq!(c.key_count(), 0);
    assert!(!is_active(&c.classify_in_window(KeyCode::KeyC, false)));
    assert_eq!(c.drain_buffer(), "abc");
}

#[test]
fn expired_window_starts_a_new_count() {
    let mut c = KeystrokeClassifier::new();
    c.classify_in_window(KeyCode::KeyA, false);
    c.classify_in_window(KeyCode::KeyB, false);
    assert!(!is_active(&c.classify_in_window(KeyCode::KeyC, true)));
    assert_eq!(c.key_count(), 1);
}

#[test]
fn classify_with_clock_counts_quick_typing() {
    let mut c = KeystrokeClassifier::new();
    c.classify(KeyCode::KeyA);
    c.classify(KeyCode::KeyB);
    assert!(is_active(&c.classify(KeyCode::KeyC)));
}

#[test]
fn buffer_keeps_last_200_characters() {
    let mut c = KeystrokeClassifier::default();
    for _ in 0..150 {
        c.classify_in_window(KeyCode::KeyA, false);
    }
    for _ in 0..100 {
        c.classify_in_window(KeyCode::KeyB, false);
    }
    let text = c.drain_buffer();
    assert_eq!(text.len(), 200);
    assert_eq!(&text[..100], "a".repeat(100));
    assert_eq!(&text[100..], "b".repeat(100));
}

#[test]
fn drain_empties_and_resets() {
    let mut c = KeystrokeClassifier::new();
    c.classify_in_window(KeyCode::KeyO, false);
    c.classify_in_window(KeyCode::KeyK, false);
    assert_eq!(c.drain_buffer(), "ok");
    assert_eq!(c.key_count(), 0);
    assert_eq!(c.drain_buffer(), "");
}

#[test]
fn input_event_carries_buffer() {
    let e = InputEvent::TypingPaused { buffer: "hi".to_string() };
    match e.clone() {
        InputEvent::TypingPaused { buffer } => assert_eq!(buffer, "hi"),
        _ => panic!("wrong variant"),
    }
}

#[test]
fn window_is_two_seconds() {
    assert!(!window_expired(0));
    assert!(!window_expired(2_000_000_000));
    assert!(window_expired(2_000_000_001));
}

#[test]
fn keys_within_two_seconds_build_up_to_typing() {
    let mut c = KeystrokeClassifier::new();
    assert!(!is_active(&c.classify_at(KeyCode::KeyA, 100_000_000)));
    assert!(!is_active(&c.classify_at(KeyCode::KeyB, 1_000_000_000)));
    assert!(is_active(&c.classify_at(KeyCode::KeyC, 2_000_000_000)));
    assert_eq!(c.key_count(), 3);
}

#[test]
fn a_key_after_two_seconds_starts_a_new_window() {
    let mut c = KeystrokeClassifier::new();
    c.classify_at(KeyCode::KeyA, 0);
    c.classify_at(KeyCode::KeyB, 500_000_000);
    assert!(!is_active(&c.classify_at(KeyCode::KeyC, 2_500_000_000)));
    assert_eq!(c.key_count(), 1);
    assert_eq!(c.drain_buffer(), "abc");
}
