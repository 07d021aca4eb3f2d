use whisp_core::config::AppConfig;
use whisp_core::privacy::{AccessibleRole, Blocklist, PasswordFieldDetector, PrivacyGuard, SecureBuffer};

#[test]
fn blocklist_matches_case_insensitive_substring() {
    let b = Blocklist::new(vec!["1Password".to_string()]);
    assert!(b.is_blocked("1password 7"));
    assert!(b.is_blocked("1PASSWORD"));
    assert!(!b.is_blocked("Firefox"));
    assert!(!b.is_blocked(""));
}

#[test]
fn empty_blocklist_blocks_nothing() {
    let b = Blocklist::new(vec![]);
    assert!(!b.is_blocked("1Password"));
}

#[test]
fn added_app_is_blocked() {
    let mut b = Blocklist::new(vec![]);
    b.add("Signal".to_string());
    assert!(b.is_blocked("Signal"));
    assert!(b.is_blocked("signal desktop"));
}

#[test]
fn adding_twice_is_adding_once() {
    let mut b = Blocklist::new(vec![]);
    b.add("Signal".to_string());
    b.add("SIGNAL".to_string());
    b.remove("signal");
    assert!(!b.is_blocked("Signal"));
}

#[test]
fn remove_is_case_insensitive_and_keeps_others() {
    let mut b = Blocklist::new(vec!["Bitwarden".to_string(), "KeePassXC".to_string()]);
    b.remove("bitwarden");
    assert!(!b.is_blocked("Bitwarden"));
    assert!(b.is_blocked("KeePassXC"));
}

#[test]
fn remove_matches_whole_names_only() {
    let mut b = Blocklist::new(vec!["Bitwarden".to_string()]);
    b.remove("Bit");
    assert!(b.is_blocked("Bitwarden"));
}

#[test]
fn default_config_blocks_password_managers() {
    let guard = PrivacyGuard::new(AppConfig::default().privacy.blocked_apps);
    assert!(guard.should_pause("1Password", None));
    assert!(guard.should_pause("Bitwarden Desktop", None));
    assert!(guard.should_pause("keepassxc", None));
    assert!(!guard.should_pause("TextEdit", None));
}

#[test]
fn password_detector_recognises_password_roles() {
    let d = PasswordFieldDetector::new();
    assert!(d.is_password_field_focused(Some(AccessibleRole::SecureTextField)));
    assert!(d.is_password_field_focused(Some(AccessibleRole::PasswordText)));
    assert!(d.is_password_field_focused(Some(AccessibleRole::PasswordBox)));
    assert!(!d.is_password_field_focused(Some(AccessibleRole::Other)));
    assert!(!PasswordFieldDetector::default().is_password_field_focused(None));
}

#[test]
fn password_field_pauses_capture_in_any_app() {
    let guard = PrivacyGuard::new(vec![]);
    assert!(guard.should_pause("TextEdit", Some(AccessibleRole::PasswordBox)));
    assert!(!guard.should_pause("TextEdit", Some(AccessibleRole::Other)));
    assert!(!guard.should_pause("TextEdit", None));
}

#[test]
fn secure_buffer_reads_back_what_fits() {
    let mut b = SecureBuffer::new(16);
    assert!(b.is_empty());
    b.push_str("hello");
    b.push_str(" world");
    assert_eq!(b.as_str(), "hello world");
    assert_eq!(b.len(), 11);
    assert!(!b.is_empty());
}

#[test]
fn secure_buffer_keeps_the_newest_bytes() {
    let mut b = SecureBuffer::new(5);
    b.push_str("abcdefgh");
    assert_eq!(b.as_str(), "defgh");
    assert_eq!(b.len(), 5);
    b.push_str("ij");
    assert_eq!(b.as_str(), "fghij");
}

#[test]
fn secure_buffer_cut_multibyte_character_reads_empty() {
    let mut b = SecureBuffer::new(3);
    b.push_str("aé€");
    // "€" is three bytes, "é" two: the last three bytes are all of "€".
    assert_eq!(b.as_str(), "€");
    b.push_str("é");
    // The last byte of "€" and the two bytes of "é": not valid UTF-8.
    assert_eq!(b.len(), 3);
    assert_eq!(b.as_str(), "");
}

#[test]
fn secure_buffer_clear_empties() {
    let mut b = SecureBuffer::new(8);
    b.push_str("secret");
    b.clear();
    assert!(b.is_empty());
    assert_eq!(b.len(), 0);
    assert_eq!(b.as_str(), "");
    b.push_str("ok");
    assert_eq!(b.as_str(), "ok");
}

#[test]
fn secure_buffer_zero_capacity_keeps_nothing() {
    let mut b = SecureBuffer::new(0);
    b.push_str("abc");
    assert!(b.is_empty());
}

#[test]
fn secure_buffer_clone_is_independent() {
    let mut a = SecureBuffer::new(8);
    a.push_str("abc");
    let b = a.clone();
    a.clear();
    assert_eq!(b.as_str(), "abc");
    assert!(a.is_empty());
}
