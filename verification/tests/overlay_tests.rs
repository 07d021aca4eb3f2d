use whisp_core::overlay::OverlayManager;

#[test]
fn shown_suggestion_is_accepted_once() {
    let mut m: OverlayManager<(i32, i32)> = OverlayManager::new();
    assert!(!m.is_visible());
    m.show_suggestion("Hello there".to_string(), Some((10, 20)));
    assert!(m.is_visible());
    assert_eq!(m.current_suggestion(), Some("Hello there"));
    assert_eq!(m.position(), Some(&(10, 20)));
    assert_eq!(m.accept(), Some("Hello there".to_string()));
    assert!(!m.is_visible());
    assert_eq!(m.accept(), None);
    assert_eq!(m.position(), Some(&(10, 20)));
}

#[test]
fn dismissed_suggestion_is_gone() {
    let mut m: OverlayManager<u8> = OverlayManager::new();
    m.show_suggestion("x".to_string(), None);
    m.dismiss();
    assert!(!m.is_visible());
    assert_eq!(m.current_suggestion(), None);
    assert_eq!(m.accept(), None);
    assert_eq!(m.position(), None);
}
