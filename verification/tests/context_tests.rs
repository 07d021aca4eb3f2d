use whisp_core::context::debounce::{DebounceAction, DebounceEvent, DebounceState};
use whisp_core::context::screenshot::{CaptureTarget, ScreenCaptureError};
use whisp_core::context::{ContextEngine, ScreenCapture, TypingDebouncer};

#[test]
fn debouncer_emits_pause_after_silence() {
    let d = TypingDebouncer::new(1500);
    assert_eq!(d.delay_ms(), 1500);
    let (s, a) = d.start();
    assert_eq!((s, a), (DebounceState::Idle, DebounceAction::AwaitTyping));
    let (s, a) = d.step(s, DebounceEvent::Typed);
    assert_eq!(s, DebounceState::Waiting);
    assert_eq!(a, DebounceAction::AwaitTypingOrSilence { delay_ms: 1500 });
    let (s, a) = d.step(s, DebounceEvent::Typed);
    assert_eq!((s, a), (DebounceState::Waiting, DebounceAction::AwaitTypingOrSilence { delay_ms: 1500 }));
    let (s, a) = d.step(s, DebounceEvent::SilenceElapsed);
    assert_eq!((s, a), (DebounceState::Idle, DebounceAction::EmitPauseThenAwaitTyping));
}

#[test]
fn debouncer_stops_when_channel_closes() {
    let d = TypingDebouncer::new(10);
    assert_eq!(d.step(DebounceState::Idle, DebounceEvent::ChannelClosed), (DebounceState::Closed, DebounceAction::Stop));
    assert_eq!(d.step(DebounceState::Waiting, DebounceEvent::ChannelClosed), (DebounceState::Closed, DebounceAction::Stop));
    assert_eq!(d.step(DebounceState::Closed, DebounceEvent::Typed), (DebounceState::Closed, DebounceAction::Stop));
}

#[test]
fn debouncer_silence_without_typing_is_quiet() {
    let d = TypingDebouncer::new(10);
    assert_eq!(d.step(DebounceState::Idle, DebounceEvent::SilenceElapsed), (DebounceState::Idle, DebounceAction::AwaitTyping));
}

#[test]
fn empty_buffer_builds_nothing_and_takes_no_screenshot() {
    let mut e = ContextEngine::new(200, 1500);
    let mut called = false;
    assert!(e.build_context(|| { called = true; None }).is_none());
    assert!(!called);
    assert_eq!(e.suggestion_delay_ms(), 1500);
}

#[test]
fn build_context_takes_text_and_empties_buffer() {
    let mut e = ContextEngine::new(200, 1500);
    e.append_text("hello ");
    e.append_text("there");
    let p = e.build_context(|| Some(vec![1, 2, 3])).expect("package");
    assert_eq!(p.text, "hello there");
    assert_eq!(p.screenshot, Some(vec![1, 2, 3]));
    assert_eq!(p.app_name, "");
    assert_eq!(p.window_title, "");
    assert!(e.build_context(|| None).is_none());
}

#[test]
fn build_context_keeps_only_newest_text() {
    let mut e = ContextEngine::new(4, 0);
    e.append_text("abcdef");
    let p = e.build_context(|| None).expect("package");
    assert_eq!(p.text, "cdef");
    assert_eq!(p.screenshot, None);
}

#[test]
fn primary_monitor_is_first_reporting_primary() {
    let c = ScreenCapture::new();
    assert_eq!(c.primary_monitor(&vec![Some(false), None, Some(true), Some(true)]).ok(), Some(2));
    assert!(matches!(c.primary_monitor(&vec![None, Some(false)]), Err(ScreenCaptureError::NoMonitor)));
    assert!(matches!(c.primary_monitor(&vec![]), Err(ScreenCaptureError::NoMonitor)));
}

#[test]
fn frame_is_encoded_as_jpeg() {
    let c = ScreenCapture::new();
    let rgba = vec![200u8; 4 * 32 * 16];
    let jpeg = c.encode_frame(32, 16, rgba).ok().expect("encoded");
    assert!(jpeg.len() > 4);
    assert_eq!(&jpeg[..2], &[0xFF, 0xD8]);
    assert_eq!(&jpeg[jpeg.len() - 2..], &[0xFF, 0xD9]);
    assert_ne!(jpeg, vec![200u8; 4 * 32 * 16]);
}

#[test]
fn capture_error_messages() {
    assert_eq!(ScreenCaptureError::NoMonitor.message(), "No primary monitor found");
    assert_eq!(ScreenCaptureError::CaptureError("x".to_string()).message(), "Screen capture failed: x");
    assert_eq!(ScreenCaptureError::EncodeError("y".to_string()).message(), "Image encoding failed: y");
    let e = ScreenCaptureError::enumeration_failed("no display");
    assert_eq!(e.message(), "Screen capture failed: Failed to enumerate monitors: no display");
}

#[test]
fn focused_window_is_captured_before_a_monitor() {
    let c = ScreenCapture::new();
    let t = c.capture_target(&vec![Some(false), None, Some(true)], &vec![Some(true)]).ok();
    assert_eq!(t, Some(CaptureTarget::Window(2)));
}

#[test]
fn primary_monitor_is_captured_when_no_window_has_focus() {
    let c = ScreenCapture::new();
    let t = c.capture_target(&vec![Some(false), None], &vec![Some(false), Some(true)]).ok();
    assert_eq!(t, Some(CaptureTarget::Monitor(1)));
    let t = c.capture_target(&vec![], &vec![Some(true)]).ok();
    assert_eq!(t, Some(CaptureTarget::Monitor(0)));
}

#[test]
fn nothing_to_capture_is_no_monitor() {
    let c = ScreenCapture::new();
    assert!(matches!(c.capture_target(&vec![None], &vec![Some(false)]), Err(ScreenCaptureError::NoMonitor)));
    assert!(matches!(c.capture_target(&vec![], &vec![]), Err(ScreenCaptureError::NoMonitor)));
}

#[test]
fn wide_frame_is_scaled_to_the_box_width() {
    let c = ScreenCapture::new();
    let rgba = vec![90u8; 4 * 1600 * 400];
    let jpeg = c.encode_frame(1600, 400, rgba).ok().expect("encoded");
    let img = image::load_from_memory_with_format(&jpeg, image::ImageFormat::Jpeg).expect("decodes");
    assert_eq!((img.width(), img.height()), (1280, 320));
}

#[test]
fn tall_frame_is_scaled_to_the_box_height() {
    let c = ScreenCapture::new();
    let rgba = vec![10u8; 4 * 300 * 1440];
    let jpeg = c.encode_frame(300, 1440, rgba).ok().expect("encoded");
    let img = image::load_from_memory_with_format(&jpeg, image::ImageFormat::Jpeg).expect("decodes");
    assert_eq!((img.width(), img.height()), (150, 720));
}

#[test]
fn small_frame_is_scaled_up_to_fit() {
    let c = ScreenCapture::new();
    let rgba = vec![255u8; 4 * 64 * 36];
    let jpeg = c.encode_frame(64, 36, rgba).ok().expect("encoded");
    let img = image::load_from_memory_with_format(&jpeg, image::ImageFormat::Jpeg).expect("decodes");
    assert_eq!((img.width(), img.height()), (1280, 720));
}
