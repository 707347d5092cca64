use rmgba::keys::{KEYVAL_ESCAPE, KEYVAL_SHIFT_L, KEYVAL_X};
use rmgba::preferences::{Captured, KeyCapture, Toggled};
use rmgba::settings::{Control, Controls};

#[test]
fn click_starts_and_second_click_stops() {
    let mut k = KeyCapture::new();
    assert_eq!(k.recording(), None);
    assert_eq!(k.toggle_recording(Control::A), Toggled::Started(Control::A));
    assert_eq!(k.recording(), Some(Control::A));
    assert_eq!(k.toggle_recording(Control::A), Toggled::Stopped);
    assert_eq!(k.recording(), None);
}

#[test]
fn only_one_control_records() {
    let mut k = KeyCapture::new();
    k.toggle_recording(Control::A);
    assert_eq!(k.toggle_recording(Control::B), Toggled::Started(Control::B));
    assert_eq!(k.recording(), Some(Control::B));
}

#[test]
fn keys_pass_through_when_idle() {
    let mut k = KeyCapture::new();
    let mut controls = Controls::new();
    let c = k.capture_key(&mut controls, 0x0071);
    assert_eq!(c, Captured::NotRecording);
    assert!(!c.consumed());
    assert!(!c.needs_refresh());
    assert_eq!(controls.key_for(Control::A), KEYVAL_X);
}

#[test]
fn escape_cancels() {
    let mut k = KeyCapture::new();
    let mut controls = Controls::new();
    k.toggle_recording(Control::Start);
    let c = k.capture_key(&mut controls, KEYVAL_ESCAPE);
    assert_eq!(c, Captured::Cancelled);
    assert!(c.consumed());
    assert!(c.needs_refresh());
    assert_eq!(k.recording(), None);
    assert_eq!(controls.key_for(Control::Start), Control::Start.default_key());
}

#[test]
fn modifiers_and_zero_are_swallowed() {
    let mut k = KeyCapture::new();
    let mut controls = Controls::new();
    k.toggle_recording(Control::L);
    let c = k.capture_key(&mut controls, KEYVAL_SHIFT_L);
    assert_eq!(c, Captured::Ignored);
    assert!(c.consumed());
    assert!(!c.needs_refresh());
    assert_eq!(k.capture_key(&mut controls, 0), Captured::Ignored);
    assert_eq!(k.recording(), Some(Control::L));
    assert_eq!(controls.key_for(Control::L), Control::L.default_key());
}

#[test]
fn key_is_bound_to_recording_control() {
    let mut k = KeyCapture::new();
    let mut controls = Controls::new();
    k.toggle_recording(Control::R);
    let c = k.capture_key(&mut controls, 0x0071);
    assert_eq!(c, Captured::Bound(Control::R));
    assert!(c.consumed());
    assert!(c.needs_refresh());
    assert_eq!(k.recording(), None);
    assert_eq!(controls.key_for(Control::R), 0x0071);
    assert_eq!(controls.key_for(Control::L), Control::L.default_key());
}
