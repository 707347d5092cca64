//! Interactive remapping of the pad controls.
//!
//! The preferences list each control with a capture button. Clicking a
//! control's button puts that control into recording mode (clicking it again
//! leaves it); the next key press is then bound to it. Only one control
//! records at a time. Escape cancels the recording; modifier keys are
//! consumed but never bound.
use vstd::prelude::*;

use crate::keys::{is_modifier, modifier_key, KEYVAL_ESCAPE};
use crate::settings::{effective_key, Control, Controls};

verus! {

/// What the capture buttons have to show after a click.
#[derive(PartialEq, Eq, Structural, Clone, Copy, Debug)]
pub enum Toggled {
    /// Recording stopped: every button shows its control's key again.
    Stopped,
    /// This control now records: its button asks for a key.
    Started(Control),
}

/// What became of a key press while the preferences are open.
#[derive(PartialEq, Eq, Structural, Clone, Copy, Debug)]
pub enum Captured {
    /// No control was recording; the key press goes on to the application.
    NotRecording,
    /// Escape: recording stopped, nothing bound.
    Cancelled,
    /// A modifier (or keyval 0): consumed, recording goes on.
    Ignored,
    /// The key was bound to this control; recording stopped.
    Bound(Control),
}

impl Captured {
    /// Whether the key press was used up here.
    pub fn consumed(&self) -> (b: bool)
        ensures
            b == !(*self is NotRecording),
    {
        !matches!(self, Captured::NotRecording)
    }

    /// Whether the buttons have to show their controls' keys again.
    pub fn needs_refresh(&self) -> (b: bool)
        ensures
            b == (*self is Cancelled || *self is Bound),
    {
        matches!(self, Captured::Cancelled | Captured::Bound(_))
    }
}

/// The control recording after a click on `control`'s button, and what the
/// buttons show.
pub open spec fn toggle_transition(recording: Option<Control>, control: Control) -> (
    Option<Control>,
    Toggled,
) {
    if recording == Some(control) {
        (None, Toggled::Stopped)
    } else {
        (Some(control), Toggled::Started(control))
    }
}

/// The control recording after the key `keyval` was pressed, the bindings
/// after it, and what became of the key press.
pub open spec fn capture_transition(recording: Option<Control>, stored: Seq<u32>, keyval: u32) -> (
    Option<Control>,
    Seq<u32>,
    Captured,
) {
    match recording {
        None => (None, stored, Captured::NotRecording),
        Some(c) => if keyval == KEYVAL_ESCAPE {
            (None, stored, Captured::Cancelled)
        } else if keyval == 0 || modifier_key(keyval) {
            (recording, stored, Captured::Ignored)
        } else {
            (None, stored.update(c.index(), keyval), Captured::Bound(c))
        },
    }
}

/// Which control, if any, records the next key press.
pub struct KeyCapture {
    recording: Option<Control>,
}

impl KeyCapture {
    /// The control that records the next key press.
    pub closed spec fn recording_spec(&self) -> Option<Control> {
        self.recording
    }

    /// No control recording.
    pub fn new() -> (k: KeyCapture)
        ensures
            k.recording_spec() is None,
    {
        KeyCapture { recording: None }
    }

    /// The control that records the next key press.
    pub fn recording(&self) -> (c: Option<Control>)
        ensures
            c == self.recording_spec(),
    {
        self.recording
    }

    /// A click on `control`'s capture button: it starts recording, or stops
    /// if it was the one recording.
    pub fn toggle_recording(&mut self, control: Control) -> (t: Toggled)
        ensures
            (final(self).recording_spec(), t) == toggle_transition(
                old(self).recording_spec(),
                control,
            ),
    {
        if self.recording == Some(control) {
            self.recording = None;
            Toggled::Stopped
        } else {
            self.recording = Some(control);
            Toggled::Started(control)
        }
    }

    /// A key press while the preferences are open: binds `keyval` to the
    /// recording control, if there is one.
    pub fn capture_key(&mut self, controls: &mut Controls, keyval: u32) -> (c: Captured)
        ensures
            (final(self).recording_spec(), final(controls)@, c) == capture_transition(
                old(self).recording_spec(),
                old(controls)@,
                keyval,
            ),
    {
        match self.recording {
            None => Captured::NotRecording,
            Some(control) => {
                if keyval == KEYVAL_ESCAPE {
                    self.recording = None;
                    Captured::Cancelled
                } else if keyval == 0 || is_modifier(keyval) {
                    Captured::Ignored
                } else {
                    controls.set_key(control, keyval);
                    self.recording = None;
                    Captured::Bound(control)
                }
            },
        }
    }
}

/// A key press binds nothing but to the recording control, and only that
/// control's key changes.
pub proof fn law_only_the_recording_control_is_bound(
    recording: Option<Control>,
    stored: Seq<u32>,
    keyval: u32,
)
    ensures
        capture_transition(recording, stored, keyval).1 == stored || (recording matches Some(c)
            && capture_transition(recording, stored, keyval).1 == stored.update(
            c.index(),
            keyval,
        )),
{
}

/// Modifier keys, keyval 0 and Escape are never bound; a modifier leaves the
/// control recording.
pub proof fn law_modifiers_are_never_bound(recording: Option<Control>, stored: Seq<u32>, keyval: u32)
    requires
        keyval == 0 || modifier_key(keyval) || keyval == KEYVAL_ESCAPE,
    ensures
        capture_transition(recording, stored, keyval).1 == stored,
        keyval != KEYVAL_ESCAPE ==> capture_transition(recording, stored, keyval).0 == recording,
{
}

/// A bound key is the key in force for its control, and recording stops.
pub proof fn law_bound_key_is_in_force(recording: Option<Control>, stored: Seq<u32>, keyval: u32)
    requires
        stored.len() == 10,
    ensures
        capture_transition(recording, stored, keyval).2 matches Captured::Bound(c) ==> {
            &&& effective_key(c, capture_transition(recording, stored, keyval).1[c.index()])
                == keyval
            &&& capture_transition(recording, stored, keyval).0 is None
        },
{
}

/// Without a recording control, key presses are left to the application
/// and change nothing.
pub proof fn law_idle_passes_keys_on(stored: Seq<u32>, keyval: u32)
    ensures
        capture_transition(None, stored, keyval) == (None::<Control>, stored, Captured::NotRecording),
{
}

/// Clicking the same capture button twice leaves no control recording.
pub proof fn law_second_click_stops(recording: Option<Control>, control: Control)
    ensures
        toggle_transition(toggle_transition(recording, control).0, control).0 is None
            || recording == Some(control),
        toggle_transition(Some(control), control) == (None::<Control>, Toggled::Stopped),
{
}

/// While a control records, every key other than Escape, keyval 0 and the
/// modifiers is bound to it, and recording stops.
pub proof fn law_recording_control_takes_any_plain_key(
    c: Control,
    stored: Seq<u32>,
    keyval: u32,
)
    requires
        keyval != KEYVAL_ESCAPE,
        keyval != 0,
        !modifier_key(keyval),
    ensures
        capture_transition(Some(c), stored, keyval) == (
            None::<Control>,
            stored.update(c.index(), keyval),
            Captured::Bound(c),
        ),
{
}

/// Escape, pressed while a control records, stops the recording and binds
/// nothing.
pub proof fn law_escape_cancels(c: Control, stored: Seq<u32>)
    ensures
        capture_transition(Some(c), stored, KEYVAL_ESCAPE) == (
            None::<Control>,
            stored,
            Captured::Cancelled,
        ),
{
}

/// A click on the button of a control that is not recording makes it the
/// recording control (and no other control records any more).
pub proof fn law_click_starts_recording(recording: Option<Control>, c: Control)
    requires
        recording != Some(c),
    ensures
        toggle_transition(recording, c) == (Some(c), Toggled::Started(c)),
{
}

} // verus!
