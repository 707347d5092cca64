//! The keyboard mapping of the emulated pad.
//!
//! Every pad control (A, B, Start, Select, the D-pad and the two shoulder
//! buttons) is bound to a keyboard key. The caller keeps the bindings in the
//! application's settings (keys `key-*`); a stored value of 0 means "use the
//! built-in default", which is the classic layout.
use vstd::prelude::*;

use crate::keys::{
    classic_bit, hold, let_go, KEYVAL_A, KEYVAL_BACKSPACE, KEYVAL_DOWN, KEYVAL_KP_ENTER, KEYVAL_LEFT,
    KEYVAL_RETURN, KEYVAL_RIGHT, KEYVAL_S, KEYVAL_UP, KEYVAL_X, KEYVAL_Z, KEY_A, KEY_B, KEY_DOWN,
    KEY_L, KEY_LEFT, KEY_R, KEY_RIGHT, KEY_SELECT, KEY_START, KEY_UP,
};

verus! {

/// A single pad control.
#[derive(Clone, Copy, Debug, PartialEq, Eq, Structural, Hash)]
pub enum Control {
    A,
    B,
    Select,
    Start,
    Up,
    Down,
    Left,
    Right,
    L,
    R,
}

/// The number of pad controls.
pub const CONTROL_COUNT: usize = 10;

/// The control at position `i` of the order A, B, Select, Start, Up, Down,
/// Left, Right, L, R.
pub open spec fn control_at_spec(i: int) -> Control {
    if i == 0 {
        Control::A
    } else if i == 1 {
        Control::B
    } else if i == 2 {
        Control::Select
    } else if i == 3 {
        Control::Start
    } else if i == 4 {
        Control::Up
    } else if i == 5 {
        Control::Down
    } else if i == 6 {
        Control::Left
    } else if i == 7 {
        Control::Right
    } else if i == 8 {
        Control::L
    } else {
        Control::R
    }
}

/// The control at position `i` (below `CONTROL_COUNT`) of the order A, B,
/// Select, Start, Up, Down, Left, Right, L, R.
pub fn control_at(i: usize) -> (c: Control)
    requires
        i < CONTROL_COUNT,
    ensures
        c == control_at_spec(i as int),
        c.index() == i,
{
    if i == 0 {
        Control::A
    } else if i == 1 {
        Control::B
    } else if i == 2 {
        Control::Select
    } else if i == 3 {
        Control::Start
    } else if i == 4 {
        Control::Up
    } else if i == 5 {
        Control::Down
    } else if i == 6 {
        Control::Left
    } else if i == 7 {
        Control::Right
    } else if i == 8 {
        Control::L
    } else {
        Control::R
    }
}

impl Control {
    /// The position of this control in the order A, B, Select, Start, Up,
    /// Down, Left, Right, L, R.
    pub open spec fn index(self) -> int {
        match self {
            Control::A => 0,
            Control::B => 1,
            Control::Select => 2,
            Control::Start => 3,
            Control::Up => 4,
            Control::Down => 5,
            Control::Left => 6,
            Control::Right => 7,
            Control::L => 8,
            Control::R => 9,
        }
    }

    /// The settings key under which this control's keyval is kept.
    pub open spec fn setting_key_spec(self) -> Seq<char> {
        match self {
            Control::A => "key-a"@,
            Control::B => "key-b"@,
            Control::Select => "key-select"@,
            Control::Start => "key-start"@,
            Control::Up => "key-up"@,
            Control::Down => "key-down"@,
            Control::Left => "key-left"@,
            Control::Right => "key-right"@,
            Control::L => "key-l"@,
            Control::R => "key-r"@,
        }
    }

    /// The settings key under which this control's keyval is kept.
    pub fn setting_key(self) -> (key: &'static str)
        ensures
            key@ == self.setting_key_spec(),
    {
        match self {
            Control::A => "key-a",
            Control::B => "key-b",
            Control::Select => "key-select",
            Control::Start => "key-start",
            Control::Up => "key-up",
            Control::Down => "key-down",
            Control::Left => "key-left",
            Control::Right => "key-right",
            Control::L => "key-l",
            Control::R => "key-r",
        }
    }

    /// The pad bit this control drives.
    pub open spec fn bit_spec(self) -> u32 {
        match self {
            Control::A => KEY_A,
            Control::B => KEY_B,
            Control::Select => KEY_SELECT,
            Control::Start => KEY_START,
            Control::Up => KEY_UP,
            Control::Down => KEY_DOWN,
            Control::Left => KEY_LEFT,
            Control::Right => KEY_RIGHT,
            Control::L => KEY_L,
            Control::R => KEY_R,
        }
    }

    /// The pad bit this control drives.
    pub fn bit(self) -> (b: u32)
        ensures
            b == self.bit_spec(),
    {
        match self {
            Control::A => KEY_A,
            Control::B => KEY_B,
            Control::Select => KEY_SELECT,
            Control::Start => KEY_START,
            Control::Up => KEY_UP,
            Control::Down => KEY_DOWN,
            Control::Left => KEY_LEFT,
            Control::Right => KEY_RIGHT,
            Control::L => KEY_L,
            Control::R => KEY_R,
        }
    }

    /// The name shown for this control in the preferences.
    pub open spec fn label_spec(self) -> Seq<char> {
        match self {
            Control::A => "A"@,
            Control::B => "B"@,
            Control::Select => "Select"@,
            Control::Start => "Start"@,
            Control::Up => "D-Pad Up"@,
            Control::Down => "D-Pad Down"@,
            Control::Left => "D-Pad Left"@,
            Control::Right => "D-Pad Right"@,
            Control::L => "L (Shoulder)"@,
            Control::R => "R (Shoulder)"@,
        }
    }

    /// The name shown for this control in the preferences.
    pub fn label(self) -> (l: &'static str)
        ensures
            l@ == self.label_spec(),
    {
        match self {
            Control::A => "A",
            Control::B => "B",
            Control::Select => "Select",
            Control::Start => "Start",
            Control::Up => "D-Pad Up",
            Control::Down => "D-Pad Down",
            Control::Left => "D-Pad Left",
            Control::Right => "D-Pad Right",
            Control::L => "L (Shoulder)",
            Control::R => "R (Shoulder)",
        }
    }

    /// The keyval bound to this control when nothing is stored for it.
    pub open spec fn default_key_spec(self) -> u32 {
        match self {
            Control::A => KEYVAL_X,
            Control::B => KEYVAL_Z,
            Control::Select => KEYVAL_BACKSPACE,
            Control::Start => KEYVAL_RETURN,
            Control::Up => KEYVAL_UP,
            Control::Down => KEYVAL_DOWN,
            Control::Left => KEYVAL_LEFT,
            Control::Right => KEYVAL_RIGHT,
            Control::L => KEYVAL_A,
            Control::R => KEYVAL_S,
        }
    }

    /// The keyval bound to this control when nothing is stored for it.
    pub fn default_key(self) -> (k: u32)
        ensures
            k == self.default_key_spec(),
    {
        match self {
            Control::A => KEYVAL_X,
            Control::B => KEYVAL_Z,
            Control::Select => KEYVAL_BACKSPACE,
            Control::Start => KEYVAL_RETURN,
            Control::Up => KEYVAL_UP,
            Control::Down => KEYVAL_DOWN,
            Control::Left => KEYVAL_LEFT,
            Control::Right => KEYVAL_RIGHT,
            Control::L => KEYVAL_A,
            Control::R => KEYVAL_S,
        }
    }
}

/// The keyval in force for `c` when `stored` is what is kept for it.
pub open spec fn effective_key(c: Control, stored: u32) -> u32 {
    if stored == 0 {
        c.default_key_spec()
    } else {
        stored
    }
}

/// The first control, from position `from` on, whose keyval in force under
/// `stored` is `keyval`.
pub open spec fn first_bound_from(stored: Seq<u32>, keyval: u32, from: int) -> Option<Control>
    decreases CONTROL_COUNT - from,
{
    if from < 0 || from >= CONTROL_COUNT {
        None
    } else if effective_key(control_at_spec(from), stored[from]) == keyval {
        Some(control_at_spec(from))
    } else {
        first_bound_from(stored, keyval, from + 1)
    }
}

/// The pad bit that `keyval` drives under the stored bindings `stored`.
pub open spec fn bound_bit(stored: Seq<u32>, keyval: u32) -> Option<u32> {
    match first_bound_from(stored, keyval, 0) {
        Some(c) => Some(c.bit_spec()),
        None => None,
    }
}

/// The stored key bindings, one keyval per control in the order of
/// `control_at` (0 for "the default").
pub struct Controls {
    stored: [u32; 10],
}

impl View for Controls {
    type V = Seq<u32>;

    closed spec fn view(&self) -> Seq<u32> {
        self.stored@
    }
}

impl Controls {
    /// Bindings with nothing stored: every control has its default key.
    pub fn new() -> (controls: Controls)
        ensures
            controls@ == Seq::new(CONTROL_COUNT as nat, |i: int| 0u32),
    {
        let controls = Controls { stored: [0, 0, 0, 0, 0, 0, 0, 0, 0, 0] };
        assert(controls@ =~= Seq::new(CONTROL_COUNT as nat, |i: int| 0u32));
        controls
    }

    /// The keyboard key currently bound to `control`.
    pub fn key_for(&self, control: Control) -> (keyval: u32)
        ensures
            self@.len() == CONTROL_COUNT,
            keyval == effective_key(control, self@[control.index()]),
    {
        let val = self.stored[control_index(control)];
        if val == 0 {
            control.default_key()
        } else {
            val
        }
    }

    /// Binds `keyval` to `control`; a keyval of 0 puts the control back on its
    /// default key.
    pub fn set_key(&mut self, control: Control, keyval: u32)
        ensures
            final(self)@ == old(self)@.update(control.index(), keyval),
    {
        let i = control_index(control);
        self.stored[i] = keyval;
    }

    /// The pad bit that the key `keyval` drives: that of the first control,
    /// in the order A, B, Select, Start, Up, Down, Left, Right, L, R, bound
    /// to it.
    pub fn bit_for_keyval(&self, keyval: u32) -> (bit: Option<u32>)
        ensures
            bit == bound_bit(self@, keyval),
    {
        let mut i: usize = 0;
        while i < CONTROL_COUNT
            invariant
                i <= CONTROL_COUNT,
                self@.len() == CONTROL_COUNT,
                first_bound_from(self@, keyval, 0) == first_bound_from(self@, keyval, i as int),
            decreases CONTROL_COUNT - i,
        {
            let control = control_at(i);
            if self.key_for(control) == keyval {
                return Some(control.bit());
            }
            i = i + 1;
        }
        None
    }
}

impl Default for Controls {
    fn default() -> (controls: Controls)
        ensures
            controls@ == Seq::new(CONTROL_COUNT as nat, |i: int| 0u32),
    {
        Controls::new()
    }
}

/// The position of `control` in the order of `control_at`.
fn control_index(control: Control) -> (i: usize)
    ensures
        i == control.index(),
        i < CONTROL_COUNT,
{
    match control {
        Control::A => 0,
        Control::B => 1,
        Control::Select => 2,
        Control::Start => 3,
        Control::Up => 4,
        Control::Down => 5,
        Control::Left => 6,
        Control::Right => 7,
        Control::L => 8,
        Control::R => 9,
    }
}

/// The default keys are the classic layout: each control's default key
/// drives that control's pad bit.
pub proof fn law_default_keys_are_classic(c: Control)
    ensures
        classic_bit(c.default_key_spec()) == Some(c.bit_spec()),
{
}

/// With nothing stored, a key drives the same pad bit as in the fixed
/// classic table, except for the keypad's Enter, which only that table
/// takes as Start.
pub proof fn law_defaults_agree_with_classic_layout(keyval: u32)
    requires
        keyval != KEYVAL_KP_ENTER,
    ensures
        bound_bit(Seq::new(CONTROL_COUNT as nat, |i: int| 0u32), keyval) == classic_bit(keyval),
{
    let zeros = Seq::new(CONTROL_COUNT as nat, |i: int| 0u32);
    reveal_with_fuel(first_bound_from, 11);
    assert(zeros[0] == 0 && zeros[1] == 0 && zeros[2] == 0 && zeros[3] == 0 && zeros[4] == 0
        && zeros[5] == 0 && zeros[6] == 0 && zeros[7] == 0 && zeros[8] == 0 && zeros[9] == 0);
}

/// Binding a key to a control makes it the key in force for that control
/// (a keyval of 0 gives back the default), and leaves the other controls'
/// keys as they were.
pub proof fn law_set_key_then_key_for(stored: Seq<u32>, c: Control, keyval: u32, other: Control)
    requires
        stored.len() == CONTROL_COUNT,
        other != c,
    ensures
        effective_key(c, stored.update(c.index(), keyval)[c.index()]) == if keyval == 0 {
            c.default_key_spec()
        } else {
            keyval
        },
        effective_key(other, stored.update(c.index(), keyval)[other.index()]) == effective_key(
            other,
            stored[other.index()],
        ),
{
}

/// A key drives a pad bit only when it is the key in force for a control
/// with that bit.
pub proof fn law_bound_bit_is_bound(stored: Seq<u32>, keyval: u32, from: int)
    requires
        0 <= from,
    ensures
        first_bound_from(stored, keyval, from) matches Some(c) ==> effective_key(
            c,
            stored[c.index()],
        ) == keyval,
    decreases CONTROL_COUNT - from,
{
    if from < CONTROL_COUNT && effective_key(control_at_spec(from), stored[from]) != keyval {
        law_bound_bit_is_bound(stored, keyval, from + 1);
    }
}

/// The pad state after the key `keyval` was pressed (`pressed`) or released,
/// under the bindings `stored`, and whether the key drives a pad button (and
/// so is used up).
pub open spec fn key_event_result(stored: Seq<u32>, keys: u32, keyval: u32, pressed: bool) -> (
    u32,
    bool,
) {
    match bound_bit(stored, keyval) {
        Some(b) => (if pressed {
            keys | b
        } else {
            keys & !b
        }, true),
        None => (keys, false),
    }
}

/// A key press or release in the game window, under the user's current
/// bindings `controls`: a bound key holds down or lets go of its control's
/// pad button in `keys`; any other key leaves `keys` as it is and is not used
/// up.
pub fn key_event(controls: &Controls, keys: u32, keyval: u32, pressed: bool) -> (r: (u32, bool))
    ensures
        r == key_event_result(controls@, keys, keyval, pressed),
{
    match controls.bit_for_keyval(keyval) {
        Some(bit) => {
            let next = if pressed {
                hold(keys, bit)
            } else {
                let_go(keys, bit)
            };
            (next, true)
        },
        None => (keys, false),
    }
}

/// A remapped key reaches the game: a key bound to a control holds down that
/// control's pad bit when pressed and lets it go when released.
pub proof fn law_bound_key_drives_its_control(
    stored: Seq<u32>,
    keys: u32,
    keyval: u32,
    c: Control,
)
    requires
        first_bound_from(stored, keyval, 0) == Some(c),
    ensures
        key_event_result(stored, keys, keyval, true) == (keys | c.bit_spec(), true),
        key_event_result(stored, keys, keyval, false) == (keys & !c.bit_spec(), true),
{
}

/// The control found for a key is the first one, in the order A, B, Select,
/// Start, Up, Down, Left, Right, L, R, whose key in force is that key; when
/// no control's key in force is the key, none is found.
pub proof fn law_first_control_in_order_is_found(stored: Seq<u32>, keyval: u32, i: int)
    requires
        0 <= i < CONTROL_COUNT,
        effective_key(control_at_spec(i), stored[i]) == keyval,
        forall|j: int| 0 <= j < i ==> effective_key(control_at_spec(j), stored[j]) != keyval,
    ensures
        first_bound_from(stored, keyval, 0) == Some(control_at_spec(i)),
        bound_bit(stored, keyval) == Some(control_at_spec(i).bit_spec()),
{
    lemma_first_bound_from_reaches(stored, keyval, 0, i);
}

proof fn lemma_first_bound_from_reaches(stored: Seq<u32>, keyval: u32, from: int, i: int)
    requires
        0 <= from <= i < CONTROL_COUNT,
        effective_key(control_at_spec(i), stored[i]) == keyval,
        forall|j: int| from <= j < i ==> effective_key(control_at_spec(j), stored[j]) != keyval,
    ensures
        first_bound_from(stored, keyval, from) == Some(control_at_spec(i)),
    decreases i - from,
{
    if from < i {
        lemma_first_bound_from_reaches(stored, keyval, from + 1, i);
    }
}

proof fn lemma_first_bound_from_none(stored: Seq<u32>, keyval: u32, from: int)
    requires
        0 <= from,
        forall|j: int|
            from <= j < CONTROL_COUNT ==> effective_key(control_at_spec(j), stored[j]) != keyval,
    ensures
        first_bound_from(stored, keyval, from) is None,
    decreases CONTROL_COUNT - from,
{
    if from < CONTROL_COUNT {
        lemma_first_bound_from_none(stored, keyval, from + 1);
    }
}

/// A key that is no control's key in force drives nothing: pressing or
/// releasing it leaves every pad button as it was and is not used up.
pub proof fn law_unbound_key_leaves_pad_alone(stored: Seq<u32>, keys: u32, keyval: u32, pressed: bool)
    requires
        forall|j: int|
            0 <= j < CONTROL_COUNT ==> effective_key(control_at_spec(j), stored[j]) != keyval,
    ensures
        bound_bit(stored, keyval) is None,
        key_event_result(stored, keys, keyval, pressed) == (keys, false),
{
    lemma_first_bound_from_none(stored, keyval, 0);
}

/// A key that is the key in force of a control (the first such in order)
/// holds down exactly that control's pad bit when pressed, and lets go of
/// exactly it when released; every other bit stays as it was.
pub proof fn law_key_drives_first_control_bound_to_it(
    stored: Seq<u32>,
    keys: u32,
    keyval: u32,
    i: int,
)
    requires
        0 <= i < CONTROL_COUNT,
        effective_key(control_at_spec(i), stored[i]) == keyval,
        forall|j: int| 0 <= j < i ==> effective_key(control_at_spec(j), stored[j]) != keyval,
    ensures
        key_event_result(stored, keys, keyval, true) == (keys | control_at_spec(i).bit_spec(), true),
        key_event_result(stored, keys, keyval, false) == (
            keys & !control_at_spec(i).bit_spec(),
            true,
        ),
{
    law_first_control_in_order_is_found(stored, keyval, i);
}

} // verus!
