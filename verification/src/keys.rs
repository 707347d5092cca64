//! The buttons of the emulated pad and the keyboard keys that drive them.
//!
//! A keyboard key is identified by its GDK keyval; the pad state handed to
//! the emulator core is a word with one bit per button.
use vstd::prelude::*;

verus! {

/// Pad bit of the A button.
pub const KEY_A: u32 = 0x001;
/// Pad bit of the B button.
pub const KEY_B: u32 = 0x002;
/// Pad bit of the Select button.
pub const KEY_SELECT: u32 = 0x004;
/// Pad bit of the Start button.
pub const KEY_START: u32 = 0x008;
/// Pad bit of the D-pad's right direction.
pub const KEY_RIGHT: u32 = 0x010;
/// Pad bit of the D-pad's left direction.
pub const KEY_LEFT: u32 = 0x020;
/// Pad bit of the D-pad's up direction.
pub const KEY_UP: u32 = 0x040;
/// Pad bit of the D-pad's down direction.
pub const KEY_DOWN: u32 = 0x080;
/// Pad bit of the right shoulder button.
pub const KEY_R: u32 = 0x100;
/// Pad bit of the left shoulder button.
pub const KEY_L: u32 = 0x200;

/// GDK keyval of the `a` key.
pub const KEYVAL_A: u32 = 0x0061;
/// GDK keyval of the `s` key.
pub const KEYVAL_S: u32 = 0x0073;
/// GDK keyval of the `x` key.
pub const KEYVAL_X: u32 = 0x0078;
/// GDK keyval of the `z` key.
pub const KEYVAL_Z: u32 = 0x007a;
/// GDK keyval of BackSpace.
pub const KEYVAL_BACKSPACE: u32 = 0xff08;
/// GDK keyval of Return.
pub const KEYVAL_RETURN: u32 = 0xff0d;
/// GDK keyval of Scroll_Lock.
pub const KEYVAL_SCROLL_LOCK: u32 = 0xff14;
/// GDK keyval of Escape.
pub const KEYVAL_ESCAPE: u32 = 0xff1b;
/// GDK keyval of the Left arrow.
pub const KEYVAL_LEFT: u32 = 0xff51;
/// GDK keyval of the Up arrow.
pub const KEYVAL_UP: u32 = 0xff52;
/// GDK keyval of the Right arrow.
pub const KEYVAL_RIGHT: u32 = 0xff53;
/// GDK keyval of the Down arrow.
pub const KEYVAL_DOWN: u32 = 0xff54;
/// GDK keyval of Num_Lock.
pub const KEYVAL_NUM_LOCK: u32 = 0xff7f;
/// GDK keyval of the keypad's Enter.
pub const KEYVAL_KP_ENTER: u32 = 0xff8d;
/// GDK keyval of Shift_L.
pub const KEYVAL_SHIFT_L: u32 = 0xffe1;
/// GDK keyval of Shift_R.
pub const KEYVAL_SHIFT_R: u32 = 0xffe2;
/// GDK keyval of Control_L.
pub const KEYVAL_CONTROL_L: u32 = 0xffe3;
/// GDK keyval of Control_R.
pub const KEYVAL_CONTROL_R: u32 = 0xffe4;
/// GDK keyval of Caps_Lock.
pub const KEYVAL_CAPS_LOCK: u32 = 0xffe5;
/// GDK keyval of Meta_L.
pub const KEYVAL_META_L: u32 = 0xffe7;
/// GDK keyval of Meta_R.
pub const KEYVAL_META_R: u32 = 0xffe8;
/// GDK keyval of Alt_L.
pub const KEYVAL_ALT_L: u32 = 0xffe9;
/// GDK keyval of Alt_R.
pub const KEYVAL_ALT_R: u32 = 0xffea;
/// GDK keyval of Super_L.
pub const KEYVAL_SUPER_L: u32 = 0xffeb;
/// GDK keyval of Super_R.
pub const KEYVAL_SUPER_R: u32 = 0xffec;

/// The pad bit that the fixed, classic keyboard layout gives to `keyval`.
pub open spec fn classic_bit(keyval: u32) -> Option<u32> {
    if keyval == KEYVAL_X {
        Some(KEY_A)
    } else if keyval == KEYVAL_Z {
        Some(KEY_B)
    } else if keyval == KEYVAL_BACKSPACE {
        Some(KEY_SELECT)
    } else if keyval == KEYVAL_RETURN || keyval == KEYVAL_KP_ENTER {
        Some(KEY_START)
    } else if keyval == KEYVAL_RIGHT {
        Some(KEY_RIGHT)
    } else if keyval == KEYVAL_LEFT {
        Some(KEY_LEFT)
    } else if keyval == KEYVAL_UP {
        Some(KEY_UP)
    } else if keyval == KEYVAL_DOWN {
        Some(KEY_DOWN)
    } else if keyval == KEYVAL_A {
        Some(KEY_L)
    } else if keyval == KEYVAL_S {
        Some(KEY_R)
    } else {
        None
    }
}

/// The pad bit of the key `keyval` in the classic layout, the fixed table
/// that the default bindings follow (plus the keypad's Enter as Start).
pub fn map_key(keyval: u32) -> (bit: Option<u32>)
    ensures
        bit == classic_bit(keyval),
{
    if keyval == KEYVAL_X {
        Some(KEY_A)
    } else if keyval == KEYVAL_Z {
        Some(KEY_B)
    } else if keyval == KEYVAL_BACKSPACE {
        Some(KEY_SELECT)
    } else if keyval == KEYVAL_RETURN || keyval == KEYVAL_KP_ENTER {
        Some(KEY_START)
    } else if keyval == KEYVAL_RIGHT {
        Some(KEY_RIGHT)
    } else if keyval == KEYVAL_LEFT {
        Some(KEY_LEFT)
    } else if keyval == KEYVAL_UP {
        Some(KEY_UP)
    } else if keyval == KEYVAL_DOWN {
        Some(KEY_DOWN)
    } else if keyval == KEYVAL_A {
        Some(KEY_L)
    } else if keyval == KEYVAL_S {
        Some(KEY_R)
    } else {
        None
    }
}

/// Keys that only modify others: Shift, Control, Alt, Meta and Super on
/// either side, and the three lock keys.
pub open spec fn modifier_key(keyval: u32) -> bool {
    keyval == KEYVAL_SHIFT_L || keyval == KEYVAL_SHIFT_R || keyval == KEYVAL_CONTROL_L || keyval
        == KEYVAL_CONTROL_R || keyval == KEYVAL_ALT_L || keyval == KEYVAL_ALT_R || keyval
        == KEYVAL_META_L || keyval == KEYVAL_META_R || keyval == KEYVAL_SUPER_L || keyval
        == KEYVAL_SUPER_R || keyval == KEYVAL_CAPS_LOCK || keyval == KEYVAL_NUM_LOCK || keyval
        == KEYVAL_SCROLL_LOCK
}

/// Whether `keyval` is a modifier key, never useful as a button binding.
pub fn is_modifier(keyval: u32) -> (b: bool)
    ensures
        b == modifier_key(keyval),
{
    keyval == KEYVAL_SHIFT_L || keyval == KEYVAL_SHIFT_R || keyval == KEYVAL_CONTROL_L || keyval
        == KEYVAL_CONTROL_R || keyval == KEYVAL_ALT_L || keyval == KEYVAL_ALT_R || keyval
        == KEYVAL_META_L || keyval == KEYVAL_META_R || keyval == KEYVAL_SUPER_L || keyval
        == KEYVAL_SUPER_R || keyval == KEYVAL_CAPS_LOCK || keyval == KEYVAL_NUM_LOCK || keyval
        == KEYVAL_SCROLL_LOCK
}

/// The bits of the ten pad buttons.
pub open spec fn button_bit(b: u32) -> bool {
    b == KEY_A || b == KEY_B || b == KEY_SELECT || b == KEY_START || b == KEY_RIGHT || b
        == KEY_LEFT || b == KEY_UP || b == KEY_DOWN || b == KEY_R || b == KEY_L
}

/// The pad state `keys` with the button `bit` held down.
pub fn hold(keys: u32, bit: u32) -> (next: u32)
    ensures
        next == keys | bit,
{
    keys | bit
}

/// The pad state `keys` with the button `bit` let go.
pub fn let_go(keys: u32, bit: u32) -> (next: u32)
    ensures
        next == keys & !bit,
{
    keys & !bit
}

/// The classic layout drives only pad buttons.
pub proof fn law_classic_layout_drives_buttons(keyval: u32)
    ensures
        classic_bit(keyval) matches Some(b) ==> button_bit(b),
{
}

/// Holding a button sets its bit and leaves the other buttons as they were;
/// letting it go clears its bit and leaves the others as they were.
pub proof fn law_buttons_are_independent(keys: u32, bit: u32, other: u32)
    requires
        button_bit(bit),
        button_bit(other),
        bit != other,
    ensures
        (keys | bit) & bit == bit,
        (keys & !bit) & bit == 0,
        (keys | bit) & other == keys & other,
        (keys & !bit) & other == keys & other,
{
    assert((keys | bit) & bit == bit) by (bit_vector);
    assert((keys & !bit) & bit == 0) by (bit_vector);
    assert((keys | bit) & other == keys & other && (keys & !bit) & other == keys & other)
        by (bit_vector)
        requires
            bit == 1u32 || bit == 2u32 || bit == 4u32 || bit == 8u32 || bit == 16u32 || bit == 32u32
                || bit == 64u32 || bit == 128u32 || bit == 256u32 || bit == 512u32,
            other == 1u32 || other == 2u32 || other == 4u32 || other == 8u32 || other == 16u32
                || other == 32u32 || other == 64u32 || other == 128u32 || other == 256u32 || other
                == 512u32,
            bit != other,
    ;
}

/// Pressing and releasing a button gives back the pad state without it;
/// pressing it again changes nothing.
pub proof fn law_hold_then_let_go(keys: u32, bit: u32)
    ensures
        ((keys | bit) & !bit) == keys & !bit,
        ((keys | bit) | bit) == keys | bit,
{
    assert(((keys | bit) & !bit) == keys & !bit) by (bit_vector);
    assert(((keys | bit) | bit) == keys | bit) by (bit_vector);
}

} // verus!
