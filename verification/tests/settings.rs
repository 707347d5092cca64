use rmgba::keys::{
    map_key, KEYVAL_A, KEYVAL_BACKSPACE, KEYVAL_DOWN, KEYVAL_KP_ENTER, KEYVAL_LEFT, KEYVAL_RETURN,
    KEYVAL_RIGHT, KEYVAL_S, KEYVAL_UP, KEYVAL_X, KEYVAL_Z, KEY_A, KEY_B, KEY_START,
};
use rmgba::settings::{control_at, key_event, Control, Controls, CONTROL_COUNT};

const ALL: [Control; 10] = [
    Control::A,
    Control::B,
    Control::Select,
    Control::Start,
    Control::Up,
    Control::Down,
    Control::Left,
    Control::Right,
    Control::L,
    Control::R,
];

#[test]
fn setting_keys_and_labels() {
    assert_eq!(Control::A.setting_key(), "key-a");
    assert_eq!(Control::Select.setting_key(), "key-select");
    assert_eq!(Control::Right.setting_key(), "key-right");
    assert_eq!(Control::R.setting_key(), "key-r");
    assert_eq!(Control::Up.label(), "D-Pad Up");
    assert_eq!(Control::L.label(), "L (Shoulder)");
    assert_eq!(Control::Start.label(), "Start");
}

#[test]
fn default_keys_are_the_classic_layout() {
    assert_eq!(Control::A.default_key(), KEYVAL_X);
    assert_eq!(Control::B.default_key(), KEYVAL_Z);
    assert_eq!(Control::Select.default_key(), KEYVAL_BACKSPACE);
    assert_eq!(Control::Start.default_key(), KEYVAL_RETURN);
    assert_eq!(Control::Up.default_key(), KEYVAL_UP);
    assert_eq!(Control::Down.default_key(), KEYVAL_DOWN);
    assert_eq!(Control::Left.default_key(), KEYVAL_LEFT);
    assert_eq!(Control::Right.default_key(), KEYVAL_RIGHT);
    assert_eq!(Control::L.default_key(), KEYVAL_A);
    assert_eq!(Control::R.default_key(), KEYVAL_S);
    for c in ALL {
        assert_eq!(map_key(c.default_key()), Some(c.bit()));
    }
}

#[test]
fn control_order() {
    assert_eq!(CONTROL_COUNT, 10);
    for (i, c) in ALL.iter().enumerate() {
        assert_eq!(control_at(i), *c);
    }
}

#[test]
fn unset_controls_use_defaults() {
    let controls = Controls::new();
    for c in ALL {
        assert_eq!(controls.key_for(c), c.default_key());
    }
    let d = Controls::default();
    assert_eq!(d.key_for(Control::B), KEYVAL_Z);
}

#[test]
fn set_key_binds_and_zero_restores() {
    let mut controls = Controls::new();
    controls.set_key(Control::A, 0x006a);
    assert_eq!(controls.key_for(Control::A), 0x006a);
    assert_eq!(controls.key_for(Control::B), KEYVAL_Z);
    assert_eq!(controls.bit_for_keyval(0x006a), Some(KEY_A));
    assert_eq!(controls.bit_for_keyval(KEYVAL_X), None);
    controls.set_key(Control::A, 0);
    assert_eq!(controls.key_for(Control::A), KEYVAL_X);
    assert_eq!(controls.bit_for_keyval(KEYVAL_X), Some(KEY_A));
}

#[test]
fn first_control_in_order_wins() {
    let mut controls = Controls::new();
    controls.set_key(Control::B, KEYVAL_X);
    // A (default x) comes before B in the order.
    assert_eq!(controls.bit_for_keyval(KEYVAL_X), Some(KEY_A));
    controls.set_key(Control::A, KEYVAL_Z);
    assert_eq!(controls.bit_for_keyval(KEYVAL_Z), Some(KEY_A));
    assert_eq!(controls.bit_for_keyval(KEYVAL_X), Some(KEY_B));
}

#[test]
fn defaults_agree_with_classic_table() {
    let controls = Controls::new();
    for keyval in [KEYVAL_X, KEYVAL_Z, KEYVAL_RETURN, KEYVAL_A, KEYVAL_S, KEYVAL_UP, 0x0071, 0] {
        assert_eq!(controls.bit_for_keyval(keyval), map_key(keyval));
    }
    // The keypad's Enter is Start only in the fixed classic table.
    assert_eq!(map_key(KEYVAL_KP_ENTER), Some(KEY_START));
    assert_eq!(controls.bit_for_keyval(KEYVAL_KP_ENTER), None);
    assert_eq!(controls.bit_for_keyval(KEYVAL_Z), Some(KEY_B));
}

#[test]
fn remapped_key_reaches_the_pad() {
    let mut controls = Controls::new();
    controls.set_key(Control::A, 0x0071);
    assert_eq!(key_event(&controls, 0, 0x0071, true), (KEY_A, true));
    assert_eq!(key_event(&controls, KEY_A | KEY_B, 0x0071, false), (KEY_B, true));
    // The old default key of A no longer drives it.
    assert_eq!(key_event(&controls, 0, KEYVAL_X, true), (0, false));
    assert_eq!(key_event(&controls, KEY_B, 0x0072, true), (KEY_B, false));
    assert_eq!(key_event(&controls, 0, KEYVAL_Z, true), (KEY_B, true));
}

#[test]
fn default_bindings_drive_the_pad() {
    let controls = Controls::new();
    assert_eq!(key_event(&controls, 0, KEYVAL_RETURN, true), (KEY_START, true));
    assert_eq!(key_event(&controls, KEY_START, KEYVAL_RETURN, false), (0, true));
    assert_eq!(key_event(&controls, 0, KEYVAL_KP_ENTER, true), (0, false));
}
