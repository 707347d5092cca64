use rmgba::keys::{
    hold, is_modifier, let_go, map_key, KEYVAL_A, KEYVAL_ALT_L, KEYVAL_BACKSPACE, KEYVAL_CAPS_LOCK,
    KEYVAL_DOWN, KEYVAL_ESCAPE, KEYVAL_KP_ENTER, KEYVAL_LEFT, KEYVAL_RETURN, KEYVAL_RIGHT, KEYVAL_S,
    KEYVAL_SCROLL_LOCK, KEYVAL_SHIFT_L, KEYVAL_SUPER_R, KEYVAL_UP, KEYVAL_X, KEYVAL_Z, KEY_A, KEY_B,
    KEY_DOWN, KEY_L, KEY_LEFT, KEY_R, KEY_RIGHT, KEY_SELECT, KEY_START, KEY_UP,
};

#[test]
fn pad_bits_follow_the_core() {
    assert_eq!(KEY_A, 1 << 0);
    assert_eq!(KEY_B, 1 << 1);
    assert_eq!(KEY_SELECT, 1 << 2);
    assert_eq!(KEY_START, 1 << 3);
    assert_eq!(KEY_RIGHT, 1 << 4);
    assert_eq!(KEY_LEFT, 1 << 5);
    assert_eq!(KEY_UP, 1 << 6);
    assert_eq!(KEY_DOWN, 1 << 7);
    assert_eq!(KEY_R, 1 << 8);
    assert_eq!(KEY_L, 1 << 9);
}

#[test]
fn classic_layout() {
    assert_eq!(map_key(KEYVAL_X), Some(KEY_A));
    assert_eq!(map_key(KEYVAL_Z), Some(KEY_B));
    assert_eq!(map_key(KEYVAL_BACKSPACE), Some(KEY_SELECT));
    assert_eq!(map_key(KEYVAL_RETURN), Some(KEY_START));
    assert_eq!(map_key(KEYVAL_KP_ENTER), Some(KEY_START));
    assert_eq!(map_key(KEYVAL_RIGHT), Some(KEY_RIGHT));
    assert_eq!(map_key(KEYVAL_LEFT), Some(KEY_LEFT));
    assert_eq!(map_key(KEYVAL_UP), Some(KEY_UP));
    assert_eq!(map_key(KEYVAL_DOWN), Some(KEY_DOWN));
    assert_eq!(map_key(KEYVAL_A), Some(KEY_L));
    assert_eq!(map_key(KEYVAL_S), Some(KEY_R));
    assert_eq!(map_key(KEYVAL_ESCAPE), None);
    assert_eq!(map_key(0x0071), None);
    assert_eq!(map_key(0), None);
}

#[test]
fn keyvals_are_gdk_keyvals() {
    assert_eq!(KEYVAL_X, 120);
    assert_eq!(KEYVAL_RETURN, 65293);
    assert_eq!(KEYVAL_ESCAPE, 65307);
    assert_eq!(KEYVAL_SHIFT_L, 65505);
}

#[test]
fn modifiers() {
    assert!(is_modifier(KEYVAL_SHIFT_L));
    assert!(is_modifier(KEYVAL_ALT_L));
    assert!(is_modifier(KEYVAL_SUPER_R));
    assert!(is_modifier(KEYVAL_CAPS_LOCK));
    assert!(is_modifier(KEYVAL_SCROLL_LOCK));
    assert!(!is_modifier(KEYVAL_X));
    assert!(!is_modifier(KEYVAL_ESCAPE));
    assert!(!is_modifier(0));
}

#[test]
fn hold_and_let_go() {
    let keys = hold(0, KEY_A);
    assert_eq!(keys, KEY_A);
    let keys = hold(keys, KEY_UP);
    assert_eq!(keys, KEY_A | KEY_UP);
    assert_eq!(hold(keys, KEY_UP), keys);
    let keys = let_go(keys, KEY_A);
    assert_eq!(keys, KEY_UP);
    assert_eq!(let_go(keys, KEY_B), KEY_UP);
    assert_eq!(let_go(keys, KEY_UP), 0);
}
