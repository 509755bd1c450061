use chip8::keyboard::{code_to_key, key_to_code, Key, Keypad};

#[test]
fn keypad_new_is_idle() {
    let mut keypad = Keypad::new();
    for code in 0..=0xFFu8 {
        assert!(!keypad.is_key_down(code));
    }
    assert_eq!(keypad.first_key_down(), None);
    assert_eq!(keypad.take_released_key(), None);
}

#[test]
fn keypad_key_down() {
    let mut keypad = Keypad::new();
    keypad.set_key(0xA, true);
    assert!(keypad.is_key_down(0xA));
    assert!(!keypad.is_key_down(0xB));
    keypad.set_key(0xA, false);
    assert!(!keypad.is_key_down(0xA));
}

#[test]
fn keypad_codes_above_f_stand_for_key_zero() {
    let mut keypad = Keypad::new();
    keypad.set_key(0x1, true);
    assert!(!keypad.is_key_down(0x10));
    assert!(!keypad.is_key_down(0x11));
    assert!(!keypad.is_key_down(0xFF));
    keypad.set_key(0x0, true);
    assert!(keypad.is_key_down(0x0));
    assert!(keypad.is_key_down(0x10));
    assert!(keypad.is_key_down(0x11));
    assert!(keypad.is_key_down(0xFF));
}

#[test]
fn keypad_released_key_is_taken_once() {
    let mut keypad = Keypad::new();
    keypad.set_released_key(Some(0xF));
    assert_eq!(keypad.take_released_key(), Some(0xF));
    assert_eq!(keypad.take_released_key(), None);
    keypad.set_released_key(Some(0));
    keypad.set_released_key(None);
    assert_eq!(keypad.take_released_key(), None);
}

#[test]
fn keypad_first_key_down_is_the_lowest_but_zero() {
    let mut keypad = Keypad::new();
    keypad.set_key(0x0, true);
    assert_eq!(keypad.first_key_down(), None);
    keypad.set_key(0xF, true);
    assert_eq!(keypad.first_key_down(), Some(0xF));
    keypad.set_key(0x7, true);
    assert_eq!(keypad.first_key_down(), Some(0x7));
    keypad.set_key(0x1, true);
    assert_eq!(keypad.first_key_down(), Some(0x1));
    keypad.set_key(0x1, false);
    keypad.set_key(0x7, false);
    assert_eq!(keypad.first_key_down(), Some(0xF));
}

#[test]
fn key_tables() {
    let keys = [
        Key::Key0, Key::Key1, Key::Key2, Key::Key3, Key::Key4, Key::Key5, Key::Key6, Key::Key7,
        Key::Key8, Key::Key9, Key::A, Key::B, Key::C, Key::D, Key::E, Key::F,
    ];
    for code in 0..=0xFu8 {
        assert_eq!(code_to_key(code), keys[code as usize]);
        assert_eq!(key_to_code(&keys[code as usize]), code);
    }
    for code in 0x10..=0xFFu8 {
        assert_eq!(code_to_key(code), Key::Key0);
    }
    assert_eq!(key_to_code(&Key::Other), 0);
}
