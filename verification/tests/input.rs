use rustic_yellow::input::{key_to_keyboard, InputKey, KeyboardKey};
use rustic_yellow::keypad::{keypad_key, KeypadKey};

#[test]
fn letters_map_to_letter_keys() {
    assert_eq!(key_to_keyboard(InputKey::Char('a')), Some(KeyboardKey::A));
    assert_eq!(key_to_keyboard(InputKey::Char('m')), Some(KeyboardKey::M));
    assert_eq!(key_to_keyboard(InputKey::Char('z')), Some(KeyboardKey::Z));
}

#[test]
fn named_keys_map_to_their_counterparts() {
    assert_eq!(key_to_keyboard(InputKey::Escape), Some(KeyboardKey::Escape));
    assert_eq!(key_to_keyboard(InputKey::LeftArrow), Some(KeyboardKey::Left));
    assert_eq!(key_to_keyboard(InputKey::UpArrow), Some(KeyboardKey::Up));
    assert_eq!(key_to_keyboard(InputKey::RightArrow), Some(KeyboardKey::Right));
    assert_eq!(key_to_keyboard(InputKey::DownArrow), Some(KeyboardKey::Down));
    assert_eq!(key_to_keyboard(InputKey::Backspace), Some(KeyboardKey::Backspace));
    assert_eq!(key_to_keyboard(InputKey::Enter), Some(KeyboardKey::Return));
    assert_eq!(key_to_keyboard(InputKey::Char(' ')), Some(KeyboardKey::Space));
}

#[test]
fn other_input_is_no_key() {
    assert_eq!(key_to_keyboard(InputKey::Char('A')), None);
    assert_eq!(key_to_keyboard(InputKey::Char('1')), None);
    assert_eq!(key_to_keyboard(InputKey::Other), None);
}

#[test]
fn host_keys_stand_for_buttons() {
    assert_eq!(keypad_key(KeyboardKey::Up), Some(KeypadKey::Up));
    assert_eq!(keypad_key(KeyboardKey::A), Some(KeypadKey::A));
    assert_eq!(keypad_key(KeyboardKey::Return), Some(KeypadKey::Start));
    assert_eq!(keypad_key(KeyboardKey::Backspace), Some(KeypadKey::Select));
    assert_eq!(keypad_key(KeyboardKey::Q), None);
}
