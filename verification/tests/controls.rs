use voxel_march::controls::keyboard::{KeyEvent, KeyboardHandler};
use voxel_march::controls::mouse::MouseHandler;

fn press(code: u32) -> KeyEvent {
    KeyEvent { code: Some(code), pressed: true, repeat: false }
}

fn release(code: u32) -> KeyEvent {
    KeyEvent { code: Some(code), pressed: false, repeat: false }
}

#[test]
fn keyboard_press_poll_and_release() {
    let mut keys: KeyboardHandler<u8> = KeyboardHandler::new();
    keys.register_key(5, 1);
    keys.register_key(6, 2);
    keys.key_event(&press(5));
    assert_eq!(keys.peek_on_press(), &[1u8]);
    assert_eq!(keys.poll_on_press(), vec![1u8]);
    assert!(keys.poll_on_press().is_empty());
    assert_eq!(keys.poll_on_held(), vec![1u8]);
    keys.key_event(&release(5));
    assert_eq!(keys.poll_on_release(), vec![1u8]);
    assert!(keys.poll_on_held().is_empty());
}

#[test]
fn keyboard_press_twice_is_press_once() {
    let mut keys: KeyboardHandler<u8> = KeyboardHandler::new();
    keys.register_key(5, 1);
    keys.key_event(&press(5));
    keys.key_event(&press(5));
    assert_eq!(keys.poll_on_press(), vec![1u8]);
}

#[test]
fn keyboard_press_then_release_records_both() {
    let mut keys: KeyboardHandler<u8> = KeyboardHandler::new();
    keys.register_key(5, 1);
    keys.key_event(&press(5));
    keys.key_event(&release(5));
    assert_eq!(keys.poll_on_press(), vec![1u8]);
    assert_eq!(keys.poll_on_release(), vec![1u8]);
    assert!(keys.poll_on_held().is_empty());
}

#[test]
fn keyboard_ignores_repeats_unknown_and_unbound() {
    let mut keys: KeyboardHandler<u8> = KeyboardHandler::new();
    keys.register_key(5, 1);
    keys.key_event(&KeyEvent { code: Some(5), pressed: true, repeat: true });
    keys.key_event(&KeyEvent { code: None, pressed: true, repeat: false });
    keys.key_event(&press(9));
    assert!(keys.poll_on_press().is_empty());
    assert!(keys.poll_on_held().is_empty());
}

#[test]
fn keyboard_held_keys_stay_after_clear() {
    let mut keys: KeyboardHandler<u8> = KeyboardHandler::new();
    keys.register_key(5, 1);
    keys.register_key(6, 2);
    keys.key_event(&press(5));
    keys.key_event(&press(6));
    keys.clear_events();
    assert!(keys.peek_on_press().is_empty());
    let mut held = keys.poll_on_held();
    held.sort();
    assert_eq!(held, vec![1u8, 2u8]);
}

#[test]
fn mouse_buttons_track_actions() {
    let mut mouse: MouseHandler<char> = MouseHandler::new();
    mouse.register_button(0, 'l');
    mouse.register_button(1, 'r');
    mouse.button_event(true, 0);
    mouse.button_event(true, 1);
    mouse.button_event(false, 0);
    assert_eq!(mouse.poll_on_press(), vec!['l', 'r']);
    assert_eq!(mouse.poll_on_release(), vec!['l']);
    assert_eq!(mouse.poll_on_held(), vec!['r']);
    mouse.clear_events();
    assert!(mouse.peek_on_release().is_empty());
}
