use wasm_chip8::{AudioCommand, Emulator, Keypad};

fn loaded(program: &[u8]) -> Emulator {
    let mut emulator = Emulator::new();
    emulator.load(program).unwrap();
    emulator
}

fn keypad_with(keys: &[u8]) -> Keypad {
    let mut keypad = Keypad::new();
    for key in keys {
        keypad.set_key(*key, true);
    }
    keypad
}

#[test]
fn a_new_keypad_has_every_key_up() {
    let keypad = Keypad::new();
    for key in 0..=255u8 {
        assert!(!keypad.is_key_pressed(key));
    }
    assert_eq!(keypad.first_pressed(), None);
}

#[test]
fn set_key_presses_and_releases() {
    let mut keypad = Keypad::new();
    keypad.set_key(3, true);
    keypad.set_key(0xF, true);
    assert!(keypad.is_key_pressed(3));
    assert!(keypad.is_key_pressed(0xF));
    assert!(!keypad.is_key_pressed(4));
    assert_eq!(keypad.first_pressed(), Some(3));
    keypad.set_key(3, false);
    assert!(!keypad.is_key_pressed(3));
    assert_eq!(keypad.first_pressed(), Some(0xF));
}

#[test]
fn an_index_that_names_no_key_is_never_down() {
    let mut keypad = Keypad::new();
    keypad.set_key(16, true);
    keypad.set_key(255, true);
    for key in 0..=255u8 {
        assert!(!keypad.is_key_pressed(key));
    }
    assert_eq!(keypad.first_pressed(), None);
    let all = Keypad::from_keys([true; 16]);
    assert!(all.is_key_pressed(15));
    assert!(!all.is_key_pressed(16));
    assert!(!all.is_key_pressed(0x1F));
}

#[test]
fn from_keys_takes_each_key() {
    let mut keys = [false; 16];
    keys[2] = true;
    keys[9] = true;
    let keypad = Keypad::from_keys(keys);
    for key in 0..16u8 {
        assert_eq!(keypad.is_key_pressed(key), key == 2 || key == 9);
    }
    assert_eq!(keypad.first_pressed(), Some(2));
}

#[test]
fn first_pressed_finds_key_zero() {
    assert_eq!(keypad_with(&[0, 5]).first_pressed(), Some(0));
}

#[test]
fn skip_if_key_pressed() {
    let mut down = loaded(&[0x60, 0x05, 0xE0, 0x9E]);
    down.tick_with(&keypad_with(&[5]), false, 0).unwrap();
    down.tick_with(&keypad_with(&[5]), false, 0).unwrap();
    assert_eq!(down.pc(), 0x206);
    let mut up = loaded(&[0x60, 0x05, 0xE0, 0x9E]);
    up.tick_with(&keypad_with(&[4, 6]), false, 0).unwrap();
    up.tick_with(&keypad_with(&[4, 6]), false, 0).unwrap();
    assert_eq!(up.pc(), 0x204);
}

#[test]
fn skip_if_key_not_pressed() {
    let mut down = loaded(&[0x60, 0x05, 0xE0, 0xA1]);
    down.tick_with(&keypad_with(&[5]), false, 0).unwrap();
    down.tick_with(&keypad_with(&[5]), false, 0).unwrap();
    assert_eq!(down.pc(), 0x204);
    let mut up = loaded(&[0x60, 0x05, 0xE0, 0xA1]);
    up.tick_with(&Keypad::new(), false, 0).unwrap();
    up.tick_with(&Keypad::new(), false, 0).unwrap();
    assert_eq!(up.pc(), 0x206);
}

#[test]
fn a_register_value_that_names_no_key_counts_as_up() {
    let all = Keypad::from_keys([true; 16]);
    let mut pressed = loaded(&[0x60, 0x15, 0xE0, 0x9E]);
    pressed.tick_with(&all, false, 0).unwrap();
    pressed.tick_with(&all, false, 0).unwrap();
    assert_eq!(pressed.pc(), 0x204);
    let mut not_pressed = loaded(&[0x60, 0x15, 0xE0, 0xA1]);
    not_pressed.tick_with(&all, false, 0).unwrap();
    not_pressed.tick_with(&all, false, 0).unwrap();
    assert_eq!(not_pressed.pc(), 0x206);
}

#[test]
fn key_wait_holds_the_program_counter_until_a_key_is_down() {
    let mut emulator = loaded(&[0xF3, 0x0A, 0x63, 0x77]);
    let none = Keypad::new();
    for _ in 0..10 {
        assert_eq!(emulator.tick_with(&none, false, 0), Ok(AudioCommand::Idle));
        assert_eq!(emulator.pc(), 0x200);
        assert_eq!(*emulator.v(), [0u8; 16]);
    }
    emulator.tick_with(&keypad_with(&[7]), false, 0).unwrap();
    assert_eq!(emulator.pc(), 0x202);
    assert_eq!(emulator.v()[3], 7);
}

#[test]
fn key_wait_takes_the_lowest_key_that_is_down() {
    let mut emulator = loaded(&[0xF3, 0x0A]);
    emulator.tick_with(&keypad_with(&[0xC, 9, 0xE]), false, 0).unwrap();
    assert_eq!(emulator.v()[3], 9);
    assert_eq!(emulator.pc(), 0x202);
}

#[test]
fn key_wait_takes_key_zero() {
    let mut emulator = loaded(&[0x63, 0x55, 0xF3, 0x0A]);
    emulator.tick_with(&Keypad::new(), false, 0).unwrap();
    emulator.tick_with(&keypad_with(&[0]), false, 0).unwrap();
    assert_eq!(emulator.v()[3], 0);
    assert_eq!(emulator.pc(), 0x204);
}

#[test]
fn key_wait_takes_key_fifteen() {
    let mut emulator = loaded(&[0xF0, 0x0A]);
    emulator.tick_with(&keypad_with(&[0xF]), false, 0).unwrap();
    assert_eq!(emulator.v()[0], 0xF);
}

#[test]
fn timers_run_while_the_machine_waits_for_a_key() {
    let mut emulator = loaded(&[0x60, 0x05, 0xF0, 0x15, 0xF1, 0x0A]);
    let none = Keypad::new();
    emulator.tick_with(&none, false, 0).unwrap();
    emulator.tick_with(&none, false, 0).unwrap();
    assert_eq!(emulator.delay_timer(), 4);
    emulator.tick_with(&none, false, 0).unwrap();
    emulator.tick_with(&none, false, 0).unwrap();
    assert_eq!(emulator.pc(), 0x204);
    assert_eq!(emulator.delay_timer(), 2);
    assert_eq!(emulator.opcode(), 0xF10A);
}
