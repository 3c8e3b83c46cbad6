use wasm_chip8::{Emulator, Keypad};

fn run(program: &[u8], ticks: usize) -> Emulator {
    let mut emulator = Emulator::new();
    emulator.load(program).unwrap();
    let keypad = Keypad::new();
    for _ in 0..ticks {
        emulator.tick_with(&keypad, false, 0).unwrap();
    }
    emulator
}

/// A small deterministic sequence of bytes.
struct Bytes(u32);

impl Bytes {
    fn next(&mut self) -> u8 {
        self.0 = self.0.wrapping_mul(1_664_525).wrapping_add(1_013_904_223);
        (self.0 >> 24) as u8
    }
}

#[test]
fn add_agrees_with_eight_bit_addition_for_every_pair() {
    for a in 0..=255u8 {
        for b in 0..=255u8 {
            let emulator = run(&[0x60, a, 0x61, b, 0x80, 0x14], 3);
            assert_eq!(emulator.v()[0], a.wrapping_add(b));
            assert_eq!(emulator.v()[0xF], u8::from(u16::from(a) + u16::from(b) > 255));
            assert_eq!(emulator.v()[1], b);
        }
    }
}

#[test]
fn subtract_agrees_with_eight_bit_subtraction_for_every_pair() {
    for a in 0..=255u8 {
        for b in 0..=255u8 {
            let emulator = run(&[0x60, a, 0x61, b, 0x80, 0x15], 3);
            assert_eq!(emulator.v()[0], a.wrapping_sub(b));
            assert_eq!(emulator.v()[0xF], u8::from(a >= b));
        }
    }
}

#[test]
fn reverse_subtract_agrees_with_eight_bit_subtraction_for_every_pair() {
    for a in 0..=255u8 {
        for b in 0..=255u8 {
            let emulator = run(&[0x60, a, 0x61, b, 0x80, 0x17], 3);
            assert_eq!(emulator.v()[0], b.wrapping_sub(a));
            assert_eq!(emulator.v()[0xF], u8::from(b >= a));
        }
    }
}

#[test]
fn add_immediate_wraps_for_every_pair() {
    for a in 0..=255u8 {
        for b in 0..=255u8 {
            let emulator = run(&[0x65, a, 0x75, b], 2);
            assert_eq!(emulator.v()[5], a.wrapping_add(b));
            assert_eq!(emulator.v()[0xF], 0);
        }
    }
}

#[test]
fn shifts_for_every_value() {
    for a in 0..=255u8 {
        let right = run(&[0x62, a, 0x82, 0x06], 2);
        assert_eq!(right.v()[2], a >> 1);
        assert_eq!(right.v()[0xF], a & 0x0F);
        let left = run(&[0x62, a, 0x82, 0x0E], 2);
        assert_eq!(left.v()[2], a << 1);
        assert_eq!(left.v()[0xF], a & 0xF0);
    }
}

#[test]
fn bitwise_operations_for_every_pair() {
    for a in 0..=255u8 {
        for b in [0x00u8, 0x0F, 0x55, 0xA3, 0xF0, 0xFF] {
            assert_eq!(run(&[0x60, a, 0x61, b, 0x80, 0x11], 3).v()[0], a | b);
            assert_eq!(run(&[0x60, a, 0x61, b, 0x80, 0x12], 3).v()[0], a & b);
            assert_eq!(run(&[0x60, a, 0x61, b, 0x80, 0x13], 3).v()[0], a ^ b);
        }
    }
}

#[test]
fn bcd_digits_give_back_every_value() {
    for value in 0..=255u8 {
        let emulator = run(&[0x60, value, 0xA4, 0x00, 0xF0, 0x33], 3);
        let digits = &emulator.memory()[0x400..0x403];
        assert!(digits.iter().all(|digit| *digit < 10));
        assert_eq!(
            100 * u16::from(digits[0]) + 10 * u16::from(digits[1]) + u16::from(digits[2]),
            u16::from(value)
        );
    }
}

#[test]
fn random_masks_every_byte() {
    for random in 0..=255u8 {
        for mask in [0x00u8, 0x01, 0x3C, 0x80, 0xFF] {
            let mut emulator = Emulator::new();
            emulator.load(&[0xC7, mask]).unwrap();
            emulator.tick_with(&Keypad::new(), false, random).unwrap();
            assert_eq!(emulator.v()[7], mask & random);
        }
    }
}

/// Draws `sprite` at (`x`, `y`) on `screen` pixel by pixel and says whether
/// a pixel was found set.
fn draw_by_hand(screen: &mut [[u8; 64]; 32], sprite: &[u8], x: u8, y: u8) -> u8 {
    let mut collision = 0;
    for (row, byte) in sprite.iter().enumerate() {
        for bit in 0..8usize {
            if byte & (0x80 >> bit) != 0 {
                let target_row = (usize::from(y) + row).min(31);
                let target_column = (usize::from(x) + bit).min(63);
                if screen[target_row][target_column] == 1 {
                    collision = 1;
                }
                screen[target_row][target_column] ^= 1;
            }
        }
    }
    collision
}

#[test]
fn drawing_agrees_with_drawing_by_hand() {
    let mut bytes = Bytes(7);
    for round in 0..300 {
        // Two sprites drawn one after the other, so that the second meets a
        // display that is not clear.
        let mut program = Vec::new();
        let mut sprites = Vec::new();
        for draw in 0..2u8 {
            let rows = bytes.next() % 16;
            let (x, y) = if round % 3 == 0 {
                (bytes.next(), bytes.next())
            } else {
                (bytes.next() % 70, bytes.next() % 36)
            };
            let sprite: Vec<u8> = (0..rows).map(|_| bytes.next()).collect();
            let at = 0x300 + 0x20 * u16::from(draw);
            program.extend_from_slice(&[
                0xA0 | (at >> 8) as u8,
                (at & 0xFF) as u8,
                0x60,
                x,
                0x61,
                y,
                0xD0,
                0x10 | rows,
            ]);
            sprites.push((sprite, x, y));
        }
        program.resize(0x100, 0);
        for (sprite, _, _) in &sprites {
            let mut padded = sprite.clone();
            padded.resize(0x20, 0);
            program.extend_from_slice(&padded);
        }
        let mut emulator = Emulator::new();
        emulator.load(&program).unwrap();
        let mut screen = [[0u8; 64]; 32];
        for (sprite, x, y) in &sprites {
            for _ in 0..4 {
                emulator.tick_with(&Keypad::new(), false, 0).unwrap();
            }
            let collision = draw_by_hand(&mut screen, sprite, *x, *y);
            assert_eq!(*emulator.gfx(), screen);
            assert_eq!(emulator.v()[0xF], collision);
        }
    }
}

#[test]
fn drawing_twice_restores_the_display_for_many_sprites() {
    let mut bytes = Bytes(99);
    for _ in 0..300 {
        let rows = bytes.next() % 16;
        let x = bytes.next();
        let y = bytes.next();
        // Glyph 8 at (1, 1) first, so that the display is not clear; then
        // the sprite twice.
        let mut program = vec![
            0xA0, 0x28, 0x60, 0x01, 0x61, 0x01, 0xD0, 0x15, 0xA3, 0x00, 0x60, x, 0x61, y, 0xD0,
            0x10 | rows, 0xD0, 0x10 | rows,
        ];
        program.resize(0x100, 0);
        for _ in 0..rows {
            program.push(bytes.next());
        }
        let mut emulator = Emulator::new();
        emulator.load(&program).unwrap();
        for _ in 0..4 {
            emulator.tick_with(&Keypad::new(), false, 0).unwrap();
        }
        let before = *emulator.gfx();
        for _ in 0..5 {
            emulator.tick_with(&Keypad::new(), false, 0).unwrap();
        }
        assert_eq!(*emulator.gfx(), before);
    }
}

#[test]
fn a_sprite_drawn_again_on_a_clear_display_collides() {
    let mut bytes = Bytes(2024);
    for _ in 0..300 {
        let rows = bytes.next() % 15 + 1;
        let x = bytes.next();
        let y = bytes.next();
        let mut sprite: Vec<u8> = (0..rows).map(|_| bytes.next()).collect();
        sprite[0] |= 0x10;
        let mut program = vec![0xA3, 0x00, 0x60, x, 0x61, y, 0xD0, 0x10 | rows, 0xD0, 0x10 | rows];
        program.resize(0x100, 0);
        program.extend_from_slice(&sprite);
        let mut emulator = Emulator::new();
        emulator.load(&program).unwrap();
        for _ in 0..5 {
            emulator.tick_with(&Keypad::new(), false, 0).unwrap();
        }
        assert_eq!(emulator.v()[0xF], 1);
        assert_eq!(*emulator.gfx(), [[0u8; 64]; 32]);
    }
}
