use wasm_chip8::instruction::{decode, Instruction};

#[test]
fn decodes_the_display_and_flow_group() {
    assert_eq!(decode(0x00E0), Instruction::ClearScreen);
    assert_eq!(decode(0x00EE), Instruction::Return);
    assert_eq!(decode(0x1ABC), Instruction::Jump { address: 0xABC });
    assert_eq!(decode(0x2FFF), Instruction::Call { address: 0xFFF });
    assert_eq!(decode(0xB123), Instruction::JumpOffset { address: 0x123 });
    assert_eq!(decode(0xA000), Instruction::SetIndex { address: 0x000 });
}

#[test]
fn decodes_the_skips() {
    assert_eq!(decode(0x3A42), Instruction::SkipIfEqualByte { x: 0xA, byte: 0x42 });
    assert_eq!(decode(0x4B43), Instruction::SkipIfNotEqualByte { x: 0xB, byte: 0x43 });
    assert_eq!(decode(0x5120), Instruction::SkipIfEqual { x: 1, y: 2 });
    assert_eq!(decode(0x9340), Instruction::SkipIfNotEqual { x: 3, y: 4 });
    assert_eq!(decode(0xE59E), Instruction::SkipIfKey { x: 5 });
    assert_eq!(decode(0xE6A1), Instruction::SkipIfNotKey { x: 6 });
}

#[test]
fn register_compare_ignores_the_low_nibble() {
    assert_eq!(decode(0x512F), Instruction::SkipIfEqual { x: 1, y: 2 });
    assert_eq!(decode(0x9347), Instruction::SkipIfNotEqual { x: 3, y: 4 });
}

#[test]
fn decodes_the_register_group() {
    assert_eq!(decode(0x6C7F), Instruction::SetByte { x: 0xC, byte: 0x7F });
    assert_eq!(decode(0x7D80), Instruction::AddByte { x: 0xD, byte: 0x80 });
    assert_eq!(decode(0x8120), Instruction::Assign { x: 1, y: 2 });
    assert_eq!(decode(0x8121), Instruction::Or { x: 1, y: 2 });
    assert_eq!(decode(0x8122), Instruction::And { x: 1, y: 2 });
    assert_eq!(decode(0x8123), Instruction::Xor { x: 1, y: 2 });
    assert_eq!(decode(0x8124), Instruction::Add { x: 1, y: 2 });
    assert_eq!(decode(0x8125), Instruction::Sub { x: 1, y: 2 });
    assert_eq!(decode(0x8126), Instruction::ShiftRight { x: 1 });
    assert_eq!(decode(0x8127), Instruction::SubFrom { x: 1, y: 2 });
    assert_eq!(decode(0x812E), Instruction::ShiftLeft { x: 1 });
    assert_eq!(decode(0xC3F0), Instruction::Random { x: 3, byte: 0xF0 });
}

#[test]
fn decodes_draw() {
    assert_eq!(decode(0xD125), Instruction::Draw { x: 1, y: 2, rows: 5 });
    assert_eq!(decode(0xDEF0), Instruction::Draw { x: 0xE, y: 0xF, rows: 0 });
    assert_eq!(decode(0xD00F), Instruction::Draw { x: 0, y: 0, rows: 15 });
}

#[test]
fn decodes_the_timer_and_memory_group() {
    assert_eq!(decode(0xF107), Instruction::GetDelay { x: 1 });
    assert_eq!(decode(0xF20A), Instruction::WaitKey { x: 2 });
    assert_eq!(decode(0xF315), Instruction::SetDelay { x: 3 });
    assert_eq!(decode(0xF418), Instruction::SetSound { x: 4 });
    assert_eq!(decode(0xF51E), Instruction::AddIndex { x: 5 });
    assert_eq!(decode(0xF629), Instruction::Glyph { x: 6 });
    assert_eq!(decode(0xF733), Instruction::Bcd { x: 7 });
    assert_eq!(decode(0xF855), Instruction::Store { x: 8 });
    assert_eq!(decode(0xF965), Instruction::Fill { x: 9 });
}

#[test]
fn unrecognised_words_decode_to_unknown() {
    for word in [
        0x0000u16, 0x00E1, 0x0123, 0x8008, 0x812F, 0x8129, 0xE000, 0xE19F, 0xF000, 0xF1FF, 0xF266,
    ] {
        assert_eq!(decode(word), Instruction::Unknown);
    }
}

#[test]
fn the_display_and_flow_group_goes_by_the_low_byte_alone() {
    assert_eq!(decode(0x0AE0), Instruction::ClearScreen);
    assert_eq!(decode(0x0FEE), Instruction::Return);
}

#[test]
fn every_word_decodes_with_fields_in_range() {
    for word in 0..=0xFFFFu16 {
        let x = ((word >> 8) & 0xF) as u8;
        let y = ((word >> 4) & 0xF) as u8;
        match decode(word) {
            Instruction::Jump { address }
            | Instruction::Call { address }
            | Instruction::SetIndex { address }
            | Instruction::JumpOffset { address } => assert_eq!(address, word & 0x0FFF),
            Instruction::Draw { x: dx, y: dy, rows } => {
                assert_eq!((dx, dy, rows), (x, y, (word & 0xF) as u8));
            }
            Instruction::SetByte { x: dx, byte } => {
                assert_eq!((dx, byte), (x, (word & 0xFF) as u8));
            }
            _ => {}
        }
    }
}
