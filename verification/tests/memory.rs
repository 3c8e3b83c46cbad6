use wasm_chip8::{AudioCommand, Emulator, Fault, Keypad};

fn loaded(program: &[u8]) -> Emulator {
    let mut emulator = Emulator::new();
    emulator.load(program).unwrap();
    emulator
}

fn tick(emulator: &mut Emulator) -> Result<AudioCommand, Fault> {
    emulator.tick_with(&Keypad::new(), false, 0)
}

#[test]
fn load_copies_the_program_to_0x200() {
    let mut emulator = Emulator::new();
    assert_eq!(emulator.load(&[0xff, 0xf0, 0xfe]), Ok(()));
    assert_eq!(emulator.memory()[0x1FF], 0);
    assert_eq!(emulator.memory()[0x200..0x204], [0xff, 0xf0, 0xfe, 0x00]);
    assert_eq!(emulator.memory()[..80], Emulator::new().memory()[..80]);
    assert_eq!(emulator.pc(), 0x200);
    assert_eq!(emulator.i(), 0x200);
}

#[test]
fn load_of_nothing_changes_nothing() {
    let mut emulator = Emulator::new();
    assert_eq!(emulator.load(&[]), Ok(()));
    assert_eq!(emulator.memory()[..], Emulator::new().memory()[..]);
}

#[test]
fn load_overwrites_what_was_there() {
    let mut emulator = Emulator::new();
    emulator.load(&[1, 2, 3, 4]).unwrap();
    emulator.load(&[9, 8]).unwrap();
    assert_eq!(emulator.memory()[0x200..0x205], [9, 8, 3, 4, 0]);
}

#[test]
fn load_takes_a_program_that_fills_memory() {
    let program: Vec<u8> = (0..3584u32).map(|k| (k % 251) as u8 + 1).collect();
    let mut emulator = Emulator::new();
    assert_eq!(emulator.load(&program), Ok(()));
    assert_eq!(emulator.memory()[0x200], 1);
    assert_eq!(emulator.memory()[0xFFF], (3583 % 251) as u8 + 1);
    assert_eq!(emulator.memory()[0x200..], program[..]);
    assert_eq!(emulator.memory()[..80], Emulator::new().memory()[..80]);
}

#[test]
fn load_refuses_a_program_that_does_not_fit() {
    let program = vec![0xAAu8; 3585];
    let mut emulator = Emulator::new();
    emulator.load(&[1, 2]).unwrap();
    assert_eq!(emulator.load(&program), Err(Fault::ProgramTooLarge));
    assert_eq!(emulator.memory()[0x200..0x203], [1, 2, 0]);
    assert_eq!(emulator.memory()[0xFFF], 0);
    assert_eq!(emulator.memory()[..80], Emulator::new().memory()[..80]);
    assert_eq!(emulator.load(&vec![0u8; 100_000]), Err(Fault::ProgramTooLarge));
}

#[test]
fn set_index() {
    let mut emulator = loaded(&[0xAF, 0xFF]);
    tick(&mut emulator).unwrap();
    assert_eq!(emulator.i(), 0xFFF);
    assert_eq!(emulator.pc(), 0x202);
}

#[test]
fn add_to_index() {
    let mut emulator = loaded(&[0xA1, 0x00, 0x64, 0xFF, 0xF4, 0x1E]);
    for _ in 0..3 {
        tick(&mut emulator).unwrap();
    }
    assert_eq!(emulator.i(), 0x1FF);
    assert_eq!(emulator.v()[0xF], 0);
    assert_eq!(emulator.pc(), 0x206);
}

#[test]
fn add_to_index_may_leave_memory_and_wraps_at_sixteen_bits() {
    // V0 = 255; then I = I + V0 over and over.
    let mut emulator = loaded(&[0x60, 0xFF, 0xF0, 0x1E, 0x12, 0x02]);
    tick(&mut emulator).unwrap();
    for adds in 1..=255u32 {
        tick(&mut emulator).unwrap();
        if adds < 255 {
            assert_eq!(u32::from(emulator.i()), 0x200 + 255 * adds);
            tick(&mut emulator).unwrap();
        }
    }
    // 0x200 + 255 * 255 = 65537.
    assert_eq!(emulator.i(), 1);
}

#[test]
fn glyph_address_is_five_times_the_value() {
    let mut emulator =
        loaded(&[0x60, 0x0A, 0xF0, 0x29, 0x60, 0x00, 0xF0, 0x29, 0x60, 0xFF, 0xF0, 0x29]);
    tick(&mut emulator).unwrap();
    tick(&mut emulator).unwrap();
    assert_eq!(emulator.i(), 50);
    tick(&mut emulator).unwrap();
    tick(&mut emulator).unwrap();
    assert_eq!(emulator.i(), 0);
    tick(&mut emulator).unwrap();
    tick(&mut emulator).unwrap();
    assert_eq!(emulator.i(), 1275);
}

#[test]
fn glyph_address_points_at_the_glyph() {
    let mut emulator = loaded(&[0x60, 0x07, 0xF0, 0x29]);
    tick(&mut emulator).unwrap();
    tick(&mut emulator).unwrap();
    let at = usize::from(emulator.i());
    assert_eq!(emulator.memory()[at..at + 5], [0xF0, 0x10, 0x20, 0x40, 0x40]);
}

#[test]
fn bcd_stores_hundreds_tens_and_ones() {
    for (value, digits) in [
        (254u8, [2u8, 5, 4]),
        (0, [0, 0, 0]),
        (255, [2, 5, 5]),
        (7, [0, 0, 7]),
        (100, [1, 0, 0]),
        (199, [1, 9, 9]),
        (90, [0, 9, 0]),
    ] {
        let mut emulator = loaded(&[0x62, value, 0xA3, 0x00, 0xF2, 0x33]);
        for _ in 0..3 {
            tick(&mut emulator).unwrap();
        }
        assert_eq!(emulator.memory()[0x300..0x303], digits);
        assert_eq!(emulator.memory()[0x303], 0);
        assert_eq!(emulator.memory()[0x2FF], 0);
        assert_eq!(emulator.i(), 0x300);
        assert_eq!(emulator.pc(), 0x206);
    }
}

#[test]
fn bcd_past_memory_is_a_fault() {
    let mut fits = loaded(&[0x62, 0x7B, 0xAF, 0xFD, 0xF2, 0x33]);
    for _ in 0..3 {
        tick(&mut fits).unwrap();
    }
    assert_eq!(fits.memory()[0xFFD..], [1, 2, 3]);
    let mut past = loaded(&[0x62, 0x7B, 0xAF, 0xFE, 0xF2, 0x33]);
    tick(&mut past).unwrap();
    tick(&mut past).unwrap();
    assert_eq!(tick(&mut past), Err(Fault::MemoryOutOfRange));
    assert_eq!(past.memory()[0xFFE..], [0, 0]);
    assert_eq!(past.pc(), 0x204);
}

#[test]
fn store_writes_registers_zero_to_x() {
    let mut emulator =
        loaded(&[0x60, 0x11, 0x61, 0x22, 0x62, 0x33, 0x63, 0x44, 0xA3, 0x00, 0xF2, 0x55]);
    for _ in 0..6 {
        tick(&mut emulator).unwrap();
    }
    assert_eq!(emulator.memory()[0x2FF..0x305], [0, 0x11, 0x22, 0x33, 0, 0]);
    assert_eq!(emulator.i(), 0x300);
    assert_eq!(emulator.pc(), 0x20C);
}

#[test]
fn store_of_register_zero_alone() {
    let mut emulator = loaded(&[0x60, 0x11, 0x61, 0x22, 0xAF, 0xFF, 0xF0, 0x55]);
    for _ in 0..4 {
        tick(&mut emulator).unwrap();
    }
    assert_eq!(emulator.memory()[0xFFF], 0x11);
    assert_eq!(emulator.memory()[0xFFE], 0);
}

#[test]
fn store_of_all_sixteen_registers() {
    let mut program = Vec::new();
    for x in 0..16u8 {
        program.push(0x60 | x);
        program.push(0xA0 + x);
    }
    program.extend_from_slice(&[0xA4, 0x00, 0xFF, 0x55]);
    let mut emulator = loaded(&program);
    for _ in 0..18 {
        tick(&mut emulator).unwrap();
    }
    for x in 0..16usize {
        assert_eq!(emulator.memory()[0x400 + x], 0xA0 + x as u8);
    }
    assert_eq!(emulator.memory()[0x410], 0);
}

#[test]
fn store_past_memory_is_a_fault_and_writes_nothing() {
    let mut emulator = loaded(&[0x60, 0x11, 0x61, 0x22, 0xAF, 0xFF, 0xF1, 0x55]);
    for _ in 0..3 {
        tick(&mut emulator).unwrap();
    }
    assert_eq!(tick(&mut emulator), Err(Fault::MemoryOutOfRange));
    assert_eq!(emulator.memory()[0xFFF], 0);
    assert_eq!(emulator.pc(), 0x206);
    assert_eq!(emulator.opcode(), 0xAFFF);
}

#[test]
fn fill_reads_registers_zero_to_x() {
    // Fill V0..V2 from the program's own bytes at 0x200.
    let mut emulator = loaded(&[0x63, 0x99, 0xA2, 0x00, 0xF2, 0x65]);
    for _ in 0..3 {
        tick(&mut emulator).unwrap();
    }
    assert_eq!(emulator.v()[..5], [0x63, 0x99, 0xA2, 0x99, 0x00]);
    assert_eq!(emulator.i(), 0x200);
    assert_eq!(emulator.pc(), 0x206);
}

#[test]
fn fill_after_store_brings_the_registers_back() {
    let mut emulator = loaded(&[
        0x60, 0x11, 0x61, 0x22, 0xA3, 0x00, 0xF1, 0x55, 0x60, 0x00, 0x61, 0x00, 0xF1, 0x65,
    ]);
    for _ in 0..6 {
        tick(&mut emulator).unwrap();
    }
    assert_eq!(emulator.v()[..2], [0, 0]);
    tick(&mut emulator).unwrap();
    assert_eq!(emulator.v()[..3], [0x11, 0x22, 0]);
}

#[test]
fn fill_past_memory_is_a_fault_and_keeps_the_registers() {
    let mut emulator = loaded(&[0x60, 0x11, 0x61, 0x22, 0xAF, 0xFF, 0xF1, 0x65]);
    for _ in 0..3 {
        tick(&mut emulator).unwrap();
    }
    assert_eq!(tick(&mut emulator), Err(Fault::MemoryOutOfRange));
    assert_eq!(emulator.v()[..2], [0x11, 0x22]);
    assert_eq!(emulator.pc(), 0x206);
}

#[test]
fn fill_of_the_last_byte_of_memory() {
    let mut emulator = loaded(&[0x60, 0x11, 0xAF, 0xFF, 0xF0, 0x65]);
    for _ in 0..3 {
        tick(&mut emulator).unwrap();
    }
    assert_eq!(emulator.v()[0], 0);
}

#[test]
fn an_index_past_memory_faults_only_when_used() {
    // I = 0xFFF + 0xFF; setting it is fine, storing through it is not.
    let mut emulator = loaded(&[0x60, 0xFF, 0xAF, 0xFF, 0xF0, 0x1E, 0xF0, 0x55]);
    for _ in 0..3 {
        tick(&mut emulator).unwrap();
    }
    assert_eq!(emulator.i(), 0x10FE);
    assert_eq!(tick(&mut emulator), Err(Fault::MemoryOutOfRange));
    assert_eq!(emulator.i(), 0x10FE);
}
