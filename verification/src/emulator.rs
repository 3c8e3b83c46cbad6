//! The interpreter: the machine in executable form, one instruction per
//! tick.

use crate::audio::{audio_command, AudioCommand};
use crate::display::{blit, cell_of, FrameBuffer};
use crate::fault::Fault;
use crate::font::{lemma_fontset_holds_glyphs, CHIP8_FONTSET, FONTSET_SIZE};
use crate::instruction::{decode, decode_word, lemma_decode_word_wf, Instruction};
use crate::keypad::{key_down, Keypad};
use crate::machine::{Machine, MEMORY_SIZE, PROGRAM_START};
use crate::rng::random_byte;
use crate::{CHIP8_DISPLAY_HEIGHT, CHIP8_DISPLAY_WIDTH};
use vstd::prelude::*;

verus! {

/// The call stack as a sequence of addresses.
pub open spec fn stack_of(stack: Seq<usize>) -> Seq<int> {
    Seq::new(stack.len(), |k: int| stack[k] as int)
}

/// Whether `result` and the machine `after` are what `expected` asks for:
/// on success the machine that it names, on a fault that fault and the
/// machine as it was `before`.
pub open spec fn outcome_is(
    before: Machine,
    after: Machine,
    result: Result<(), Fault>,
    expected: Result<Machine, Fault>,
) -> bool {
    match expected {
        Ok(machine) => result is Ok && after == machine,
        Err(fault) => result == Err::<(), Fault>(fault) && after == before,
    }
}

/// Whether `result` and the machine `after` are what the step `expected`
/// asks for: on success the machine and the audio command that it names, on
/// a fault that fault and the machine as it was `before`.
pub open spec fn tick_outcome_is(
    before: Machine,
    after: Machine,
    result: Result<AudioCommand, Fault>,
    expected: Result<(Machine, AudioCommand), Fault>,
) -> bool {
    match expected {
        Ok(stepped) => result == Ok::<AudioCommand, Fault>(stepped.1) && after == stepped.0,
        Err(fault) => result == Err::<AudioCommand, Fault>(fault) && after == before,
    }
}

/// Representation of the CHIP8 emulator.
pub struct Emulator {
    // The instruction word executed last.
    opcode: u16,
    // The index register, which usually holds a pointer into memory.
    i: u16,
    // 4096 bytes of memory. Programs are loaded at 0x200; the glyph set lies
    // from address 0.
    memory: [u8; 4096],
    // 16 one-byte registers. V0 to VE hold data, VF doubles as the flag.
    v: [u8; 16],
    // Return addresses of the subroutines being executed.
    stack: Vec<usize>,
    // The address of the next instruction.
    pc: usize,
    // The display.
    gfx: FrameBuffer,
    draw_flag: bool,
    delay_timer: u8,
    sound_timer: u8,
}

impl View for Emulator {
    type V = Machine;

    closed spec fn view(&self) -> Machine {
        Machine {
            opcode: self.opcode,
            i: self.i as int,
            memory: self.memory@,
            v: self.v@,
            stack: stack_of(self.stack@),
            pc: self.pc as int,
            screen: self.gfx@,
            redraw: self.draw_flag,
            delay_timer: self.delay_timer,
            sound_timer: self.sound_timer,
        }
    }
}

impl Emulator {
    /// The model of an emulator has its parts at their sizes.
    pub proof fn lemma_view_wf(&self)
        ensures
            self@.wf(),
    {
        self.gfx.lemma_view_wf();
    }

    /// Create new Emulator.
    pub fn new() -> (emulator: Emulator)
        ensures
            emulator@ == Machine::baseline(),
    {
        Emulator {
            pc: 0x200,
            i: 0x200,
            opcode: 0,
            stack: Vec::new(),
            v: [0; 16],
            delay_timer: 0,
            sound_timer: 0,
            gfx: FrameBuffer::new(),
            draw_flag: false,
            memory: Emulator::prepare_memory(),
        }
    }

    /// Resets emulator properties to their initial values.
    pub fn reset(&mut self)
        ensures
            final(self)@ == Machine::baseline(),
    {
        self.pc = 0x200;
        self.i = 0x200;
        self.opcode = 0;
        self.stack = Vec::new();
        self.v = [0; 16];
        self.delay_timer = 0;
        self.sound_timer = 0;
        self.gfx = FrameBuffer::new();
        self.draw_flag = false;
        self.memory = Emulator::prepare_memory();
    }

    /// The frame buffer: 32 rows of 64 cells, 1 where the pixel is set and
    /// 0 where it is clear.
    pub fn gfx(&self) -> (gfx: &[[u8; CHIP8_DISPLAY_WIDTH]; CHIP8_DISPLAY_HEIGHT])
        ensures
            forall|row: int, column: int|
                0 <= row < 32 && 0 <= column < 64 ==> #[trigger] gfx[row][column] == cell_of(
                    self@.screen[row][column],
                ),
    {
        self.gfx.cells()
    }

    /// Loads program to the emulator's memory, from address 0x200 on. A
    /// program of more than 3584 bytes does not fit and is refused, with
    /// the machine unchanged.
    pub fn load(&mut self, program: &[u8]) -> (result: Result<(), Fault>)
        ensures
            outcome_is(old(self)@, final(self)@, result, old(self)@.load(program@)),
    {
        if program.len() > MEMORY_SIZE - PROGRAM_START {
            return Err(Fault::ProgramTooLarge);
        }
        let mut k: usize = 0;
        while k < program.len()
            invariant
                k <= program.len() <= 4096 - 0x200,
                self@ == (Machine { memory: self@.memory, ..old(self)@ }),
                self@.memory.len() == 4096,
                forall|a: int|
                    0 <= a < 4096 ==> self@.memory[a] == if 0x200 <= a < 0x200 + k {
                        program@[a - 0x200]
                    } else {
                        old(self)@.memory[a]
                    },
            decreases program.len() - k,
        {
            self.memory[k + PROGRAM_START] = program[k];
            k += 1;
        }
        assert(self@.memory =~= old(self)@.load(program@)->Ok_0.memory);
        Ok(())
    }

    /// Run one step ("tick") of the program: loads the opcode at the
    /// program counter, processes it, then steps the timers. `keypad` holds
    /// the keys that are down and `audio_active` says whether the audio
    /// device is active; the result is what the host owes the audio device.
    /// A `Random` instruction draws its byte from the thread's generator, so
    /// the tick is the step for some byte; for every other instruction the
    /// byte does not matter. A fault leaves the machine unchanged.
    pub fn tick(&mut self, keypad: &Keypad, audio_active: bool) -> (result: Result<
        AudioCommand,
        Fault,
    >)
        ensures
            exists|random: u8|
                tick_outcome_is(
                    old(self)@,
                    final(self)@,
                    result,
                    #[trigger] old(self)@.step(keypad@, audio_active, random),
                ),
            !(old(self)@.next_instruction() matches Some(Instruction::Random { .. }))
                ==> tick_outcome_is(
                old(self)@,
                final(self)@,
                result,
                old(self)@.step(keypad@, audio_active, 0),
            ),
    {
        let word: u16 = match self.get_opcode() {
            Ok(word) => word,
            Err(fault) => {
                assert(tick_outcome_is(
                    self@,
                    self@,
                    Err(fault),
                    self@.step(keypad@, audio_active, 0),
                ));
                return Err(fault);
            },
        };
        let instruction = decode(word);
        let random: u8 = match instruction {
            Instruction::Random { .. } => random_byte(),
            _ => 0,
        };
        self.perform(word, instruction, keypad, audio_active, random)
    }

    /// One tick with `random` as the byte that a `Random` instruction uses:
    /// exactly the step of the machine. A fault leaves the machine
    /// unchanged.
    pub fn tick_with(&mut self, keypad: &Keypad, audio_active: bool, random: u8) -> (result: Result<
        AudioCommand,
        Fault,
    >)
        ensures
            tick_outcome_is(
                old(self)@,
                final(self)@,
                result,
                old(self)@.step(keypad@, audio_active, random),
            ),
    {
        let word: u16 = match self.get_opcode() {
            Ok(word) => word,
            Err(fault) => {
                return Err(fault);
            },
        };
        let instruction = decode(word);
        self.perform(word, instruction, keypad, audio_active, random)
    }

    fn perform(
        &mut self,
        word: u16,
        instruction: Instruction,
        keypad: &Keypad,
        audio_active: bool,
        random: u8,
    ) -> (result: Result<AudioCommand, Fault>)
        requires
            old(self)@.fetch() == Ok::<u16, Fault>(word),
            instruction == decode_word(word),
        ensures
            tick_outcome_is(
                old(self)@,
                final(self)@,
                result,
                old(self)@.step(keypad@, audio_active, random),
            ),
    {
        proof {
            lemma_decode_word_wf(word);
        }
        match self.execute(instruction, keypad, random) {
            Ok(()) => {
                self.opcode = word;
                Ok(self.step_timers(audio_active))
            },
            Err(fault) => Err(fault),
        }
    }

    fn execute(&mut self, instruction: Instruction, keypad: &Keypad, random: u8) -> (result: Result<
        (),
        Fault,
    >)
        requires
            instruction.wf(),
            old(self)@.pc < 4096,
        ensures
            outcome_is(
                old(self)@,
                final(self)@,
                result,
                old(self)@.execute(instruction, keypad@, random),
            ),
    {
        match instruction {
            Instruction::ClearScreen => {
                self.clear_screen();
                Ok(())
            },
            Instruction::Return => self.return_from_subroutine(),
            Instruction::Jump { address } => {
                self.jump(address as usize);
                Ok(())
            },
            Instruction::Call { address } => {
                self.call_subroutine(address as usize);
                Ok(())
            },
            Instruction::SkipIfEqualByte { x, byte } => {
                self.skip_eq(self.v[x as usize], byte);
                Ok(())
            },
            Instruction::SkipIfNotEqualByte { x, byte } => {
                self.skip_neq(self.v[x as usize], byte);
                Ok(())
            },
            Instruction::SkipIfEqual { x, y } => {
                self.skip_eq(self.v[x as usize], self.v[y as usize]);
                Ok(())
            },
            Instruction::SetByte { x, byte } => {
                self.set_v(x as usize, byte);
                Ok(())
            },
            Instruction::AddByte { x, byte } => {
                self.add_to_v(x as usize, byte);
                Ok(())
            },
            Instruction::Assign { x, y } => {
                self.set_v(x as usize, self.v[y as usize]);
                Ok(())
            },
            Instruction::Or { x, y } => {
                self.set_v(x as usize, self.v[x as usize] | self.v[y as usize]);
                Ok(())
            },
            Instruction::And { x, y } => {
                self.set_v(x as usize, self.v[x as usize] & self.v[y as usize]);
                Ok(())
            },
            Instruction::Xor { x, y } => {
                self.set_v(x as usize, self.v[x as usize] ^ self.v[y as usize]);
                Ok(())
            },
            Instruction::Add { x, y } => {
                self.add_vx_vy(x as usize, y as usize);
                Ok(())
            },
            Instruction::Sub { x, y } => {
                self.sub_vx_vy(x as usize, y as usize);
                Ok(())
            },
            Instruction::ShiftRight { x } => {
                self.shift_vx_right(x as usize);
                Ok(())
            },
            Instruction::SubFrom { x, y } => {
                self.sub_vy_vx(x as usize, y as usize);
                Ok(())
            },
            Instruction::ShiftLeft { x } => {
                self.shift_vx_left(x as usize);
                Ok(())
            },
            Instruction::SkipIfNotEqual { x, y } => {
                self.skip_neq(self.v[x as usize], self.v[y as usize]);
                Ok(())
            },
            Instruction::SetIndex { address } => {
                self.set_i(address);
                Ok(())
            },
            Instruction::JumpOffset { address } => {
                self.jump((address + self.v[0] as u16) as usize);
                Ok(())
            },
            Instruction::Random { x, byte } => {
                self.set_v(x as usize, byte & random);
                Ok(())
            },
            Instruction::Draw { x, y, rows } => self.draw_sprite(
                self.v[x as usize],
                self.v[y as usize],
                rows,
            ),
            Instruction::SkipIfKey { x } => {
                self.skip_key_pressed(keypad, self.v[x as usize]);
                Ok(())
            },
            Instruction::SkipIfNotKey { x } => {
                self.skip_key_not_pressed(keypad, self.v[x as usize]);
                Ok(())
            },
            Instruction::GetDelay { x } => {
                self.set_v(x as usize, self.delay_timer);
                Ok(())
            },
            Instruction::WaitKey { x } => {
                self.wait_key(keypad, x as usize);
                Ok(())
            },
            Instruction::SetDelay { x } => {
                self.set_delay_timer(self.v[x as usize]);
                Ok(())
            },
            Instruction::SetSound { x } => {
                self.set_sound_timer(self.v[x as usize]);
                Ok(())
            },
            Instruction::AddIndex { x } => {
                self.set_i(self.i.wrapping_add(self.v[x as usize] as u16));
                Ok(())
            },
            Instruction::Glyph { x } => {
                self.set_i(self.v[x as usize] as u16 * 5);
                Ok(())
            },
            Instruction::Bcd { x } => self.set_bcd(self.v[x as usize]),
            Instruction::Store { x } => self.store_v(x as usize),
            Instruction::Fill { x } => self.fill_v(x as usize),
            Instruction::Unknown => {
                self.next_opcode();
                Ok(())
            },
        }
    }

    fn step_timers(&mut self, audio_active: bool) -> (command: AudioCommand)
        ensures
            final(self)@ == old(self)@.run_timers(),
            command == audio_command(old(self)@.sound_timer, audio_active),
    {
        let mut start: bool = false;
        let mut stop: bool = false;
        if self.delay_timer > 0 {
            self.delay_timer -= 1;
        }
        if self.sound_timer > 0 {
            if !audio_active {
                start = true;
            }
            self.sound_timer -= 1;
            if self.sound_timer == 0 {
                stop = true;
            }
        }
        if start && stop {
            AudioCommand::StartThenStop
        } else if start {
            AudioCommand::Start
        } else if stop {
            AudioCommand::Stop
        } else {
            AudioCommand::Idle
        }
    }

    /// The address of the next instruction.
    pub fn pc(&self) -> (pc: usize)
        ensures
            pc == self@.pc,
    {
        self.pc
    }

    /// The index register.
    pub fn i(&self) -> (i: u16)
        ensures
            i == self@.i,
    {
        self.i
    }

    /// The sixteen registers `V0` to `VF`.
    pub fn v(&self) -> (v: &[u8; 16])
        ensures
            v@ == self@.v,
    {
        &self.v
    }

    /// The 4096 bytes of memory.
    pub fn memory(&self) -> (memory: &[u8; 4096])
        ensures
            memory@ == self@.memory,
    {
        &self.memory
    }

    /// The return addresses on the call stack, innermost last.
    pub fn stack(&self) -> (stack: &[usize])
        ensures
            stack_of(stack@) == self@.stack,
    {
        self.stack.as_slice()
    }

    /// The instruction word executed last, 0 before the first.
    pub fn opcode(&self) -> (opcode: u16)
        ensures
            opcode == self@.opcode,
    {
        self.opcode
    }

    /// Whether the display has been written since the emulator was
    /// created or reset. The emulator never clears the flag otherwise: a
    /// host that draws only on change keeps its own record of what it has
    /// drawn.
    pub fn draw_flag(&self) -> (draw_flag: bool)
        ensures
            draw_flag == self@.redraw,
    {
        self.draw_flag
    }

    /// The delay timer.
    pub fn delay_timer(&self) -> (delay_timer: u8)
        ensures
            delay_timer == self@.delay_timer,
    {
        self.delay_timer
    }

    /// The sound timer.
    pub fn sound_timer(&self) -> (sound_timer: u8)
        ensures
            sound_timer == self@.sound_timer,
    {
        self.sound_timer
    }

    fn prepare_memory() -> (memory: [u8; 4096])
        ensures
            memory@ == Machine::baseline().memory,
    {
        let mut memory: [u8; 4096] = [0; 4096];
        let mut k: usize = 0;
        while k < FONTSET_SIZE
            invariant
                k <= 80,
                forall|a: int| 0 <= a < k ==> memory@[a] == CHIP8_FONTSET@[a],
                forall|a: int| k <= a < 4096 ==> memory@[a] == 0,
            decreases 80 - k,
        {
            memory[k] = CHIP8_FONTSET[k];
            k += 1;
        }
        proof {
            lemma_fontset_holds_glyphs();
        }
        memory
    }

    fn draw_sprite(&mut self, vx: u8, vy: u8, height: u8) -> (result: Result<(), Fault>)
        requires
            old(self)@.pc < 4096,
        ensures
            outcome_is(old(self)@, final(self)@, result, old(self)@.draw_sprite(vx, vy, height)),
    {
        let from: usize = self.i as usize;
        let rows: usize = height as usize;
        if from + rows > MEMORY_SIZE {
            return Err(Fault::MemoryOutOfRange);
        }
        let ghost sprite = self@.memory.subrange(from as int, from + rows);
        let ghost screen = self@.screen;
        let mut flipped: u8 = 0;
        let mut y: usize = 0;
        while y < rows
            invariant
                y <= rows,
                rows < 256,
                from + rows <= 4096,
                sprite == old(self)@.memory.subrange(from as int, from + rows),
                screen == old(self)@.screen,
                self@ == (Machine { screen: self@.screen, ..old(self)@ }),
                flipped <= 1,
                blit(screen, sprite, vx as int, vy as int, (8 * y) as nat) == (
                    self@.screen,
                    flipped == 1,
                ),
            decreases rows - y,
        {
            let row: u8 = self.memory[from + y];
            let mut x: u8 = 0;
            while x < 8
                invariant
                    x <= 8,
                    y < rows,
                    rows < 256,
                    from + rows <= 4096,
                    sprite == old(self)@.memory.subrange(from as int, from + rows),
                    screen == old(self)@.screen,
                    row == sprite[y as int],
                    self@ == (Machine { screen: self@.screen, ..old(self)@ }),
                    flipped <= 1,
                    blit(screen, sprite, vx as int, vy as int, (8 * y + x) as nat) == (
                        self@.screen,
                        flipped == 1,
                    ),
                decreases 8 - x,
            {
                let ghost shift: u8 = (7 - x) as u8;
                assert((row & (0x80u8 >> x) != 0) == ((row >> shift) & 1u8 == 1u8)) by (bit_vector)
                    requires
                        x < 8,
                        shift == 7 - x,
                ;
                if row & (0x80 >> x) != 0 {
                    let mut ty: usize = vy as usize + y;
                    let mut tx: usize = vx as usize + x as usize;
                    if ty >= 32 {
                        ty = 31;
                    }
                    if tx >= 64 {
                        tx = 63;
                    }
                    if self.gfx.flip(ty, tx) {
                        flipped = 1;
                    }
                }
                x += 1;
            }
            y += 1;
        }
        self.v[0xf] = flipped;
        self.draw_flag = true;
        self.next_opcode();
        Ok(())
    }

    fn get_opcode(&self) -> (word: Result<u16, Fault>)
        ensures
            word == self@.fetch(),
    {
        if self.pc >= MEMORY_SIZE - 1 {
            return Err(Fault::MemoryOutOfRange);
        }
        let high: u16 = self.memory[self.pc] as u16;
        let low: u16 = self.memory[self.pc + 1] as u16;
        assert(high << 8 | low == high * 256 + low) by (bit_vector)
            requires
                high < 256,
                low < 256,
        ;
        Ok(high << 8 | low)
    }

    fn next_opcode(&mut self)
        requires
            old(self)@.pc < 4096,
        ensures
            final(self)@ == old(self)@.next_opcode(),
    {
        self.pc += 2;
    }

    fn skip_opcode(&mut self)
        requires
            old(self)@.pc < 4096,
        ensures
            final(self)@ == old(self)@.skip_opcode(),
    {
        self.pc += 4;
    }

    fn clear_screen(&mut self)
        requires
            old(self)@.pc < 4096,
        ensures
            final(self)@ == old(self)@.clear_screen(),
    {
        self.gfx = FrameBuffer::new();
        self.draw_flag = true;
        self.next_opcode();
    }

    fn return_from_subroutine(&mut self) -> (result: Result<(), Fault>)
        ensures
            outcome_is(old(self)@, final(self)@, result, old(self)@.return_from_subroutine()),
    {
        match self.stack.pop() {
            Some(address) => {
                self.pc = address;
                assert(self@.stack =~= old(self)@.stack.drop_last());
                Ok(())
            },
            None => Err(Fault::StackUnderflow),
        }
    }

    fn jump(&mut self, address: usize)
        ensures
            final(self)@ == old(self)@.jump(address as int),
    {
        self.pc = address;
    }

    fn call_subroutine(&mut self, address: usize)
        requires
            old(self)@.pc < 4096,
        ensures
            final(self)@ == old(self)@.call_subroutine(address as int),
    {
        self.stack.push(self.pc + 2);
        self.pc = address;
    }

    fn skip_if(&mut self, cond: bool)
        requires
            old(self)@.pc < 4096,
        ensures
            final(self)@ == old(self)@.skip_if(cond),
    {
        if cond {
            self.skip_opcode();
        } else {
            self.next_opcode();
        }
    }

    fn skip_eq(&mut self, a: u8, b: u8)
        requires
            old(self)@.pc < 4096,
        ensures
            final(self)@ == old(self)@.skip_if(a == b),
    {
        self.skip_if(a == b);
    }

    fn skip_neq(&mut self, a: u8, b: u8)
        requires
            old(self)@.pc < 4096,
        ensures
            final(self)@ == old(self)@.skip_if(a != b),
    {
        self.skip_if(a != b);
    }

    fn set_v(&mut self, x: usize, value: u8)
        requires
            x < 16,
            old(self)@.pc < 4096,
        ensures
            final(self)@ == old(self)@.set_v(x as int, value),
    {
        self.v[x] = value;
        self.next_opcode();
    }

    fn add_to_v(&mut self, x: usize, value: u8)
        requires
            x < 16,
            old(self)@.pc < 4096,
        ensures
            final(self)@ == old(self)@.add_to_v(x as int, value),
    {
        self.v[x] = self.v[x].wrapping_add(value);
        self.next_opcode();
    }

    fn add_vx_vy(&mut self, x: usize, y: usize)
        requires
            x < 16,
            y < 16,
            old(self)@.pc < 4096,
        ensures
            final(self)@ == old(self)@.add_vx_vy(x as int, y as int),
    {
        self.v[0xf] = if self.v[y] > (0xff - self.v[x]) {
            1
        } else {
            0
        };
        self.v[x] = self.v[x].wrapping_add(self.v[y]);
        self.next_opcode();
    }

    fn sub_vx_vy(&mut self, x: usize, y: usize)
        requires
            x < 16,
            y < 16,
            old(self)@.pc < 4096,
        ensures
            final(self)@ == old(self)@.sub_vx_vy(x as int, y as int),
    {
        self.v[0xf] = if self.v[y] > self.v[x] {
            0
        } else {
            1
        };
        self.v[x] = self.v[x].wrapping_sub(self.v[y]);
        self.next_opcode();
    }

    fn sub_vy_vx(&mut self, x: usize, y: usize)
        requires
            x < 16,
            y < 16,
            old(self)@.pc < 4096,
        ensures
            final(self)@ == old(self)@.sub_vy_vx(x as int, y as int),
    {
        self.v[0xf] = if self.v[y] < self.v[x] {
            0
        } else {
            1
        };
        self.v[x] = self.v[y].wrapping_sub(self.v[x]);
        self.next_opcode();
    }

    fn shift_vx_right(&mut self, x: usize)
        requires
            x < 16,
            old(self)@.pc < 4096,
        ensures
            final(self)@ == old(self)@.shift_vx_right(x as int),
    {
        let source: u8 = self.v[x];
        assert(source & 0x0f == source % 16) by (bit_vector);
        self.v[0xf] = self.v[x] & 0x0f;
        let flagged: u8 = self.v[x];
        assert(flagged >> 1 == flagged / 2) by (bit_vector);
        self.v[x] >>= 1;
        self.next_opcode();
    }

    fn shift_vx_left(&mut self, x: usize)
        requires
            x < 16,
            old(self)@.pc < 4096,
        ensures
            final(self)@ == old(self)@.shift_vx_left(x as int),
    {
        let source: u8 = self.v[x];
        assert(source & 0xf0 == source - source % 16) by (bit_vector);
        self.v[0xf] = self.v[x] & 0xf0;
        let flagged: u8 = self.v[x];
        assert(flagged << 1 == (flagged * 2) % 256) by (bit_vector);
        self.v[x] <<= 1;
        self.next_opcode();
    }

    fn set_i(&mut self, value: u16)
        requires
            old(self)@.pc < 4096,
        ensures
            final(self)@ == old(self)@.set_i(value as int),
    {
        self.i = value;
        self.next_opcode();
    }

    fn skip_key_pressed(&mut self, keypad: &Keypad, key: u8)
        requires
            old(self)@.pc < 4096,
        ensures
            final(self)@ == old(self)@.skip_if(key_down(keypad@, key as int)),
    {
        self.skip_if(keypad.is_key_pressed(key));
    }

    fn skip_key_not_pressed(&mut self, keypad: &Keypad, key: u8)
        requires
            old(self)@.pc < 4096,
        ensures
            final(self)@ == old(self)@.skip_if(!key_down(keypad@, key as int)),
    {
        self.skip_if(!keypad.is_key_pressed(key));
    }

    fn wait_key(&mut self, keypad: &Keypad, x: usize)
        requires
            x < 16,
            old(self)@.pc < 4096,
        ensures
            final(self)@ == old(self)@.wait_key(x as int, keypad@),
    {
        match keypad.first_pressed() {
            Some(key) => {
                self.set_v(x, key);
            },
            None => {},
        }
    }

    fn set_delay_timer(&mut self, value: u8)
        requires
            old(self)@.pc < 4096,
        ensures
            final(self)@ == old(self)@.set_delay_timer(value),
    {
        self.delay_timer = value;
        self.next_opcode();
    }

    fn set_sound_timer(&mut self, value: u8)
        requires
            old(self)@.pc < 4096,
        ensures
            final(self)@ == old(self)@.set_sound_timer(value),
    {
        self.sound_timer = value;
        self.next_opcode();
    }

    fn set_bcd(&mut self, vx: u8) -> (result: Result<(), Fault>)
        requires
            old(self)@.pc < 4096,
        ensures
            outcome_is(old(self)@, final(self)@, result, old(self)@.set_bcd(vx)),
    {
        let base: usize = self.i as usize;
        if base + 2 >= MEMORY_SIZE {
            return Err(Fault::MemoryOutOfRange);
        }
        self.memory[base] = vx / 100;
        self.memory[base + 1] = (vx / 10) % 10;
        self.memory[base + 2] = (vx % 100) % 10;
        self.next_opcode();
        Ok(())
    }

    fn store_v(&mut self, x: usize) -> (result: Result<(), Fault>)
        requires
            x < 16,
            old(self)@.pc < 4096,
        ensures
            outcome_is(old(self)@, final(self)@, result, old(self)@.store_v(x as int)),
    {
        let base: usize = self.i as usize;
        if base + x >= MEMORY_SIZE {
            return Err(Fault::MemoryOutOfRange);
        }
        let mut r: usize = 0;
        while r <= x
            invariant
                r <= x + 1,
                x < 16,
                base + x < 4096,
                base == old(self)@.i,
                self@ == (Machine { memory: self@.memory, ..old(self)@ }),
                self@.memory.len() == 4096,
                forall|a: int|
                    0 <= a < 4096 ==> self@.memory[a] == if base <= a < base + r {
                        old(self)@.v[a - base]
                    } else {
                        old(self)@.memory[a]
                    },
            decreases x + 1 - r,
        {
            self.memory[base + r] = self.v[r];
            r += 1;
        }
        self.next_opcode();
        assert(self@.memory =~= old(self)@.store_v(x as int)->Ok_0.memory);
        Ok(())
    }

    fn fill_v(&mut self, x: usize) -> (result: Result<(), Fault>)
        requires
            x < 16,
            old(self)@.pc < 4096,
        ensures
            outcome_is(old(self)@, final(self)@, result, old(self)@.fill_v(x as int)),
    {
        let base: usize = self.i as usize;
        if base + x >= MEMORY_SIZE {
            return Err(Fault::MemoryOutOfRange);
        }
        let mut r: usize = 0;
        while r <= x
            invariant
                r <= x + 1,
                x < 16,
                base + x < 4096,
                base == old(self)@.i,
                self@ == (Machine { v: self@.v, ..old(self)@ }),
                self@.v.len() == 16,
                forall|k: int|
                    0 <= k < 16 ==> self@.v[k] == if k < r {
                        old(self)@.memory[base + k]
                    } else {
                        old(self)@.v[k]
                    },
            decreases x + 1 - r,
        {
            self.v[r] = self.memory[base + r];
            r += 1;
        }
        self.next_opcode();
        assert(self@.v =~= old(self)@.fill_v(x as int)->Ok_0.v);
        Ok(())
    }
}

} // verus!
