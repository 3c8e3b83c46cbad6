//! The machine as a mathematical value, and what each instruction makes of
//! it.

use crate::audio::{audio_command, AudioCommand};
use crate::display::{blank_screen, collides, drawn, screen_wf, Screen};
use crate::fault::Fault;
use crate::font::font_byte;
use crate::instruction::{decode_word, Instruction};
use crate::keypad::{first_key_down, key_down};
use vstd::prelude::*;

verus! {

/// Bytes of addressable memory.
pub const MEMORY_SIZE: usize = 4096;

/// The address at which programs are loaded and start.
pub const PROGRAM_START: usize = 0x200;

/// The whole state of the interpreter.
#[verifier::ext_equal]
pub struct Machine {
    /// The instruction word executed last, 0 before the first.
    pub opcode: u16,
    /// The index register, a 16-bit value.
    pub i: int,
    /// The 4096 bytes of memory.
    pub memory: Seq<u8>,
    /// The sixteen general registers `V0` to `VF`.
    pub v: Seq<u8>,
    /// The return addresses of the subroutines being executed, innermost
    /// last.
    pub stack: Seq<int>,
    /// The address of the next instruction.
    pub pc: int,
    /// The display.
    pub screen: Screen,
    /// Whether the display has been written since the machine was last at
    /// its baseline.
    pub redraw: bool,
    /// The delay timer.
    pub delay_timer: u8,
    /// The sound timer.
    pub sound_timer: u8,
}

/// What the host hands to one tick: the keys that are down, whether the
/// audio device is active, and the byte for a `Random` instruction.
pub struct TickInput {
    /// The keys that are down.
    pub keys: Seq<bool>,
    /// Whether the audio device is active.
    pub audio_active: bool,
    /// The byte that a `Random` instruction uses.
    pub random: u8,
}

/// `n` reduced to a byte, as 8-bit arithmetic wraps.
pub open spec fn wrap_byte(n: int) -> u8 {
    (n % 256) as u8
}

impl Machine {
    /// Whether the parts have their sizes: 4096 bytes, sixteen registers, a
    /// 16-bit index, a 32 by 64 display, and no negative address.
    pub open spec fn wf(self) -> bool {
        &&& self.memory.len() == 4096
        &&& self.v.len() == 16
        &&& 0 <= self.i < 0x10000
        &&& 0 <= self.pc
        &&& forall|k: int| 0 <= k < self.stack.len() ==> 0 <= #[trigger] self.stack[k]
        &&& screen_wf(self.screen)
    }

    /// The state of a new machine: program counter and index at 0x200,
    /// everything else zero, empty or clear, but for the glyph set in the
    /// first 80 bytes of memory.
    pub open spec fn baseline() -> Machine {
        Machine {
            opcode: 0,
            i: 0x200,
            memory: Seq::new(
                4096,
                |address: int|
                    if address < 80 {
                        font_byte(address)
                    } else {
                        0u8
                    },
            ),
            v: Seq::new(16, |x: int| 0u8),
            stack: Seq::empty(),
            pc: 0x200,
            screen: blank_screen(),
            redraw: false,
            delay_timer: 0,
            sound_timer: 0,
        }
    }

    /// The machine with `program` copied into memory from address 0x200, or
    /// the fault when it does not fit.
    pub open spec fn load(self, program: Seq<u8>) -> Result<Machine, Fault> {
        if program.len() > 4096 - 0x200 {
            Err(Fault::ProgramTooLarge)
        } else {
            Ok(
                Machine {
                    memory: Seq::new(
                        4096,
                        |address: int|
                            if 0x200 <= address < 0x200 + program.len() {
                                program[address - 0x200]
                            } else {
                                self.memory[address]
                            },
                    ),
                    ..self
                },
            )
        }
    }

    /// The instruction word at the program counter, high byte first, or the
    /// fault when its two bytes do not both lie in memory.
    pub open spec fn fetch(self) -> Result<u16, Fault> {
        if 0 <= self.pc && self.pc + 1 < 4096 {
            Ok((self.memory[self.pc] * 256 + self.memory[self.pc + 1]) as u16)
        } else {
            Err(Fault::MemoryOutOfRange)
        }
    }

    /// Moves on to the next instruction.
    pub open spec fn next_opcode(self) -> Machine {
        Machine { pc: self.pc + 2, ..self }
    }

    /// Moves on past the next instruction.
    pub open spec fn skip_opcode(self) -> Machine {
        Machine { pc: self.pc + 4, ..self }
    }

    /// Clears every pixel and marks the display as written.
    pub open spec fn clear_screen(self) -> Machine {
        Machine { screen: blank_screen(), redraw: true, pc: self.pc + 2, ..self }
    }

    /// Takes the innermost return address off the call stack and continues
    /// there; a fault when the stack is empty.
    pub open spec fn return_from_subroutine(self) -> Result<Machine, Fault> {
        if self.stack.len() == 0 {
            Err(Fault::StackUnderflow)
        } else {
            Ok(Machine { pc: self.stack.last(), stack: self.stack.drop_last(), ..self })
        }
    }

    /// Continues at `address`.
    pub open spec fn jump(self, address: int) -> Machine {
        Machine { pc: address, ..self }
    }

    /// Puts the address of the next instruction on the call stack and
    /// continues at `address`.
    pub open spec fn call_subroutine(self, address: int) -> Machine {
        Machine { stack: self.stack.push(self.pc + 2), pc: address, ..self }
    }

    /// Skips the next instruction if `cond` holds, else moves on to it.
    pub open spec fn skip_if(self, cond: bool) -> Machine {
        if cond {
            self.skip_opcode()
        } else {
            self.next_opcode()
        }
    }

    /// `Vx = value`.
    pub open spec fn set_v(self, x: int, value: u8) -> Machine {
        Machine { v: self.v.update(x, value), pc: self.pc + 2, ..self }
    }

    /// `Vx = Vx + value`, wrapping; the flag register is not written.
    pub open spec fn add_to_v(self, x: int, value: u8) -> Machine {
        self.set_v(x, wrap_byte(self.v[x] + value))
    }

    /// `VF` = 1 if `Vx + Vy` exceeds 255, else 0; then `Vx = Vx + Vy`,
    /// wrapping, on the registers as the flag has left them.
    pub open spec fn add_vx_vy(self, x: int, y: int) -> Machine {
        let carry: u8 = if self.v[x] + self.v[y] > 255 {
            1
        } else {
            0
        };
        let flagged = self.v.update(0xF, carry);
        Machine {
            v: flagged.update(x, wrap_byte(flagged[x] + flagged[y])),
            pc: self.pc + 2,
            ..self
        }
    }

    /// `VF` = 0 if `Vy > Vx` (a borrow), else 1; then `Vx = Vx - Vy`,
    /// wrapping, on the registers as the flag has left them.
    pub open spec fn sub_vx_vy(self, x: int, y: int) -> Machine {
        let no_borrow: u8 = if self.v[y] > self.v[x] {
            0
        } else {
            1
        };
        let flagged = self.v.update(0xF, no_borrow);
        Machine {
            v: flagged.update(x, wrap_byte(flagged[x] - flagged[y])),
            pc: self.pc + 2,
            ..self
        }
    }

    /// `VF` = 0 if `Vy < Vx` (a borrow), else 1; then `Vx = Vy - Vx`,
    /// wrapping, on the registers as the flag has left them.
    pub open spec fn sub_vy_vx(self, x: int, y: int) -> Machine {
        let no_borrow: u8 = if self.v[y] < self.v[x] {
            0
        } else {
            1
        };
        let flagged = self.v.update(0xF, no_borrow);
        Machine {
            v: flagged.update(x, wrap_byte(flagged[y] - flagged[x])),
            pc: self.pc + 2,
            ..self
        }
    }

    /// `VF` = the low four bits of `Vx`; then `Vx` is halved, on the
    /// registers as the flag has left them.
    pub open spec fn shift_vx_right(self, x: int) -> Machine {
        let flagged = self.v.update(0xF, self.v[x] % 16);
        Machine { v: flagged.update(x, flagged[x] / 2), pc: self.pc + 2, ..self }
    }

    /// `VF` = `Vx` with its low four bits cleared; then `Vx` is doubled,
    /// wrapping, on the registers as the flag has left them.
    pub open spec fn shift_vx_left(self, x: int) -> Machine {
        let flagged = self.v.update(0xF, (self.v[x] - self.v[x] % 16) as u8);
        Machine { v: flagged.update(x, wrap_byte(flagged[x] * 2)), pc: self.pc + 2, ..self }
    }

    /// `I = value`.
    pub open spec fn set_i(self, value: int) -> Machine {
        Machine { i: value, pc: self.pc + 2, ..self }
    }

    /// The sprite of `rows` rows that lies in memory at `I`.
    pub open spec fn sprite(self, rows: int) -> Seq<u8> {
        self.memory.subrange(self.i, self.i + rows)
    }

    /// Draws the `rows` bytes of memory from `I` as a sprite at (`vx`,
    /// `vy`), puts 1 in `VF` if a sprite pixel found its target set and 0
    /// otherwise, and marks the display as written; a fault when the sprite
    /// does not lie within memory.
    pub open spec fn draw_sprite(self, vx: u8, vy: u8, rows: u8) -> Result<Machine, Fault> {
        if self.i + rows > 4096 {
            Err(Fault::MemoryOutOfRange)
        } else {
            let sprite = self.sprite(rows as int);
            let flipped: u8 = if collides(self.screen, sprite, vx as int, vy as int) {
                1
            } else {
                0
            };
            Ok(
                Machine {
                    screen: drawn(self.screen, sprite, vx as int, vy as int),
                    v: self.v.update(0xF, flipped),
                    redraw: true,
                    pc: self.pc + 2,
                    ..self
                },
            )
        }
    }

    /// With a key down, `Vx` = the lowest such key and the machine moves
    /// on; with none down, nothing changes, so that the same instruction is
    /// fetched again.
    pub open spec fn wait_key(self, x: int, keys: Seq<bool>) -> Machine {
        let key = first_key_down(keys, 0);
        if key < 16 {
            self.set_v(x, key as u8)
        } else {
            self
        }
    }

    /// `delay timer = value`.
    pub open spec fn set_delay_timer(self, value: u8) -> Machine {
        Machine { delay_timer: value, pc: self.pc + 2, ..self }
    }

    /// `sound timer = value`.
    pub open spec fn set_sound_timer(self, value: u8) -> Machine {
        Machine { sound_timer: value, pc: self.pc + 2, ..self }
    }

    /// Stores the hundreds, tens and ones of `vx` at `I`, `I + 1` and
    /// `I + 2`; a fault when these do not all lie in memory.
    pub open spec fn set_bcd(self, vx: u8) -> Result<Machine, Fault> {
        if self.i + 2 >= 4096 {
            Err(Fault::MemoryOutOfRange)
        } else {
            Ok(
                Machine {
                    memory: self.memory.update(self.i, vx / 100).update(
                        self.i + 1,
                        vx / 10 % 10,
                    ).update(self.i + 2, vx % 10),
                    pc: self.pc + 2,
                    ..self
                },
            )
        }
    }

    /// Stores `V0..=Vx` at `I..=I + x`; a fault when these do not all lie in
    /// memory.
    pub open spec fn store_v(self, x: int) -> Result<Machine, Fault> {
        if self.i + x >= 4096 {
            Err(Fault::MemoryOutOfRange)
        } else {
            Ok(
                Machine {
                    memory: Seq::new(
                        4096,
                        |address: int|
                            if self.i <= address <= self.i + x {
                                self.v[address - self.i]
                            } else {
                                self.memory[address]
                            },
                    ),
                    pc: self.pc + 2,
                    ..self
                },
            )
        }
    }

    /// Loads `V0..=Vx` from `I..=I + x`; a fault when these do not all lie
    /// in memory.
    pub open spec fn fill_v(self, x: int) -> Result<Machine, Fault> {
        if self.i + x >= 4096 {
            Err(Fault::MemoryOutOfRange)
        } else {
            Ok(
                Machine {
                    v: Seq::new(
                        16,
                        |r: int|
                            if r <= x {
                                self.memory[self.i + r]
                            } else {
                                self.v[r]
                            },
                    ),
                    pc: self.pc + 2,
                    ..self
                },
            )
        }
    }

    /// What `instruction` makes of the machine, given the keys that are
    /// down and the random byte that a `Random` instruction uses.
    pub open spec fn execute(self, instruction: Instruction, keys: Seq<bool>, random: u8) -> Result<
        Machine,
        Fault,
    > {
        match instruction {
            Instruction::ClearScreen => Ok(self.clear_screen()),
            Instruction::Return => self.return_from_subroutine(),
            Instruction::Jump { address } => Ok(self.jump(address as int)),
            Instruction::Call { address } => Ok(self.call_subroutine(address as int)),
            Instruction::SkipIfEqualByte { x, byte } => Ok(self.skip_if(self.v[x as int] == byte)),
            Instruction::SkipIfNotEqualByte { x, byte } => Ok(
                self.skip_if(self.v[x as int] != byte),
            ),
            Instruction::SkipIfEqual { x, y } => Ok(
                self.skip_if(self.v[x as int] == self.v[y as int]),
            ),
            Instruction::SetByte { x, byte } => Ok(self.set_v(x as int, byte)),
            Instruction::AddByte { x, byte } => Ok(self.add_to_v(x as int, byte)),
            Instruction::Assign { x, y } => Ok(self.set_v(x as int, self.v[y as int])),
            Instruction::Or { x, y } => Ok(
                self.set_v(x as int, self.v[x as int] | self.v[y as int]),
            ),
            Instruction::And { x, y } => Ok(
                self.set_v(x as int, self.v[x as int] & self.v[y as int]),
            ),
            Instruction::Xor { x, y } => Ok(
                self.set_v(x as int, self.v[x as int] ^ self.v[y as int]),
            ),
            Instruction::Add { x, y } => Ok(self.add_vx_vy(x as int, y as int)),
            Instruction::Sub { x, y } => Ok(self.sub_vx_vy(x as int, y as int)),
            Instruction::ShiftRight { x } => Ok(self.shift_vx_right(x as int)),
            Instruction::SubFrom { x, y } => Ok(self.sub_vy_vx(x as int, y as int)),
            Instruction::ShiftLeft { x } => Ok(self.shift_vx_left(x as int)),
            Instruction::SkipIfNotEqual { x, y } => Ok(
                self.skip_if(self.v[x as int] != self.v[y as int]),
            ),
            Instruction::SetIndex { address } => Ok(self.set_i(address as int)),
            Instruction::JumpOffset { address } => Ok(self.jump(address + self.v[0])),
            Instruction::Random { x, byte } => Ok(self.set_v(x as int, byte & random)),
            Instruction::Draw { x, y, rows } => self.draw_sprite(
                self.v[x as int],
                self.v[y as int],
                rows,
            ),
            Instruction::SkipIfKey { x } => Ok(
                self.skip_if(key_down(keys, self.v[x as int] as int)),
            ),
            Instruction::SkipIfNotKey { x } => Ok(
                self.skip_if(!key_down(keys, self.v[x as int] as int)),
            ),
            Instruction::GetDelay { x } => Ok(self.set_v(x as int, self.delay_timer)),
            Instruction::WaitKey { x } => Ok(self.wait_key(x as int, keys)),
            Instruction::SetDelay { x } => Ok(self.set_delay_timer(self.v[x as int])),
            Instruction::SetSound { x } => Ok(self.set_sound_timer(self.v[x as int])),
            Instruction::AddIndex { x } => Ok(self.set_i((self.i + self.v[x as int]) % 0x10000)),
            Instruction::Glyph { x } => Ok(self.set_i(5 * self.v[x as int])),
            Instruction::Bcd { x } => self.set_bcd(self.v[x as int]),
            Instruction::Store { x } => self.store_v(x as int),
            Instruction::Fill { x } => self.fill_v(x as int),
            Instruction::Unknown => Ok(self.next_opcode()),
        }
    }

    /// The machine after the timer step: each timer that runs goes down by
    /// one.
    pub open spec fn run_timers(self) -> Machine {
        Machine {
            delay_timer: if self.delay_timer > 0 {
                (self.delay_timer - 1) as u8
            } else {
                0
            },
            sound_timer: if self.sound_timer > 0 {
                (self.sound_timer - 1) as u8
            } else {
                0
            },
            ..self
        }
    }

    /// The instruction at the program counter, where its two bytes lie in
    /// memory.
    pub open spec fn next_instruction(self) -> Option<Instruction> {
        match self.fetch() {
            Ok(word) => Some(decode_word(word)),
            Err(_) => None,
        }
    }

    /// One tick: fetch, decode, execute, then the timer step. The result is
    /// the machine after the tick together with what the audio device is
    /// owed, or the fault that stopped the tick.
    pub open spec fn step(self, keys: Seq<bool>, audio_active: bool, random: u8) -> Result<
        (Machine, AudioCommand),
        Fault,
    > {
        match self.fetch() {
            Err(fault) => Err(fault),
            Ok(word) => match self.execute(decode_word(word), keys, random) {
                Err(fault) => Err(fault),
                Ok(executed) => {
                    let latched = Machine { opcode: word, ..executed };
                    Ok((latched.run_timers(), audio_command(latched.sound_timer, audio_active)))
                },
            },
        }
    }

    /// The machine after one tick for each element of `inputs`, in order;
    /// the first fault ends the run.
    pub open spec fn run(self, inputs: Seq<TickInput>) -> Result<Machine, Fault>
        decreases inputs.len(),
    {
        if inputs.len() == 0 {
            Ok(self)
        } else {
            match self.run(inputs.drop_last()) {
                Err(fault) => Err(fault),
                Ok(machine) => match machine.step(
                    inputs.last().keys,
                    inputs.last().audio_active,
                    inputs.last().random,
                ) {
                    Err(fault) => Err(fault),
                    Ok(stepped) => Ok(stepped.0),
                },
            }
        }
    }
}

} // verus!
