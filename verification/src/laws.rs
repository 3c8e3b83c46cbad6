//! What holds of the interpreter whatever the program and the state.

use crate::audio::{audio_command, AudioCommand};
use crate::display::{has_pixels, lands_apart, lands_on, target_clear};
use crate::display_lemmas::{
    lemma_blit_again_collides, lemma_blit_apart_on_clear, lemma_blit_frame,
    lemma_blit_overlap_collides, lemma_blit_twice_restores, lemma_blit_wf,
};
use crate::fault::Fault;
use crate::font::glyph;
use crate::instruction::{decode_word, Instruction};
use crate::keypad::lemma_first_key_down;
use crate::machine::{Machine, TickInput};
use vstd::prelude::*;

verus! {

/// The first 80 bytes of a new machine's memory hold, digit by digit, the
/// five rows of each hexadecimal digit's glyph.
pub proof fn law_glyphs_resident(digit: int, row: int)
    requires
        0 <= digit < 16,
        0 <= row < 5,
    ensures
        Machine::baseline().memory[5 * digit + row] == glyph(digit)[row],
        Machine::baseline().wf(),
{
}

/// A tick leaves a well-formed machine well-formed.
pub proof fn law_step_keeps_wf(machine: Machine, keys: Seq<bool>, audio_active: bool, random: u8)
    requires
        machine.wf(),
        machine.step(keys, audio_active, random) is Ok,
    ensures
        machine.step(keys, audio_active, random)->Ok_0.0.wf(),
{
    let word = machine.fetch()->Ok_0;
    match decode_word(word) {
        Instruction::Draw { x, y, rows } => {
            lemma_blit_wf(
                machine.screen,
                machine.sprite(rows as int),
                machine.v[x as int] as int,
                machine.v[y as int] as int,
                (8 * rows) as nat,
            );
        },
        _ => {},
    }
}

/// The random byte matters to the `Random` instruction alone.
pub proof fn law_random_byte_is_for_random(
    machine: Machine,
    keys: Seq<bool>,
    audio_active: bool,
    r1: u8,
    r2: u8,
)
    requires
        !(machine.next_instruction() matches Some(Instruction::Random { .. })),
    ensures
        machine.step(keys, audio_active, r1) == machine.step(keys, audio_active, r2),
{
}

/// A tick faults in these cases and no others: the instruction's two
/// bytes do not lie in memory; a return finds the call stack empty; a draw,
/// a decimal store or a register transfer reaches past the end of memory.
pub proof fn law_step_faults(machine: Machine, keys: Seq<bool>, audio_active: bool, random: u8)
    requires
        machine.wf(),
    ensures
        machine.step(keys, audio_active, random) is Err <==> match machine.next_instruction() {
            None => true,
            Some(Instruction::Return) => machine.stack.len() == 0,
            Some(Instruction::Draw { rows, .. }) => machine.i + rows > 4096,
            Some(Instruction::Bcd { .. }) => machine.i + 2 >= 4096,
            Some(Instruction::Store { x }) => machine.i + x >= 4096,
            Some(Instruction::Fill { x }) => machine.i + x >= 4096,
            Some(_) => false,
        },
        machine.step(keys, audio_active, random) matches Err(fault) ==> fault == (
        match machine.next_instruction() {
            Some(Instruction::Return) => Fault::StackUnderflow,
            _ => Fault::MemoryOutOfRange,
        }),
{
}

/// A word that no operation recognises moves the program counter on by two
/// and leaves registers, index, memory, call stack and display alone.
pub proof fn law_unknown_moves_on(machine: Machine, keys: Seq<bool>, audio_active: bool, random: u8)
    requires
        machine.next_instruction() == Some(Instruction::Unknown),
    ensures
        machine.step(keys, audio_active, random) is Ok,
        machine.step(keys, audio_active, random)->Ok_0.0 == (Machine {
            pc: machine.pc + 2,
            opcode: machine.fetch()->Ok_0,
            ..machine.run_timers()
        }),
{
}

/// The display is written by clearing and by drawing alone, and both mark
/// it as written; no tick takes the mark away.
pub proof fn law_display_written_by_clear_and_draw(
    machine: Machine,
    keys: Seq<bool>,
    audio_active: bool,
    random: u8,
)
    requires
        machine.step(keys, audio_active, random) is Ok,
    ensures
        machine.redraw ==> machine.step(keys, audio_active, random)->Ok_0.0.redraw,
        match machine.next_instruction() {
            Some(Instruction::ClearScreen) | Some(Instruction::Draw { .. }) => machine.step(
                keys,
                audio_active,
                random,
            )->Ok_0.0.redraw,
            _ => machine.step(keys, audio_active, random)->Ok_0.0.screen == machine.screen
                && machine.step(keys, audio_active, random)->Ok_0.0.redraw == machine.redraw,
        },
{
}

/// Memory is written by the decimal store and the register store alone.
pub proof fn law_memory_written_by_stores(
    machine: Machine,
    keys: Seq<bool>,
    audio_active: bool,
    random: u8,
)
    requires
        machine.step(keys, audio_active, random) is Ok,
        !(machine.next_instruction() matches Some(Instruction::Bcd { .. })),
        !(machine.next_instruction() matches Some(Instruction::Store { .. })),
    ensures
        machine.step(keys, audio_active, random)->Ok_0.0.memory == machine.memory,
{
}

/// A tick that does not set a timer takes one off it if it runs and leaves
/// it at zero if it does not.
pub proof fn law_timers_count_down(
    machine: Machine,
    keys: Seq<bool>,
    audio_active: bool,
    random: u8,
)
    requires
        machine.step(keys, audio_active, random) is Ok,
    ensures
        !(machine.next_instruction() matches Some(Instruction::SetDelay { .. }))
            ==> machine.step(keys, audio_active, random)->Ok_0.0.delay_timer == (
        if machine.delay_timer > 0 {
            machine.delay_timer - 1
        } else {
            0
        }),
        !(machine.next_instruction() matches Some(Instruction::SetSound { .. }))
            ==> machine.step(keys, audio_active, random)->Ok_0.0.sound_timer == (
        if machine.sound_timer > 0 {
            machine.sound_timer - 1
        } else {
            0
        }) && machine.step(keys, audio_active, random)->Ok_0.1 == audio_command(
            machine.sound_timer,
            audio_active,
        ),
{
}

/// Adding two registers other than the flag register leaves their sum
/// modulo 256 in the first and the carry in the flag register.
pub proof fn law_add_reports_carry(machine: Machine, x: int, y: int)
    requires
        machine.wf(),
        0 <= x < 15,
        0 <= y < 15,
    ensures
        machine.add_vx_vy(x, y).v[x] == (machine.v[x] + machine.v[y]) % 256,
        machine.add_vx_vy(x, y).v[0xF] == (if machine.v[x] + machine.v[y] > 255 {
            1u8
        } else {
            0u8
        }),
        forall|r: int|
            0 <= r < 15 && r != x ==> #[trigger] machine.add_vx_vy(x, y).v[r] == machine.v[r],
{
}

/// Subtracting one register from another, neither the flag register,
/// leaves the difference modulo 256 in the first and 0 in the flag register
/// if the subtraction borrowed, else 1; and likewise with the operands
/// exchanged.
pub proof fn law_subtract_reports_borrow(machine: Machine, x: int, y: int)
    requires
        machine.wf(),
        0 <= x < 15,
        0 <= y < 15,
    ensures
        machine.sub_vx_vy(x, y).v[x] == (machine.v[x] - machine.v[y]) % 256,
        machine.sub_vx_vy(x, y).v[0xF] == (if machine.v[x] < machine.v[y] {
            0u8
        } else {
            1u8
        }),
        machine.sub_vy_vx(x, y).v[x] == (machine.v[y] - machine.v[x]) % 256,
        machine.sub_vy_vx(x, y).v[0xF] == (if machine.v[y] < machine.v[x] {
            0u8
        } else {
            1u8
        }),
        forall|r: int|
            0 <= r < 15 && r != x ==> #[trigger] machine.sub_vx_vy(x, y).v[r] == machine.v[r]
                && machine.sub_vy_vx(x, y).v[r] == machine.v[r],
{
}

/// Drawing a sprite twice in the same place leaves the display as it was,
/// whatever the sprite and whatever was on the display.
pub proof fn law_draw_twice_restores_display(machine: Machine, vx: u8, vy: u8, rows: u8)
    requires
        machine.wf(),
        machine.i + rows <= 4096,
    ensures
        machine.draw_sprite(vx, vy, rows) is Ok,
        machine.draw_sprite(vx, vy, rows)->Ok_0.draw_sprite(vx, vy, rows) is Ok,
        machine.draw_sprite(vx, vy, rows)->Ok_0.draw_sprite(vx, vy, rows)->Ok_0.screen
            == machine.screen,
{
    lemma_blit_twice_restores(
        machine.screen,
        machine.sprite(rows as int),
        vx as int,
        vy as int,
        (8 * rows) as nat,
    );
}

/// On a display where its target is clear, drawing a sprite reports a
/// collision exactly when two of its set pixels land on the same display
/// pixel, as clamping at the right and bottom edges can make them.
pub proof fn law_draw_on_clear_target(machine: Machine, vx: u8, vy: u8, rows: u8)
    requires
        machine.wf(),
        machine.i + rows <= 4096,
        target_clear(machine.screen, machine.sprite(rows as int), vx as int, vy as int),
    ensures
        machine.draw_sprite(vx, vy, rows) is Ok,
        machine.draw_sprite(vx, vy, rows)->Ok_0.v[0xF] == (if lands_apart(
            machine.sprite(rows as int),
            vx as int,
            vy as int,
        ) {
            0u8
        } else {
            1u8
        }),
{
    let sprite = machine.sprite(rows as int);
    let pixels = (8 * rows) as nat;
    if lands_apart(sprite, vx as int, vy as int) {
        lemma_blit_apart_on_clear(machine.screen, sprite, vx as int, vy as int, pixels);
    } else {
        lemma_blit_overlap_collides(machine.screen, sprite, vx as int, vy as int, pixels);
    }
}

/// A sprite with a set pixel, drawn a second time where it was drawn on a
/// clear target, reports a collision.
pub proof fn law_second_draw_collides(machine: Machine, vx: u8, vy: u8, rows: u8)
    requires
        machine.wf(),
        machine.i + rows <= 4096,
        has_pixels(machine.sprite(rows as int)),
        target_clear(machine.screen, machine.sprite(rows as int), vx as int, vy as int),
    ensures
        machine.draw_sprite(vx, vy, rows) is Ok,
        machine.draw_sprite(vx, vy, rows)->Ok_0.draw_sprite(vx, vy, rows) is Ok,
        machine.draw_sprite(vx, vy, rows)->Ok_0.draw_sprite(vx, vy, rows)->Ok_0.v[0xF] == 1,
{
    lemma_blit_again_collides(machine.screen, machine.sprite(rows as int), vx as int, vy as int);
}

/// A sprite with a set pixel, whose set pixels land apart, drawn twice in
/// the same place on a display where its target is clear: the first draw
/// reports no collision, the second reports one, and the display is then
/// as it was.
pub proof fn law_draw_twice_collides_once(machine: Machine, vx: u8, vy: u8, rows: u8)
    requires
        machine.wf(),
        machine.i + rows <= 4096,
        has_pixels(machine.sprite(rows as int)),
        lands_apart(machine.sprite(rows as int), vx as int, vy as int),
        target_clear(machine.screen, machine.sprite(rows as int), vx as int, vy as int),
    ensures
        machine.draw_sprite(vx, vy, rows) is Ok,
        machine.draw_sprite(vx, vy, rows)->Ok_0.v[0xF] == 0,
        machine.draw_sprite(vx, vy, rows)->Ok_0.draw_sprite(vx, vy, rows) is Ok,
        machine.draw_sprite(vx, vy, rows)->Ok_0.draw_sprite(vx, vy, rows)->Ok_0.v[0xF] == 1,
        machine.draw_sprite(vx, vy, rows)->Ok_0.draw_sprite(vx, vy, rows)->Ok_0.screen
            == machine.screen,
{
    law_draw_on_clear_target(machine, vx, vy, rows);
    law_second_draw_collides(machine, vx, vy, rows);
    law_draw_twice_restores_display(machine, vx, vy, rows);
}

/// Drawing changes no display pixel but those on which a set sprite pixel
/// lands: the pixel aimed at (`vx + bit`, `vy + row`), or the last column
/// or row where that lies past the edge.
pub proof fn law_draw_changes_targets_only(
    machine: Machine,
    vx: u8,
    vy: u8,
    rows: u8,
    row: int,
    column: int,
)
    requires
        machine.wf(),
        machine.i + rows <= 4096,
        0 <= row < 32,
        0 <= column < 64,
        !lands_on(machine.sprite(rows as int), vx as int, vy as int, 8 * rows, row, column),
    ensures
        machine.draw_sprite(vx, vy, rows)->Ok_0.screen[row][column] == machine.screen[row][column],
{
    lemma_blit_frame(
        machine.screen,
        machine.sprite(rows as int),
        vx as int,
        vy as int,
        (8 * rows) as nat,
        row,
        column,
    );
}

/// Drawing never wraps round the display: a pixel to the left of the
/// sprite's column or above its row, other than in the last column or row,
/// is left as it was.
pub proof fn law_draw_does_not_wrap(
    machine: Machine,
    vx: u8,
    vy: u8,
    rows: u8,
    row: int,
    column: int,
)
    requires
        machine.wf(),
        machine.i + rows <= 4096,
        0 <= row < 32,
        0 <= column < 64,
        (column < vx && column < 63) || (row < vy && row < 31),
    ensures
        machine.draw_sprite(vx, vy, rows)->Ok_0.screen[row][column] == machine.screen[row][column],
{
    law_draw_changes_targets_only(machine, vx, vy, rows, row, column);
}

/// While no key is down, a tick on a key-wait instruction leaves the
/// program counter, the registers and memory as they were, so that the
/// next tick finds the same instruction.
pub proof fn law_wait_key_stays(machine: Machine, keys: Seq<bool>, audio_active: bool, random: u8)
    requires
        machine.wf(),
        machine.next_instruction() matches Some(Instruction::WaitKey { .. }),
        keys.len() == 16,
        forall|k: int| 0 <= k < 16 ==> !keys[k],
    ensures
        machine.step(keys, audio_active, random) is Ok,
        machine.step(keys, audio_active, random)->Ok_0.0.pc == machine.pc,
        machine.step(keys, audio_active, random)->Ok_0.0.v == machine.v,
        machine.step(keys, audio_active, random)->Ok_0.0.memory == machine.memory,
        machine.step(keys, audio_active, random)->Ok_0.0.next_instruction()
            == machine.next_instruction(),
{
    lemma_first_key_down(keys, 0);
}

/// Over any number of ticks during which no key is down, a machine at a
/// key-wait instruction stays at it.
pub proof fn law_wait_key_stays_across_ticks(machine: Machine, inputs: Seq<TickInput>)
    requires
        machine.wf(),
        machine.next_instruction() matches Some(Instruction::WaitKey { .. }),
        forall|t: int|
            0 <= t < inputs.len() ==> (#[trigger] inputs[t]).keys.len() == 16 && forall|k: int|
                0 <= k < 16 ==> !inputs[t].keys[k],
    ensures
        machine.run(inputs) is Ok,
        machine.run(inputs)->Ok_0.wf(),
        machine.run(inputs)->Ok_0.pc == machine.pc,
        machine.run(inputs)->Ok_0.v == machine.v,
        machine.run(inputs)->Ok_0.next_instruction() == machine.next_instruction(),
    decreases inputs.len(),
{
    if inputs.len() > 0 {
        let earlier = inputs.drop_last();
        let last = inputs.last();
        law_wait_key_stays_across_ticks(machine, earlier);
        let before = machine.run(earlier)->Ok_0;
        law_wait_key_stays(before, last.keys, last.audio_active, last.random);
    }
}

/// Once a key is down, a tick on a key-wait instruction stores the lowest
/// key that is down in the instruction's register and moves the program
/// counter on by exactly 2.
pub proof fn law_wait_key_takes_key(
    machine: Machine,
    x: u8,
    keys: Seq<bool>,
    audio_active: bool,
    random: u8,
)
    requires
        machine.wf(),
        machine.next_instruction() == Some(Instruction::WaitKey { x }),
        keys.len() == 16,
        exists|k: int| 0 <= k < 16 && keys[k],
    ensures
        machine.step(keys, audio_active, random) is Ok,
        machine.step(keys, audio_active, random)->Ok_0.0.pc == machine.pc + 2,
        0 <= machine.step(keys, audio_active, random)->Ok_0.0.v[x as int] < 16,
        keys[machine.step(keys, audio_active, random)->Ok_0.0.v[x as int] as int],
        forall|k: int|
            0 <= k < machine.step(keys, audio_active, random)->Ok_0.0.v[x as int] ==> !keys[k],
{
    lemma_first_key_down(keys, 0);
}

/// The audio device is started exactly when the sound timer runs and the
/// device is inactive, and stopped exactly when the timer goes from one to
/// zero; with the timer at zero it is left alone.
pub proof fn law_audio_follows_sound_timer(sound_timer: u8, audio_active: bool)
    ensures
        audio_command(sound_timer, audio_active).starts() <==> sound_timer > 0 && !audio_active,
        audio_command(sound_timer, audio_active).stops() <==> sound_timer == 1,
        sound_timer == 0 ==> audio_command(sound_timer, audio_active) == AudioCommand::Idle,
{
}

/// A tick that sets the sound timer answers for the value it has set: the
/// timer then holds one less, or zero, and the audio command is that of the
/// value set. Set to 1 with the device inactive, the device is started and
/// then stopped; set to 0, it is never started.
pub proof fn law_set_sound_timer_drives_audio(
    machine: Machine,
    x: u8,
    keys: Seq<bool>,
    audio_active: bool,
    random: u8,
)
    requires
        machine.wf(),
        machine.next_instruction() == Some(Instruction::SetSound { x }),
    ensures
        machine.step(keys, audio_active, random) is Ok,
        machine.step(keys, audio_active, random)->Ok_0.1 == audio_command(
            machine.v[x as int],
            audio_active,
        ),
        machine.step(keys, audio_active, random)->Ok_0.0.sound_timer == (if machine.v[x as int]
            == 0 {
            0
        } else {
            machine.v[x as int] - 1
        }),
        machine.v[x as int] == 1 && !audio_active ==> machine.step(
            keys,
            audio_active,
            random,
        )->Ok_0.1 == AudioCommand::StartThenStop,
        machine.v[x as int] == 0 ==> !machine.step(keys, audio_active, random)->Ok_0.1.starts(),
{
}

/// Calling a subroutine that returns at once brings the program counter to
/// two bytes past the call, with the call stack as it was.
pub proof fn law_call_then_return(
    machine: Machine,
    address: u16,
    first: TickInput,
    second: TickInput,
)
    requires
        machine.wf(),
        machine.next_instruction() == Some(Instruction::Call { address }),
        address + 1 < 4096,
        machine.memory[address as int] == 0x00,
        machine.memory[address + 1] == 0xEE,
    ensures
        machine.run(seq![first, second]) is Ok,
        machine.run(seq![first, second])->Ok_0.pc == machine.pc + 2,
        machine.run(seq![first, second])->Ok_0.stack == machine.stack,
{
    let one = seq![first, second].drop_last();
    let called = machine.step(first.keys, first.audio_active, first.random)->Ok_0.0;
    assert(machine.run(one.drop_last()) == Ok::<Machine, Fault>(machine));
    assert(machine.run(one) == Ok::<Machine, Fault>(called));
}

} // verus!
