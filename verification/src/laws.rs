//! Laws of the instruction set, proved of the model that every operation of
//! the interpreter is stated against.

use vstd::prelude::*;
use crate::fault::Fault;
use crate::font::font;
use crate::machine::{
    bit_set, blank_screen, count_down, first_pressed, operand_kk, operand_x, word, Machine,
};

verus! {

/// Whether a sprite of `n` rows at `I` has any bit set.
pub open spec fn sprite_has_bit(m: Machine, n: int) -> bool {
    exists|row: int, col: int|
        0 <= row < n && 0 <= col < 8 && #[trigger] bit_set(m.memory[m.index + row], col)
}

/// Whether such a sprite, with its corner at column `sx` and row `sy`, has a
/// set bit on a dark pixel.
pub open spec fn sprite_lights(m: Machine, sx: int, sy: int, n: int) -> bool {
    exists|py: int, px: int|
        0 <= py < 32 && 0 <= px < 64 && #[trigger] m.sprite_hits(sx, sy, n, py, px)
            && !m.video[py][px]
}

/// The lowest pressed key is what `first_pressed` finds: it lies at or above
/// `from`, it is down unless it is 16, and no key between the two is down.
pub proof fn law_first_pressed_is_lowest(keypad: Seq<bool>, from: int)
    requires
        0 <= from <= 16,
    ensures
        from <= first_pressed(keypad, from) <= 16,
        first_pressed(keypad, from) < 16 ==> keypad[first_pressed(keypad, from)],
        forall|k: int| from <= k < first_pressed(keypad, from) ==> !keypad[k],
    decreases 16 - from,
{
    if from < 16 && !keypad[from] {
        law_first_pressed_is_lowest(keypad, from + 1);
    }
}

/// At power-on every register, stack slot and timer is zero, the screen is
/// dark, the font lies at `0x050..0x0A0`, and the program counter is `0x200`.
pub proof fn law_power_on()
    ensures
        Machine::power_on().ready(),
        forall|i: int| 0 <= i < 16 ==> Machine::power_on().registers[i] == 0,
        forall|i: int| 0 <= i < 16 ==> Machine::power_on().stack[i] == 0,
        forall|i: int| 0 <= i < 16 ==> !Machine::power_on().keypad[i],
        forall|y: int, x: int| 0 <= y < 32 && 0 <= x < 64 ==> !Machine::power_on().video[y][x],
        forall|i: int| 0 <= i < 80 ==> Machine::power_on().memory[0x050 + i] == font()[i],
        Machine::power_on().sp == 0,
        Machine::power_on().index == 0,
        Machine::power_on().delay_timer == 0,
        Machine::power_on().sound_timer == 0,
        Machine::power_on().pc == 0x200,
{
}

/// Loading a program keeps the machine ready and moves nothing but memory.
pub proof fn law_load_keeps_bounds(m: Machine, rom: Seq<u8>)
    requires
        m.ready(),
    ensures
        m.load(rom) is Ok ==> m.load(rom).unwrap().ready() && m.load(rom).unwrap().pc == m.pc,
{
}

/// An instruction that succeeds on a well-formed machine leaves one, and it
/// leaves the program counter an address if it found it one.
pub proof fn law_execute_keeps_bounds(m: Machine, byte: u8)
    requires
        m.wf(),
    ensures
        m.execute(byte) is Ok ==> m.execute(byte).unwrap().wf(),
        m.execute(byte) is Ok && m.pc < 4096 ==> m.execute(byte).unwrap().pc < 4096,
{
    law_first_pressed_is_lowest(m.keypad, 0);
}

/// A tick that succeeds leaves a machine ready for the next: the stack
/// pointer is at most 16 and the program counter is an address.
pub proof fn law_step_keeps_bounds(m: Machine, keypad: Seq<bool>, byte: u8)
    requires
        m.wf(),
        keypad.len() == 16,
    ensures
        m.step(keypad, byte) is Ok ==> {
            let after = m.step(keypad, byte).unwrap();
            after.ready() && after.sp <= 16 && after.pc < 4096 && after.index < 65536
        },
{
    if m.pc + 1 < 4096 {
        law_execute_keeps_bounds(m.fetch(keypad), byte);
    }
}

/// However many ticks are taken from a ready machine, a run that succeeds
/// leaves a ready machine: the stack pointer is at most 16 and the program
/// counter is an address.
pub proof fn law_run_keeps_bounds(m: Machine, keypads: Seq<Seq<bool>>, bytes: Seq<u8>)
    requires
        m.ready(),
        keypads.len() == bytes.len(),
        forall|i: int| 0 <= i < keypads.len() ==> (#[trigger] keypads[i]).len() == 16,
    ensures
        m.run(keypads, bytes) is Ok ==> {
            let after = m.run(keypads, bytes).unwrap();
            after.ready() && after.sp <= 16 && after.pc < 4096 && after.index < 65536
        },
    decreases keypads.len(),
{
    if keypads.len() > 0 && m.step(keypads[0], bytes[0]) is Ok {
        law_step_keeps_bounds(m, keypads[0], bytes[0]);
        let rest = keypads.drop_first();
        assert forall|i: int| 0 <= i < rest.len() implies (#[trigger] rest[i]).len() == 16 by {
            assert(rest[i] == keypads[i + 1]);
        }
        law_run_keeps_bounds(m.step(keypads[0], bytes[0]).unwrap(), rest, bytes.drop_first());
    }
}

/// A tick that succeeds steps the delay timer down by one, or leaves it at
/// zero, unless the instruction is the one that sets it (`Fx15`).
pub proof fn law_step_delay_timer(m: Machine, keypad: Seq<bool>, byte: u8)
    requires
        m.wf(),
        keypad.len() == 16,
        m.step(keypad, byte) is Ok,
        !(m.fetch(keypad).opcode / 4096 == 0xF && operand_kk(m.fetch(keypad).opcode) == 0x15),
    ensures
        m.step(keypad, byte).unwrap().delay_timer == count_down(m.delay_timer),
        m.delay_timer > 0 ==> m.step(keypad, byte).unwrap().delay_timer == m.delay_timer - 1,
        m.delay_timer == 0 ==> m.step(keypad, byte).unwrap().delay_timer == 0,
{
}

/// A tick that succeeds steps the sound timer down by one, or leaves it at
/// zero, unless the instruction is the one that sets it (`Fx18`).
pub proof fn law_step_sound_timer(m: Machine, keypad: Seq<bool>, byte: u8)
    requires
        m.wf(),
        keypad.len() == 16,
        m.step(keypad, byte) is Ok,
        !(m.fetch(keypad).opcode / 4096 == 0xF && operand_kk(m.fetch(keypad).opcode) == 0x18),
    ensures
        m.step(keypad, byte).unwrap().sound_timer == count_down(m.sound_timer),
        m.sound_timer > 0 ==> m.step(keypad, byte).unwrap().sound_timer == m.sound_timer - 1,
        m.sound_timer == 0 ==> m.step(keypad, byte).unwrap().sound_timer == 0,
{
}

/// A call followed at once by a return succeeds and puts the program counter
/// and the stack pointer back where they were before the call, provided that
/// the program counter was an address then.
pub proof fn law_call_then_ret(m: Machine, nnn: u16)
    requires
        m.ready(),
        m.call(nnn) is Ok,
    ensures
        m.call(nnn).unwrap().ret() is Ok,
        m.call(nnn).unwrap().ret().unwrap().pc == m.pc,
        m.call(nnn).unwrap().ret().unwrap().sp == m.sp,
{
}

/// Storing the decimal digits of `Vx` and reading three registers back from
/// the same place puts the hundreds, tens and ones of `Vx` into `V0`, `V1`
/// and `V2`.
pub proof fn law_bcd_then_fill(m: Machine, x: int)
    requires
        m.wf(),
        0 <= x < 16,
        m.bcd(x) is Ok,
    ensures
        m.bcd(x).unwrap().fill(2) is Ok,
        m.bcd(x).unwrap().fill(2).unwrap().registers[0] == m.registers[x] / 100,
        m.bcd(x).unwrap().fill(2).unwrap().registers[1] == (m.registers[x] / 10) % 10,
        m.bcd(x).unwrap().fill(2).unwrap().registers[2] == m.registers[x] % 10,
        m.registers[x] == 100 * m.bcd(x).unwrap().fill(2).unwrap().registers[0] + 10 * m.bcd(
            x,
        ).unwrap().fill(2).unwrap().registers[1] + m.bcd(x).unwrap().fill(2).unwrap().registers[2],
{
}

/// Drawing a sprite twice at the same coordinates leaves the screen as it
/// was, and the second draw raises the flag iff the sprite had a set bit on
/// a pixel that was dark at first.
pub proof fn law_draw_twice(m: Machine, x: int, y: int, n: int)
    requires
        m.wf(),
        0 <= x < 16,
        0 <= y < 16,
        0 <= n < 16,
        m.draw(x, y, n) is Ok,
        m.draw(x, y, n).unwrap().registers[x] % 64 == m.registers[x] % 64,
        m.draw(x, y, n).unwrap().registers[y] % 32 == m.registers[y] % 32,
    ensures
        m.draw(x, y, n).unwrap().draw(x, y, n) is Ok,
        m.draw(x, y, n).unwrap().draw(x, y, n).unwrap().video == m.video,
        (m.draw(x, y, n).unwrap().draw(x, y, n).unwrap().registers[15] == 1) == sprite_lights(
            m,
            (m.registers[x] % 64) as int,
            (m.registers[y] % 32) as int,
            n,
        ),
{
    let sx = (m.registers[x] % 64) as int;
    let sy = (m.registers[y] % 32) as int;
    let once = m.draw(x, y, n).unwrap();
    let twice = once.draw(x, y, n).unwrap();
    assert forall|py: int, px: int|
        0 <= py < 32 && 0 <= px < 64 implies #[trigger] once.sprite_hits(sx, sy, n, py, px)
        == m.sprite_hits(sx, sy, n, py, px) by {}
    assert(twice.video =~~= m.video);
    if once.sprite_collides(sx, sy, n) {
        let (py, px) = choose|py: int, px: int|
            0 <= py < 32 && 0 <= px < 64 && #[trigger] once.sprite_hits(sx, sy, n, py, px)
                && once.video[py][px];
        assert(m.sprite_hits(sx, sy, n, py, px) && !m.video[py][px]);
    }
    if sprite_lights(m, sx, sy, n) {
        let (py, px) = choose|py: int, px: int|
            0 <= py < 32 && 0 <= px < 64 && #[trigger] m.sprite_hits(sx, sy, n, py, px)
                && !m.video[py][px];
        assert(once.sprite_hits(sx, sy, n, py, px) && once.video[py][px]);
    }
}

/// Drawing a sprite twice at the same coordinates: the second draw raises
/// the flag iff the sprite has any bit set, provided that a sprite with a
/// set bit has one on a pixel that was dark at first.
pub proof fn law_draw_twice_flag(m: Machine, x: int, y: int, n: int)
    requires
        m.wf(),
        0 <= x < 16,
        0 <= y < 16,
        0 <= n < 16,
        m.draw(x, y, n) is Ok,
        m.draw(x, y, n).unwrap().registers[x] % 64 == m.registers[x] % 64,
        m.draw(x, y, n).unwrap().registers[y] % 32 == m.registers[y] % 32,
        sprite_has_bit(m, n) ==> sprite_lights(
            m,
            (m.registers[x] % 64) as int,
            (m.registers[y] % 32) as int,
            n,
        ),
    ensures
        (m.draw(x, y, n).unwrap().draw(x, y, n).unwrap().registers[15] == 1) == sprite_has_bit(
            m,
            n,
        ),
{
    let sx = (m.registers[x] % 64) as int;
    let sy = (m.registers[y] % 32) as int;
    law_draw_twice(m, x, y, n);
    if sprite_lights(m, sx, sy, n) {
        let (py, px) = choose|py: int, px: int|
            0 <= py < 32 && 0 <= px < 64 && #[trigger] m.sprite_hits(sx, sy, n, py, px)
                && !m.video[py][px];
        let row = (py - sy) % 32;
        let col = (px - sx) % 64;
        assert(bit_set(m.memory[m.index + row], col));
    }
}

/// A sprite has a set bit iff it has one on some pixel of the screen: with at
/// most 32 rows, wrapping folds no two bits onto one pixel and loses none.
pub proof fn law_sprite_bit_lands(m: Machine, sx: int, sy: int, n: int)
    requires
        0 <= sx < 64,
        0 <= sy < 32,
        0 <= n <= 32,
    ensures
        sprite_has_bit(m, n) == (exists|py: int, px: int|
            0 <= py < 32 && 0 <= px < 64 && #[trigger] m.sprite_hits(sx, sy, n, py, px)),
{
    if sprite_has_bit(m, n) {
        let (row, col) = choose|row: int, col: int|
            0 <= row < n && 0 <= col < 8 && #[trigger] bit_set(m.memory[m.index + row], col);
        let py = (sy + row) % 32;
        let px = (sx + col) % 64;
        assert((py - sy) % 32 == row && (px - sx) % 64 == col);
        assert(m.sprite_hits(sx, sy, n, py, px));
    }
    if exists|py: int, px: int|
        0 <= py < 32 && 0 <= px < 64 && #[trigger] m.sprite_hits(sx, sy, n, py, px) {
        let (py, px) = choose|py: int, px: int|
            0 <= py < 32 && 0 <= px < 64 && #[trigger] m.sprite_hits(sx, sy, n, py, px);
        assert(bit_set(m.memory[m.index + (py - sy) % 32], (px - sx) % 64));
    }
}

/// Drawing a sprite twice at the same coordinates on a dark screen leaves
/// the screen dark, and the second draw raises the flag iff the sprite has
/// any bit set.
pub proof fn law_draw_twice_on_dark_screen(m: Machine, x: int, y: int, n: int)
    requires
        m.wf(),
        0 <= x < 16,
        0 <= y < 16,
        0 <= n < 16,
        m.video == blank_screen(),
        m.draw(x, y, n) is Ok,
        m.draw(x, y, n).unwrap().registers[x] % 64 == m.registers[x] % 64,
        m.draw(x, y, n).unwrap().registers[y] % 32 == m.registers[y] % 32,
    ensures
        m.draw(x, y, n).unwrap().registers[15] == 0,
        m.draw(x, y, n).unwrap().draw(x, y, n).unwrap().video == blank_screen(),
        (m.draw(x, y, n).unwrap().draw(x, y, n).unwrap().registers[15] == 1) == sprite_has_bit(
            m,
            n,
        ),
{
    let sx = (m.registers[x] % 64) as int;
    let sy = (m.registers[y] % 32) as int;
    law_sprite_bit_lands(m, sx, sy, n);
    if sprite_has_bit(m, n) {
        let (py, px) = choose|py: int, px: int|
            0 <= py < 32 && 0 <= px < 64 && #[trigger] m.sprite_hits(sx, sy, n, py, px);
        assert(!m.video[py][px]);
        assert(sprite_lights(m, sx, sy, n));
    }
    law_draw_twice_flag(m, x, y, n);
    law_draw_twice(m, x, y, n);
}

/// A tick on the key-wait instruction (`Fx0A`) with every key up succeeds
/// and leaves the program counter, the registers and memory as they were, so
/// that the next tick finds the same instruction.
pub proof fn law_wait_key_holds(m: Machine, keypad: Seq<bool>, byte: u8)
    requires
        m.wf(),
        m.pc + 1 < 4096,
        keypad.len() == 16,
        forall|k: int| 0 <= k < 16 ==> !keypad[k],
        m.fetch(keypad).opcode / 4096 == 0xF,
        operand_kk(m.fetch(keypad).opcode) == 0x0A,
    ensures
        m.step(keypad, byte) is Ok,
        m.step(keypad, byte).unwrap().pc == m.pc,
        m.step(keypad, byte).unwrap().registers == m.registers,
        m.step(keypad, byte).unwrap().memory == m.memory,
        m.step(keypad, byte).unwrap().video == m.video,
{
    law_first_pressed_is_lowest(keypad, 0);
}

/// However many ticks pass on the key-wait instruction (`Fx0A`) with every
/// key up, none faults and the program counter and the registers stay as
/// they were.
pub proof fn law_wait_key_holds_through(m: Machine, keypads: Seq<Seq<bool>>, bytes: Seq<u8>)
    requires
        m.wf(),
        m.pc + 1 < 4096,
        keypads.len() == bytes.len(),
        forall|i: int| 0 <= i < keypads.len() ==> (#[trigger] keypads[i]).len() == 16,
        forall|i: int, k: int| 0 <= i < keypads.len() && 0 <= k < 16 ==> !#[trigger] keypads[i][k],
        word(m.memory[m.pc as int], m.memory[m.pc + 1]) / 4096 == 0xF,
        operand_kk(word(m.memory[m.pc as int], m.memory[m.pc + 1])) == 0x0A,
    ensures
        m.run(keypads, bytes) is Ok,
        m.run(keypads, bytes).unwrap().pc == m.pc,
        m.run(keypads, bytes).unwrap().registers == m.registers,
        m.run(keypads, bytes).unwrap().memory == m.memory,
        m.run(keypads, bytes).unwrap().video == m.video,
    decreases keypads.len(),
{
    if keypads.len() > 0 {
        law_wait_key_holds(m, keypads[0], bytes[0]);
        law_step_keeps_bounds(m, keypads[0], bytes[0]);
        let next = m.step(keypads[0], bytes[0]).unwrap();
        let rest = keypads.drop_first();
        assert forall|i: int| 0 <= i < rest.len() implies (#[trigger] rest[i]).len() == 16 by {
            assert(rest[i] == keypads[i + 1]);
        }
        assert forall|i: int, k: int|
            0 <= i < rest.len() && 0 <= k < 16 implies !#[trigger] rest[i][k] by {
            assert(rest[i] == keypads[i + 1]);
        }
        law_wait_key_holds_through(next, rest, bytes.drop_first());
    }
}

/// A tick on the key-wait instruction (`Fx0A`) with a key down succeeds,
/// puts the lowest key that is down into `Vx` and moves on to the next
/// instruction.
pub proof fn law_wait_key_releases(m: Machine, keypad: Seq<bool>, byte: u8)
    requires
        m.wf(),
        m.pc + 2 < 4096,
        keypad.len() == 16,
        exists|k: int| 0 <= k < 16 && keypad[k],
        m.fetch(keypad).opcode / 4096 == 0xF,
        operand_kk(m.fetch(keypad).opcode) == 0x0A,
    ensures
        m.step(keypad, byte) is Ok,
        0 <= first_pressed(keypad, 0) < 16,
        m.step(keypad, byte).unwrap().registers == m.registers.update(
            operand_x(m.fetch(keypad).opcode),
            first_pressed(keypad, 0) as u8,
        ),
        m.step(keypad, byte).unwrap().pc == m.pc + 2,
{
    law_first_pressed_is_lowest(keypad, 0);
}

/// A tick on a call (`2nnn`) followed by a tick on a return (`00EE`) leaves
/// the program counter just past the call and the stack pointer where it
/// was, provided that the call is not the last word of memory.
pub proof fn law_call_then_ret_ticks(
    m: Machine,
    keypad: Seq<bool>,
    byte: u8,
    next_keypad: Seq<bool>,
    next_byte: u8,
)
    requires
        m.wf(),
        keypad.len() == 16,
        next_keypad.len() == 16,
        m.pc + 2 < 4096,
        m.fetch(keypad).opcode / 4096 == 0x2,
        m.step(keypad, byte) is Ok,
        m.step(keypad, byte).unwrap().pc + 2 < 4096,
        m.step(keypad, byte).unwrap().fetch(next_keypad).opcode == 0x00EE,
    ensures
        m.step(keypad, byte).unwrap().step(next_keypad, next_byte) is Ok,
        m.step(keypad, byte).unwrap().step(next_keypad, next_byte).unwrap().pc == m.pc + 2,
        m.step(keypad, byte).unwrap().step(next_keypad, next_byte).unwrap().sp == m.sp,
{
}

/// The random byte matters to one instruction only: a tick on any word but
/// `Cxkk` comes out the same whatever the byte.
pub proof fn law_byte_matters_to_rnd_only(m: Machine, keypad: Seq<bool>, byte: u8, other: u8)
    requires
        m.fetch(keypad).opcode / 4096 != 0xC,
    ensures
        m.step(keypad, byte) == m.step(keypad, other),
{
}

/// A tick that fails on a word of no instruction reports that word and the
/// address it was fetched from.
pub proof fn law_unknown_opcode_reports_fetch(m: Machine, keypad: Seq<bool>, byte: u8)
    requires
        m.wf(),
        keypad.len() == 16,
    ensures
        match m.step(keypad, byte) {
            Err(Fault::UnknownOpcode { opcode, pc }) => opcode == m.fetch(keypad).opcode && pc
                == m.pc,
            _ => true,
        },
{
}

} // verus!
