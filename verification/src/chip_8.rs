//! The interpreter in the form a host can use as it is: the display is a flat
//! buffer of 32-bit pixels, the keypad is one byte per key, and each
//! instruction takes its operands from the word fetched last.

use vstd::prelude::*;
use crate::fault::Fault;
use crate::laws::law_execute_keeps_bounds;
use crate::font::{font, FONTSET, FONT_GLYPH_BYTES, FONT_START};
use crate::machine::{
    blank_screen, first_pressed, operand_kk, operand_n, operand_nnn, operand_x, operand_y, outcome,
    word, Machine, FLAG_REG, KEYS, MEMORY_SIZE, REG_COUNT, ROM_START, STACK_DEPTH,
};
use crate::rng::random_byte;

verus! {

/// Pixels on the screen.
pub const SCREEN_RESOLUTION: usize = 2048;

/// A CHIP-8 interpreter that keeps the display and the keypad in the form
/// a host hands them over: 32-bit pixels in one row-major buffer, and one
/// byte per key.
#[derive(Clone, Copy)]
pub struct Chip8 {
    registers: [u8; REG_COUNT],
    memory: [u8; MEMORY_SIZE],
    index: u16,
    pc: u16,
    stack: [u16; STACK_DEPTH],
    sp: u8,
    delay_timer: u8,
    sound_timer: u8,
    keypad: [u8; KEYS],
    video: [u32; SCREEN_RESOLUTION],
    opcode: u16,
}

/// A lit pixel: every bit set.
pub const PIXEL_ON: u32 = 0xFFFF_FFFF;

/// A dark pixel.
pub const PIXEL_OFF: u32 = 0;

/// The keys that a keypad held as bytes shows as down: those whose byte is
/// not zero.
pub open spec fn keys_down(keypad: [u8; 16]) -> Seq<bool> {
    Seq::new(16, |k: int| keypad[k] != 0)
}

impl View for Chip8 {
    type V = Machine;

    closed spec fn view(&self) -> Machine {
        Machine {
            registers: self.registers@,
            memory: self.memory@,
            index: self.index,
            pc: self.pc,
            stack: self.stack@,
            sp: self.sp,
            delay_timer: self.delay_timer,
            sound_timer: self.sound_timer,
            keypad: keys_down(self.keypad),
            video: Seq::new(32, |y: int| Seq::new(64, |x: int| self.video[y * 64 + x] != 0)),
            opcode: self.opcode,
        }
    }
}

impl Chip8 {
    /// The model is well formed and every pixel is stored as `PIXEL_ON` or
    /// `PIXEL_OFF`.
    pub closed spec fn wf(&self) -> bool {
        &&& self@.wf()
        &&& forall|i: int|
            0 <= i < 2048 ==> #[trigger] self.video[i] == PIXEL_OFF || self.video[i] == PIXEL_ON
    }

    /// The operand `x` of the fetched word.
    fn x(&self) -> (x: usize)
        ensures
            x == operand_x(self@.opcode),
            x < 16,
    {
        let op: u16 = self.opcode;
        assert((op & 0x0F00u16) >> 8u16 == (op / 256) % 16) by (bit_vector);
        ((op & 0x0F00) >> 8u16) as usize
    }

    /// The operand `y` of the fetched word.
    fn y(&self) -> (y: usize)
        ensures
            y == operand_y(self@.opcode),
            y < 16,
    {
        let op: u16 = self.opcode;
        assert((op & 0x00F0u16) >> 4u16 == (op / 16) % 16) by (bit_vector);
        ((op & 0x00F0) >> 4u16) as usize
    }

    /// The operand `n` of the fetched word.
    fn n(&self) -> (n: usize)
        ensures
            n == operand_n(self@.opcode),
            n < 16,
    {
        let op: u16 = self.opcode;
        assert(op & 0x000Fu16 == op % 16) by (bit_vector);
        (op & 0x000F) as usize
    }

    /// The operand `kk` of the fetched word.
    fn kk(&self) -> (kk: u8)
        ensures
            kk == operand_kk(self@.opcode),
    {
        let op: u16 = self.opcode;
        assert(op & 0x00FFu16 == op % 256) by (bit_vector);
        (op & 0x00FF) as u8
    }

    /// The operand `nnn` of the fetched word.
    fn nnn(&self) -> (nnn: u16)
        ensures
            nnn == operand_nnn(self@.opcode),
            nnn < 4096,
    {
        let op: u16 = self.opcode;
        assert(op & 0x0FFFu16 == op % 4096) by (bit_vector);
        op & 0x0FFF
    }

    /// A well-formed interpreter shows a well-formed machine: the stack
    /// pointer is at most 16 and the program counter is an address or, in
    /// the middle of a tick on the last word of memory, one past the last.
    pub proof fn lemma_bounds(&self)
        requires
            self.wf(),
        ensures
            self@.wf(),
            self@.sp <= 16,
            self@.pc <= 4096,
            self@.index < 65536,
    {
    }

    /// A machine at power-on.
    pub fn new() -> (p: Chip8)
        ensures
            p.wf(),
            p@ == Machine::power_on(),
            p@.ready(),
    {
        let mut memory = [0u8; 4096];
        let mut i: usize = 0;
        while i < 80
            invariant
                i <= 80,
                forall|a: int| 0 <= a < 4096 ==> #[trigger] memory@[a] == (if 0x50 <= a < 0x50 + i {
                    font()[a - 0x50]
                } else {
                    0u8
                }),
            decreases 80 - i,
        {
            memory[0x50 + i] = FONTSET[i];
            i += 1;
        }
        let p = Chip8 {
            registers: [0u8; 16],
            memory,
            index: 0,
            pc: ROM_START,
            stack: [0u16; 16],
            sp: 0,
            delay_timer: 0,
            sound_timer: 0,
            keypad: [0u8; 16],
            video: [0u32; 2048],
            opcode: 0,
        };
        proof {
            let m = Machine::power_on();
            assert(p@.registers =~= m.registers);
            assert(p@.memory =~= m.memory);
            assert(p@.stack =~= m.stack);
            assert(p@.keypad =~= m.keypad);
            assert(p@.video =~~= m.video);
        }
        p
    }

    /// `00E0`: clear the display.
    pub fn op_00e0(&mut self)
        requires
            old(self).wf(),
        ensures
            final(self).wf(),
            final(self)@ == old(self)@.cls(),
    {
        let mut i: usize = 0;
        while i < 2048
            invariant
                i <= 2048,
                self.wf(),
                self@ == (Machine { video: self@.video, ..old(self)@ }),
                forall|j: int| 0 <= j < i ==> #[trigger] self.video[j] == 0,
            decreases 2048 - i,
        {
            self.video[i] = PIXEL_OFF;
            i += 1;
        }
        proof {
            assert(self@.video =~~= blank_screen());
        }
    }

    /// `00EE`: return from a subroutine.
    pub fn op_00ee(&mut self) -> (r: Result<(), Fault>)
        requires
            old(self).wf(),
        ensures
            final(self).wf(),
            outcome(r, old(self)@, final(self)@, old(self)@.ret()),
    {
        if self.sp == 0 {
            return Err(Fault::StackUnderflow);
        }
        let target = self.stack[(self.sp - 1) as usize];
        if target >= 4096 {
            return Err(Fault::AddressOutOfRange);
        }
        self.sp = self.sp - 1;
        self.pc = target;
        Ok(())
    }

    /// `1nnn`: jump to `nnn`.
    pub fn op_1nnn(&mut self) -> (r: Result<(), Fault>)
        requires
            old(self).wf(),
        ensures
            final(self).wf(),
            outcome(r, old(self)@, final(self)@, old(self)@.jp(operand_nnn(old(self)@.opcode))),
    {
        let nnn: u16 = self.nnn();
        if nnn >= 4096 {
            return Err(Fault::AddressOutOfRange);
        }
        self.pc = nnn;
        Ok(())
    }

    /// `2nnn`: call the subroutine at `nnn`.
    pub fn op_2nnn(&mut self) -> (r: Result<(), Fault>)
        requires
            old(self).wf(),
        ensures
            final(self).wf(),
            outcome(r, old(self)@, final(self)@, old(self)@.call(operand_nnn(old(self)@.opcode))),
    {
        let nnn: u16 = self.nnn();
        if self.sp >= 16 {
            return Err(Fault::StackOverflow);
        }
        if nnn >= 4096 {
            return Err(Fault::AddressOutOfRange);
        }
        self.stack[self.sp as usize] = self.pc;
        self.sp = self.sp + 1;
        self.pc = nnn;
        Ok(())
    }

    /// Moves the program counter past the next instruction where `cond`
    /// holds.
    fn skip_if(&mut self, cond: bool) -> (r: Result<(), Fault>)
        requires
            old(self).wf(),
        ensures
            final(self).wf(),
            outcome(r, old(self)@, final(self)@, old(self)@.skip_if(cond)),
    {
        if cond {
            if self.pc >= 4094 {
                return Err(Fault::AddressOutOfRange);
            }
            self.pc = self.pc + 2;
        }
        Ok(())
    }

    /// `3xkk`: skip the next instruction if `Vx == kk`.
    pub fn op_3xkk(&mut self) -> (r: Result<(), Fault>)
        requires
            old(self).wf(),
        ensures
            final(self).wf(),
            outcome(
                r,
                old(self)@,
                final(self)@,
                old(self)@.se_byte(operand_x(old(self)@.opcode), operand_kk(old(self)@.opcode)),
            ),
    {
        let x: usize = self.x();
        let kk: u8 = self.kk();
        self.skip_if(self.registers[x] == kk)
    }

    /// `6xkk`: `Vx = kk`.
    pub fn op_6xkk(&mut self)
        requires
            old(self).wf(),
        ensures
            final(self).wf(),
            final(self)@ == old(self)@.ld_byte(
                operand_x(old(self)@.opcode),
                operand_kk(old(self)@.opcode),
            ),
    {
        let x: usize = self.x();
        let kk: u8 = self.kk();
        self.registers[x] = kk;
    }

    /// `4xkk`: skip the next instruction if `Vx != kk`.
    pub fn op_4xkk(&mut self) -> (r: Result<(), Fault>)
        requires
            old(self).wf(),
        ensures
            final(self).wf(),
            outcome(
                r,
                old(self)@,
                final(self)@,
                old(self)@.sne_byte(operand_x(old(self)@.opcode), operand_kk(old(self)@.opcode)),
            ),
    {
        let x: usize = self.x();
        let kk: u8 = self.kk();
        self.skip_if(self.registers[x] != kk)
    }

    /// `5xy0`: skip the next instruction if `Vx == Vy`.
    pub fn op_5xy0(&mut self) -> (r: Result<(), Fault>)
        requires
            old(self).wf(),
        ensures
            final(self).wf(),
            outcome(
                r,
                old(self)@,
                final(self)@,
                old(self)@.se_reg(operand_x(old(self)@.opcode), operand_y(old(self)@.opcode)),
            ),
    {
        let x: usize = self.x();
        let y: usize = self.y();
        self.skip_if(self.registers[x] == self.registers[y])
    }

    /// `7xkk`: `Vx = Vx + kk`, wrapping, without touching the flag.
    pub fn op_7xkk(&mut self)
        requires
            old(self).wf(),
        ensures
            final(self).wf(),
            final(self)@ == old(self)@.add_byte(
                operand_x(old(self)@.opcode),
                operand_kk(old(self)@.opcode),
            ),
    {
        let x: usize = self.x();
        let kk: u8 = self.kk();
        let sum: u16 = self.registers[x] as u16 + kk as u16;
        self.registers[x] = (sum % 256) as u8;
    }

    /// `8xy0`: `Vx = Vy`.
    pub fn op_8xy0(&mut self)
        requires
            old(self).wf(),
        ensures
            final(self).wf(),
            final(self)@ == old(self)@.ld_reg(
                operand_x(old(self)@.opcode),
                operand_y(old(self)@.opcode),
            ),
    {
        let x: usize = self.x();
        let y: usize = self.y();
        self.registers[x] = self.registers[y];
    }

    /// `8xy1`: `Vx = Vx | Vy`.
    pub fn op_8xy1(&mut self)
        requires
            old(self).wf(),
        ensures
            final(self).wf(),
            final(self)@ == old(self)@.or_reg(
                operand_x(old(self)@.opcode),
                operand_y(old(self)@.opcode),
            ),
    {
        let x: usize = self.x();
        let y: usize = self.y();
        self.registers[x] = self.registers[x] | self.registers[y];
    }

    /// `8xy2`: `Vx = Vx & Vy`.
    pub fn op_8xy2(&mut self)
        requires
            old(self).wf(),
        ensures
            final(self).wf(),
            final(self)@ == old(self)@.and_reg(
                operand_x(old(self)@.opcode),
                operand_y(old(self)@.opcode),
            ),
    {
        let x: usize = self.x();
        let y: usize = self.y();
        self.registers[x] = self.registers[x] & self.registers[y];
    }

    /// `8xy3`: `Vx = Vx ^ Vy`.
    pub fn op_8xy3(&mut self)
        requires
            old(self).wf(),
        ensures
            final(self).wf(),
            final(self)@ == old(self)@.xor_reg(
                operand_x(old(self)@.opcode),
                operand_y(old(self)@.opcode),
            ),
    {
        let x: usize = self.x();
        let y: usize = self.y();
        self.registers[x] = self.registers[x] ^ self.registers[y];
    }

    /// `8xy4`: `Vx = Vx + Vy`, wrapping; `VF` is the carry, written last.
    pub fn op_8xy4(&mut self)
        requires
            old(self).wf(),
        ensures
            final(self).wf(),
            final(self)@ == old(self)@.add_reg(
                operand_x(old(self)@.opcode),
                operand_y(old(self)@.opcode),
            ),
    {
        let x: usize = self.x();
        let y: usize = self.y();
        let sum: u16 = self.registers[x] as u16 + self.registers[y] as u16;
        self.registers[x] = (sum % 256) as u8;
        self.registers[FLAG_REG] = if sum > 0xFF { 1 } else { 0 };
    }

    /// `8xy5`: `Vx = Vx - Vy`, wrapping; `VF` is 1 iff `Vx > Vy`, written
    /// last.
    pub fn op_8xy5(&mut self)
        requires
            old(self).wf(),
        ensures
            final(self).wf(),
            final(self)@ == old(self)@.sub_reg(
                operand_x(old(self)@.opcode),
                operand_y(old(self)@.opcode),
            ),
    {
        let x: usize = self.x();
        let y: usize = self.y();
        let vx: u8 = self.registers[x];
        let vy: u8 = self.registers[y];
        let difference: u16 = (256 + vx as u16 - vy as u16) % 256;
        self.registers[x] = difference as u8;
        self.registers[FLAG_REG] = if vx > vy { 1 } else { 0 };
    }

    /// `8xy6`: `Vx` shifted right by one; `VF` is the bit that fell out,
    /// written last.
    pub fn op_8xy6(&mut self)
        requires
            old(self).wf(),
        ensures
            final(self).wf(),
            final(self)@ == old(self)@.shr(operand_x(old(self)@.opcode)),
    {
        let x: usize = self.x();
        let vx: u8 = self.registers[x];
        assert(vx >> 1u8 == vx / 2 && vx & 1u8 == vx % 2) by (bit_vector);
        self.registers[x] = vx >> 1u8;
        self.registers[FLAG_REG] = vx & 1u8;
    }

    /// `8xy7`: `Vx = Vy - Vx`, wrapping; `VF` is 1 iff `Vy > Vx`, written
    /// last.
    pub fn op_8xy7(&mut self)
        requires
            old(self).wf(),
        ensures
            final(self).wf(),
            final(self)@ == old(self)@.subn_reg(
                operand_x(old(self)@.opcode),
                operand_y(old(self)@.opcode),
            ),
    {
        let x: usize = self.x();
        let y: usize = self.y();
        let vx: u8 = self.registers[x];
        let vy: u8 = self.registers[y];
        let difference: u16 = (256 + vy as u16 - vx as u16) % 256;
        self.registers[x] = difference as u8;
        self.registers[FLAG_REG] = if vy > vx { 1 } else { 0 };
    }

    /// `8xyE`: `Vx` shifted left by one; `VF` is the bit that fell out,
    /// written last.
    pub fn op_8xye(&mut self)
        requires
            old(self).wf(),
        ensures
            final(self).wf(),
            final(self)@ == old(self)@.shl(operand_x(old(self)@.opcode)),
    {
        let x: usize = self.x();
        let vx: u8 = self.registers[x];
        assert((vx & 0x80u8) >> 7u8 == vx / 128) by (bit_vector);
        let doubled: u16 = (vx as u16 * 2) % 256;
        self.registers[x] = doubled as u8;
        self.registers[FLAG_REG] = (vx & 0x80u8) >> 7u8;
    }

    /// `9xy0`: skip the next instruction if `Vx != Vy`.
    pub fn op_9xy0(&mut self) -> (r: Result<(), Fault>)
        requires
            old(self).wf(),
        ensures
            final(self).wf(),
            outcome(
                r,
                old(self)@,
                final(self)@,
                old(self)@.sne_reg(operand_x(old(self)@.opcode), operand_y(old(self)@.opcode)),
            ),
    {
        let x: usize = self.x();
        let y: usize = self.y();
        self.skip_if(self.registers[x] != self.registers[y])
    }

    /// `Annn`: `I = nnn`.
    pub fn op_annn(&mut self)
        requires
            old(self).wf(),
        ensures
            final(self).wf(),
            final(self)@ == old(self)@.ld_index(operand_nnn(old(self)@.opcode)),
    {
        let nnn: u16 = self.nnn();
        self.index = nnn;
    }

    /// `Bnnn`: jump to `V0 + nnn`.
    pub fn op_bnnn(&mut self) -> (r: Result<(), Fault>)
        requires
            old(self).wf(),
        ensures
            final(self).wf(),
            outcome(
                r,
                old(self)@,
                final(self)@,
                old(self)@.jp_offset(operand_nnn(old(self)@.opcode)),
            ),
    {
        let nnn: u16 = self.nnn();
        let target: u32 = self.registers[0] as u32 + nnn as u32;
        if target >= 4096 {
            return Err(Fault::AddressOutOfRange);
        }
        self.pc = target as u16;
        Ok(())
    }

    /// `Cxkk` for a byte already drawn: `Vx = byte & kk`.
    pub fn op_cxkk_with(&mut self, byte: u8)
        requires
            old(self).wf(),
        ensures
            final(self).wf(),
            final(self)@ == old(self)@.rnd(
                operand_x(old(self)@.opcode),
                operand_kk(old(self)@.opcode),
                byte,
            ),
    {
        let x: usize = self.x();
        let kk: u8 = self.kk();
        self.registers[x] = byte & kk;
    }

    /// `Cxkk`: `Vx = random byte & kk`. Which byte was drawn is not known, so
    /// the result is stated for some byte.
    pub fn op_cxkk(&mut self)
        requires
            old(self).wf(),
        ensures
            final(self).wf(),
            exists|byte: u8|
                final(self)@ == #[trigger] old(self)@.rnd(
                    operand_x(old(self)@.opcode),
                    operand_kk(old(self)@.opcode),
                    byte,
                ),
    {
        let x: usize = self.x();
        let kk: u8 = self.kk();
        let byte = random_byte();
        self.op_cxkk_with(byte);
    }

    /// `Ex9E`: skip the next instruction if the key named by `Vx` is down.
    pub fn op_ex9e(&mut self) -> (r: Result<(), Fault>)
        requires
            old(self).wf(),
        ensures
            final(self).wf(),
            outcome(r, old(self)@, final(self)@, old(self)@.skp(operand_x(old(self)@.opcode))),
    {
        let x: usize = self.x();
        let key: usize = (self.registers[x] % 16) as usize;
        self.skip_if(self.keypad[key] > 0)
    }

    /// `ExA1`: skip the next instruction if the key named by `Vx` is up.
    pub fn op_exa1(&mut self) -> (r: Result<(), Fault>)
        requires
            old(self).wf(),
        ensures
            final(self).wf(),
            outcome(r, old(self)@, final(self)@, old(self)@.sknp(operand_x(old(self)@.opcode))),
    {
        let x: usize = self.x();
        let key: usize = (self.registers[x] % 16) as usize;
        self.skip_if(self.keypad[key] == 0)
    }

    /// `Fx07`: `Vx = delay_timer`.
    pub fn op_fx07(&mut self)
        requires
            old(self).wf(),
        ensures
            final(self).wf(),
            final(self)@ == old(self)@.ld_from_delay(operand_x(old(self)@.opcode)),
    {
        let x: usize = self.x();
        self.registers[x] = self.delay_timer;
    }

    /// `Fx0A`: wait for a key. With a key down `Vx` takes the lowest one;
    /// with none the program counter steps back, so that the next tick runs
    /// this instruction again.
    pub fn op_fx0a(&mut self) -> (r: Result<(), Fault>)
        requires
            old(self).wf(),
        ensures
            final(self).wf(),
            outcome(r, old(self)@, final(self)@, old(self)@.wait_key(operand_x(old(self)@.opcode))),
    {
        let x: usize = self.x();
        let mut key: usize = 0;
        while key < 16 && self.keypad[key] == 0
            invariant
                key <= 16,
                first_pressed(self@.keypad, 0) == first_pressed(self@.keypad, key as int),
            decreases 16 - key,
        {
            key += 1;
        }
        if key < 16 {
            self.registers[x] = key as u8;
            Ok(())
        } else if self.pc < 2 {
            Err(Fault::AddressOutOfRange)
        } else {
            self.pc = self.pc - 2;
            Ok(())
        }
    }

    /// `Fx15`: `delay_timer = Vx`.
    pub fn op_fx15(&mut self)
        requires
            old(self).wf(),
        ensures
            final(self).wf(),
            final(self)@ == old(self)@.ld_delay(operand_x(old(self)@.opcode)),
    {
        let x: usize = self.x();
        self.delay_timer = self.registers[x];
    }

    /// `Fx18`: `sound_timer = Vx`.
    pub fn op_fx18(&mut self)
        requires
            old(self).wf(),
        ensures
            final(self).wf(),
            final(self)@ == old(self)@.ld_sound(operand_x(old(self)@.opcode)),
    {
        let x: usize = self.x();
        self.sound_timer = self.registers[x];
    }

    /// `Fx1E`: `I = I + Vx`, wrapping at 16 bits.
    pub fn op_fx1e(&mut self)
        requires
            old(self).wf(),
        ensures
            final(self).wf(),
            final(self)@ == old(self)@.add_index(operand_x(old(self)@.opcode)),
    {
        let x: usize = self.x();
        let sum: u32 = (self.index as u32 + self.registers[x] as u32) % 65536;
        self.index = sum as u16;
    }

    /// `Fx29`: `I` points at the glyph for the low nibble of `Vx`.
    pub fn op_fx29(&mut self)
        requires
            old(self).wf(),
        ensures
            final(self).wf(),
            final(self)@ == old(self)@.ld_glyph(operand_x(old(self)@.opcode)),
    {
        let x: usize = self.x();
        let digit: u16 = (self.registers[x] % 16) as u16;
        self.index = FONT_START + FONT_GLYPH_BYTES * digit;
    }

    /// `Fx33`: the decimal digits of `Vx` go to `I`, `I+1`, `I+2`.
    pub fn op_fx33(&mut self) -> (r: Result<(), Fault>)
        requires
            old(self).wf(),
        ensures
            final(self).wf(),
            outcome(r, old(self)@, final(self)@, old(self)@.bcd(operand_x(old(self)@.opcode))),
    {
        let x: usize = self.x();
        let vx: u8 = self.registers[x];
        let at: usize = self.index as usize;
        if at + 2 >= 4096 {
            return Err(Fault::AddressOutOfRange);
        }
        self.memory[at] = vx / 100;
        self.memory[at + 1] = (vx / 10) % 10;
        self.memory[at + 2] = vx % 10;
        Ok(())
    }

    /// `Fx55`: `V0` to `Vx` go to memory at `I` onwards.
    pub fn op_fx55(&mut self) -> (r: Result<(), Fault>)
        requires
            old(self).wf(),
        ensures
            final(self).wf(),
            outcome(r, old(self)@, final(self)@, old(self)@.store(operand_x(old(self)@.opcode))),
    {
        let x: usize = self.x();
        let at: usize = self.index as usize;
        if at + x >= 4096 {
            return Err(Fault::AddressOutOfRange);
        }
        let mut i: usize = 0;
        while i <= x
            invariant
                i <= x + 1,
                x < 16,
                at == old(self)@.index,
                at + x < 4096,
                self.wf(),
                self@ == (Machine { memory: self@.memory, ..old(self)@ }),
                forall|a: int|
                    0 <= a < 4096 ==> #[trigger] self@.memory[a] == (if at <= a < at + i {
                        old(self)@.registers[a - at]
                    } else {
                        old(self)@.memory[a]
                    }),
            decreases x + 1 - i,
        {
            self.memory[at + i] = self.registers[i];
            i += 1;
        }
        proof {
            assert(self@.memory =~= old(self)@.store(x as int).unwrap().memory);
        }
        Ok(())
    }

    /// `Fx65`: `V0` to `Vx` are read from memory at `I` onwards.
    pub fn op_fx65(&mut self) -> (r: Result<(), Fault>)
        requires
            old(self).wf(),
        ensures
            final(self).wf(),
            outcome(r, old(self)@, final(self)@, old(self)@.fill(operand_x(old(self)@.opcode))),
    {
        let x: usize = self.x();
        let at: usize = self.index as usize;
        if at + x >= 4096 {
            return Err(Fault::AddressOutOfRange);
        }
        let mut i: usize = 0;
        while i <= x
            invariant
                i <= x + 1,
                x < 16,
                at == old(self)@.index,
                at + x < 4096,
                self.wf(),
                self@ == (Machine { registers: self@.registers, ..old(self)@ }),
                forall|r: int|
                    0 <= r < 16 ==> #[trigger] self@.registers[r] == (if r < i {
                        old(self)@.memory[at + r]
                    } else {
                        old(self)@.registers[r]
                    }),
            decreases x + 1 - i,
        {
            self.registers[i] = self.memory[at + i];
            i += 1;
        }
        proof {
            assert(self@.registers =~= old(self)@.fill(x as int).unwrap().registers);
        }
        Ok(())
    }

    /// `Dxyn`: draw the sprite of `n` rows found at `I` at column
    /// `Vx mod 64`, row `Vy mod 32`, by XOR and wrapping at both edges. `VF`
    /// is 1 iff a lit pixel went dark.
    pub fn op_dxyn(&mut self) -> (r: Result<(), Fault>)
        requires
            old(self).wf(),
        ensures
            final(self).wf(),
            outcome(
                r,
                old(self)@,
                final(self)@,
                old(
                    self)@.draw(operand_x(old(self)@.opcode),
                    operand_y(old(self)@.opcode),
                    operand_n(old(self)@.opcode),
                ),
            ),
    {
        let x: usize = self.x();
        let y: usize = self.y();
        let n: usize = self.n();
        let at: usize = self.index as usize;
        if n > 0 && at + n > 4096 {
            return Err(Fault::AddressOutOfRange);
        }
        let sx: usize = (self.registers[x] % 64) as usize;
        let sy: usize = (self.registers[y] % 32) as usize;
        let ghost before = self@;
        self.registers[FLAG_REG] = 0;
        proof {
            before.lemma_paint_none(sx as int, sy as int, n as int);
        }
        let mut row: usize = 0;
        while row < n
            invariant
                row <= n < 16,
                sx < 64,
                sy < 32,
                at == before.index,
                n > 0 ==> at + n <= 4096,
                before == old(self)@,
                before.wf(),
                self.wf(),
                self@ == (Machine { registers: self@.registers, video: self@.video, ..before }),
                self@.registers == before.registers.update(15, self.registers[FLAG_REG as int]),
                (self.registers[FLAG_REG as int] == 1) == before.collides_before(
                    sx as int,
                    sy as int,
                    n as int,
                    row as int,
                    0,
                ),
                self.registers[FLAG_REG as int] <= 1,
                forall|i: int|
                    0 <= i < 2048 ==> (#[trigger] self.video[i] != 0) == (before.video[i / 64][i
                        % 64] != before.painted(
                        sx as int,
                        sy as int,
                        n as int,
                        row as int,
                        0,
                        i / 64,
                        i % 64,
                    )),
            decreases n - row,
        {
            let sprite_byte: u8 = self.memory[at + row];
            let py: usize = (sy + row) % 32;
            let mut col: u8 = 0;
            while col < 8
                invariant
                    row < n < 16,
                    col <= 8,
                    sx < 64,
                    sy < 32,
                    at == before.index,
                    at + n <= 4096,
                    py == (sy + row) % 32,
                    sprite_byte == before.memory[at + row],
                    before == old(self)@,
                    before.wf(),
                    self.wf(),
                    self@ == (Machine { registers: self@.registers, video: self@.video, ..before }),
                    self@.registers == before.registers.update(15, self.registers[FLAG_REG as int]),
                    (self.registers[FLAG_REG as int] == 1) == before.collides_before(
                        sx as int,
                        sy as int,
                        n as int,
                        row as int,
                        col as int,
                    ),
                    self.registers[FLAG_REG as int] <= 1,
                    forall|i: int|
                        0 <= i < 2048 ==> (#[trigger] self.video[i] != 0) == (before.video[i
                            / 64][i % 64] != before.painted(
                            sx as int,
                            sy as int,
                            n as int,
                            row as int,
                            col as int,
                            i / 64,
                            i % 64,
                        )),
                decreases 8 - col,
            {
                let px: usize = (sx + col as usize) % 64;
                let at_pixel: usize = py * 64 + px;
                let sprite_pixel: u8 = sprite_byte & (0x80u8 >> col);
                let screen_pixel: u32 = self.video[at_pixel];
                proof {
                    before.lemma_paint_pixel(
                        sx as int,
                        sy as int,
                        n as int,
                        row as int,
                        col as int,
                    );
                    assert((sprite_byte & (0x80u8 >> col) > 0) == ((sprite_byte >> (
                    7 - col) as u8) & 1u8 == 1u8)) by (bit_vector)
                        requires
                            col < 8,
                    ;
                    assert(0u32 ^ 0xFFFF_FFFFu32 == 0xFFFF_FFFFu32 && 0xFFFF_FFFFu32
                        ^ 0xFFFF_FFFFu32 == 0u32) by (bit_vector);
                    assert(!before.painted(
                        sx as int,
                        sy as int,
                        n as int,
                        row as int,
                        col as int,
                        py as int,
                        px as int,
                    ));
                    assert(at_pixel / 64 == py && at_pixel % 64 == px);
                    assert((screen_pixel != 0) == before.video[py as int][px as int]);
                }
                if sprite_pixel > 0 {
                    if screen_pixel == PIXEL_ON {
                        self.registers[FLAG_REG] = 1;
                    }
                    self.video[at_pixel] = screen_pixel ^ PIXEL_ON;
                }
                col += 1;
            }
            proof {
                before.lemma_paint_row(sx as int, sy as int, n as int, row as int);
            }
            row += 1;
        }
        proof {
            before.lemma_paint_all(sx as int, sy as int, n as int);
            let expected = before.draw(
                operand_x(before.opcode),
                operand_y(before.opcode),
                n as int,
            ).unwrap();
            assert(self@.registers =~= expected.registers);
            assert forall|py: int, px: int| 0 <= py < 32 && 0 <= px < 64 implies self@.video[py][px]
                == expected.video[py][px] by {
                let i = py * 64 + px;
                assert(i / 64 == py && i % 64 == px);
                assert((self.video[i] != 0) == (before.video[py][px] != before.painted(
                    sx as int,
                    sy as int,
                    n as int,
                    n as int,
                    0,
                    py,
                    px,
                )));
            }
            assert(self@.video =~~= expected.video);
        }
        Ok(())
    }

    /// The instruction word at the program counter, high byte first.
    pub fn get_opcode(&self) -> (op: u16)
        requires
            self.wf(),
            self@.pc + 1 < 4096,
        ensures
            op == word(self@.memory[self@.pc as int], self@.memory[self@.pc + 1]),
    {
        let hi: u16 = self.memory[self.pc as usize] as u16;
        let lo: u16 = self.memory[self.pc as usize + 1] as u16;
        assert(hi << 8u16 | lo == hi * 256 + lo) by (bit_vector)
            requires
                hi < 256,
                lo < 256,
        ;
        hi << 8u16 | lo
    }

    /// Decodes the fetched word and carries out the instruction it names,
    /// with `byte` as the random byte should the instruction ask for one.
    /// The program counter must already stand past the word.
    pub fn run_opcode_with(&mut self, byte: u8) -> (r: Result<(), Fault>)
        requires
            old(self).wf(),
            old(self)@.pc >= 2,
        ensures
            final(self).wf(),
            outcome(r, old(self)@, final(self)@, old(self)@.execute(byte)),
    {
        let op: u16 = self.opcode;
        let top: u16 = op / 4096;
        let n: usize = self.n();
        let kk: u8 = self.kk();
        if op == 0x00E0 {
            self.op_00e0();
            Ok(())
        } else if op == 0x00EE {
            self.op_00ee()
        } else if top == 0x1 {
            self.op_1nnn()
        } else if top == 0x2 {
            self.op_2nnn()
        } else if top == 0x3 {
            self.op_3xkk()
        } else if top == 0x4 {
            self.op_4xkk()
        } else if top == 0x5 && n == 0x0 {
            self.op_5xy0()
        } else if top == 0x6 {
            self.op_6xkk();
            Ok(())
        } else if top == 0x7 {
            self.op_7xkk();
            Ok(())
        } else if top == 0x8 && n == 0x0 {
            self.op_8xy0();
            Ok(())
        } else if top == 0x8 && n == 0x1 {
            self.op_8xy1();
            Ok(())
        } else if top == 0x8 && n == 0x2 {
            self.op_8xy2();
            Ok(())
        } else if top == 0x8 && n == 0x3 {
            self.op_8xy3();
            Ok(())
        } else if top == 0x8 && n == 0x4 {
            self.op_8xy4();
            Ok(())
        } else if top == 0x8 && n == 0x5 {
            self.op_8xy5();
            Ok(())
        } else if top == 0x8 && n == 0x6 {
            self.op_8xy6();
            Ok(())
        } else if top == 0x8 && n == 0x7 {
            self.op_8xy7();
            Ok(())
        } else if top == 0x8 && n == 0xE {
            self.op_8xye();
            Ok(())
        } else if top == 0x9 && n == 0x0 {
            self.op_9xy0()
        } else if top == 0xA {
            self.op_annn();
            Ok(())
        } else if top == 0xB {
            self.op_bnnn()
        } else if top == 0xC {
            self.op_cxkk_with(byte);
            Ok(())
        } else if top == 0xD {
            self.op_dxyn()
        } else if top == 0xE && kk == 0x9E {
            self.op_ex9e()
        } else if top == 0xE && kk == 0xA1 {
            self.op_exa1()
        } else if top == 0xF && kk == 0x07 {
            self.op_fx07();
            Ok(())
        } else if top == 0xF && kk == 0x0A {
            self.op_fx0a()
        } else if top == 0xF && kk == 0x15 {
            self.op_fx15();
            Ok(())
        } else if top == 0xF && kk == 0x18 {
            self.op_fx18();
            Ok(())
        } else if top == 0xF && kk == 0x1E {
            self.op_fx1e();
            Ok(())
        } else if top == 0xF && kk == 0x29 {
            self.op_fx29();
            Ok(())
        } else if top == 0xF && kk == 0x33 {
            self.op_fx33()
        } else if top == 0xF && kk == 0x55 {
            self.op_fx55()
        } else if top == 0xF && kk == 0x65 {
            self.op_fx65()
        } else {
            Err(Fault::UnknownOpcode { opcode: op, pc: self.pc - 2 })
        }
    }

    /// Decodes the fetched word and carries out the instruction it names,
    /// drawing a random byte where the instruction asks for one. The result
    /// is stated for some byte: every other instruction ignores it.
    pub fn run_opcode(&mut self) -> (r: Result<(), Fault>)
        requires
            old(self).wf(),
            old(self)@.pc >= 2,
        ensures
            final(self).wf(),
            exists|byte: u8|
                outcome(r, old(self)@, final(self)@, #[trigger] old(self)@.execute(byte)),
    {
        let op: u16 = self.opcode;
        if op / 4096 == 0xC {
            self.op_cxkk();
            proof {
                let byte = choose|byte: u8|
                    self@ == #[trigger] old(self)@.rnd(operand_x(op), operand_kk(op), byte);
                assert(outcome(Ok(()), old(self)@, self@, old(self)@.execute(byte)));
            }
            Ok(())
        } else {
            let r = self.run_opcode_with(0);
            proof {
                assert(outcome(r, old(self)@, self@, old(self)@.execute(0)));
            }
            r
        }
    }

    /// The first half of a tick: latches the keypad, steps both timers,
    /// fetches the word at the program counter and moves past it.
    fn fetch(&mut self, keypad: [u8; 16])
        requires
            old(self).wf(),
            old(self)@.pc + 1 < 4096,
        ensures
            final(self).wf(),
            final(self)@ == old(self)@.fetch(keys_down(keypad)),
    {
        self.keypad = keypad;
        if self.delay_timer > 0 {
            self.delay_timer -= 1;
        }
        if self.sound_timer > 0 {
            self.sound_timer -= 1;
        }
        self.opcode = self.get_opcode();
        self.pc += 2;
    }

    /// Undoes `fetch` after an instruction that faulted and so changed
    /// nothing.
    fn unfetch(
        &mut self,
        keypad: [u8; 16],
        delay_timer: u8,
        sound_timer: u8,
        opcode: u16,
        pc: u16,
    )
        requires
            old(self).wf(),
            pc < 4096,
        ensures
            final(self).wf(),
            final(self)@ == (Machine {
                keypad: keys_down(keypad),
                delay_timer,
                sound_timer,
                opcode,
                pc,
                ..old(self)@
            }),
    {
        self.keypad = keypad;
        self.delay_timer = delay_timer;
        self.sound_timer = sound_timer;
        self.opcode = opcode;
        self.pc = pc;
    }

    /// Ends a tick on the last word of memory: the instruction stands if it
    /// succeeded and left the program counter an address; if not, the
    /// machine goes back to `saved`.
    fn keep_or_undo(&mut self, saved: Chip8, r: Result<(), Fault>) -> (out: Result<(), Fault>)
        requires
            old(self).wf(),
            saved.wf(),
        ensures
            final(self).wf(),
            r is Ok && old(self)@.pc < 4096 ==> out == r && final(self)@ == old(self)@,
            r is Ok && old(self)@.pc >= 4096 ==> out == Err::<(), Fault>(Fault::AddressOutOfRange)
                && final(self)@ == saved@,
            r is Err ==> out == r && final(self)@ == saved@,
    {
        if r.is_err() {
            *self = saved;
            r
        } else if self.pc >= 4096 {
            *self = saved;
            Err(Fault::AddressOutOfRange)
        } else {
            r
        }
    }

    /// One tick with the random byte supplied by the caller: the keypad is
    /// latched, the timers step, and one instruction is fetched and carried
    /// out. On a fault the machine is as it was.
    pub fn tick_with(&mut self, keypad: [u8; 16], byte: u8) -> (r: Result<(), Fault>)
        requires
            old(self).wf(),
        ensures
            final(self).wf(),
            outcome(r, old(self)@, final(self)@, old(self)@.step(keys_down(keypad), byte)),
            r is Ok ==> final(self)@.ready(),
    {
        if self.pc >= 4095 {
            return Err(Fault::AddressOutOfRange);
        }
        if self.pc == 4094 {
            let saved: Chip8 = *self;
            self.fetch(keypad);
            let r = self.run_opcode_with(byte);
            return self.keep_or_undo(saved, r);
        }
        let held = self.keypad;
        let delay_timer = self.delay_timer;
        let sound_timer = self.sound_timer;
        let opcode = self.opcode;
        let pc = self.pc;
        self.fetch(keypad);
        proof {
            law_execute_keeps_bounds(self@, byte);
        }
        let r = self.run_opcode_with(byte);
        if r.is_err() {
            self.unfetch(held, delay_timer, sound_timer, opcode, pc);
        }
        r
    }

    /// One tick: the keypad is latched, the timers step, and one instruction
    /// is fetched and carried out, with a random byte drawn where it asks
    /// for one. On a fault the machine is as it was.
    pub fn tick(&mut self, keypad: [u8; 16]) -> (r: Result<(), Fault>)
        requires
            old(self).wf(),
        ensures
            final(self).wf(),
            exists|byte: u8|
                outcome(r, old(self)@, final(self)@, #[trigger] old(self)@.step(keys_down(keypad), byte)),
            r is Ok ==> final(self)@.ready(),
    {
        if self.pc >= 4095 {
            proof {
                assert(outcome(
                    Err(Fault::AddressOutOfRange),
                    old(self)@,
                    self@,
                    old(self)@.step(keys_down(keypad), 0),
                ));
            }
            return Err(Fault::AddressOutOfRange);
        }
        if self.pc == 4094 {
            let saved: Chip8 = *self;
            self.fetch(keypad);
            let ghost fetched = self@;
            let r = self.run_opcode();
            let ghost byte = choose|byte: u8|
                outcome(r, fetched, self@, #[trigger] fetched.execute(byte));
            let out = self.keep_or_undo(saved, r);
            proof {
                assert(outcome(out, old(self)@, self@, old(self)@.step(keys_down(keypad), byte)));
            }
            return out;
        }
        let held = self.keypad;
        let delay_timer = self.delay_timer;
        let sound_timer = self.sound_timer;
        let opcode = self.opcode;
        let pc = self.pc;
        self.fetch(keypad);
        let ghost fetched = self@;
        let r = self.run_opcode();
        let ghost byte = choose|byte: u8|
            outcome(r, fetched, self@, #[trigger] fetched.execute(byte));
        proof {
            law_execute_keeps_bounds(fetched, byte);
        }
        if r.is_err() {
            self.unfetch(held, delay_timer, sound_timer, opcode, pc);
        }
        proof {
            assert(outcome(r, old(self)@, self@, old(self)@.step(keys_down(keypad), byte)));
        }
        r
    }

    /// Copies a program image to the entry address. An image that does not
    /// fit is refused and nothing is written.
    pub fn load_rom(&mut self, rom: &[u8]) -> (r: Result<(), Fault>)
        requires
            old(self).wf(),
        ensures
            final(self).wf(),
            outcome(r, old(self)@, final(self)@, old(self)@.load(rom@)),
    {
        if rom.len() > 4096 - 0x200 {
            return Err(Fault::RomTooLarge);
        }
        let mut i: usize = 0;
        while i < rom.len()
            invariant
                i <= rom.len() <= 4096 - 0x200,
                self.wf(),
                self@ == (Machine { memory: self@.memory, ..old(self)@ }),
                forall|a: int|
                    0 <= a < 4096 ==> #[trigger] self@.memory[a] == (if 0x200 <= a < 0x200 + i {
                        rom@[a - 0x200]
                    } else {
                        old(self)@.memory[a]
                    }),
            decreases rom.len() - i,
        {
            self.memory[0x200 + i] = rom[i];
            i += 1;
        }
        proof {
            assert(self@.memory =~= old(self)@.load(rom@).unwrap().memory);
        }
        Ok(())
    }

    /// The display as 2048 pixels, rows top to bottom and each row left to
    /// right: `PIXEL_ON` where the pixel is lit and `PIXEL_OFF` where it is
    /// dark.
    pub fn framebuffer(&self) -> (screen: &[u32; 2048])
        requires
            self.wf(),
        ensures
            forall|y: int, x: int|
                0 <= y < 32 && 0 <= x < 64 ==> screen[y * 64 + x] == (
                if #[trigger] self@.video[y][x] {
                    PIXEL_ON
                } else {
                    PIXEL_OFF
                }),
    {
        &self.video
    }

    /// Whether the pixel in column `x` of row `y` is lit.
    pub fn pixel(&self, x: usize, y: usize) -> (lit: bool)
        requires
            self.wf(),
            x < 64,
            y < 32,
        ensures
            lit == self@.video[y as int][x as int],
    {
        self.video[y * 64 + x] != 0
    }

    /// Whether the buzzer sounds: the sound timer has not run out.
    pub fn sound_on(&self) -> (on: bool)
        ensures
            on == (self@.sound_timer > 0),
    {
        self.sound_timer > 0
    }

    /// Register `Vx`.
    pub fn register(&self, x: usize) -> (value: u8)
        requires
            x < 16,
        ensures
            value == self@.registers[x as int],
    {
        self.registers[x]
    }

    /// The byte of memory at `address`.
    pub fn memory_at(&self, address: usize) -> (value: u8)
        requires
            address < 4096,
        ensures
            value == self@.memory[address as int],
    {
        self.memory[address]
    }

    /// The return address in slot `slot` of the stack.
    pub fn stack_at(&self, slot: usize) -> (value: u16)
        requires
            slot < 16,
        ensures
            value == self@.stack[slot as int],
    {
        self.stack[slot]
    }

    /// The index register `I`.
    pub fn index(&self) -> (value: u16)
        ensures
            value == self@.index,
    {
        self.index
    }

    /// The program counter.
    pub fn pc(&self) -> (value: u16)
        ensures
            value == self@.pc,
    {
        self.pc
    }

    /// The number of return addresses on the stack.
    pub fn sp(&self) -> (value: u8)
        ensures
            value == self@.sp,
    {
        self.sp
    }

    /// The delay timer.
    pub fn delay_timer(&self) -> (value: u8)
        ensures
            value == self@.delay_timer,
    {
        self.delay_timer
    }

    /// The sound timer.
    pub fn sound_timer(&self) -> (value: u8)
        ensures
            value == self@.sound_timer,
    {
        self.sound_timer
    }

    /// The instruction word fetched last.
    pub fn opcode(&self) -> (value: u16)
        ensures
            value == self@.opcode,
    {
        self.opcode
    }
}

} // verus!
