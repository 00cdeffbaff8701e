//! The mathematical model of the machine: its state as sequences and
//! integers, and every instruction as a function from state to state.

use vstd::prelude::*;
use crate::fault::Fault;
use crate::font::{font, glyph_address, FONT_START};

verus! {

/// Bytes of memory; addresses run from 0 to one less.
pub const MEMORY_SIZE: usize = 4096;

/// Where programs are loaded and where execution starts.
pub const ROM_START: u16 = 0x200;

/// Pixels in a row of the screen.
pub const SCREEN_WIDTH: usize = 64;

/// Rows of the screen.
pub const SCREEN_HEIGHT: usize = 32;

/// General registers, `V0` to `VF`.
pub const REG_COUNT: usize = 16;

/// Return addresses the stack can hold.
pub const STACK_DEPTH: usize = 16;

/// Keys on the keypad.
pub const KEYS: usize = 16;

/// The register that takes carry, borrow, shifted-out bit and collision.
pub const FLAG_REG: usize = 0xF;

/// Everything a program can observe of the machine.
pub struct Machine {
    /// `V0` to `VF`.
    pub registers: Seq<u8>,
    pub memory: Seq<u8>,
    /// The index register `I`.
    pub index: u16,
    pub pc: u16,
    pub stack: Seq<u16>,
    /// Number of return addresses on the stack; the next free slot.
    pub sp: u8,
    pub delay_timer: u8,
    pub sound_timer: u8,
    pub keypad: Seq<bool>,
    /// `video[y][x]` is true iff the pixel in row `y`, column `x` is lit.
    pub video: Seq<Seq<bool>>,
    /// The instruction word fetched last.
    pub opcode: u16,
}

/// A dark screen.
pub open spec fn blank_screen() -> Seq<Seq<bool>> {
    Seq::new(32, |y: int| Seq::new(64, |x: int| false))
}

/// The big-endian word made of two bytes.
pub open spec fn word(hi: u8, lo: u8) -> u16 {
    (hi * 256 + lo) as u16
}

/// A timer after one step: one less, unless it has run out.
pub open spec fn count_down(timer: u8) -> u8 {
    if timer > 0 {
        (timer - 1) as u8
    } else {
        0
    }
}

/// Whether a sprite row has its pixel in column `col` set; column 0 is the
/// top bit.
pub open spec fn bit_set(row: u8, col: int) -> bool {
    (row >> ((7 - col) as u8)) & 1u8 == 1u8
}

/// The lowest pressed key at or above `from`, or 16 when there is none.
pub open spec fn first_pressed(keypad: Seq<bool>, from: int) -> int
    decreases 16 - from,
{
    if from >= 16 {
        16
    } else if keypad[from] {
        from
    } else {
        first_pressed(keypad, from + 1)
    }
}

/// The second nibble of an instruction word: the register operand `x`.
pub open spec fn operand_x(opcode: u16) -> int {
    ((opcode / 256) % 16) as int
}

/// The third nibble of an instruction word: the register operand `y`.
pub open spec fn operand_y(opcode: u16) -> int {
    ((opcode / 16) % 16) as int
}

/// The last nibble of an instruction word.
pub open spec fn operand_n(opcode: u16) -> int {
    (opcode % 16) as int
}

/// The low byte of an instruction word.
pub open spec fn operand_kk(opcode: u16) -> u8 {
    (opcode % 256) as u8
}

/// The low twelve bits of an instruction word.
pub open spec fn operand_nnn(opcode: u16) -> u16 {
    (opcode % 4096) as u16
}

/// What a fallible operation must have done: on success the machine is the
/// expected one, on a fault the machine is untouched and the fault is the
/// expected one.
pub open spec fn outcome(
    result: Result<(), Fault>,
    before: Machine,
    after: Machine,
    expected: Result<Machine, Fault>,
) -> bool {
    match expected {
        Ok(m) => result == Ok::<(), Fault>(()) && after == m,
        Err(e) => result == Err::<(), Fault>(e) && after == before,
    }
}

impl Machine {
    /// The shape every machine has, and the bounds on `SP` and `PC`. The
    /// program counter may stand just past the end of memory, as it does while
    /// the last word of memory is carried out.
    pub open spec fn wf(self) -> bool {
        &&& self.registers.len() == 16
        &&& self.memory.len() == 4096
        &&& self.stack.len() == 16
        &&& self.keypad.len() == 16
        &&& self.video.len() == 32
        &&& forall|y: int| 0 <= y < 32 ==> (#[trigger] self.video[y]).len() == 64
        &&& self.sp <= 16
        &&& self.pc <= 4096
    }

    /// A machine between two ticks: well formed, with the program counter an
    /// address.
    pub open spec fn ready(self) -> bool {
        self.wf() && self.pc < 4096
    }

    /// The machine at power-on: everything zero but the font in memory and
    /// the program counter at the entry address.
    pub open spec fn power_on() -> Machine {
        Machine {
            registers: Seq::new(16, |i: int| 0u8),
            memory: Seq::new(
                4096,
                |a: int|
                    if FONT_START <= a < FONT_START + 80 {
                        font()[a - FONT_START]
                    } else {
                        0u8
                    },
            ),
            index: 0,
            pc: ROM_START,
            stack: Seq::new(16, |i: int| 0u16),
            sp: 0,
            delay_timer: 0,
            sound_timer: 0,
            keypad: Seq::new(16, |i: int| false),
            video: blank_screen(),
            opcode: 0,
        }
    }

    /// A program image copied to the entry address.
    pub open spec fn load(self, rom: Seq<u8>) -> Result<Machine, Fault> {
        if rom.len() > MEMORY_SIZE - ROM_START {
            Err(Fault::RomTooLarge)
        } else {
            Ok(
                Machine {
                    memory: Seq::new(
                        4096,
                        |a: int|
                            if ROM_START <= a < ROM_START + rom.len() {
                                rom[a - ROM_START]
                            } else {
                                self.memory[a]
                            },
                    ),
                    ..self
                },
            )
        }
    }

    /// Register `x` replaced.
    pub open spec fn with_reg(self, x: int, value: u8) -> Machine {
        Machine { registers: self.registers.update(x, value), ..self }
    }

    /// Register `x` replaced, then the flag register: where `x` is the flag
    /// register itself, the flag is what stays.
    pub open spec fn with_flag(self, x: int, value: u8, flag: u8) -> Machine {
        Machine { registers: self.registers.update(x, value).update(15, flag), ..self }
    }

    /// The program counter moved to `target`, which must be an address.
    pub open spec fn goto(self, target: int) -> Result<Machine, Fault> {
        if 0 <= target < 4096 {
            Ok(Machine { pc: target as u16, ..self })
        } else {
            Err(Fault::AddressOutOfRange)
        }
    }

    /// The next instruction skipped where `cond` holds.
    pub open spec fn skip_if(self, cond: bool) -> Result<Machine, Fault> {
        if cond {
            self.goto(self.pc + 2)
        } else {
            Ok(self)
        }
    }

    /// `00E0`: the screen goes dark.
    pub open spec fn cls(self) -> Machine {
        Machine { video: blank_screen(), ..self }
    }

    /// `00EE`: return to the address on top of the stack.
    pub open spec fn ret(self) -> Result<Machine, Fault> {
        if self.sp == 0 {
            Err(Fault::StackUnderflow)
        } else {
            Machine { sp: (self.sp - 1) as u8, ..self }.goto(self.stack[self.sp - 1] as int)
        }
    }

    /// `1nnn`: jump.
    pub open spec fn jp(self, nnn: u16) -> Result<Machine, Fault> {
        self.goto(nnn as int)
    }

    /// `2nnn`: push the program counter and jump.
    pub open spec fn call(self, nnn: u16) -> Result<Machine, Fault> {
        if self.sp >= 16 {
            Err(Fault::StackOverflow)
        } else {
            Machine {
                stack: self.stack.update(self.sp as int, self.pc),
                sp: (self.sp + 1) as u8,
                ..self
            }.goto(nnn as int)
        }
    }

    /// `3xkk`: skip if `Vx == kk`.
    pub open spec fn se_byte(self, x: int, kk: u8) -> Result<Machine, Fault> {
        self.skip_if(self.registers[x] == kk)
    }

    /// `4xkk`: skip if `Vx != kk`.
    pub open spec fn sne_byte(self, x: int, kk: u8) -> Result<Machine, Fault> {
        self.skip_if(self.registers[x] != kk)
    }

    /// `5xy0`: skip if `Vx == Vy`.
    pub open spec fn se_reg(self, x: int, y: int) -> Result<Machine, Fault> {
        self.skip_if(self.registers[x] == self.registers[y])
    }

    /// `6xkk`: `Vx = kk`.
    pub open spec fn ld_byte(self, x: int, kk: u8) -> Machine {
        self.with_reg(x, kk)
    }

    /// `7xkk`: `Vx = (Vx + kk) mod 256`, the flag register untouched.
    pub open spec fn add_byte(self, x: int, kk: u8) -> Machine {
        self.with_reg(x, ((self.registers[x] + kk) % 256) as u8)
    }

    /// `8xy0`: `Vx = Vy`.
    pub open spec fn ld_reg(self, x: int, y: int) -> Machine {
        self.with_reg(x, self.registers[y])
    }

    /// `8xy1`: `Vx = Vx | Vy`.
    pub open spec fn or_reg(self, x: int, y: int) -> Machine {
        self.with_reg(x, self.registers[x] | self.registers[y])
    }

    /// `8xy2`: `Vx = Vx & Vy`.
    pub open spec fn and_reg(self, x: int, y: int) -> Machine {
        self.with_reg(x, self.registers[x] & self.registers[y])
    }

    /// `8xy3`: `Vx = Vx ^ Vy`.
    pub open spec fn xor_reg(self, x: int, y: int) -> Machine {
        self.with_reg(x, self.registers[x] ^ self.registers[y])
    }

    /// `8xy4`: `Vx = (Vx + Vy) mod 256`, the flag is the carry.
    pub open spec fn add_reg(self, x: int, y: int) -> Machine {
        let sum = self.registers[x] + self.registers[y];
        self.with_flag(x, (sum % 256) as u8, if sum > 255 { 1 } else { 0 })
    }

    /// `8xy5`: `Vx = (Vx - Vy) mod 256`, the flag is 1 iff `Vx > Vy`.
    pub open spec fn sub_reg(self, x: int, y: int) -> Machine {
        let vx = self.registers[x];
        let vy = self.registers[y];
        self.with_flag(x, ((vx - vy) % 256) as u8, if vx > vy { 1 } else { 0 })
    }

    /// `8xy6`: `Vx = Vx / 2`, the flag is the bit shifted out.
    pub open spec fn shr(self, x: int) -> Machine {
        let vx = self.registers[x];
        self.with_flag(x, (vx / 2) as u8, (vx % 2) as u8)
    }

    /// `8xy7`: `Vx = (Vy - Vx) mod 256`, the flag is 1 iff `Vy > Vx`.
    pub open spec fn subn_reg(self, x: int, y: int) -> Machine {
        let vx = self.registers[x];
        let vy = self.registers[y];
        self.with_flag(x, ((vy - vx) % 256) as u8, if vy > vx { 1 } else { 0 })
    }

    /// `8xyE`: `Vx = (Vx * 2) mod 256`, the flag is the bit shifted out.
    pub open spec fn shl(self, x: int) -> Machine {
        let vx = self.registers[x];
        self.with_flag(x, ((vx * 2) % 256) as u8, (vx / 128) as u8)
    }

    /// `9xy0`: skip if `Vx != Vy`.
    pub open spec fn sne_reg(self, x: int, y: int) -> Result<Machine, Fault> {
        self.skip_if(self.registers[x] != self.registers[y])
    }

    /// `Annn`: `I = nnn`.
    pub open spec fn ld_index(self, nnn: u16) -> Machine {
        Machine { index: nnn, ..self }
    }

    /// `Bnnn`: jump to `V0 + nnn`.
    pub open spec fn jp_offset(self, nnn: u16) -> Result<Machine, Fault> {
        self.goto(self.registers[0] + nnn)
    }

    /// `Cxkk`: `Vx = byte & kk`, for the random byte drawn.
    pub open spec fn rnd(self, x: int, kk: u8, byte: u8) -> Machine {
        self.with_reg(x, byte & kk)
    }

    /// Whether a sprite of `n` rows at `I`, with its top left corner at column
    /// `sx` and row `sy`, has a set bit on the pixel in row `py`, column
    /// `px`. Both axes wrap.
    pub open spec fn sprite_hits(self, sx: int, sy: int, n: int, py: int, px: int) -> bool {
        let row = (py - sy) % 32;
        let col = (px - sx) % 64;
        row < n && col < 8 && bit_set(self.memory[self.index + row], col)
    }

    /// Whether such a sprite has a set bit on a lit pixel.
    pub open spec fn sprite_collides(self, sx: int, sy: int, n: int) -> bool {
        exists|py: int, px: int|
            0 <= py < 32 && 0 <= px < 64 && #[trigger] self.sprite_hits(sx, sy, n, py, px)
                && self.video[py][px]
    }

    /// `Dxyn`: the sprite of `n` rows at `I` is XORed onto the screen at
    /// `(Vx mod 64, Vy mod 32)`; the flag is 1 iff a lit pixel went dark.
    pub open spec fn draw(self, x: int, y: int, n: int) -> Result<Machine, Fault> {
        let sx = (self.registers[x] % 64) as int;
        let sy = (self.registers[y] % 32) as int;
        if n > 0 && self.index + n > 4096 {
            Err(Fault::AddressOutOfRange)
        } else {
            Ok(
                Machine {
                    registers: self.registers.update(
                        15,
                        if self.sprite_collides(sx, sy, n) {
                            1
                        } else {
                            0
                        },
                    ),
                    video: Seq::new(
                        32,
                        |py: int|
                            Seq::new(
                                64,
                                |px: int| self.video[py][px] != self.sprite_hits(sx, sy, n, py, px),
                            ),
                    ),
                    ..self
                },
            )
        }
    }

    /// `Ex9E`: skip if the key named by the low nibble of `Vx` is down.
    pub open spec fn skp(self, x: int) -> Result<Machine, Fault> {
        self.skip_if(self.keypad[(self.registers[x] % 16) as int])
    }

    /// `ExA1`: skip if the key named by the low nibble of `Vx` is up.
    pub open spec fn sknp(self, x: int) -> Result<Machine, Fault> {
        self.skip_if(!self.keypad[(self.registers[x] % 16) as int])
    }

    /// `Fx07`: `Vx = delay_timer`.
    pub open spec fn ld_from_delay(self, x: int) -> Machine {
        self.with_reg(x, self.delay_timer)
    }

    /// `Fx0A`: `Vx` takes the lowest pressed key; with no key down the
    /// program counter steps back onto this instruction.
    pub open spec fn wait_key(self, x: int) -> Result<Machine, Fault> {
        let key = first_pressed(self.keypad, 0);
        if key < 16 {
            Ok(self.with_reg(x, key as u8))
        } else {
            self.goto(self.pc - 2)
        }
    }

    /// `Fx15`: `delay_timer = Vx`.
    pub open spec fn ld_delay(self, x: int) -> Machine {
        Machine { delay_timer: self.registers[x], ..self }
    }

    /// `Fx18`: `sound_timer = Vx`.
    pub open spec fn ld_sound(self, x: int) -> Machine {
        Machine { sound_timer: self.registers[x], ..self }
    }

    /// `Fx1E`: `I = (I + Vx) mod 65536`.
    pub open spec fn add_index(self, x: int) -> Machine {
        Machine { index: ((self.index + self.registers[x]) % 65536) as u16, ..self }
    }

    /// `Fx29`: `I` is the address of the glyph for the low nibble of `Vx`.
    pub open spec fn ld_glyph(self, x: int) -> Machine {
        Machine { index: glyph_address((self.registers[x] % 16) as int) as u16, ..self }
    }

    /// `Fx33`: the hundreds, tens and ones of `Vx` at `I`, `I+1`, `I+2`.
    pub open spec fn bcd(self, x: int) -> Result<Machine, Fault> {
        let vx = self.registers[x];
        let i = self.index as int;
        if i + 2 >= 4096 {
            Err(Fault::AddressOutOfRange)
        } else {
            Ok(
                Machine {
                    memory: self.memory.update(i, (vx / 100) as u8).update(
                        i + 1,
                        ((vx / 10) % 10) as u8,
                    ).update(i + 2, (vx % 10) as u8),
                    ..self
                },
            )
        }
    }

    /// `Fx55`: `V0` to `Vx` stored at `I` onwards; `I` stays.
    pub open spec fn store(self, x: int) -> Result<Machine, Fault> {
        let i = self.index as int;
        if i + x >= 4096 {
            Err(Fault::AddressOutOfRange)
        } else {
            Ok(
                Machine {
                    memory: Seq::new(
                        4096,
                        |a: int|
                            if i <= a <= i + x {
                                self.registers[a - i]
                            } else {
                                self.memory[a]
                            },
                    ),
                    ..self
                },
            )
        }
    }

    /// `Fx65`: `V0` to `Vx` read from `I` onwards; `I` stays.
    pub open spec fn fill(self, x: int) -> Result<Machine, Fault> {
        let i = self.index as int;
        if i + x >= 4096 {
            Err(Fault::AddressOutOfRange)
        } else {
            Ok(
                Machine {
                    registers: Seq::new(
                        16,
                        |r: int|
                            if r <= x {
                                self.memory[i + r]
                            } else {
                                self.registers[r]
                            },
                    ),
                    ..self
                },
            )
        }
    }

    /// The first half of a tick: the keypad is latched, both timers count
    /// down, the word at `PC` is fetched and `PC` moves past it.
    pub open spec fn fetch(self, keypad: Seq<bool>) -> Machine {
        Machine {
            keypad,
            delay_timer: count_down(self.delay_timer),
            sound_timer: count_down(self.sound_timer),
            opcode: word(self.memory[self.pc as int], self.memory[self.pc + 1]),
            pc: (self.pc + 2) as u16,
            ..self
        }
    }

    /// The second half of a tick: the fetched word is decoded and the one
    /// instruction it names is carried out. `byte` is the random byte that
    /// `Cxkk` would use.
    pub open spec fn execute(self, byte: u8) -> Result<Machine, Fault> {
        let op = self.opcode;
        let x = operand_x(op);
        let y = operand_y(op);
        let n = operand_n(op);
        let kk = operand_kk(op);
        let nnn = operand_nnn(op);
        let top = op / 4096;
        if op == 0x00E0 {
            Ok(self.cls())
        } else if op == 0x00EE {
            self.ret()
        } else if top == 0x1 {
            self.jp(nnn)
        } else if top == 0x2 {
            self.call(nnn)
        } else if top == 0x3 {
            self.se_byte(x, kk)
        } else if top == 0x4 {
            self.sne_byte(x, kk)
        } else if top == 0x5 && n == 0x0 {
            self.se_reg(x, y)
        } else if top == 0x6 {
            Ok(self.ld_byte(x, kk))
        } else if top == 0x7 {
            Ok(self.add_byte(x, kk))
        } else if top == 0x8 && n == 0x0 {
            Ok(self.ld_reg(x, y))
        } else if top == 0x8 && n == 0x1 {
            Ok(self.or_reg(x, y))
        } else if top == 0x8 && n == 0x2 {
            Ok(self.and_reg(x, y))
        } else if top == 0x8 && n == 0x3 {
            Ok(self.xor_reg(x, y))
        } else if top == 0x8 && n == 0x4 {
            Ok(self.add_reg(x, y))
        } else if top == 0x8 && n == 0x5 {
            Ok(self.sub_reg(x, y))
        } else if top == 0x8 && n == 0x6 {
            Ok(self.shr(x))
        } else if top == 0x8 && n == 0x7 {
            Ok(self.subn_reg(x, y))
        } else if top == 0x8 && n == 0xE {
            Ok(self.shl(x))
        } else if top == 0x9 && n == 0x0 {
            self.sne_reg(x, y)
        } else if top == 0xA {
            Ok(self.ld_index(nnn))
        } else if top == 0xB {
            self.jp_offset(nnn)
        } else if top == 0xC {
            Ok(self.rnd(x, kk, byte))
        } else if top == 0xD {
            self.draw(x, y, n)
        } else if top == 0xE && kk == 0x9E {
            self.skp(x)
        } else if top == 0xE && kk == 0xA1 {
            self.sknp(x)
        } else if top == 0xF && kk == 0x07 {
            Ok(self.ld_from_delay(x))
        } else if top == 0xF && kk == 0x0A {
            self.wait_key(x)
        } else if top == 0xF && kk == 0x15 {
            Ok(self.ld_delay(x))
        } else if top == 0xF && kk == 0x18 {
            Ok(self.ld_sound(x))
        } else if top == 0xF && kk == 0x1E {
            Ok(self.add_index(x))
        } else if top == 0xF && kk == 0x29 {
            Ok(self.ld_glyph(x))
        } else if top == 0xF && kk == 0x33 {
            self.bcd(x)
        } else if top == 0xF && kk == 0x55 {
            self.store(x)
        } else if top == 0xF && kk == 0x65 {
            self.fill(x)
        } else {
            Err(Fault::UnknownOpcode { opcode: op, pc: (self.pc - 2) as u16 })
        }
    }

    /// One tick. The instruction word must lie in memory whole, and the
    /// instruction must leave the program counter an address.
    pub open spec fn step(self, keypad: Seq<bool>, byte: u8) -> Result<Machine, Fault> {
        if self.pc + 1 >= 4096 {
            Err(Fault::AddressOutOfRange)
        } else {
            match self.fetch(keypad).execute(byte) {
                Ok(after) => if after.pc < 4096 {
                    Ok(after)
                } else {
                    Err(Fault::AddressOutOfRange)
                },
                Err(e) => Err(e),
            }
        }
    }

    /// Ticks taken one after another, each with its own keypad snapshot and
    /// random byte. The first fault ends the run.
    pub open spec fn run(self, keypads: Seq<Seq<bool>>, bytes: Seq<u8>) -> Result<Machine, Fault>
        recommends
            keypads.len() == bytes.len(),
        decreases keypads.len(),
    {
        if keypads.len() == 0 {
            Ok(self)
        } else {
            match self.step(keypads[0], bytes[0]) {
                Ok(next) => next.run(keypads.drop_first(), bytes.drop_first()),
                Err(e) => Err(e),
            }
        }
    }
}

} // verus!
