//! The machine as a mathematical value, and what each instruction and a
//! whole step make of it.

use vstd::prelude::*;
use crate::config::{
    DISPLAY_HEIGHT, DISPLAY_SIZE, DISPLAY_WIDTH, GLYPH_SIZE, PGM_OFFSET, STACK_DEPTH,
};
use crate::cpu::PcJump;
use crate::error::Error;
use crate::instruction::{decoding, Instruction};
use crate::ram::MEMORY_SIZE;

verus! {

/// The state of the machine as mathematics sees it: what every contract of the
/// processor speaks of.
#[verifier::ext_equal]
pub struct Machine {
    /// The registers `V0..=VF`.
    pub v: Seq<u8>,
    /// The index register.
    pub i: u16,
    /// The memory.
    pub ram: Seq<u8>,
    /// The screen, row by row.
    pub vram: Seq<bool>,
    /// The return addresses, the latest last.
    pub stack: Seq<usize>,
    /// The program counter.
    pub pc: usize,
    /// The delay timer.
    pub delay: u8,
    /// The sound timer.
    pub sound: u8,
    /// Which of the sixteen keys are down.
    pub key_press: Seq<bool>,
    /// Whether the screen has changed since it was last shown.
    pub draw: bool,
}

/// The instruction word that lies at `pc`, high byte first.
pub open spec fn word_at(ram: Seq<u8>, pc: int) -> u16 {
    (ram[pc] as int * 256 + ram[pc + 1] as int) as u16
}

/// Whether the bit of `byte` for column `col` of a sprite row is set; column 0
/// is the highest bit.
pub open spec fn sprite_bit(byte: u8, col: int) -> bool {
    0 <= col < 8 && (byte & (0x80u8 >> (col as u8))) != 0
}

/// `k` is the lowest index of a key that is down.
pub open spec fn is_lowest_key(keys: Seq<bool>, k: int) -> bool {
    &&& 0 <= k < keys.len()
    &&& keys[k]
    &&& forall|j: int| 0 <= j < k ==> !keys[j]
}

/// The lowest index of a key that is down, if any is.
pub open spec fn lowest_key(keys: Seq<bool>) -> Option<int> {
    if exists|k: int| is_lowest_key(keys, k) {
        Some(choose|k: int| is_lowest_key(keys, k))
    } else {
        None
    }
}

/// A timer after one step: one less, and never below zero.
pub open spec fn counted_down(timer: u8) -> u8 {
    if timer > 0 {
        (timer - 1) as u8
    } else {
        0
    }
}

/// The step that follows when `skip` decides between the next instruction and
/// the one after it.
pub open spec fn skip_if(skip: bool) -> PcJump {
    if skip {
        PcJump::Skip
    } else {
        PcJump::Next
    }
}

/// The colour in which a pixel is shown: white when lit, black when not.
pub open spec fn pixel_colour(lit: bool) -> (u8, u8, u8) {
    if lit {
        (255u8, 255u8, 255u8)
    } else {
        (0u8, 0u8, 0u8)
    }
}

/// `buffer` after the screen was written into it: one colour for each pixel,
/// as far as the buffer reaches; what lies beyond the screen stays.
pub open spec fn rendered(vram: Seq<bool>, buffer: Seq<(u8, u8, u8)>) -> Seq<(u8, u8, u8)> {
    Seq::new(
        buffer.len(),
        |k: int| if k < vram.len() { pixel_colour(vram[k]) } else { buffer[k] },
    )
}

/// How a fallible operation ends: with `expected` a machine, it succeeds and
/// that is the machine afterwards; with `expected` an error, it fails with
/// that error and the machine is as it was before.
pub open spec fn settled(
    before: Machine,
    expected: Result<Machine, Error>,
    outcome: Result<(), Error>,
    after: Machine,
) -> bool {
    match expected {
        Ok(m) => outcome is Ok && after == m,
        Err(e) => outcome == Err::<(), Error>(e) && after == before,
    }
}

/// How an instruction ends: with `expected` a machine and a move of the
/// program counter, it reports that move and that is the machine afterwards;
/// with `expected` an error, it fails with that error and the machine is as
/// it was before.
pub open spec fn reported(
    before: Machine,
    expected: Result<(Machine, PcJump), Error>,
    jump: Result<PcJump, Error>,
    after: Machine,
) -> bool {
    match expected {
        Ok((m, to)) => jump == Ok::<PcJump, Error>(to) && after == m,
        Err(e) => jump == Err::<PcJump, Error>(e) && after == before,
    }
}

impl Machine {
    /// The collections have the sizes of the hardware.
    pub open spec fn well_formed(self) -> bool {
        &&& self.v.len() == 16
        &&& self.ram.len() == MEMORY_SIZE
        &&& self.vram.len() == DISPLAY_SIZE
        &&& self.key_press.len() == 16
    }

    /// Register `x` set to `value`.
    pub open spec fn with_reg(self, x: int, value: u8) -> Machine {
        Machine { v: self.v.update(x, value), ..self }
    }

    /// `VF` set to `flag`, then register `x` set to `value`: the value stays
    /// when `x` is `VF` itself.
    pub open spec fn with_flagged(self, x: int, value: u8, flag: u8) -> Machine {
        Machine { v: self.v.update(0xf, flag).update(x, value), ..self }
    }

    /// `00EE`: the program counter is the address popped from the stack.
    pub open spec fn ret(self) -> Result<Machine, Error> {
        if self.stack.len() == 0 {
            Err(Error::StackUnderflow)
        } else {
            Ok(Machine { pc: self.stack.last(), stack: self.stack.drop_last(), ..self })
        }
    }

    /// `00E0`: every pixel is off.
    pub open spec fn cls(self) -> Machine {
        Machine { vram: Seq::new(DISPLAY_SIZE as nat, |p: int| false), ..self }
    }

    /// `1nnn`.
    pub open spec fn jump(self, nnn: usize) -> Machine {
        Machine { pc: nnn, ..self }
    }

    /// `2nnn`: the address of the next instruction is pushed.
    pub open spec fn call(self, nnn: usize) -> Result<Machine, Error> {
        if self.stack.len() >= STACK_DEPTH {
            Err(Error::StackOverflow)
        } else {
            Ok(Machine { stack: self.stack.push((self.pc + 2) as usize), pc: nnn, ..self })
        }
    }

    /// `7xnn`.
    pub open spec fn add_byte(self, x: int, nn: u8) -> Machine {
        self.with_reg(x, ((self.v[x] + nn) % 256) as u8)
    }

    /// `8xy4`.
    pub open spec fn add_reg(self, x: int, y: int) -> Machine {
        let sum = self.v[x] + self.v[y];
        self.with_flagged(x, (sum % 256) as u8, if sum > 255 { 1 } else { 0 })
    }

    /// `8xy5`.
    pub open spec fn sub_reg(self, x: int, y: int) -> Machine {
        let a = self.v[x];
        let b = self.v[y];
        self.with_flagged(x, ((a - b) % 256) as u8, if a >= b { 1 } else { 0 })
    }

    /// `8xy6`.
    pub open spec fn shift_right(self, x: int) -> Machine {
        let a = self.v[x];
        self.with_flagged(x, a / 2, a % 2)
    }

    /// `8xy7`.
    pub open spec fn sub_from(self, x: int, y: int) -> Machine {
        let a = self.v[x];
        let b = self.v[y];
        self.with_flagged(x, ((b - a) % 256) as u8, if b >= a { 1 } else { 0 })
    }

    /// `8xyE`.
    pub open spec fn shift_left(self, x: int) -> Machine {
        let a = self.v[x];
        self.with_flagged(x, ((a * 2) % 256) as u8, a / 128)
    }

    /// `Annn`.
    pub open spec fn load_index(self, nnn: usize) -> Machine {
        Machine { i: nnn as u16, ..self }
    }

    /// `Bnnn`.
    pub open spec fn jump_offset(self, nnn: usize) -> Machine {
        Machine { pc: (self.v[0] + nnn) as usize, ..self }
    }

    /// Whether the sprite that `Dxyn` draws has a set bit on pixel `p` of the
    /// screen. Rows and columns wrap round the screen.
    pub open spec fn sprite_covers(self, x: int, y: int, n: int, p: int) -> bool {
        let row = (p / (DISPLAY_WIDTH as int) - self.v[y]) % (DISPLAY_HEIGHT as int);
        let col = (p % (DISPLAY_WIDTH as int) - self.v[x]) % (DISPLAY_WIDTH as int);
        row < n && col < 8 && sprite_bit(self.ram[self.i + row], col)
    }

    /// Whether `Dxyn` turns a lit pixel off.
    pub open spec fn collides(self, x: int, y: int, n: int) -> bool {
        exists|p: int| 0 <= p < DISPLAY_SIZE && self.vram[p] && #[trigger] self.sprite_covers(x, y, n, p)
    }

    /// `Dxyn`: the sprite is combined with the screen by exclusive or, `VF`
    /// tells whether a lit pixel went off, and the screen is marked as changed.
    pub open spec fn draw_sprite(self, x: int, y: int, n: int) -> Result<Machine, Error> {
        if n > 0 && self.i + n > MEMORY_SIZE {
            Err(Error::OutOfBounds)
        } else {
            Ok(
                Machine {
                    vram: Seq::new(
                        DISPLAY_SIZE as nat,
                        |p: int| self.vram[p] ^ self.sprite_covers(x, y, n, p),
                    ),
                    v: self.v.update(0xf, if self.collides(x, y, n) { 1u8 } else { 0u8 }),
                    draw: true,
                    ..self
                },
            )
        }
    }

    /// Whether the key whose number is in register `x` is down. A number that
    /// names no key is not down.
    pub open spec fn key_down(self, x: int) -> bool {
        self.v[x] < 16 && self.key_press[self.v[x] as int]
    }

    /// `Fx0A`: with a key down its number goes to register `x`; with none the
    /// machine stays as it is and the instruction runs again.
    pub open spec fn wait_key(self, x: int) -> (Machine, PcJump) {
        match lowest_key(self.key_press) {
            Some(k) => (self.with_reg(x, k as u8), PcJump::Next),
            None => (self, PcJump::Stay),
        }
    }

    /// `Fx1E`: the index register wraps at sixteen bits; `VF` tells whether
    /// it went beyond `0x0F00`.
    pub open spec fn add_index(self, x: int) -> Machine {
        let sum = (self.i + self.v[x]) % 0x1_0000;
        Machine {
            i: sum as u16,
            v: self.v.update(0xf, if sum > 0x0f00 { 1u8 } else { 0u8 }),
            ..self
        }
    }

    /// `Fx29`: glyphs are five bytes each and start at address 0.
    pub open spec fn load_glyph(self, x: int) -> Machine {
        Machine { i: (self.v[x] * GLYPH_SIZE) as u16, ..self }
    }

    /// `Fx33`: hundreds, tens and units of register `x` at `I`, `I+1`, `I+2`.
    pub open spec fn store_bcd(self, x: int) -> Result<Machine, Error> {
        let a = self.i as int;
        let value = self.v[x];
        if a + 2 >= MEMORY_SIZE {
            Err(Error::OutOfBounds)
        } else {
            Ok(
                Machine {
                    ram: self.ram.update(a, value / 100).update(a + 1, (value / 10) % 10).update(
                        a + 2,
                        value % 10,
                    ),
                    ..self
                },
            )
        }
    }

    /// `Fx55`: registers `V0..=Vx` at `I..=I+x`.
    pub open spec fn store_regs(self, x: int) -> Result<Machine, Error> {
        let a = self.i as int;
        if a + x >= MEMORY_SIZE {
            Err(Error::OutOfBounds)
        } else {
            Ok(
                Machine {
                    ram: Seq::new(
                        self.ram.len(),
                        |k: int| if a <= k <= a + x { self.v[k - a] } else { self.ram[k] },
                    ),
                    ..self
                },
            )
        }
    }

    /// `Fx65`: registers `V0..=Vx` from `I..=I+x`.
    pub open spec fn load_regs(self, x: int) -> Result<Machine, Error> {
        let a = self.i as int;
        if a + x >= MEMORY_SIZE {
            Err(Error::OutOfBounds)
        } else {
            Ok(
                Machine {
                    v: Seq::new(
                        self.v.len(),
                        |r: int| if r <= x { self.ram[a + r] } else { self.v[r] },
                    ),
                    ..self
                },
            )
        }
    }

    /// What one instruction does to the machine, and how the program counter
    /// moves afterwards. `random` is the byte that `Cxnn` draws.
    pub open spec fn apply(self, inst: Instruction, random: u8) -> Result<(Machine, PcJump), Error> {
        match inst {
            Instruction::Ret => match self.ret() {
                Ok(m) => Ok((m, PcJump::Stay)),
                Err(e) => Err(e),
            },
            Instruction::Cls => Ok((self.cls(), PcJump::Next)),
            Instruction::Jump { nnn } => Ok((self.jump(nnn), PcJump::Stay)),
            Instruction::Call { nnn } => match self.call(nnn) {
                Ok(m) => Ok((m, PcJump::Stay)),
                Err(e) => Err(e),
            },
            Instruction::SkipEqByte { x, nn } => Ok((self, skip_if(self.v[x as int] == nn))),
            Instruction::SkipNeByte { x, nn } => Ok((self, skip_if(self.v[x as int] != nn))),
            Instruction::SkipEqReg { x, y } => Ok(
                (self, skip_if(self.v[x as int] == self.v[y as int])),
            ),
            Instruction::LoadByte { x, nn } => Ok((self.with_reg(x as int, nn), PcJump::Next)),
            Instruction::AddByte { x, nn } => Ok((self.add_byte(x as int, nn), PcJump::Next)),
            Instruction::LoadReg { x, y } => Ok(
                (self.with_reg(x as int, self.v[y as int]), PcJump::Next),
            ),
            Instruction::Or { x, y } => Ok(
                (self.with_reg(x as int, self.v[x as int] | self.v[y as int]), PcJump::Next),
            ),
            Instruction::And { x, y } => Ok(
                (self.with_reg(x as int, self.v[x as int] & self.v[y as int]), PcJump::Next),
            ),
            Instruction::Xor { x, y } => Ok(
                (self.with_reg(x as int, self.v[x as int] ^ self.v[y as int]), PcJump::Next),
            ),
            Instruction::AddReg { x, y } => Ok((self.add_reg(x as int, y as int), PcJump::Next)),
            Instruction::SubReg { x, y } => Ok((self.sub_reg(x as int, y as int), PcJump::Next)),
            Instruction::ShiftRight { x, .. } => Ok((self.shift_right(x as int), PcJump::Next)),
            Instruction::SubFrom { x, y } => Ok((self.sub_from(x as int, y as int), PcJump::Next)),
            Instruction::ShiftLeft { x, .. } => Ok((self.shift_left(x as int), PcJump::Next)),
            Instruction::SkipNeReg { x, y } => Ok(
                (self, skip_if(self.v[x as int] != self.v[y as int])),
            ),
            Instruction::LoadIndex { nnn } => Ok((self.load_index(nnn), PcJump::Next)),
            Instruction::JumpOffset { nnn } => Ok((self.jump_offset(nnn), PcJump::Stay)),
            Instruction::Random { x, nn } => Ok((self.with_reg(x as int, random & nn), PcJump::Next)),
            Instruction::Draw { x, y, n } => match self.draw_sprite(x as int, y as int, n as int) {
                Ok(m) => Ok((m, PcJump::Next)),
                Err(e) => Err(e),
            },
            Instruction::SkipKey { x } => Ok((self, skip_if(self.key_down(x as int)))),
            Instruction::SkipNoKey { x } => Ok((self, skip_if(!self.key_down(x as int)))),
            Instruction::LoadDelay { x } => Ok((self.with_reg(x as int, self.delay), PcJump::Next)),
            Instruction::WaitKey { x } => Ok(self.wait_key(x as int)),
            Instruction::SetDelay { x } => Ok(
                (Machine { delay: self.v[x as int], ..self }, PcJump::Next),
            ),
            Instruction::SetSound { x } => Ok(
                (Machine { sound: self.v[x as int], ..self }, PcJump::Next),
            ),
            Instruction::AddIndex { x } => Ok((self.add_index(x as int), PcJump::Next)),
            Instruction::LoadGlyph { x } => Ok((self.load_glyph(x as int), PcJump::Next)),
            Instruction::StoreBcd { x } => match self.store_bcd(x as int) {
                Ok(m) => Ok((m, PcJump::Next)),
                Err(e) => Err(e),
            },
            Instruction::StoreRegs { x } => match self.store_regs(x as int) {
                Ok(m) => Ok((m, PcJump::Next)),
                Err(e) => Err(e),
            },
            Instruction::LoadRegs { x } => match self.load_regs(x as int) {
                Ok(m) => Ok((m, PcJump::Next)),
                Err(e) => Err(e),
            },
            Instruction::Unknown => Ok((self, PcJump::Next)),
        }
    }

    /// The program counter moved on by what the instruction reported.
    pub open spec fn advanced(self, jump: PcJump) -> Machine {
        Machine { pc: (self.pc + jump.distance()) as usize, ..self }
    }

    /// Both timers after one step.
    pub open spec fn timers_ticked(self) -> Machine {
        Machine { delay: counted_down(self.delay), sound: counted_down(self.sound), ..self }
    }

    /// The instruction `word` executed as the one fetched in this step:
    /// it is applied, the program counter moves on, the timers count down.
    pub open spec fn run_word(self, word: u16, random: u8) -> Result<Machine, Error> {
        match self.apply(decoding(word), random) {
            Ok((m, jump)) => Ok(m.advanced(jump).timers_ticked()),
            Err(e) => Err(e),
        }
    }

    /// One step that reads its instruction from `program` at the program
    /// counter. A failed step is fatal and leaves the machine as it was.
    #[verifier::opaque]
    pub open spec fn step_from(self, program: Seq<u8>, random: u8) -> Result<Machine, Error> {
        if self.pc + 1 >= MEMORY_SIZE {
            Err(Error::OutOfBounds)
        } else {
            self.run_word(word_at(program, self.pc as int), random)
        }
    }

    /// One whole step of the machine, the instruction read from its own memory.
    pub open spec fn step(self, random: u8) -> Result<Machine, Error> {
        self.step_from(self.ram, random)
    }

    /// Key `key` pressed or released.
    pub open spec fn with_key(self, key: int, is_down: bool) -> Machine {
        Machine { key_press: self.key_press.update(key, is_down), ..self }
    }

    /// The change of the screen taken note of.
    pub open spec fn shown(self) -> Machine {
        Machine { draw: false, ..self }
    }

    /// The steps of the machine one after another, one random byte for each;
    /// the first failure ends them.
    pub open spec fn steps(self, randoms: Seq<u8>) -> Result<Machine, Error>
        decreases randoms.len(),
    {
        if randoms.len() == 0 {
            Ok(self)
        } else {
            match self.steps(randoms.drop_last()) {
                Ok(m) => m.step(randoms.last()),
                Err(e) => Err(e),
            }
        }
    }

    /// The instruction at the program counter, where that lies in memory.
    pub open spec fn current(self) -> Instruction {
        decoding(word_at(self.ram, self.pc as int))
    }

    /// Whether the sprite that `Dxyn` draws has a set bit on a pixel that is
    /// off.
    pub open spec fn lights(self, x: int, y: int, n: int) -> bool {
        exists|p: int|
            0 <= p < DISPLAY_SIZE && !self.vram[p] && #[trigger] self.sprite_covers(x, y, n, p)
    }

    /// The program `rom` in memory from the load address on.
    pub open spec fn loaded(self, rom: Seq<u8>) -> Result<Machine, Error> {
        if PGM_OFFSET + rom.len() > MEMORY_SIZE {
            Err(Error::RomTooLarge)
        } else {
            Ok(Machine { ram: crate::ram::overlay(self.ram, rom, PGM_OFFSET as int), ..self })
        }
    }
}

/// A key that is down with none down below it is the lowest key.
pub proof fn lemma_lowest_key(keys: Seq<bool>, k: int)
    requires
        is_lowest_key(keys, k),
    ensures
        lowest_key(keys) == Some(k),
{
    let c = choose|c: int| is_lowest_key(keys, c);
    assert(is_lowest_key(keys, c));
    if c < k {
        assert(!keys[c]);
    }
    if k < c {
        assert(!keys[k]);
    }
}

} // verus!
