//! The instructions of the processor, one method each, but for drawing.

use vstd::prelude::*;
use crate::config::{DISPLAY_SIZE, GLYPH_SIZE, STACK_DEPTH};
use crate::cpu::{PcJump, CPU};
use crate::error::Error;
use crate::machine::{lemma_lowest_key, lowest_key, skip_if, Machine};
use crate::ram::MEMORY_SIZE;

verus! {

/// A byte from the thread's random number generator, by `rand::random`.
/// Nothing is claimed of the byte: any value may come back, and two calls
/// may differ. The call panics only where the operating system gives the
/// generator no seed.
#[verifier::external_body]
pub(crate) fn random_byte() -> (byte: u8) {
    rand::random::<u8>()
}

impl CPU {
    /// `00EE`: returns from a subroutine.
    pub fn op_00ee(&mut self) -> (jump: Result<PcJump, Error>)
        ensures
            match old(self)@.ret() {
                Ok(m) => jump == Ok::<PcJump, Error>(PcJump::Stay) && final(self)@ == m,
                Err(e) => jump == Err::<PcJump, Error>(e) && final(self)@ == old(self)@,
            },
    {
        match self.stack.pop() {
            Some(address) => {
                self.pc = address;
                Ok(PcJump::Stay)
            },
            None => Err(Error::StackUnderflow),
        }
    }

    /// `00E0`: clears the screen.
    pub fn op_00e0(&mut self) -> (jump: PcJump)
        ensures
            jump == PcJump::Next,
            final(self)@ == old(self)@.cls(),
    {
        let mut p: usize = 0;
        while p < DISPLAY_SIZE
            invariant
                p <= DISPLAY_SIZE,
                forall|k: int| 0 <= k < p ==> !self.vram@[k],
                self@ == (Machine { vram: self.vram@, ..old(self)@ }),
            decreases DISPLAY_SIZE - p,
        {
            self.vram[p] = false;
            p += 1;
        }
        PcJump::Next
    }

    /// `1nnn`: jumps to `nnn`.
    pub fn op_1nnn(&mut self, nnn: usize) -> (jump: PcJump)
        ensures
            jump == PcJump::Stay,
            final(self)@ == old(self)@.jump(nnn),
    {
        self.pc = nnn;
        PcJump::Stay
    }

    /// `2nnn`: calls the subroutine at `nnn`: the address of the next
    /// instruction, which must be one that the machine can hold, goes on the
    /// stack. Fails, with nothing changed, if sixteen addresses are there.
    pub fn op_2nnn(&mut self, nnn: usize) -> (jump: Result<PcJump, Error>)
        requires
            old(self).pc + 2 <= usize::MAX,
        ensures
            match old(self)@.call(nnn) {
                Ok(m) => jump == Ok::<PcJump, Error>(PcJump::Stay) && final(self)@ == m,
                Err(e) => jump == Err::<PcJump, Error>(e) && final(self)@ == old(self)@,
            },
    {
        if self.stack.len() >= STACK_DEPTH {
            return Err(Error::StackOverflow);
        }
        self.stack.push(self.pc + 2);
        self.pc = nnn;
        Ok(PcJump::Stay)
    }

    /// `3xnn`: skips the next instruction if `Vx == nn`.
    pub fn op_3xnn(&mut self, x: usize, nn: u8) -> (jump: PcJump)
        requires
            x < 16,
        ensures
            jump == skip_if(old(self)@.v[x as int] == nn),
            final(self)@ == old(self)@,
    {
        if self.v[x] == nn {
            PcJump::Skip
        } else {
            PcJump::Next
        }
    }

    /// `4xnn`: skips the next instruction if `Vx != nn`.
    pub fn op_4xnn(&mut self, x: usize, nn: u8) -> (jump: PcJump)
        requires
            x < 16,
        ensures
            jump == skip_if(old(self)@.v[x as int] != nn),
            final(self)@ == old(self)@,
    {
        if self.v[x] != nn {
            PcJump::Skip
        } else {
            PcJump::Next
        }
    }

    /// `5xy0`: skips the next instruction if `Vx == Vy`.
    pub fn op_5xy0(&mut self, x: usize, y: usize) -> (jump: PcJump)
        requires
            x < 16,
            y < 16,
        ensures
            jump == skip_if(old(self)@.v[x as int] == old(self)@.v[y as int]),
            final(self)@ == old(self)@,
    {
        if self.v[x] == self.v[y] {
            PcJump::Skip
        } else {
            PcJump::Next
        }
    }

    /// `6xnn`: `Vx = nn`.
    pub fn op_6xnn(&mut self, x: usize, nn: u8) -> (jump: PcJump)
        requires
            x < 16,
        ensures
            jump == PcJump::Next,
            final(self)@ == old(self)@.with_reg(x as int, nn),
    {
        self.v[x] = nn;
        PcJump::Next
    }

    /// `7xnn`: `Vx = Vx + nn` modulo 256; no flag is touched.
    pub fn op_7xnn(&mut self, x: usize, nn: u8) -> (jump: PcJump)
        requires
            x < 16,
        ensures
            jump == PcJump::Next,
            final(self)@ == old(self)@.add_byte(x as int, nn),
    {
        let sum: u16 = self.v[x] as u16 + nn as u16;
        self.v[x] = (sum % 256) as u8;
        PcJump::Next
    }

    /// `8xy0`: `Vx = Vy`.
    pub fn op_8xy0(&mut self, x: usize, y: usize) -> (jump: PcJump)
        requires
            x < 16,
            y < 16,
        ensures
            jump == PcJump::Next,
            final(self)@ == old(self)@.with_reg(x as int, old(self)@.v[y as int]),
    {
        self.v[x] = self.v[y];
        PcJump::Next
    }

    /// `8xy1`: `Vx = Vx | Vy`.
    pub fn op_8xy1(&mut self, x: usize, y: usize) -> (jump: PcJump)
        requires
            x < 16,
            y < 16,
        ensures
            jump == PcJump::Next,
            final(self)@ == old(self)@.with_reg(
                x as int,
                old(self)@.v[x as int] | old(self)@.v[y as int],
            ),
    {
        self.v[x] = self.v[x] | self.v[y];
        PcJump::Next
    }

    /// `8xy2`: `Vx = Vx & Vy`.
    pub fn op_8xy2(&mut self, x: usize, y: usize) -> (jump: PcJump)
        requires
            x < 16,
            y < 16,
        ensures
            jump == PcJump::Next,
            final(self)@ == old(self)@.with_reg(
                x as int,
                old(self)@.v[x as int] & old(self)@.v[y as int],
            ),
    {
        self.v[x] = self.v[x] & self.v[y];
        PcJump::Next
    }

    /// `8xy3`: `Vx = Vx ^ Vy`.
    pub fn op_8xy3(&mut self, x: usize, y: usize) -> (jump: PcJump)
        requires
            x < 16,
            y < 16,
        ensures
            jump == PcJump::Next,
            final(self)@ == old(self)@.with_reg(
                x as int,
                old(self)@.v[x as int] ^ old(self)@.v[y as int],
            ),
    {
        self.v[x] = self.v[x] ^ self.v[y];
        PcJump::Next
    }

    /// `8xy4`: `Vx = Vx + Vy` modulo 256, and `VF` is 1 if the sum is over 255,
    /// else 0. `VF` is written before `Vx`.
    pub fn op_8xy4(&mut self, x: usize, y: usize) -> (jump: PcJump)
        requires
            x < 16,
            y < 16,
        ensures
            jump == PcJump::Next,
            final(self)@ == old(self)@.add_reg(x as int, y as int),
    {
        let sum: u16 = self.v[x] as u16 + self.v[y] as u16;
        self.v[0xf] = if sum > 0xff { 1 } else { 0 };
        self.v[x] = (sum % 256) as u8;
        PcJump::Next
    }

    /// `8xy5`: `Vx = Vx - Vy` modulo 256, and `VF` is 1 if `Vx >= Vy`, else 0.
    pub fn op_8xy5(&mut self, x: usize, y: usize) -> (jump: PcJump)
        requires
            x < 16,
            y < 16,
        ensures
            jump == PcJump::Next,
            final(self)@ == old(self)@.sub_reg(x as int, y as int),
    {
        let a: u8 = self.v[x];
        let b: u8 = self.v[y];
        self.v[0xf] = if a >= b { 1 } else { 0 };
        self.v[x] = a.wrapping_sub(b);
        PcJump::Next
    }

    /// `8xy6`: `Vx` is shifted right by one bit, and `VF` is the bit that
    /// left it.
    pub fn op_8xy6(&mut self, x: usize, _y: usize) -> (jump: PcJump)
        requires
            x < 16,
        ensures
            jump == PcJump::Next,
            final(self)@ == old(self)@.shift_right(x as int),
    {
        let a: u8 = self.v[x];
        assert(a & 0x01 == a % 2) by (bit_vector);
        assert(a >> 1 == a / 2) by (bit_vector);
        self.v[0xf] = a & 0x01;
        self.v[x] = a >> 1;
        PcJump::Next
    }

    /// `8xy7`: `Vx = Vy - Vx` modulo 256, and `VF` is 1 if `Vy >= Vx`, else 0.
    pub fn op_8xy7(&mut self, x: usize, y: usize) -> (jump: PcJump)
        requires
            x < 16,
            y < 16,
        ensures
            jump == PcJump::Next,
            final(self)@ == old(self)@.sub_from(x as int, y as int),
    {
        let a: u8 = self.v[x];
        let b: u8 = self.v[y];
        self.v[0xf] = if b >= a { 1 } else { 0 };
        self.v[x] = b.wrapping_sub(a);
        PcJump::Next
    }

    /// `8xyE`: `Vx` is shifted left by one bit, and `VF` is the bit that
    /// left it.
    pub fn op_8xye(&mut self, x: usize, _y: usize) -> (jump: PcJump)
        requires
            x < 16,
        ensures
            jump == PcJump::Next,
            final(self)@ == old(self)@.shift_left(x as int),
    {
        let a: u8 = self.v[x];
        assert((a & 0x80) >> 7 == a / 128) by (bit_vector);
        assert(a << 1 == (a * 2) % 256) by (bit_vector);
        self.v[0xf] = (a & 0x80) >> 7;
        self.v[x] = a << 1;
        PcJump::Next
    }

    /// `9xy0`: skips the next instruction if `Vx != Vy`.
    pub fn op_9xy0(&mut self, x: usize, y: usize) -> (jump: PcJump)
        requires
            x < 16,
            y < 16,
        ensures
            jump == skip_if(old(self)@.v[x as int] != old(self)@.v[y as int]),
            final(self)@ == old(self)@,
    {
        if self.v[x] != self.v[y] {
            PcJump::Skip
        } else {
            PcJump::Next
        }
    }

    /// `Annn`: `I = nnn`.
    pub fn op_annn(&mut self, nnn: usize) -> (jump: PcJump)
        requires
            nnn < MEMORY_SIZE,
        ensures
            jump == PcJump::Next,
            final(self)@ == old(self)@.load_index(nnn),
    {
        self.i = nnn as u16;
        PcJump::Next
    }

    /// `Bnnn`: jumps to `V0 + nnn`.
    pub fn op_bnnn(&mut self, nnn: usize) -> (jump: PcJump)
        requires
            nnn < MEMORY_SIZE,
        ensures
            jump == PcJump::Stay,
            final(self)@ == old(self)@.jump_offset(nnn),
    {
        self.pc = self.v[0] as usize + nnn;
        PcJump::Stay
    }

    /// `Cxnn` with the random byte given: `Vx = random & nn`.
    pub fn op_cxnn_with(&mut self, x: usize, nn: u8, random: u8) -> (jump: PcJump)
        requires
            x < 16,
        ensures
            jump == PcJump::Next,
            final(self)@ == old(self)@.with_reg(x as int, random & nn),
    {
        self.v[x] = random & nn;
        PcJump::Next
    }

    /// `Cxnn`: `Vx` = a random byte masked with `nn`. Whatever byte was
    /// drawn, the machine is as `op_cxnn_with` leaves it for that byte.
    pub fn op_cxnn(&mut self, x: usize, nn: u8) -> (jump: PcJump)
        requires
            x < 16,
        ensures
            jump == PcJump::Next,
            exists|random: u8| final(self)@ == old(self)@.with_reg(x as int, random & nn),
    {
        let random: u8 = random_byte();
        self.op_cxnn_with(x, nn, random)
    }

    /// `Ex9E`: skips the next instruction if the key `Vx` is down.
    pub fn op_ex9e(&mut self, x: usize) -> (jump: PcJump)
        requires
            x < 16,
        ensures
            jump == skip_if(old(self)@.key_down(x as int)),
            final(self)@ == old(self)@,
    {
        let key: usize = self.v[x] as usize;
        if key < 16 && self.key_press[key] {
            PcJump::Skip
        } else {
            PcJump::Next
        }
    }

    /// `ExA1`: skips the next instruction if the key `Vx` is not down.
    pub fn op_exa1(&mut self, x: usize) -> (jump: PcJump)
        requires
            x < 16,
        ensures
            jump == skip_if(!old(self)@.key_down(x as int)),
            final(self)@ == old(self)@,
    {
        let key: usize = self.v[x] as usize;
        if key < 16 && self.key_press[key] {
            PcJump::Next
        } else {
            PcJump::Skip
        }
    }

    /// `Fx07`: `Vx` = the delay timer.
    pub fn op_fx07(&mut self, x: usize) -> (jump: PcJump)
        requires
            x < 16,
        ensures
            jump == PcJump::Next,
            final(self)@ == old(self)@.with_reg(x as int, old(self)@.delay),
    {
        self.v[x] = self.delay;
        PcJump::Next
    }

    /// `Fx0A`: with a key down, the lowest such key goes to `Vx`; with none
    /// the machine is untouched and the program counter stays, so that the
    /// instruction runs again at the next step.
    pub fn op_fx0a(&mut self, x: usize) -> (jump: PcJump)
        requires
            x < 16,
        ensures
            (final(self)@, jump) == old(self)@.wait_key(x as int),
    {
        let mut k: usize = 0;
        while k < 16
            invariant
                k <= 16,
                x < 16,
                self@ == old(self)@,
                forall|j: int| 0 <= j < k ==> !self.key_press@[j],
            decreases 16 - k,
        {
            if self.key_press[k] {
                proof {
                    lemma_lowest_key(self.key_press@, k as int);
                }
                self.v[x] = k as u8;
                return PcJump::Next;
            }
            k += 1;
        }
        assert(lowest_key(self.key_press@) is None);
        PcJump::Stay
    }

    /// `Fx15`: the delay timer = `Vx`.
    pub fn op_fx15(&mut self, x: usize) -> (jump: PcJump)
        requires
            x < 16,
        ensures
            jump == PcJump::Next,
            final(self)@ == (Machine { delay: old(self)@.v[x as int], ..old(self)@ }),
    {
        self.delay = self.v[x];
        PcJump::Next
    }

    /// `Fx18`: the sound timer = `Vx`.
    pub fn op_fx18(&mut self, x: usize) -> (jump: PcJump)
        requires
            x < 16,
        ensures
            jump == PcJump::Next,
            final(self)@ == (Machine { sound: old(self)@.v[x as int], ..old(self)@ }),
    {
        self.sound = self.v[x];
        PcJump::Next
    }

    /// `Fx1E`: `I = I + Vx` in sixteen bits, and `VF` is 1 if the new `I` is
    /// over `0x0F00`, else 0.
    pub fn op_fx1e(&mut self, x: usize) -> (jump: PcJump)
        requires
            x < 16,
        ensures
            jump == PcJump::Next,
            final(self)@ == old(self)@.add_index(x as int),
    {
        let sum: u32 = self.i as u32 + self.v[x] as u32;
        self.i = (sum % 0x1_0000) as u16;
        self.v[0xf] = if self.i > 0x0f00 { 1 } else { 0 };
        PcJump::Next
    }

    /// `Fx29`: `I` = the address of the glyph for `Vx`, five bytes a glyph.
    pub fn op_fx29(&mut self, x: usize) -> (jump: PcJump)
        requires
            x < 16,
        ensures
            jump == PcJump::Next,
            final(self)@ == old(self)@.load_glyph(x as int),
    {
        let glyph: u16 = GLYPH_SIZE as u16;
        assert(glyph == 5);
        self.i = self.v[x] as u16 * glyph;
        PcJump::Next
    }

    /// `Fx33`: the hundreds, tens and units of `Vx` go to `I`, `I+1`, `I+2`.
    /// Fails, with nothing written, unless all three addresses are in memory.
    pub fn op_fx33(&mut self, x: usize) -> (jump: Result<PcJump, Error>)
        requires
            x < 16,
        ensures
            match old(self)@.store_bcd(x as int) {
                Ok(m) => jump == Ok::<PcJump, Error>(PcJump::Next) && final(self)@ == m,
                Err(e) => jump == Err::<PcJump, Error>(e) && final(self)@ == old(self)@,
            },
    {
        let a: usize = self.i as usize;
        if a + 2 >= MEMORY_SIZE {
            return Err(Error::OutOfBounds);
        }
        let value: u8 = self.v[x];
        self.ram[a] = value / 100;
        self.ram[a + 1] = (value / 10) % 10;
        self.ram[a + 2] = value % 10;
        Ok(PcJump::Next)
    }

    /// `Fx55`: `V0..=Vx`, register `x` included, go to `I..=I+x`.
    /// Fails, with nothing written, unless all those addresses are in memory.
    pub fn op_fx55(&mut self, x: usize) -> (jump: Result<PcJump, Error>)
        requires
            x < 16,
        ensures
            match old(self)@.store_regs(x as int) {
                Ok(m) => jump == Ok::<PcJump, Error>(PcJump::Next) && final(self)@ == m,
                Err(e) => jump == Err::<PcJump, Error>(e) && final(self)@ == old(self)@,
            },
    {
        let a: usize = self.i as usize;
        if a + x >= MEMORY_SIZE {
            return Err(Error::OutOfBounds);
        }
        let mut r: usize = 0;
        while r <= x
            invariant
                x < 16,
                r <= x + 1,
                a == old(self).i,
                a + x < MEMORY_SIZE,
                self@ == (Machine { ram: self.ram@, ..old(self)@ }),
                forall|k: int|
                    0 <= k < MEMORY_SIZE ==> self.ram@[k] == if a <= k < a + r {
                        old(self).v@[k - a]
                    } else {
                        old(self).ram@[k]
                    },
            decreases x + 1 - r,
        {
            self.ram[a + r] = self.v[r];
            r += 1;
        }
        Ok(PcJump::Next)
    }

    /// `Fx65`: `V0..=Vx`, register `x` included, come from `I..=I+x`.
    /// Fails, with nothing loaded, unless all those addresses are in memory.
    pub fn op_fx65(&mut self, x: usize) -> (jump: Result<PcJump, Error>)
        requires
            x < 16,
        ensures
            match old(self)@.load_regs(x as int) {
                Ok(m) => jump == Ok::<PcJump, Error>(PcJump::Next) && final(self)@ == m,
                Err(e) => jump == Err::<PcJump, Error>(e) && final(self)@ == old(self)@,
            },
    {
        let a: usize = self.i as usize;
        if a + x >= MEMORY_SIZE {
            return Err(Error::OutOfBounds);
        }
        let mut r: usize = 0;
        while r <= x
            invariant
                x < 16,
                r <= x + 1,
                a == old(self).i,
                a + x < MEMORY_SIZE,
                self@ == (Machine { v: self.v@, ..old(self)@ }),
                forall|k: int|
                    0 <= k < 16 ==> self.v@[k] == if k < r {
                        old(self).ram@[a + k]
                    } else {
                        old(self).v@[k]
                    },
            decreases x + 1 - r,
        {
            self.v[r] = self.ram[a + r];
            r += 1;
        }
        Ok(PcJump::Next)
    }
}

} // verus!
