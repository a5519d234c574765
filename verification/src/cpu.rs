//! The processor: its state, one step of it, and the interface that the
//! loop round it uses.

use vstd::prelude::*;
use crate::config::{DISPLAY_SIZE, PGM_OFFSET};
use crate::error::Error;
use crate::instruction::{decode, Instruction};
use crate::machine::{pixel_colour, rendered, reported, settled, Machine};
use crate::ops::random_byte;
use crate::ram::{overlay, MEMORY_SIZE, RAM};

verus! {

/// How the program counter moves after an instruction.
#[derive(Clone, Copy, Debug, PartialEq, Eq, Structural)]
pub enum PcJump {
    /// The instruction has set the program counter itself, or waits.
    Stay,
    /// On to the next instruction.
    Next,
    /// Over the next instruction.
    Skip,
}

impl PcJump {
    /// The number of bytes by which the program counter moves.
    pub open spec fn distance(self) -> int {
        match self {
            PcJump::Stay => 0,
            PcJump::Next => 2,
            PcJump::Skip => 4,
        }
    }

    /// The number of bytes by which the program counter moves.
    pub fn to_int(self) -> (bytes: usize)
        ensures
            bytes == self.distance(),
    {
        match self {
            PcJump::Stay => 0,
            PcJump::Next => 2,
            PcJump::Skip => 4,
        }
    }
}

/// The glyphs of the hexadecimal digits `0..=F`, five rows each.
pub const FONT: [u8; 80] = [
    0xF0, 0x90, 0x90, 0x90, 0xF0,
    0x20, 0x60, 0x20, 0x20, 0x70,
    0xF0, 0x10, 0xF0, 0x80, 0xF0,
    0xF0, 0x10, 0xF0, 0x10, 0xF0,
    0x90, 0x90, 0xF0, 0x10, 0x10,
    0xF0, 0x80, 0xF0, 0x10, 0xF0,
    0xF0, 0x80, 0xF0, 0x90, 0xF0,
    0xF0, 0x10, 0x20, 0x40, 0x40,
    0xF0, 0x90, 0xF0, 0x90, 0xF0,
    0xF0, 0x90, 0xF0, 0x10, 0xF0,
    0xF0, 0x90, 0xF0, 0x90, 0x90,
    0xE0, 0x90, 0xE0, 0x90, 0xE0,
    0xF0, 0x80, 0x80, 0x80, 0xF0,
    0xE0, 0x90, 0x90, 0x90, 0xE0,
    0xF0, 0x80, 0xF0, 0x80, 0xF0,
    0xF0, 0x80, 0xF0, 0x80, 0x80,
];

/// The processor with all the state it owns.
pub struct CPU {
    /// The registers `V0..=VF`; `VF` is also the flag.
    pub v: [u8; 16],
    /// The index register.
    pub i: u16,
    /// The memory: the font from address 0, the program from `0x200`.
    pub ram: [u8; 4096],
    /// The screen, 32 rows of 64 pixels, row by row.
    pub vram: [bool; 2048],
    /// The return addresses, the latest last; sixteen at most are pushed.
    pub stack: Vec<usize>,
    /// The program counter.
    pub pc: usize,
    /// The delay timer.
    pub delay: u8,
    /// The sound timer.
    pub sound: u8,
    /// Which of the sixteen keys are down.
    pub key_press: [bool; 16],
    /// Whether the screen has changed since it was last shown.
    pub draw: bool,
}

impl View for CPU {
    type V = Machine;

    open spec fn view(&self) -> Machine {
        Machine {
            v: self.v@,
            i: self.i,
            ram: self.ram@,
            vram: self.vram@,
            stack: self.stack@,
            pc: self.pc,
            delay: self.delay,
            sound: self.sound,
            key_press: self.key_press@,
            draw: self.draw,
        }
    }
}

/// The machine as it is switched on: everything zero, the program counter at
/// the load address, the font at address 0.
pub open spec fn power_on() -> Machine {
    Machine {
        v: Seq::new(16, |k: int| 0u8),
        i: 0,
        ram: overlay(Seq::new(MEMORY_SIZE as nat, |k: int| 0u8), FONT@, 0),
        vram: Seq::new(DISPLAY_SIZE as nat, |k: int| false),
        stack: Seq::empty(),
        pc: PGM_OFFSET,
        delay: 0,
        sound: 0,
        key_press: Seq::new(16, |k: int| false),
        draw: false,
    }
}

impl CPU {
    /// A processor in the state in which the machine is switched on.
    pub fn new() -> (cpu: CPU)
        ensures
            cpu@ == power_on(),
    {
        let mut cpu = CPU {
            v: [0;16],
            i: 0,
            stack: Vec::with_capacity(16),
            ram: [0;4096],
            vram: [false;2048],
            pc: PGM_OFFSET,
            delay: 0,
            sound: 0,
            key_press: [false;16],
            draw: false,
        };
        cpu.mem_cpy(FONT.as_slice(), 0);
        cpu
    }

    /// Copies `src` into memory from `offset` on.
    fn mem_cpy(&mut self, src: &[u8], offset: usize)
        requires
            offset + src@.len() <= MEMORY_SIZE,
        ensures
            final(self)@ == (Machine { ram: overlay(old(self).ram@, src@, offset as int), ..old(self)@ }),
    {
        let n: usize = src.len();
        let mut k: usize = 0;
        while k < n
            invariant
                n == src@.len(),
                offset + n <= MEMORY_SIZE,
                k <= n,
                self@ == (Machine {
                    ram: overlay(old(self).ram@, src@.take(k as int), offset as int),
                    ..old(self)@
                }),
            decreases n - k,
        {
            self.ram[offset + k] = src[k];
            k += 1;
        }
        assert(src@.take(n as int) == src@);
    }
}

impl CPU {
    /// Carries out an instruction that moves the program counter or decides
    /// whether the next instruction is skipped. None of them uses the random
    /// byte.
    fn execute_flow(&mut self, inst: Instruction) -> (jump: Result<PcJump, Error>)
        requires
            inst.well_formed(),
            inst.is_flow(),
            old(self).pc + 2 <= usize::MAX,
        ensures
            reported(old(self)@, old(self)@.apply(inst, 0), jump, final(self)@),
    {
        match inst {
            Instruction::Ret => self.op_00ee(),
            Instruction::Jump { nnn } => Ok(self.op_1nnn(nnn)),
            Instruction::Call { nnn } => self.op_2nnn(nnn),
            Instruction::SkipEqByte { x, nn } => Ok(self.op_3xnn(x, nn)),
            Instruction::SkipNeByte { x, nn } => Ok(self.op_4xnn(x, nn)),
            Instruction::SkipEqReg { x, y } => Ok(self.op_5xy0(x, y)),
            Instruction::SkipNeReg { x, y } => Ok(self.op_9xy0(x, y)),
            Instruction::JumpOffset { nnn } => Ok(self.op_bnnn(nnn)),
            Instruction::SkipKey { x } => Ok(self.op_ex9e(x)),
            Instruction::SkipNoKey { x } => Ok(self.op_exa1(x)),
            _ => Ok(PcJump::Next),
        }
    }

    /// Carries out an instruction that computes a register from registers,
    /// from a byte of the instruction or from the random byte.
    fn execute_arithmetic(&mut self, inst: Instruction, random: u8) -> (jump: Result<
        PcJump,
        Error,
    >)
        requires
            inst.well_formed(),
            inst.is_arithmetic(),
        ensures
            reported(old(self)@, old(self)@.apply(inst, random), jump, final(self)@),
    {
        match inst {
            Instruction::LoadByte { x, nn } => Ok(self.op_6xnn(x, nn)),
            Instruction::AddByte { x, nn } => Ok(self.op_7xnn(x, nn)),
            Instruction::LoadReg { x, y } => Ok(self.op_8xy0(x, y)),
            Instruction::Or { x, y } => Ok(self.op_8xy1(x, y)),
            Instruction::And { x, y } => Ok(self.op_8xy2(x, y)),
            Instruction::Xor { x, y } => Ok(self.op_8xy3(x, y)),
            Instruction::AddReg { x, y } => Ok(self.op_8xy4(x, y)),
            Instruction::SubReg { x, y } => Ok(self.op_8xy5(x, y)),
            Instruction::ShiftRight { x, y } => Ok(self.op_8xy6(x, y)),
            Instruction::SubFrom { x, y } => Ok(self.op_8xy7(x, y)),
            Instruction::ShiftLeft { x, y } => Ok(self.op_8xye(x, y)),
            Instruction::Random { x, nn } => Ok(self.op_cxnn_with(x, nn, random)),
            _ => Ok(PcJump::Next),
        }
    }

    /// Carries out an instruction on the screen, the index register, the
    /// memory, the timers or the keys. None of them uses the random byte.
    fn execute_device(&mut self, inst: Instruction) -> (jump: Result<PcJump, Error>)
        requires
            inst.well_formed(),
            !inst.is_flow(),
            !inst.is_arithmetic(),
        ensures
            reported(old(self)@, old(self)@.apply(inst, 0), jump, final(self)@),
    {
        match inst {
            Instruction::Cls => Ok(self.op_00e0()),
            Instruction::LoadIndex { nnn } => Ok(self.op_annn(nnn)),
            Instruction::Draw { x, y, n } => self.op_dxyn(x, y, n),
            Instruction::LoadDelay { x } => Ok(self.op_fx07(x)),
            Instruction::WaitKey { x } => Ok(self.op_fx0a(x)),
            Instruction::SetDelay { x } => Ok(self.op_fx15(x)),
            Instruction::SetSound { x } => Ok(self.op_fx18(x)),
            Instruction::AddIndex { x } => Ok(self.op_fx1e(x)),
            Instruction::LoadGlyph { x } => Ok(self.op_fx29(x)),
            Instruction::StoreBcd { x } => self.op_fx33(x),
            Instruction::StoreRegs { x } => self.op_fx55(x),
            Instruction::LoadRegs { x } => self.op_fx65(x),
            _ => Ok(PcJump::Next),
        }
    }

    /// Carries out one decoded instruction, which lies at the program
    /// counter, and reports how the program counter is to move. `random` is
    /// the byte that `Cxnn` uses. A failing instruction leaves the processor
    /// untouched. The address behind the instruction must be one that the
    /// machine can hold.
    pub fn execute(&mut self, inst: Instruction, random: u8) -> (jump: Result<PcJump, Error>)
        requires
            inst.well_formed(),
            old(self).pc + 2 <= usize::MAX,
        ensures
            reported(old(self)@, old(self)@.apply(inst, random), jump, final(self)@),
    {
        match inst {
            Instruction::Ret
            | Instruction::Jump { .. }
            | Instruction::Call { .. }
            | Instruction::SkipEqByte { .. }
            | Instruction::SkipNeByte { .. }
            | Instruction::SkipEqReg { .. }
            | Instruction::SkipNeReg { .. }
            | Instruction::JumpOffset { .. }
            | Instruction::SkipKey { .. }
            | Instruction::SkipNoKey { .. }
            | Instruction::Unknown => self.execute_flow(inst),
            Instruction::LoadByte { .. }
            | Instruction::AddByte { .. }
            | Instruction::LoadReg { .. }
            | Instruction::Or { .. }
            | Instruction::And { .. }
            | Instruction::Xor { .. }
            | Instruction::AddReg { .. }
            | Instruction::SubReg { .. }
            | Instruction::ShiftRight { .. }
            | Instruction::SubFrom { .. }
            | Instruction::ShiftLeft { .. }
            | Instruction::Random { .. } => self.execute_arithmetic(inst, random),
            _ => self.execute_device(inst),
        }
    }

    /// Executes `word` as the instruction of this step, which lies at the
    /// program counter: the instruction is carried out, the program counter
    /// moves on and both timers count down. `random` is the byte that `Cxnn`
    /// uses. A failing instruction leaves the processor untouched. The
    /// program counter must leave room for a skip.
    pub fn run_word(&mut self, word: u16, random: u8) -> (outcome: Result<(), Error>)
        requires
            old(self).pc + 4 <= usize::MAX,
        ensures
            settled(old(self)@, old(self)@.run_word(word, random), outcome, final(self)@),
    {
        let reported: Result<PcJump, Error> = self.execute(decode(word), random);
        match reported {
            Ok(jump) => {
                self.pc = self.pc + jump.to_int();
                if self.delay > 0 {
                    self.delay -= 1;
                }
                if self.sound > 0 {
                    self.sound -= 1;
                }
                Ok(())
            },
            Err(e) => Err(e),
        }
    }

    /// Whether the tone is to sound: the sound timer is not zero.
    pub fn sound_active(&self) -> (active: bool)
        ensures
            active == (self@.sound > 0),
    {
        self.sound > 0
    }

    /// One step with the random byte given: the instruction at the program
    /// counter is fetched from memory, high byte first, and executed.
    pub fn tick_with(&mut self, random: u8) -> (outcome: Result<(), Error>)
        ensures
            settled(old(self)@, old(self)@.step(random), outcome, final(self)@),
    {
        proof {
            reveal(Machine::step_from);
        }
        if self.pc >= MEMORY_SIZE - 1 {
            return Err(Error::OutOfBounds);
        }
        let word: u16 = word_of(self.ram[self.pc], self.ram[self.pc + 1]);
        self.run_word(word, random)
    }
}

/// The instruction word made of two bytes, the high one first.
pub fn word_of(hi: u8, lo: u8) -> (word: u16)
    ensures
        word == hi * 256 + lo,
{
    let high: u16 = hi as u16;
    let low: u16 = lo as u16;
    assert(high << 8 | low == high * 256 + low) by (bit_vector)
        requires
            high < 256,
            low < 256,
    ;
    high << 8 | low
}

/// One step of `cpu` whose instruction is read from `ram`, at the program
/// counter, in place of the processor's own memory. Whatever random byte was
/// drawn for it, the step is the one that `Machine::step_from` describes for
/// that byte.
pub fn emulate(cpu: &mut CPU, ram: &RAM) -> (outcome: Result<(), Error>)
    ensures
        exists|random: u8|
            settled(
                old(cpu)@,
                #[trigger] old(cpu)@.step_from(ram@, random),
                outcome,
                final(cpu)@,
            ),
{
    let random: u8 = random_byte();
    proof {
        reveal(Machine::step_from);
    }
    if cpu.pc >= MEMORY_SIZE - 1 {
        assert(cpu@.step_from(ram@, random) is Err);
        return Err(Error::OutOfBounds);
    }
    let word: u16 = word_of(ram.read_byte(cpu.pc), ram.read_byte(cpu.pc + 1));
    let outcome = cpu.run_word(word, random);
    assert(settled(old(cpu)@, old(cpu)@.step_from(ram@, random), outcome, cpu@));
    outcome
}

/// What drives the machine for the loop around it: steps, the screen, the
/// keys and the sound.
pub trait Processor {
    /// The machine that this processor drives.
    spec fn machine(&self) -> Machine;

    /// One step: fetch, decode, execute, then both timers count down.
    /// Whatever random byte was drawn for it, the step is the one that
    /// `Machine::step` describes for that byte.
    fn tick(&mut self) -> (outcome: Result<(), Error>)
        ensures
            exists|random: u8|
                settled(
                    old(self).machine(),
                    #[trigger] old(self).machine().step(random),
                    outcome,
                    final(self).machine(),
                ),
    ;

    /// Whether the screen has changed since it was last shown.
    fn should_redraw(&self) -> (changed: bool)
        ensures
            changed == self.machine().draw,
    ;

    /// Takes note that the screen has been shown.
    fn drawn(&mut self)
        ensures
            final(self).machine() == old(self).machine().shown(),
    ;

    /// Writes the screen into `buffer`, a colour for each pixel, row by row.
    fn get_vram_buffer(&self, buffer: &mut [(u8, u8, u8)])
        ensures
            final(buffer)@ == rendered(self.machine().vram, old(buffer)@),
    ;

    /// Loads a program at the load address. A program that does not fit
    /// into memory is refused, and nothing is loaded.
    fn load_rom(&mut self, rom: &[u8]) -> (outcome: Result<(), Error>)
        ensures
            settled(
                old(self).machine(),
                old(self).machine().loaded(rom@),
                outcome,
                final(self).machine(),
            ),
    ;

    /// Records that key `key` went down or up.
    fn set_key_press(&mut self, key: u8, is_down: bool)
        requires
            key < 16,
        ensures
            final(self).machine() == old(self).machine().with_key(key as int, is_down),
    ;

    /// The sound timer: a tone is due while it is not zero.
    fn get_sound_timer(&self) -> (timer: u8)
        ensures
            timer == self.machine().sound,
    ;
}

impl Processor for CPU {
    open spec fn machine(&self) -> Machine {
        self@
    }

    fn tick(&mut self) -> (outcome: Result<(), Error>) {
        let random: u8 = random_byte();
        let outcome = self.tick_with(random);
        assert(settled(
            old(self).machine(),
            old(self).machine().step(random),
            outcome,
            self.machine(),
        ));
        outcome
    }

    fn should_redraw(&self) -> (changed: bool) {
        self.draw
    }

    fn drawn(&mut self) {
        self.draw = false;
    }

    fn get_vram_buffer(&self, buffer: &mut [(u8, u8, u8)]) {
        let n: usize = if buffer.len() < DISPLAY_SIZE {
            buffer.len()
        } else {
            DISPLAY_SIZE
        };
        let mut k: usize = 0;
        while k < n
            invariant
                k <= n,
                n <= DISPLAY_SIZE,
                n <= buffer@.len(),
                buffer@.len() == old(buffer)@.len(),
                forall|j: int|
                    0 <= j < buffer@.len() ==> buffer@[j] == if j < k {
                        pixel_colour(self.vram@[j])
                    } else {
                        old(buffer)@[j]
                    },
            decreases n - k,
        {
            buffer[k] = if self.vram[k] {
                (255, 255, 255)
            } else {
                (0, 0, 0)
            };
            k += 1;
        }
    }

    fn load_rom(&mut self, rom: &[u8]) -> (outcome: Result<(), Error>) {
        if rom.len() > MEMORY_SIZE - PGM_OFFSET {
            return Err(Error::RomTooLarge);
        }
        self.mem_cpy(rom, PGM_OFFSET);
        Ok(())
    }

    fn set_key_press(&mut self, key: u8, is_down: bool) {
        self.key_press[key as usize] = is_down;
    }

    fn get_sound_timer(&self) -> (timer: u8) {
        self.sound
    }
}

} // verus!
