//! A processor that can say what it is about to do: the mnemonic of the next
//! instruction and the state of the machine as text.

use vstd::prelude::*;
use vstd::string::StringExecFns;
use crate::cpu::{word_of, Processor, CPU};
use crate::error::Error;
use crate::instruction::{decode, decoding, Instruction};
use crate::machine::{settled, word_at, Machine};
use crate::ram::MEMORY_SIZE;
use crate::text::{
    bytes_listed, bytes_listed_string, decimal, decimal_string, flags_listed, flags_listed_string,
    hex, hex_string,
};

verus! {

/// A processor that can tell what it is about to do.
pub struct Debugger {
    pub cpu: CPU,
}

/// A mnemonic with one operand: what stands before the operand, the operand
/// and what stands behind it.
pub open spec fn phrase(head: Seq<char>, a: Seq<char>, tail: Seq<char>) -> Seq<char> {
    head + a + tail
}

/// A mnemonic with register `x` and a second operand `b`.
pub open spec fn phrase2(
    head: Seq<char>,
    x: usize,
    mid: Seq<char>,
    b: Seq<char>,
    tail: Seq<char>,
) -> Seq<char> {
    head + hex(x as nat, 1) + mid + b + tail
}

/// The mnemonic of an instruction, operands in hexadecimal but for the byte
/// that `3xnn` compares with; nothing for a word that is no instruction.
pub open spec fn mnemonic_text(inst: Instruction) -> Seq<char> {
    match inst {
        Instruction::Ret => "RET"@,
        Instruction::Cls => "CLS"@,
        Instruction::Jump { nnn } => phrase("JMP\t0x"@, hex(nnn as nat, 3), ""@),
        Instruction::Call { nnn } => phrase("CALL\t"@, hex(nnn as nat, 3), ""@),
        Instruction::SkipEqByte { x, nn } => phrase2("SE\tV"@, x, ", "@, decimal(nn as nat), ""@),
        Instruction::SkipNeByte { x, nn } => phrase2("SNE\t V"@, x, ", "@, hex(nn as nat, 2), ""@),
        Instruction::SkipEqReg { x, y } => phrase2("SE\tV"@, x, ", V"@, hex(y as nat, 1), ""@),
        Instruction::LoadByte { x, nn } => phrase2("LD\tV"@, x, ", "@, hex(nn as nat, 2), ""@),
        Instruction::AddByte { x, nn } => phrase2("ADD\tV"@, x, ", "@, hex(nn as nat, 2), ""@),
        Instruction::LoadReg { x, y } => phrase2("LD\tV"@, x, ", V"@, hex(y as nat, 1), ""@),
        Instruction::Or { x, y } => phrase2("OR\tV"@, x, ", V"@, hex(y as nat, 1), ""@),
        Instruction::And { x, y } => phrase2("AND\tV"@, x, ", V"@, hex(y as nat, 1), ""@),
        Instruction::Xor { x, y } => phrase2("XOR\tV"@, x, ", V"@, hex(y as nat, 1), ""@),
        Instruction::AddReg { x, y } => phrase2("ADD\tV"@, x, ", V"@, hex(y as nat, 1), ""@),
        Instruction::SubReg { x, y } => phrase2("SUB\tV"@, x, ", V"@, hex(y as nat, 1), ""@),
        Instruction::ShiftRight { x, y } => phrase2(
            "SHR\tV"@,
            x,
            ", {V"@,
            hex(y as nat, 1),
            "}"@,
        ),
        Instruction::SubFrom { x, y } => phrase2("SUBN\tV"@, x, ", V"@, hex(y as nat, 1), ""@),
        Instruction::ShiftLeft { x, y } => phrase2("SHL\tV"@, x, ", {V"@, hex(y as nat, 2), "}"@),
        Instruction::SkipNeReg { x, y } => phrase2("SNE\tV"@, x, ", V"@, hex(y as nat, 2), ""@),
        Instruction::LoadIndex { nnn } => phrase("LD\t I, 0x"@, hex(nnn as nat, 3), ""@),
        Instruction::JumpOffset { nnn } => phrase("JP\tV0, 0x"@, hex(nnn as nat, 3), ""@),
        Instruction::Random { x, nn } => phrase2("RND\tV"@, x, ", 0x"@, hex(nn as nat, 3), ""@),
        Instruction::Draw { x, y, n } => phrase2(
            "DRW\tV"@,
            x,
            ", V"@,
            hex(y as nat, 1),
            ", 0x"@ + hex(n as nat, 2),
        ),
        Instruction::SkipKey { x } => phrase("SKP\tV"@, hex(x as nat, 1), ""@),
        Instruction::SkipNoKey { x } => phrase("SKNP\tV"@, hex(x as nat, 1), ""@),
        Instruction::LoadDelay { x } => phrase("LD\tV"@, hex(x as nat, 1), ", Dt"@),
        Instruction::WaitKey { x } => phrase("LD\tV"@, hex(x as nat, 1), ", K"@),
        Instruction::SetDelay { x } => phrase("LD\tDt, V"@, hex(x as nat, 1), ""@),
        Instruction::SetSound { x } => phrase("LD\tST, V"@, hex(x as nat, 1), ""@),
        Instruction::AddIndex { x } => phrase("ADD\tI, V"@, hex(x as nat, 1), ""@),
        Instruction::LoadGlyph { x } => phrase("LD\tF, V"@, hex(x as nat, 1), ""@),
        Instruction::StoreBcd { x } => phrase("LD\tB, V"@, hex(x as nat, 1), ""@),
        Instruction::StoreRegs { x } => phrase("LD\t[I], V"@, hex(x as nat, 1), ""@),
        Instruction::LoadRegs { x } => phrase("LD\tV"@, hex(x as nat, 1), ", [I]"@),
        Instruction::Unknown => ""@,
    }
}

/// What is shown of the machine before a step: a code that clears the
/// terminal, the program counter, the index register, the registers, the
/// keys, and the word at the program counter with its mnemonic.
pub open spec fn state_text(m: Machine) -> Seq<char> {
    let word = word_at(m.ram, m.pc as int);
    "\x1b[2Jpc: 0x"@ + hex(m.pc as nat, 2) + "\ni: 0x"@ + hex(m.i as nat, 3) + "\nregisters: ["@
        + bytes_listed(m.v) + "]\nkeys: ["@ + flags_listed(m.key_press) + "]\nop: 0x"@ + hex(
        word as nat,
        4,
    ) + " "@ + mnemonic_text(decoding(word))
}

/// `head`, `a` and `tail` in one string.
fn phrase_string(head: &str, a: String, tail: &str) -> (s: String)
    ensures
        s@ == phrase(head@, a@, tail@),
{
    let mut s: String = String::from_str(head);
    s.append(a.as_str());
    s.append(tail);
    s
}

/// `head`, register `x`, `mid`, `b` and `tail` in one string.
fn phrase2_string(head: &str, x: usize, mid: &str, b: String, tail: &str) -> (s: String)
    ensures
        s@ == phrase2(head@, x, mid@, b@, tail@),
{
    let mut s: String = String::from_str(head);
    let register: String = hex_string(x, 1);
    s.append(register.as_str());
    s.append(mid);
    s.append(b.as_str());
    s.append(tail);
    s
}

/// The mnemonic of an instruction.
pub fn mnemonic(inst: Instruction) -> (text: String)
    ensures
        text@ == mnemonic_text(inst),
{
    match inst {
        Instruction::Ret => String::from_str("RET"),
        Instruction::Cls => String::from_str("CLS"),
        Instruction::Jump { nnn } => phrase_string("JMP\t0x", hex_string(nnn, 3), ""),
        Instruction::Call { nnn } => phrase_string("CALL\t", hex_string(nnn, 3), ""),
        Instruction::SkipEqByte { x, nn } => phrase2_string(
            "SE\tV",
            x,
            ", ",
            decimal_string(nn as usize),
            "",
        ),
        Instruction::SkipNeByte { x, nn } => phrase2_string(
            "SNE\t V",
            x,
            ", ",
            hex_string(nn as usize, 2),
            "",
        ),
        Instruction::SkipEqReg { x, y } => phrase2_string("SE\tV", x, ", V", hex_string(y, 1), ""),
        Instruction::LoadByte { x, nn } => phrase2_string(
            "LD\tV",
            x,
            ", ",
            hex_string(nn as usize, 2),
            "",
        ),
        Instruction::AddByte { x, nn } => phrase2_string(
            "ADD\tV",
            x,
            ", ",
            hex_string(nn as usize, 2),
            "",
        ),
        Instruction::LoadReg { x, y } => phrase2_string("LD\tV", x, ", V", hex_string(y, 1), ""),
        Instruction::Or { x, y } => phrase2_string("OR\tV", x, ", V", hex_string(y, 1), ""),
        Instruction::And { x, y } => phrase2_string("AND\tV", x, ", V", hex_string(y, 1), ""),
        Instruction::Xor { x, y } => phrase2_string("XOR\tV", x, ", V", hex_string(y, 1), ""),
        Instruction::AddReg { x, y } => phrase2_string("ADD\tV", x, ", V", hex_string(y, 1), ""),
        Instruction::SubReg { x, y } => phrase2_string("SUB\tV", x, ", V", hex_string(y, 1), ""),
        Instruction::ShiftRight { x, y } => phrase2_string(
            "SHR\tV",
            x,
            ", {V",
            hex_string(y, 1),
            "}",
        ),
        Instruction::SubFrom { x, y } => phrase2_string("SUBN\tV", x, ", V", hex_string(y, 1), ""),
        Instruction::ShiftLeft { x, y } => phrase2_string(
            "SHL\tV",
            x,
            ", {V",
            hex_string(y, 2),
            "}",
        ),
        Instruction::SkipNeReg { x, y } => phrase2_string("SNE\tV", x, ", V", hex_string(y, 2), ""),
        Instruction::LoadIndex { nnn } => phrase_string("LD\t I, 0x", hex_string(nnn, 3), ""),
        Instruction::JumpOffset { nnn } => phrase_string("JP\tV0, 0x", hex_string(nnn, 3), ""),
        Instruction::Random { x, nn } => phrase2_string(
            "RND\tV",
            x,
            ", 0x",
            hex_string(nn as usize, 3),
            "",
        ),
        Instruction::Draw { x, y, n } => {
            let rows: String = phrase_string(", 0x", hex_string(n as usize, 2), "");
            assert(rows@ =~= ", 0x"@ + hex(n as nat, 2)) by {
                reveal_strlit("");
            }
            phrase2_string("DRW\tV", x, ", V", hex_string(y, 1), rows.as_str())
        },
        Instruction::SkipKey { x } => phrase_string("SKP\tV", hex_string(x, 1), ""),
        Instruction::SkipNoKey { x } => phrase_string("SKNP\tV", hex_string(x, 1), ""),
        Instruction::LoadDelay { x } => phrase_string("LD\tV", hex_string(x, 1), ", Dt"),
        Instruction::WaitKey { x } => phrase_string("LD\tV", hex_string(x, 1), ", K"),
        Instruction::SetDelay { x } => phrase_string("LD\tDt, V", hex_string(x, 1), ""),
        Instruction::SetSound { x } => phrase_string("LD\tST, V", hex_string(x, 1), ""),
        Instruction::AddIndex { x } => phrase_string("ADD\tI, V", hex_string(x, 1), ""),
        Instruction::LoadGlyph { x } => phrase_string("LD\tF, V", hex_string(x, 1), ""),
        Instruction::StoreBcd { x } => phrase_string("LD\tB, V", hex_string(x, 1), ""),
        Instruction::StoreRegs { x } => phrase_string("LD\t[I], V", hex_string(x, 1), ""),
        Instruction::LoadRegs { x } => phrase_string("LD\tV", hex_string(x, 1), ", [I]"),
        Instruction::Unknown => String::from_str(""),
    }
}

impl Debugger {
    /// A debugger round `cpu`.
    pub fn new(cpu: CPU) -> (debugger: Debugger)
        ensures
            debugger.cpu == cpu,
    {
        Debugger { cpu: cpu }
    }

    /// The mnemonic of the instruction at the program counter; fails if that
    /// does not lie in memory.
    pub fn get_op(&self) -> (op: Result<String, Error>)
        ensures
            self.cpu.pc + 1 >= MEMORY_SIZE ==> op == Err::<String, Error>(Error::OutOfBounds),
            self.cpu.pc + 1 < MEMORY_SIZE ==> op is Ok && op->Ok_0@ == mnemonic_text(
                self.cpu@.current(),
            ),
    {
        if self.cpu.pc >= MEMORY_SIZE - 1 {
            return Err(Error::OutOfBounds);
        }
        let word: u16 = word_of(self.cpu.ram[self.cpu.pc], self.cpu.ram[self.cpu.pc + 1]);
        Ok(mnemonic(decode(word)))
    }

    /// What is to be shown of the machine before the next step; fails if the
    /// program counter does not lie in memory.
    pub fn state_string(&self) -> (text: Result<String, Error>)
        ensures
            self.cpu.pc + 1 >= MEMORY_SIZE ==> text == Err::<String, Error>(Error::OutOfBounds),
            self.cpu.pc + 1 < MEMORY_SIZE ==> text is Ok && text->Ok_0@ == state_text(self.cpu@),
    {
        if self.cpu.pc >= MEMORY_SIZE - 1 {
            return Err(Error::OutOfBounds);
        }
        let word: u16 = word_of(self.cpu.ram[self.cpu.pc], self.cpu.ram[self.cpu.pc + 1]);
        let mut s: String = String::from_str("\x1b[2Jpc: 0x");
        let pc: String = hex_string(self.cpu.pc, 2);
        s.append(pc.as_str());
        s.append("\ni: 0x");
        let index: String = hex_string(self.cpu.i as usize, 3);
        s.append(index.as_str());
        s.append("\nregisters: [");
        let registers: String = bytes_listed_string(self.cpu.v.as_slice());
        s.append(registers.as_str());
        s.append("]\nkeys: [");
        let keys: String = flags_listed_string(self.cpu.key_press.as_slice());
        s.append(keys.as_str());
        s.append("]\nop: 0x");
        let op: String = hex_string(word as usize, 4);
        s.append(op.as_str());
        s.append(" ");
        let name: String = mnemonic(decode(word));
        s.append(name.as_str());
        Ok(s)
    }
}

impl Processor for Debugger {
    open spec fn machine(&self) -> Machine {
        self.cpu@
    }

    fn tick(&mut self) -> (outcome: Result<(), Error>) {
        let outcome = self.cpu.tick();
        proof {
            let before = old(self).cpu.machine();
            let random = choose|random: u8|
                settled(before, #[trigger] before.step(random), outcome, self.cpu.machine());
            assert(settled(
                old(self).machine(),
                old(self).machine().step(random),
                outcome,
                self.machine(),
            ));
        }
        outcome
    }

    fn should_redraw(&self) -> (changed: bool) {
        self.cpu.should_redraw()
    }

    fn drawn(&mut self) {
        self.cpu.drawn();
    }

    fn get_vram_buffer(&self, buffer: &mut [(u8, u8, u8)]) {
        self.cpu.get_vram_buffer(buffer)
    }

    fn load_rom(&mut self, rom: &[u8]) -> (outcome: Result<(), Error>) {
        self.cpu.load_rom(rom)
    }

    fn set_key_press(&mut self, key: u8, is_down: bool) {
        self.cpu.set_key_press(key, is_down);
    }

    fn get_sound_timer(&self) -> (timer: u8) {
        self.cpu.get_sound_timer()
    }
}

} // verus!
