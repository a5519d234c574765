//! What holds of the machine in general, proved from the definitions in
//! [`crate::machine`].

use vstd::prelude::*;
use crate::error::Error;
use crate::instruction::{decoding_is_well_formed, Instruction};
use crate::machine::{counted_down, is_lowest_key, lowest_key, word_at, Machine};
use crate::ram::MEMORY_SIZE;

verus! {

/// Adding register `y` to a register `x` other than `VF` leaves the sum
/// modulo 256 in `Vx`, and in `VF` 1 if the sum is over 255, else 0.
pub proof fn add_sets_carry(m: Machine, x: int, y: int)
    requires
        m.well_formed(),
        0 <= x < 15,
        0 <= y < 16,
    ensures
        m.add_reg(x, y).v[x] == (m.v[x] + m.v[y]) % 256,
        m.add_reg(x, y).v[0xf] == if m.v[x] + m.v[y] > 255 { 1int } else { 0int },
{
}

/// The carry does not linger: whatever `VF` held, an addition into a register
/// other than `VF` whose sum fits in a byte leaves 0 in `VF`.
pub proof fn carry_does_not_linger(m: Machine, x: int, y: int)
    requires
        m.well_formed(),
        0 <= x < 15,
        0 <= y < 16,
        m.v[x] + m.v[y] <= 255,
    ensures
        m.add_reg(x, y).v[0xf] == 0,
{
}

/// Clearing the screen, drawing any sprite and clearing again leaves every
/// pixel off, whether the drawing succeeded or not.
pub proof fn clear_after_draw_is_blank(m: Machine, x: int, y: int, n: int)
    requires
        m.well_formed(),
    ensures
        match m.cls().draw_sprite(x, y, n) {
            Ok(drawn) => drawn.cls().vram =~= Seq::new(2048, |p: int| false),
            Err(_) => m.cls().cls().vram =~= Seq::new(2048, |p: int| false),
        },
{
}

/// Drawing a sprite twice at the same place, from registers other than `VF`,
/// gives the screen back as it was. The first drawing reports a collision
/// exactly if the sprite met a lit pixel, the second exactly if the sprite
/// met a pixel that was off: on a screen that is blank where the sprite has
/// its bits, only the second one reports it.
pub proof fn draw_twice_restores(m: Machine, x: int, y: int, n: int)
    requires
        m.well_formed(),
        0 <= x < 15,
        0 <= y < 15,
        0 <= n < 16,
        n > 0 ==> m.i + n <= MEMORY_SIZE,
    ensures
        m.draw_sprite(x, y, n) is Ok,
        m.draw_sprite(x, y, n)->Ok_0.draw_sprite(x, y, n) is Ok,
        m.draw_sprite(x, y, n)->Ok_0.draw_sprite(x, y, n)->Ok_0.vram == m.vram,
        m.draw_sprite(x, y, n)->Ok_0.v[0xf] == if m.collides(x, y, n) { 1int } else { 0int },
        m.draw_sprite(x, y, n)->Ok_0.draw_sprite(x, y, n)->Ok_0.v[0xf] == if m.lights(x, y, n) {
            1int
        } else {
            0int
        },
        !m.collides(x, y, n) && m.lights(x, y, n) ==> {
            &&& m.draw_sprite(x, y, n)->Ok_0.v[0xf] == 0
            &&& m.draw_sprite(x, y, n)->Ok_0.draw_sprite(x, y, n)->Ok_0.v[0xf] == 1
        },
{
    let once = m.draw_sprite(x, y, n)->Ok_0;
    let twice = once.draw_sprite(x, y, n)->Ok_0;
    assert forall|p: int| 0 <= p < 2048 implies once.sprite_covers(x, y, n, p) == m.sprite_covers(
        x,
        y,
        n,
        p,
    ) by {}
    assert(twice.vram =~= m.vram);
    if m.lights(x, y, n) {
        let p = choose|p: int| 0 <= p < 2048 && !m.vram[p] && #[trigger] m.sprite_covers(x, y, n, p);
        assert(once.vram[p] && once.sprite_covers(x, y, n, p));
    }
    if once.collides(x, y, n) {
        let p = choose|p: int|
            0 <= p < 2048 && once.vram[p] && #[trigger] once.sprite_covers(x, y, n, p);
        assert(!m.vram[p] && m.sprite_covers(x, y, n, p));
    }
}

/// With every step that succeeds each timer goes down by one and stops at
/// zero, whatever the instruction was. An instruction that sets a timer sets
/// it before that.
pub proof fn timers_count_once_per_step(m: Machine, random: u8)
    requires
        m.well_formed(),
    ensures
        match m.step(random) {
            Ok(after) => {
                &&& after.delay == counted_down(
                    match m.current() {
                        Instruction::SetDelay { x } => m.v[x as int],
                        _ => m.delay,
                    },
                )
                &&& after.sound == counted_down(
                    match m.current() {
                        Instruction::SetSound { x } => m.v[x as int],
                        _ => m.sound,
                    },
                )
            },
            Err(_) => true,
        },
        counted_down(0) == 0,
        forall|t: u8| t > 0 ==> #[trigger] counted_down(t) == t - 1,
{
    reveal(Machine::step_from);
}

/// While no key is down, a step at a wait for a key changes nothing but the
/// timers: the program counter stays, and the same wait is due again.
pub proof fn wait_key_holds(m: Machine, random: u8)
    requires
        m.well_formed(),
        m.pc + 1 < MEMORY_SIZE,
        m.current() is WaitKey,
        forall|k: int| 0 <= k < 16 ==> !m.key_press[k],
    ensures
        m.step(random) == Ok::<Machine, Error>(m.timers_ticked()),
        m.timers_ticked().pc == m.pc,
        m.timers_ticked().current() == m.current(),
{
    reveal(Machine::step_from);
    assert(lowest_key(m.key_press) is None);
    assert(m.advanced(crate::cpu::PcJump::Stay) == m);
}

/// While no key is down, any number of steps at a wait for a key succeed and
/// leave the program counter where it is.
pub proof fn wait_key_holds_across_steps(m: Machine, randoms: Seq<u8>)
    requires
        m.well_formed(),
        m.pc + 1 < MEMORY_SIZE,
        m.current() is WaitKey,
        forall|k: int| 0 <= k < 16 ==> !m.key_press[k],
    ensures
        m.steps(randoms) is Ok,
        m.steps(randoms)->Ok_0.pc == m.pc,
        m.steps(randoms)->Ok_0.ram == m.ram,
        m.steps(randoms)->Ok_0.key_press == m.key_press,
        m.steps(randoms)->Ok_0.v == m.v,
        m.steps(randoms)->Ok_0.vram == m.vram,
    decreases randoms.len(),
{
    if randoms.len() > 0 {
        wait_key_holds_across_steps(m, randoms.drop_last());
        let before = m.steps(randoms.drop_last())->Ok_0;
        wait_key_holds(before, randoms.last());
    }
}

/// With a key down, a step at a wait for a key stores the lowest key that is
/// down in the register and goes on to the next instruction.
pub proof fn wait_key_captures(m: Machine, random: u8, k: int)
    requires
        m.well_formed(),
        m.pc + 1 < MEMORY_SIZE,
        m.current() is WaitKey,
        is_lowest_key(m.key_press, k),
    ensures
        m.step(random) is Ok,
        m.step(random)->Ok_0.pc == m.pc + 2,
        m.step(random)->Ok_0.v[m.current()->WaitKey_x as int] == k,
{
    reveal(Machine::step_from);
    crate::machine::lemma_lowest_key(m.key_press, k);
}

/// A return on an empty stack fails; a call fails exactly if sixteen return
/// addresses are on the stack already, and else puts one more there; and a
/// return after a call goes to the instruction after the call, with the stack
/// as it was.
pub proof fn call_then_return(m: Machine, nnn: usize)
    requires
        m.well_formed(),
        m.pc + 2 <= usize::MAX,
    ensures
        m.stack.len() == 0 ==> m.ret() == Err::<Machine, Error>(Error::StackUnderflow),
        m.stack.len() >= 16 <==> m.call(nnn) == Err::<Machine, Error>(Error::StackOverflow),
        m.stack.len() < 16 ==> {
            &&& m.call(nnn) is Ok
            &&& m.call(nnn)->Ok_0.stack.len() == m.stack.len() + 1
            &&& m.call(nnn)->Ok_0.pc == nnn
            &&& m.call(nnn)->Ok_0.ret() == Ok::<Machine, Error>(
                Machine { pc: (m.pc + 2) as usize, ..m },
            )
        },
{
    if m.stack.len() < 16 {
        let called = m.call(nnn)->Ok_0;
        assert(called.stack.drop_last() =~= m.stack);
    }
}

/// A word that is no instruction does nothing: the step goes on to the next
/// instruction, and only the timers count down.
pub proof fn unknown_word_is_passed_over(m: Machine, random: u8)
    requires
        m.well_formed(),
        m.pc + 1 < MEMORY_SIZE,
        m.current() is Unknown,
    ensures
        m.step(random) == Ok::<Machine, Error>(
            Machine {
                pc: (m.pc + 2) as usize,
                delay: counted_down(m.delay),
                sound: counted_down(m.sound),
                ..m
            },
        ),
{
    reveal(Machine::step_from);
}

/// What an instruction leaves behind is a machine in shape.
pub open spec fn keeps_shape(m: Machine, inst: Instruction, random: u8) -> bool {
    m.apply(inst, random) matches Ok((after, _)) ==> after.well_formed() && after.stack.len() <= 16
}

proof fn flow_keeps_shape(m: Machine, inst: Instruction, random: u8)
    requires
        m.well_formed(),
        m.stack.len() <= 16,
        inst.well_formed(),
        inst.is_flow(),
    ensures
        keeps_shape(m, inst, random),
{
}

proof fn arithmetic_keeps_shape(m: Machine, inst: Instruction, random: u8)
    requires
        m.well_formed(),
        m.stack.len() <= 16,
        inst.well_formed(),
        inst.is_arithmetic(),
    ensures
        keeps_shape(m, inst, random),
{
}

proof fn device_keeps_shape(m: Machine, inst: Instruction, random: u8)
    requires
        m.well_formed(),
        m.stack.len() <= 16,
        inst.well_formed(),
        !inst.is_flow(),
        !inst.is_arithmetic(),
    ensures
        keeps_shape(m, inst, random),
{
}

/// Whatever the instruction, it keeps the machine in shape.
pub proof fn instruction_keeps_shape(m: Machine, inst: Instruction, random: u8)
    requires
        m.well_formed(),
        m.stack.len() <= 16,
        inst.well_formed(),
    ensures
        keeps_shape(m, inst, random),
{
    if inst.is_flow() {
        flow_keeps_shape(m, inst, random);
    } else if inst.is_arithmetic() {
        arithmetic_keeps_shape(m, inst, random);
    } else {
        device_keeps_shape(m, inst, random);
    }
}

/// A step keeps the machine in shape: the registers, the memory, the screen
/// and the keys keep their sizes, and a stack of at most sixteen addresses
/// stays one.
pub proof fn step_keeps_shape(m: Machine, random: u8)
    requires
        m.well_formed(),
        m.stack.len() <= 16,
    ensures
        m.step(random) matches Ok(after) ==> after.well_formed() && after.stack.len() <= 16,
{
    reveal(Machine::step_from);
    decoding_is_well_formed(word_at(m.ram, m.pc as int));
    instruction_keeps_shape(m, m.current(), random);
}

/// Calls one inside the other, to `targets` in their order; the first that
/// fails ends them.
pub open spec fn nested_calls(m: Machine, targets: Seq<usize>) -> Result<Machine, Error>
    decreases targets.len(),
{
    if targets.len() == 0 {
        Ok(m)
    } else {
        match nested_calls(m, targets.drop_last()) {
            Ok(inner) => inner.call(targets.last()),
            Err(e) => Err(e),
        }
    }
}

/// From an empty stack, up to sixteen calls one inside the other succeed and
/// leave as many return addresses; the seventeenth fails.
pub proof fn seventeenth_call_overflows(m: Machine, targets: Seq<usize>)
    requires
        m.stack.len() == 0,
        targets.len() <= 17,
    ensures
        targets.len() <= 16 ==> nested_calls(m, targets) is Ok && nested_calls(
            m,
            targets,
        )->Ok_0.stack.len() == targets.len(),
        targets.len() == 17 ==> nested_calls(m, targets) == Err::<Machine, Error>(
            Error::StackOverflow,
        ),
    decreases targets.len(),
{
    if targets.len() > 0 {
        seventeenth_call_overflows(m, targets.drop_last());
    }
}

/// A program is loaded exactly if it has at most 3584 bytes, and is then in
/// memory from `0x200` on, byte for byte, with the rest of memory as it was.
pub proof fn rom_fits_behind_the_load_address(m: Machine, rom: Seq<u8>)
    requires
        m.well_formed(),
    ensures
        rom.len() <= 3584 <==> m.loaded(rom) is Ok,
        rom.len() > 3584 <==> m.loaded(rom) == Err::<Machine, Error>(Error::RomTooLarge),
        rom.len() <= 3584 ==> forall|k: int|
            0 <= k < MEMORY_SIZE ==> #[trigger] m.loaded(rom)->Ok_0.ram[k] == if 0x200 <= k < 0x200
                + rom.len() {
                rom[k - 0x200]
            } else {
                m.ram[k]
            },
{
}

/// The three bytes that `Fx33` stores are the decimal digits of the register,
/// hundreds first.
pub proof fn bcd_digits_make_the_value(m: Machine, x: int)
    requires
        m.well_formed(),
        0 <= x < 16,
        m.i + 2 < MEMORY_SIZE,
    ensures
        m.store_bcd(x) is Ok,
        ({
            let ram = m.store_bcd(x)->Ok_0.ram;
            let a = m.i as int;
            &&& ram[a] < 10 && ram[a + 1] < 10 && ram[a + 2] < 10
            &&& 100 * ram[a] + 10 * ram[a + 1] + ram[a + 2] == m.v[x]
        }),
{
}

} // verus!
