//! What the loop round the processor decides: which keys of the host mean
//! what, when to stop, when to show the screen and when to sound the tone.

use vstd::prelude::*;
use crate::cpu::Processor;
use crate::error::Error;
use crate::machine::{rendered, Machine};

verus! {

/// Whether the loop round the processor goes on.
#[derive(Clone, Copy, Debug, PartialEq, Eq, Structural)]
pub enum State {
    Continue,
    Stop,
}

/// A key of the host keyboard, as far as the machine cares which.
#[derive(Clone, Copy, Debug, PartialEq, Eq, Structural)]
pub enum Key {
    X,
    Num1,
    Num2,
    Num3,
    Q,
    W,
    E,
    A,
    S,
    D,
    Z,
    C,
    Num4,
    R,
    F,
    V,
    Escape,
    /// Any key that has no meaning here.
    Unmapped,
}

/// What the host reports of its keyboard.
#[derive(Clone, Copy, Debug, PartialEq, Eq, Structural)]
pub enum Event {
    KeyDown(Key),
    KeyUp(Key),
    /// Any event that is not about a key.
    Ignored,
}

/// What the loop round the processor has to do after a step.
#[derive(Clone, Copy, Debug, PartialEq, Eq, Structural)]
pub struct Frame {
    /// The screen has changed and the buffer holds it: show it.
    pub redraw: bool,
    /// The tone is to sound.
    pub sound: bool,
}

/// The key of the machine, `0..=15`, that a key of the host stands for.
pub open spec fn key_index(key: Key) -> Option<u8> {
    match key {
        Key::X => Some(0u8),
        Key::Num1 => Some(1u8),
        Key::Num2 => Some(2u8),
        Key::Num3 => Some(3u8),
        Key::Q => Some(4u8),
        Key::W => Some(5u8),
        Key::E => Some(6u8),
        Key::A => Some(7u8),
        Key::S => Some(8u8),
        Key::D => Some(9u8),
        Key::Z => Some(10u8),
        Key::C => Some(11u8),
        Key::Num4 => Some(12u8),
        Key::R => Some(13u8),
        Key::F => Some(14u8),
        Key::V => Some(15u8),
        Key::Escape | Key::Unmapped => None,
    }
}

/// The machine after the host's `key` went down or up.
pub open spec fn with_host_key(m: Machine, key: Key, is_down: bool) -> Machine {
    match key_index(key) {
        Some(index) => m.with_key(index as int, is_down),
        None => m,
    }
}

/// Whether `event` ends the loop: the escape key went down.
pub open spec fn stops(event: Event) -> bool {
    event == Event::KeyDown(Key::Escape)
}

/// The machine after one event of the host.
pub open spec fn after_event(m: Machine, event: Event) -> Machine {
    match event {
        Event::KeyDown(key) => with_host_key(m, key, true),
        Event::KeyUp(key) => with_host_key(m, key, false),
        Event::Ignored => m,
    }
}

/// The machine after the events of the host, in their order, up to the first
/// that ends the loop.
pub open spec fn after_events(m: Machine, events: Seq<Event>) -> Machine
    decreases events.len(),
{
    if events.len() == 0 {
        m
    } else if stops(events[0]) {
        m
    } else {
        after_events(after_event(m, events[0]), events.drop_first())
    }
}

/// The key of the machine that a key of the host stands for, if any.
pub fn key_number(key: Key) -> (index: Option<u8>)
    ensures
        index == key_index(key),
        index matches Some(k) ==> k < 16,
{
    match key {
        Key::X => Some(0),
        Key::Num1 => Some(1),
        Key::Num2 => Some(2),
        Key::Num3 => Some(3),
        Key::Q => Some(4),
        Key::W => Some(5),
        Key::E => Some(6),
        Key::A => Some(7),
        Key::S => Some(8),
        Key::D => Some(9),
        Key::Z => Some(10),
        Key::C => Some(11),
        Key::Num4 => Some(12),
        Key::R => Some(13),
        Key::F => Some(14),
        Key::V => Some(15),
        Key::Escape | Key::Unmapped => None,
    }
}

/// Hands one event of the host to the processor: a key that the machine
/// knows is recorded as down or up, the escape key going down stops the loop,
/// and everything else passes.
pub fn handle_event<T: Processor>(cpu: &mut T, event: Event) -> (state: State)
    ensures
        state == if stops(event) {
            State::Stop
        } else {
            State::Continue
        },
        final(cpu).machine() == after_event(old(cpu).machine(), event),
{
    match event {
        Event::KeyDown(Key::Escape) => State::Stop,
        Event::KeyDown(key) => {
            press(cpu, key, true);
            State::Continue
        },
        Event::KeyUp(key) => {
            press(cpu, key, false);
            State::Continue
        },
        Event::Ignored => State::Continue,
    }
}

/// Records the host's `key` as down or up, if the machine knows it.
fn press<T: Processor>(cpu: &mut T, key: Key, is_down: bool)
    ensures
        final(cpu).machine() == with_host_key(old(cpu).machine(), key, is_down),
{
    match key_number(key) {
        Some(index) => cpu.set_key_press(index, is_down),
        None => {},
    }
}

/// Hands the events that the host has gathered to the processor, in their
/// order. The loop is to stop exactly if the escape key went down among
/// them; the events after that one are left aside.
pub fn send_key_event<T: Processor>(cpu: &mut T, events: &[Event]) -> (state: State)
    ensures
        state == if exists|k: int| 0 <= k < events@.len() && stops(events@[k]) {
            State::Stop
        } else {
            State::Continue
        },
        final(cpu).machine() == after_events(old(cpu).machine(), events@),
{
    let n: usize = events.len();
    let mut k: usize = 0;
    assert(events@.skip(0) == events@);
    while k < n
        invariant
            n == events@.len(),
            k <= n,
            forall|j: int| 0 <= j < k ==> !stops(events@[j]),
            after_events(cpu.machine(), events@.skip(k as int)) == after_events(
                old(cpu).machine(),
                events@,
            ),
        decreases n - k,
    {
        assert(events@.skip(k as int)[0] == events@[k as int]);
        assert(events@.skip(k as int).drop_first() == events@.skip(k as int + 1));
        match handle_event(cpu, events[k]) {
            State::Stop => {
                return State::Stop;
            },
            State::Continue => {},
        }
        k += 1;
    }
    assert(events@.skip(n as int).len() == 0);
    State::Continue
}

/// What one round of the loop leaves behind: `outcome` and the machine
/// `after` and the buffer `shown`, for the step that `expected` describes.
pub open spec fn round_done(
    before: Machine,
    expected: Result<Machine, Error>,
    buffer: Seq<(u8, u8, u8)>,
    outcome: Result<Frame, Error>,
    after: Machine,
    shown: Seq<(u8, u8, u8)>,
) -> bool {
    match expected {
        Ok(m) => {
            &&& outcome == Ok::<Frame, Error>(Frame { redraw: m.draw, sound: m.sound > 0 })
            &&& after == m.shown()
            &&& shown == if m.draw {
                rendered(m.vram, buffer)
            } else {
                buffer
            }
        },
        Err(e) => outcome == Err::<Frame, Error>(e) && after == before && shown == buffer,
    }
}

/// One round of the loop: the processor makes a step; if the screen has
/// changed, the change is taken note of and the screen is written to
/// `buffer`; and the caller is told whether to show the buffer and whether
/// the tone is to sound. A step that fails ends the round with its error.
pub fn run_step<T: Processor>(cpu: &mut T, buffer: &mut [(u8, u8, u8)]) -> (outcome: Result<
    Frame,
    Error,
>)
    ensures
        exists|random: u8|
            round_done(
                old(cpu).machine(),
                #[trigger] old(cpu).machine().step(random),
                old(buffer)@,
                outcome,
                final(cpu).machine(),
                final(buffer)@,
            ),
{
    match cpu.tick() {
        Ok(()) => {},
        Err(e) => {
            return Err(e);
        },
    }
    let redraw: bool = cpu.should_redraw();
    if redraw {
        cpu.drawn();
        cpu.get_vram_buffer(buffer);
    }
    let sound: bool = cpu.get_sound_timer() > 0;
    Ok(Frame { redraw, sound })
}

} // verus!
