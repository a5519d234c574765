use chip8_emu::chip8::{handle_event, key_number, run_step, send_key_event, Event, Frame, Key, State};
use chip8_emu::cpu::{Processor, CPU};
use chip8_emu::error::Error;
use chip8_emu::rom_mgr::RomMgr;

#[test]
fn host_keys_stand_for_the_sixteen_keys() {
    let keys = [
        Key::X,
        Key::Num1,
        Key::Num2,
        Key::Num3,
        Key::Q,
        Key::W,
        Key::E,
        Key::A,
        Key::S,
        Key::D,
        Key::Z,
        Key::C,
        Key::Num4,
        Key::R,
        Key::F,
        Key::V,
    ];
    for (index, key) in keys.iter().enumerate() {
        assert_eq!(key_number(*key), Some(index as u8));
    }
    assert_eq!(key_number(Key::Escape), None);
    assert_eq!(key_number(Key::Unmapped), None);
}

#[test]
fn key_events_set_and_clear_the_latch() {
    let mut cpu = CPU::new();
    assert_eq!(handle_event(&mut cpu, Event::KeyDown(Key::W)), State::Continue);
    assert!(cpu.key_press[5]);
    assert_eq!(cpu.key_press.iter().filter(|k| **k).count(), 1);
    assert_eq!(handle_event(&mut cpu, Event::KeyUp(Key::W)), State::Continue);
    assert_eq!(cpu.key_press, [false; 16]);
    assert_eq!(handle_event(&mut cpu, Event::KeyDown(Key::Unmapped)), State::Continue);
    assert_eq!(handle_event(&mut cpu, Event::Ignored), State::Continue);
    assert_eq!(handle_event(&mut cpu, Event::KeyUp(Key::Escape)), State::Continue);
    assert_eq!(cpu.key_press, [false; 16]);
    assert_eq!(handle_event(&mut cpu, Event::KeyDown(Key::Escape)), State::Stop);
    assert_eq!(cpu.key_press, [false; 16]);
}

#[test]
fn events_after_escape_are_left_aside() {
    let mut cpu = CPU::new();
    let events = [
        Event::KeyDown(Key::X),
        Event::KeyDown(Key::V),
        Event::KeyUp(Key::X),
        Event::KeyDown(Key::Escape),
        Event::KeyDown(Key::Q),
    ];
    assert_eq!(send_key_event(&mut cpu, &events), State::Stop);
    assert!(!cpu.key_press[0]);
    assert!(cpu.key_press[15]);
    assert!(!cpu.key_press[4]);

    let mut cpu = CPU::new();
    assert_eq!(send_key_event(&mut cpu, &events[..3]), State::Continue);
    assert!(cpu.key_press[15]);
    assert_eq!(send_key_event(&mut cpu, &[]), State::Continue);
}

#[test]
fn a_round_reports_the_screen_and_the_tone() {
    let mut cpu = CPU::new();
    cpu.load_rom(&[0x60, 0x02, 0xf0, 0x18, 0xd1, 0x15, 0x12, 0x06]).unwrap();
    let mut buffer = vec![(9u8, 9u8, 9u8); 2048];

    assert_eq!(run_step(&mut cpu, &mut buffer), Ok(Frame { redraw: false, sound: false }));
    assert_eq!(buffer[0], (9, 9, 9));
    assert_eq!(run_step(&mut cpu, &mut buffer), Ok(Frame { redraw: false, sound: true }));
    assert_eq!(cpu.get_sound_timer(), 1);
    assert_eq!(run_step(&mut cpu, &mut buffer), Ok(Frame { redraw: true, sound: false }));
    assert!(!cpu.should_redraw());
    assert_eq!(buffer[0], (255, 255, 255));
    assert_eq!(buffer[4], (0, 0, 0));
    assert_eq!(buffer[64], (255, 255, 255));
    assert_eq!(buffer[65], (0, 0, 0));
    buffer[0] = (7, 7, 7);
    assert_eq!(run_step(&mut cpu, &mut buffer), Ok(Frame { redraw: false, sound: false }));
    assert_eq!(buffer[0], (7, 7, 7));
}

#[test]
fn a_round_ends_with_the_error_of_the_step() {
    let mut cpu = CPU::new();
    cpu.load_rom(&[0x00, 0xee]).unwrap();
    cpu.draw = true;
    let mut buffer = vec![(9u8, 9u8, 9u8); 4];
    assert_eq!(run_step(&mut cpu, &mut buffer), Err(Error::StackUnderflow));
    assert!(cpu.draw);
    assert_eq!(buffer, vec![(9u8, 9u8, 9u8); 4]);
}

#[test]
fn rom_name_is_the_last_component_of_the_path() {
    let rom = RomMgr::from_file("roms/games/pong.ch8", vec![1, 2, 3]);
    assert_eq!(rom.name, "pong.ch8");
    assert_eq!(rom.bin, vec![1, 2, 3]);
    assert_eq!(RomMgr::from_file("pong.ch8", vec![]).name, "pong.ch8");
    assert_eq!(RomMgr::from_file("/pong", vec![]).name, "pong");
    assert_eq!(RomMgr::from_file("roms/", vec![]).name, "");
    assert_eq!(RomMgr::from_file("", vec![]).name, "");
    assert_eq!(RomMgr::from_file("röms/spiel/ü.ch8", vec![]).name, "ü.ch8");
}
