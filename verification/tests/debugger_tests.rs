use chip8_emu::cpu::{Processor, CPU};
use chip8_emu::debugger::{mnemonic, Debugger};
use chip8_emu::error::Error;
use chip8_emu::instruction::decode;
use chip8_emu::text::{bytes_listed_string, decimal_string, flags_listed_string, hex_string};

fn expected_mnemonic(inst: u16) -> String {
    let nibs = (
        (inst & 0xf000) >> 12,
        (inst & 0x0f00) >> 8,
        (inst & 0x00f0) >> 4,
        (inst & 0x000f),
    );
    let nnn = (inst & 0x0fff) as usize;
    let nn = (inst & 0x00ff) as u8;
    let n = nibs.3 as u8;
    let x = nibs.1 as usize;
    let y = nibs.2 as usize;
    match nibs {
        (0x00, 0x00, 0x0e, 0x0e) => format!("RET"),
        (0x00, 0x00, 0x0e, 0x00) => format!("CLS"),
        (0x01, _, _, _) => format!("JMP\t0x{:03x}", nnn),
        (0x02, _, _, _) => format!("CALL\t{:03x}", nnn),
        (0x03, _, _, _) => format!("SE\tV{:x}, {}", x, nn),
        (0x04, _, _, _) => format!("SNE\t V{:x}, {:02x}", x, nn),
        (0x05, _, _, 0x00) => format!("SE\tV{:x}, V{:x}", x, y),
        (0x06, _, _, _) => format!("LD\tV{:x}, {:02x}", x, nn),
        (0x07, _, _, _) => format!("ADD\tV{:x}, {:02x}", x, nn),
        (0x08, _, _, 0x00) => format!("LD\tV{:x}, V{:x}", x, y),
        (0x08, _, _, 0x01) => format!("OR\tV{:x}, V{:x}", x, y),
        (0x08, _, _, 0x02) => format!("AND\tV{:x}, V{:x}", x, y),
        (0x08, _, _, 0x03) => format!("XOR\tV{:x}, V{:x}", x, y),
        (0x08, _, _, 0x04) => format!("ADD\tV{:x}, V{:x}", x, y),
        (0x08, _, _, 0x05) => format!("SUB\tV{:x}, V{:x}", x, y),
        (0x08, _, _, 0x06) => format!("SHR\tV{:x}, {{V{:x}}}", x, y),
        (0x08, _, _, 0x07) => format!("SUBN\tV{:x}, V{:x}", x, y),
        (0x08, _, _, 0x0e) => format!("SHL\tV{:x}, {{V{:02x}}}", x, y),
        (0x09, _, _, 0x00) => format!("SNE\tV{:x}, V{:02x}", x, y),
        (0x0a, _, _, _) => format!("LD\t I, 0x{:03x}", nnn),
        (0x0b, _, _, _) => format!("JP\tV0, 0x{:03x}", nnn),
        (0x0c, _, _, _) => format!("RND\tV{:x}, 0x{:03x}", x, nn),
        (0x0d, _, _, _) => format!("DRW\tV{:x}, V{:x}, 0x{:02x}", x, y, n),
        (0x0e, _, 0x09, 0x0e) => format!("SKP\tV{:x}", x),
        (0x0e, _, 0x0a, 0x01) => format!("SKNP\tV{:x}", x),
        (0x0f, _, 0x00, 0x07) => format!("LD\tV{:x}, Dt", x),
        (0x0f, _, 0x00, 0x0a) => format!("LD\tV{:x}, K", x),
        (0x0f, _, 0x01, 0x05) => format!("LD\tDt, V{:x}", x),
        (0x0f, _, 0x01, 0x08) => format!("LD\tST, V{:x}", x),
        (0x0f, _, 0x01, 0x0e) => format!("ADD\tI, V{:x}", x),
        (0x0f, _, 0x02, 0x09) => format!("LD\tF, V{:x}", x),
        (0x0f, _, 0x03, 0x03) => format!("LD\tB, V{:x}", x),
        (0x0f, _, 0x05, 0x05) => format!("LD\t[I], V{:x}", x),
        (0x0f, _, 0x06, 0x05) => format!("LD\tV{:x}, [I]", x),
        _ => String::new(),
    }
}

#[test]
fn mnemonics_of_chosen_words() {
    assert_eq!(mnemonic(decode(0x00ee)), "RET");
    assert_eq!(mnemonic(decode(0x00e0)), "CLS");
    assert_eq!(mnemonic(decode(0x1234)), "JMP\t0x234");
    assert_eq!(mnemonic(decode(0x200a)), "CALL\t00a");
    assert_eq!(mnemonic(decode(0x3aff)), "SE\tVa, 255");
    assert_eq!(mnemonic(decode(0x3a07)), "SE\tVa, 7");
    assert_eq!(mnemonic(decode(0x4b0c)), "SNE\t Vb, 0c");
    assert_eq!(mnemonic(decode(0x8ab6)), "SHR\tVa, {Vb}");
    assert_eq!(mnemonic(decode(0x8abe)), "SHL\tVa, {V0b}");
    assert_eq!(mnemonic(decode(0x9120)), "SNE\tV1, V02");
    assert_eq!(mnemonic(decode(0xa00f)), "LD\t I, 0x00f");
    assert_eq!(mnemonic(decode(0xc1fe)), "RND\tV1, 0x0fe");
    assert_eq!(mnemonic(decode(0xd12f)), "DRW\tV1, V2, 0x0f");
    assert_eq!(mnemonic(decode(0xf165)), "LD\tV1, [I]");
    assert_eq!(mnemonic(decode(0xf155)), "LD\t[I], V1");
    assert_eq!(mnemonic(decode(0xffff)), "");
}

#[test]
fn mnemonics_of_all_words() {
    for word in 0..=u16::MAX {
        assert_eq!(mnemonic(decode(word)), expected_mnemonic(word), "word {:04x}", word);
    }
}

#[test]
fn numbers_as_text() {
    assert_eq!(hex_string(0, 1), "0");
    assert_eq!(hex_string(0, 0), "0");
    assert_eq!(hex_string(0, 3), "000");
    assert_eq!(hex_string(0xab, 1), "ab");
    assert_eq!(hex_string(0xab, 4), "00ab");
    assert_eq!(hex_string(0x12345, 2), "12345");
    assert_eq!(hex_string(usize::MAX, 2), format!("{:02x}", usize::MAX));
    assert_eq!(decimal_string(0), "0");
    assert_eq!(decimal_string(9), "9");
    assert_eq!(decimal_string(10), "10");
    assert_eq!(decimal_string(255), "255");
    assert_eq!(decimal_string(usize::MAX), format!("{}", usize::MAX));
    for value in 0..5000usize {
        assert_eq!(hex_string(value, 3), format!("{:03x}", value));
        assert_eq!(decimal_string(value), format!("{}", value));
    }
}

#[test]
fn lists_as_text() {
    assert_eq!(bytes_listed_string(&[]), "");
    assert_eq!(bytes_listed_string(&[7]), "7");
    assert_eq!(bytes_listed_string(&[0, 10, 255]), "0, 10, 255");
    assert_eq!(flags_listed_string(&[]), "");
    assert_eq!(flags_listed_string(&[true]), "true");
    assert_eq!(flags_listed_string(&[false, true, false]), "false, true, false");
}

#[test]
fn get_op_names_the_instruction_at_the_program_counter() {
    let mut cpu = CPU::new();
    cpu.load_rom(&[0x61, 0x2a, 0xd0, 0x15]).unwrap();
    let mut debugger = Debugger::new(cpu);
    assert_eq!(debugger.get_op(), Ok("LD\tV1, 2a".to_string()));
    debugger.tick().unwrap();
    assert_eq!(debugger.get_op(), Ok("DRW\tV0, V1, 0x05".to_string()));
    debugger.cpu.pc = 4095;
    assert_eq!(debugger.get_op(), Err(Error::OutOfBounds));
    assert_eq!(debugger.state_string(), Err(Error::OutOfBounds));
}

#[test]
fn state_is_shown_as_the_trace_prints_it() {
    let mut cpu = CPU::new();
    cpu.load_rom(&[0x8a, 0xbe]).unwrap();
    cpu.v[3] = 200;
    cpu.v[15] = 1;
    cpu.i = 0x2f;
    cpu.key_press[2] = true;
    let debugger = Debugger::new(cpu);
    let cpu = &debugger.cpu;
    let expected = format!(
        "\x1b[2Jpc: 0x{:02x}\ni: 0x{:03x}\nregisters: {:?}\nkeys: {:?}\nop: 0x{:04x} {}",
        cpu.pc,
        cpu.i,
        cpu.v,
        cpu.key_press,
        (cpu.ram[cpu.pc] as u16) << 8 | cpu.ram[cpu.pc + 1] as u16,
        "SHL\tVa, {V0b}"
    );
    assert_eq!(debugger.state_string(), Ok(expected));
    let text = debugger.state_string().unwrap();
    assert!(text.starts_with("\x1b[2Jpc: 0x200\ni: 0x02f\nregisters: [0, 0, 0, 200, 0,"));
    assert!(text.ends_with("false]\nop: 0x8abe SHL\tVa, {V0b}"));
}

#[test]
fn the_debugger_drives_its_processor() {
    let mut debugger = Debugger::new(CPU::new());
    assert_eq!(debugger.load_rom(&[0x00, 0xe0, 0xd0, 0x01, 0xf0, 0x18]), Ok(()));
    assert_eq!(debugger.load_rom(&vec![0u8; 3585]), Err(Error::RomTooLarge));
    debugger.set_key_press(3, true);
    assert!(debugger.cpu.key_press[3]);
    debugger.tick().unwrap();
    assert!(!debugger.should_redraw());
    debugger.tick().unwrap();
    assert!(debugger.should_redraw());
    let mut buffer = vec![(0u8, 0u8, 0u8); 2048];
    debugger.get_vram_buffer(&mut buffer);
    assert_eq!(buffer[0], (255, 255, 255));
    debugger.drawn();
    assert!(!debugger.should_redraw());
    debugger.cpu.v[0] = 9;
    debugger.tick().unwrap();
    assert_eq!(debugger.get_sound_timer(), 8);
}
