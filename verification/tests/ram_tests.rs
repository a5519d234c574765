use chip8_emu::ram::RAM;

#[test]
fn test_new() {
    assert_eq!(RAM::new().mem.len(), 4096);
}

#[test]
fn test_read_write() {
    let mut ram = RAM::new();
    assert_eq!(ram.read_byte(5), 0);
    ram.write_byte(42, 0x1f);
    assert_eq!(ram.read_byte(42), 0x1f);
}

#[test]
fn test_mem_cpy() {
    let mut ram = RAM::new();
    let data = [1, 2, 3, 4, 5];
    let offset = 0x200;
    assert_eq!(ram.read_byte(offset), 0);
    ram.mem_cpy(&data, offset);
    for i in offset..data.len() {
        assert_eq!(ram.read_byte(offset + i), data[i]);
    }
    assert_eq!(ram.read_byte(offset - 1), 0);
}

#[test]
fn mem_cpy_writes_the_range_and_nothing_else() {
    let mut ram = RAM::new();
    ram.write_byte(0x1ff, 9);
    ram.write_byte(0x205, 7);
    let data = [1, 2, 3, 4, 5];
    ram.mem_cpy(&data, 0x200);
    for i in 0..data.len() {
        assert_eq!(ram.read_byte(0x200 + i), data[i]);
    }
    assert_eq!(ram.read_byte(0x1ff), 9);
    assert_eq!(ram.read_byte(0x205), 7);
}

#[test]
fn mem_cpy_reaches_the_last_byte() {
    let mut ram = RAM::new();
    ram.mem_cpy(&[0xaa, 0xbb], 4094);
    assert_eq!(ram.read_byte(4094), 0xaa);
    assert_eq!(ram.read_byte(4095), 0xbb);
    ram.mem_cpy(&[], 4096);
    assert_eq!(ram.read_byte(4095), 0xbb);
}

#[test]
fn write_byte_changes_one_byte() {
    let mut ram = RAM::new();
    ram.write_byte(4095, 0xff);
    ram.write_byte(0, 1);
    assert_eq!(ram.read_byte(4095), 0xff);
    assert_eq!(ram.read_byte(0), 1);
    assert_eq!(ram.read_byte(1), 0);
    assert_eq!(ram.read_byte(4094), 0);
}
