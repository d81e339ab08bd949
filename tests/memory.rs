use chip8::memory::{MemoryBus, FONT, MAX_PROGRAM_SIZE};

#[test]
fn test_create() {
    let bus = MemoryBus::new();
    println!("rom length:{}", bus.len());
    assert_eq!(bus.len(), 4096);
}

#[test]
fn test_read() {
    let bus: MemoryBus = MemoryBus::new();

    let read_value = bus.read_byte(0x00);
    assert_eq!(read_value, FONT[0]);
}

#[test]
fn test_write() {
    let mut bus = MemoryBus::new();
    bus.write(0x200, 32);
    let val_read = bus.read_byte(0x200);
    assert_eq!(val_read, 32);
}

#[test]
fn test_load_rom() {
    let mut bus = MemoryBus::new();
    let test_program: Vec<u8> = vec![0x12, 0x0A, 0x60, 0x00, 0xA2, 0x1C];
    bus.load_rom(&test_program);

    assert_eq!(bus.read_byte(512), 0x12);
}

#[test]
fn glyphs_are_seeded_and_rest_is_zero() {
    let bus = MemoryBus::new();
    for i in 0..80u16 {
        assert_eq!(bus.read_byte(i), FONT[i as usize]);
    }
    for i in 80..4096u16 {
        assert_eq!(bus.read_byte(i), 0);
    }
}

#[test]
fn read_word_is_big_endian() {
    let mut bus = MemoryBus::new();
    bus.write(0x300, 0xAB);
    bus.write(0x301, 0xCD);
    assert_eq!(bus.read_word(0x300), 0xABCD);
    assert_eq!(bus.read_word(0x0FFE), 0x0000);
}

#[test]
fn load_rom_leaves_glyphs_alone() {
    let mut bus = MemoryBus::new();
    bus.load_rom(&[1, 2, 3]);
    assert_eq!(bus.read_byte(0x1FF), 0);
    assert_eq!(bus.read_byte(0x200), 1);
    assert_eq!(bus.read_byte(0x202), 3);
    assert_eq!(bus.read_byte(0x203), 0);
    for i in 0..80u16 {
        assert_eq!(bus.read_byte(i), FONT[i as usize]);
    }
}

#[test]
fn load_rom_truncates_oversized_image() {
    let mut bus = MemoryBus::new();
    let image: Vec<u8> = vec![0x77; MAX_PROGRAM_SIZE + 100];
    bus.load_rom(&image);
    assert_eq!(bus.read_byte(0x200), 0x77);
    assert_eq!(bus.read_byte(4095), 0x77);
    assert_eq!(bus.len(), 4096);
}

#[test]
fn load_rom_empty_image_changes_nothing() {
    let mut bus = MemoryBus::new();
    bus.load_rom(&[]);
    assert_eq!(bus.read_byte(0x200), 0);
}
