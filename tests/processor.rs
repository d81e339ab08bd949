use chip8::disassembler::NullDisassembler;
use chip8::instruction::{decode, Instruction};
use chip8::memory::MemoryBus;
use chip8::processor::Processor;
use chip8::semantics::Fault;

fn cpu_with(program: &[u8]) -> Processor {
    let mut bus = MemoryBus::new();
    bus.load_rom(program);
    Processor::new(bus, Box::new(NullDisassembler {}))
}

fn run(cpu: &mut Processor, opcode: u16) {
    let keyboard = [false; 16];
    assert!(cpu.execute_opcode_with(opcode, &keyboard, 0).is_ok());
}

fn lit_pixels(cpu: &Processor) -> usize {
    let mut count = 0;
    for r in 0..32 {
        for c in 0..64 {
            if cpu.pixel(r, c) != 0 {
                count += 1;
            }
        }
    }
    count
}

#[test]
fn test_op_shr() {
    let bus = MemoryBus::new();
    let mut cpu = Processor::new(bus, Box::new(NullDisassembler {}));
    let keyboard = [false; 16];

    cpu.set_register(0, 5);
    let _ = cpu.execute_opcode(0x8006, &keyboard);
    assert_eq!(cpu.register(0), 2);
    assert_eq!(cpu.register(0xf), 1);
}

#[test]
fn test_op_shl() {
    let bus = MemoryBus::new();
    let mut cpu = Processor::new(bus, Box::new(NullDisassembler {}));
    let keyboard = [false; 16];

    cpu.set_register(0, 255);
    let _ = cpu.execute_opcode(0x800E, &keyboard);
    assert_eq!(cpu.register(0), 0b1111_1110);
    assert_eq!(cpu.register(0xf), 1);
}

#[test]
fn test_op_or() {
    let bus = MemoryBus::new();
    let mut cpu = Processor::new(bus, Box::new(NullDisassembler {}));
    let keyboard = [false; 16];

    cpu.set_register(0, 255);
    cpu.set_register(1, 0);
    let _ = cpu.execute_opcode(0x8011, &keyboard);
    assert_eq!(cpu.register(0), 0b1111_1111);
}

#[test]
fn test_op_and() {
    let bus = MemoryBus::new();
    let mut cpu = Processor::new(bus, Box::new(NullDisassembler {}));
    let keyboard = [false; 16];

    cpu.set_register(0, 255);
    cpu.set_register(1, 0);
    let _ = cpu.execute_opcode(0x8012, &keyboard);
    assert_eq!(cpu.register(0), 0);
}

#[test]
fn new_processor_starts_at_program_region() {
    let cpu = cpu_with(&[]);
    assert_eq!(cpu.program_counter(), 0x200);
    assert_eq!(cpu.stack_depth(), 0);
    assert_eq!(cpu.index(), 0);
    assert_eq!(lit_pixels(&cpu), 0);
}

#[test]
fn load_immediate_every_register() {
    for x in 0..16u16 {
        let mut cpu = cpu_with(&[]);
        run(&mut cpu, 0x6000 | (x << 8) | 0x5C);
        assert_eq!(cpu.register(x as usize), 0x5C);
        assert_eq!(cpu.program_counter(), 0x202);
    }
}

#[test]
fn add_registers_sets_carry() {
    let mut cpu = cpu_with(&[]);
    cpu.set_register(0, 0xFF);
    cpu.set_register(1, 0x01);
    run(&mut cpu, 0x8014);
    assert_eq!(cpu.register(0), 0x00);
    assert_eq!(cpu.register(0xF), 1);
}

#[test]
fn add_registers_without_carry_clears_flag() {
    let mut cpu = cpu_with(&[]);
    cpu.set_register(0, 0x10);
    cpu.set_register(1, 0x20);
    cpu.set_register(0xF, 1);
    run(&mut cpu, 0x8014);
    assert_eq!(cpu.register(0), 0x30);
    assert_eq!(cpu.register(0xF), 0);
}

#[test]
fn subtract_registers_borrow_clears_flag() {
    let mut cpu = cpu_with(&[]);
    cpu.set_register(0, 0x01);
    cpu.set_register(1, 0x02);
    run(&mut cpu, 0x8015);
    assert_eq!(cpu.register(0), 0xFF);
    assert_eq!(cpu.register(0xF), 0);
}

#[test]
fn subtract_registers_no_borrow_sets_flag() {
    let mut cpu = cpu_with(&[]);
    cpu.set_register(0, 0x05);
    cpu.set_register(1, 0x02);
    run(&mut cpu, 0x8015);
    assert_eq!(cpu.register(0), 0x03);
    assert_eq!(cpu.register(0xF), 1);
}

#[test]
fn reversed_subtract_stores_in_first_register() {
    let mut cpu = cpu_with(&[]);
    cpu.set_register(2, 0x03);
    cpu.set_register(3, 0x10);
    run(&mut cpu, 0x8237);
    assert_eq!(cpu.register(2), 0x0D);
    assert_eq!(cpu.register(3), 0x10);
    assert_eq!(cpu.register(0xF), 1);
}

#[test]
fn add_immediate_wraps_and_keeps_flag() {
    let mut cpu = cpu_with(&[]);
    cpu.set_register(0xF, 0x5A);
    cpu.set_register(0, 0xFF);
    run(&mut cpu, 0x7002);
    assert_eq!(cpu.register(0), 0x01);
    assert_eq!(cpu.register(0xF), 0x5A);
}

#[test]
fn xor_and_move_registers() {
    let mut cpu = cpu_with(&[]);
    cpu.set_register(4, 0b1100);
    cpu.set_register(5, 0b1010);
    run(&mut cpu, 0x8453);
    assert_eq!(cpu.register(4), 0b0110);
    run(&mut cpu, 0x8650);
    assert_eq!(cpu.register(6), 0b1010);
}

#[test]
fn shift_right_low_bit_zero() {
    let mut cpu = cpu_with(&[]);
    cpu.set_register(7, 4);
    run(&mut cpu, 0x8706);
    assert_eq!(cpu.register(7), 2);
    assert_eq!(cpu.register(0xF), 0);
}

#[test]
fn bcd_of_234() {
    let mut cpu = cpu_with(&[]);
    cpu.set_register(3, 234);
    run(&mut cpu, 0xA300);
    run(&mut cpu, 0xF333);
    assert_eq!(cpu.memory().read_byte(0x300), 2);
    assert_eq!(cpu.memory().read_byte(0x301), 3);
    assert_eq!(cpu.memory().read_byte(0x302), 4);
}

#[test]
fn bcd_past_top_of_memory_faults() {
    let mut cpu = cpu_with(&[]);
    let keyboard = [false; 16];
    run(&mut cpu, 0xAFFE);
    let pc = cpu.program_counter();
    assert_eq!(cpu.execute_opcode_with(0xF033, &keyboard, 0).err(), Some(Fault::MemoryOutOfBounds));
    assert_eq!(cpu.program_counter(), pc);
}

#[test]
fn call_then_return() {
    let mut program = vec![0u8; 0x102];
    program[0] = 0x23;
    program[1] = 0x00;
    program[0x100] = 0x00;
    program[0x101] = 0xEE;
    let mut cpu = cpu_with(&program);
    let keyboard = [false; 16];
    assert!(cpu.tick(&keyboard).is_ok());
    assert_eq!(cpu.program_counter(), 0x300);
    assert_eq!(cpu.stack_depth(), 1);
    assert!(cpu.tick(&keyboard).is_ok());
    assert_eq!(cpu.program_counter(), 0x202);
    assert_eq!(cpu.stack_depth(), 0);
}

#[test]
fn return_with_empty_stack_faults() {
    let mut cpu = cpu_with(&[0x00, 0xEE]);
    let keyboard = [false; 16];
    assert_eq!(cpu.tick(&keyboard).err(), Some(Fault::StackUnderflow));
    assert_eq!(cpu.program_counter(), 0x200);
}

#[test]
fn seventeenth_nested_call_overflows() {
    let mut cpu = cpu_with(&[0x22, 0x00]);
    let keyboard = [false; 16];
    for depth in 1..=16 {
        assert!(cpu.tick(&keyboard).is_ok());
        assert_eq!(cpu.stack_depth(), depth);
    }
    assert_eq!(cpu.tick(&keyboard).err(), Some(Fault::StackOverflow));
    assert_eq!(cpu.stack_depth(), 16);
}

#[test]
fn fetch_past_top_of_memory_faults() {
    let mut cpu = cpu_with(&[0x1F, 0xFF]);
    let keyboard = [false; 16];
    assert!(cpu.tick(&keyboard).is_ok());
    assert_eq!(cpu.program_counter(), 0xFFF);
    assert_eq!(cpu.tick(&keyboard).err(), Some(Fault::MemoryOutOfBounds));
}

#[test]
fn draw_twice_restores_and_collides() {
    let mut cpu = cpu_with(&[]);
    let keyboard = [false; 16];
    run(&mut cpu, 0xA000);
    let first = cpu.execute_opcode_with(0xD015, &keyboard, 0).unwrap();
    assert!(first.vram_changed);
    assert_eq!(cpu.register(0xF), 0);
    assert_eq!(lit_pixels(&cpu), 14);
    assert_eq!(cpu.pixel(0, 0), 0xFF);
    assert_eq!(cpu.pixel(1, 1), 0);
    run(&mut cpu, 0xD015);
    assert_eq!(cpu.register(0xF), 1);
    assert_eq!(lit_pixels(&cpu), 0);
}

#[test]
fn draw_wraps_at_right_and_bottom_edges() {
    let mut program = vec![0u8; 0x12];
    program[0x10] = 0xFF;
    program[0x11] = 0x81;
    let mut cpu = cpu_with(&program);
    cpu.set_register(0, 60);
    cpu.set_register(1, 31);
    run(&mut cpu, 0xA210);
    run(&mut cpu, 0xD012);
    for c in [60, 61, 62, 63, 0, 1, 2, 3] {
        assert_eq!(cpu.pixel(31, c), 0xFF);
    }
    assert_eq!(cpu.pixel(31, 4), 0);
    assert_eq!(cpu.pixel(31, 59), 0);
    assert_eq!(cpu.pixel(0, 60), 0xFF);
    assert_eq!(cpu.pixel(0, 3), 0xFF);
    assert_eq!(cpu.pixel(0, 61), 0);
    assert_eq!(lit_pixels(&cpu), 10);
}

#[test]
fn draw_past_top_of_memory_faults() {
    let mut cpu = cpu_with(&[]);
    let keyboard = [false; 16];
    run(&mut cpu, 0xAFFE);
    assert_eq!(cpu.execute_opcode_with(0xD003, &keyboard, 0).err(), Some(Fault::MemoryOutOfBounds));
    assert_eq!(lit_pixels(&cpu), 0);
}

#[test]
fn clear_screen_unlights_everything() {
    let mut cpu = cpu_with(&[]);
    run(&mut cpu, 0xA000);
    run(&mut cpu, 0xD005);
    assert!(lit_pixels(&cpu) > 0);
    run(&mut cpu, 0x00E0);
    assert_eq!(lit_pixels(&cpu), 0);
}

#[test]
fn timers_stop_at_zero() {
    let mut cpu = cpu_with(&[0x60, 0x02, 0xF0, 0x15, 0xF0, 0x18, 0x00, 0x00, 0x00, 0x00, 0x00, 0x00]);
    let keyboard = [false; 16];
    assert!(cpu.tick(&keyboard).is_ok());
    assert_eq!(cpu.delay_timer(), 0);
    assert!(cpu.tick(&keyboard).is_ok());
    assert_eq!(cpu.delay_timer(), 2);
    let out = cpu.tick(&keyboard).unwrap();
    assert!(out.beep);
    assert!(!out.vram_changed);
    assert_eq!(cpu.delay_timer(), 1);
    assert_eq!(cpu.sound_timer(), 2);
    assert!(cpu.tick(&keyboard).is_ok());
    assert_eq!(cpu.delay_timer(), 0);
    assert_eq!(cpu.sound_timer(), 1);
    let out = cpu.tick(&keyboard).unwrap();
    assert!(!out.beep);
    assert_eq!(cpu.delay_timer(), 0);
    assert_eq!(cpu.sound_timer(), 0);
}

#[test]
fn skip_instructions() {
    let mut cpu = cpu_with(&[]);
    cpu.set_register(1, 7);
    cpu.set_register(2, 7);
    run(&mut cpu, 0x3107);
    assert_eq!(cpu.program_counter(), 0x204);
    run(&mut cpu, 0x4107);
    assert_eq!(cpu.program_counter(), 0x206);
    run(&mut cpu, 0x5120);
    assert_eq!(cpu.program_counter(), 0x20A);
    run(&mut cpu, 0x9120);
    assert_eq!(cpu.program_counter(), 0x20C);
}

#[test]
fn key_skips_and_wait() {
    let mut cpu = cpu_with(&[]);
    let mut keyboard = [false; 16];
    keyboard[5] = true;
    cpu.set_register(0, 5);
    cpu.set_register(1, 200);
    assert!(cpu.execute_opcode_with(0xE09E, &keyboard, 0).is_ok());
    assert_eq!(cpu.program_counter(), 0x204);
    assert!(cpu.execute_opcode_with(0xE0A1, &keyboard, 0).is_ok());
    assert_eq!(cpu.program_counter(), 0x206);
    assert!(cpu.execute_opcode_with(0xE1A1, &keyboard, 0).is_ok());
    assert_eq!(cpu.program_counter(), 0x20A);
    let none = [false; 16];
    assert!(cpu.execute_opcode_with(0xF30A, &none, 0).is_ok());
    assert_eq!(cpu.program_counter(), 0x20A);
    keyboard[9] = true;
    assert!(cpu.execute_opcode_with(0xF30A, &keyboard, 0).is_ok());
    assert_eq!(cpu.register(3), 5);
    assert_eq!(cpu.program_counter(), 0x20C);
}

#[test]
fn index_glyph_and_jump_offset() {
    let mut cpu = cpu_with(&[]);
    cpu.set_register(0, 0x0A);
    run(&mut cpu, 0xF029);
    assert_eq!(cpu.index(), 50);
    run(&mut cpu, 0xF01E);
    assert_eq!(cpu.index(), 60);
    run(&mut cpu, 0xB300);
    assert_eq!(cpu.program_counter(), 0x30A);
    run(&mut cpu, 0x1456);
    assert_eq!(cpu.program_counter(), 0x456);
}

#[test]
fn store_and_load_registers() {
    let mut cpu = cpu_with(&[]);
    for x in 0..4 {
        cpu.set_register(x, (x as u8) * 11 + 1);
    }
    cpu.set_register(4, 99);
    run(&mut cpu, 0xA400);
    run(&mut cpu, 0xF355);
    assert_eq!(cpu.memory().read_byte(0x400), 1);
    assert_eq!(cpu.memory().read_byte(0x403), 34);
    assert_eq!(cpu.memory().read_byte(0x404), 0);
    for x in 0..5 {
        cpu.set_register(x, 0);
    }
    run(&mut cpu, 0xF365);
    assert_eq!(cpu.register(0), 1);
    assert_eq!(cpu.register(3), 34);
    assert_eq!(cpu.register(4), 0);
}

#[test]
fn random_is_masked() {
    let mut cpu = cpu_with(&[]);
    let keyboard = [false; 16];
    run(&mut cpu, 0xC000);
    assert_eq!(cpu.register(0), 0);
    assert!(cpu.execute_opcode_with(0xC10F, &keyboard, 0xAB).is_ok());
    assert_eq!(cpu.register(1), 0x0B);
    assert!(cpu.execute_opcode(0xC20F, &keyboard).is_ok());
    assert!(cpu.register(2) <= 0x0F);
}

#[test]
fn unknown_opcode_is_a_no_op() {
    let mut cpu = cpu_with(&[]);
    run(&mut cpu, 0x0123);
    assert_eq!(cpu.program_counter(), 0x202);
    run(&mut cpu, 0xFFFF);
    assert_eq!(cpu.program_counter(), 0x204);
}

#[test]
fn decode_splits_nibbles() {
    assert_eq!(decode(0x00E0), Instruction::Clear);
    assert_eq!(decode(0x00EE), Instruction::Return);
    assert_eq!(decode(0x1ABC), Instruction::Jump { addr: 0xABC });
    assert_eq!(decode(0x6A42), Instruction::LoadImm { x: 0xA, kk: 0x42 });
    assert_eq!(decode(0x8127), Instruction::SubReversed { x: 1, y: 2 });
    assert_eq!(decode(0xD12F), Instruction::Draw { x: 1, y: 2, n: 0xF });
    assert_eq!(decode(0xF265), Instruction::LoadRegisters { x: 2 });
    assert_eq!(decode(0x5121), Instruction::Unknown { opcode: 0x5121 });
}
