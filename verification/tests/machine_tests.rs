use chip8::machine::Chip8;
use chip8::semantics::{Chip8Error, RunMode};

#[test]
fn construction_lays_out_font_rom_and_state() {
    let rom: Vec<u8> = vec![0x60, 0x12, 0xAA];
    let m = Chip8::new(&rom).unwrap();
    assert_eq!(m.memory.len(), 4096);
    assert_eq!(m.memory[0], 0xF0);
    assert_eq!(m.memory[79], 0x80);
    assert_eq!(m.memory[80], 0);
    assert_eq!(m.memory[0x1FF], 0);
    assert_eq!(m.memory[0x200], 0x60);
    assert_eq!(m.memory[0x201], 0x12);
    assert_eq!(m.memory[0x202], 0xAA);
    assert_eq!(m.memory[0x203], 0);
    assert_eq!(m.program_counter, 0x200);
    assert_eq!(m.address_register, 0);
    assert_eq!(m.registers, vec![0; 16]);
    assert_eq!(m.delay_timer, 0);
    assert_eq!(m.sound_timer, 0);
    assert!(m.stack.is_empty());
    assert_eq!(m.screen, vec![false; 64 * 32]);
    assert_eq!(m.keys, vec![false; 16]);
    assert_eq!(m.mode, RunMode::Running);
}

#[test]
fn largest_rom_that_fits_is_accepted() {
    let rom: Vec<u8> = vec![7; 4096 - 0x200];
    let m = Chip8::new(&rom).unwrap();
    assert_eq!(m.memory[4095], 7);
}

#[test]
fn rom_past_end_of_memory_is_rejected() {
    let rom: Vec<u8> = vec![7; 4096 - 0x200 + 1];
    assert_eq!(Chip8::new(&rom).err(), Some(Chip8Error::RomTooLarge));
}

#[test]
fn one_cycle_fetches_big_endian_and_executes() {
    let rom: Vec<u8> = vec![0x60, 0x12];
    let mut m = Chip8::new(&rom).unwrap();
    m.run_one_cycle().unwrap();
    assert_eq!(m.registers[0], 0x12);
    assert_eq!(m.program_counter, 0x202);
}

#[test]
fn cycle_at_last_byte_of_memory_is_out_of_range() {
    let rom: Vec<u8> = vec![0x1F, 0xFF];
    let mut m = Chip8::new(&rom).unwrap();
    m.run_one_cycle().unwrap();
    assert_eq!(m.program_counter, 0xFFF);
    assert_eq!(m.run_one_cycle(), Err(Chip8Error::MemoryOutOfRange));
    assert_eq!(m.program_counter, 0xFFF);
}

#[test]
fn masked_random_cycle_respects_mask() {
    let rom: Vec<u8> = vec![0xC0, 0x0F];
    let mut m = Chip8::new(&rom).unwrap();
    m.run_one_cycle().unwrap();
    assert!(m.registers[0] <= 0x0F);
    assert_eq!(m.program_counter, 0x202);
}

#[test]
fn key_skip_instructions_read_the_latches() {
    let rom: Vec<u8> = Vec::new();
    let mut m = Chip8::new(&rom).unwrap();
    m.registers[0] = 5;
    m.set_key(5, true);
    m.execute_opcode(0xE09E, 0).unwrap();
    assert_eq!(m.program_counter, 0x204);
    m.execute_opcode(0xE0A1, 0).unwrap();
    assert_eq!(m.program_counter, 0x206);
    m.set_key(5, false);
    m.execute_opcode(0xE0A1, 0).unwrap();
    assert_eq!(m.program_counter, 0x20A);
}

#[test]
fn key_index_out_of_range_is_reported() {
    let rom: Vec<u8> = Vec::new();
    let mut m = Chip8::new(&rom).unwrap();
    m.registers[0] = 20;
    assert_eq!(m.execute_opcode(0xE09E, 0), Err(Chip8Error::KeyOutOfRange));
    assert_eq!(m.execute_opcode(0xE0A1, 0), Err(Chip8Error::KeyOutOfRange));
    assert_eq!(m.program_counter, 0x200);
}

#[test]
fn key_wait_holds_until_a_key_is_pressed() {
    let rom: Vec<u8> = vec![0xF3, 0x0A];
    let mut m = Chip8::new(&rom).unwrap();
    m.run_one_cycle().unwrap();
    assert_eq!(m.mode, RunMode::AwaitingKey { target: 3 });
    assert_eq!(m.program_counter, 0x200);
    for _ in 0..5 {
        m.run_one_cycle().unwrap();
        assert_eq!(m.mode, RunMode::AwaitingKey { target: 3 });
        assert_eq!(m.program_counter, 0x200);
        assert_eq!(m.registers[3], 0);
    }
    m.set_key(7, true);
    m.run_one_cycle().unwrap();
    assert_eq!(m.registers[3], 7);
    assert_eq!(m.program_counter, 0x202);
    assert_eq!(m.mode, RunMode::Running);
}

#[test]
fn key_wait_takes_the_lowest_pressed_key() {
    let rom: Vec<u8> = vec![0xF0, 0x0A];
    let mut m = Chip8::new(&rom).unwrap();
    m.run_one_cycle().unwrap();
    m.set_key(9, true);
    m.set_key(4, true);
    m.run_one_cycle().unwrap();
    assert_eq!(m.registers[0], 4);
}

#[test]
fn timers_load_read_and_decay_to_zero() {
    let rom: Vec<u8> = Vec::new();
    let mut m = Chip8::new(&rom).unwrap();
    m.registers[3] = 10;
    m.execute_opcode(0xF315, 0).unwrap();
    assert_eq!(m.delay_timer, 10);
    m.execute_opcode(0xF318, 0).unwrap();
    assert_eq!(m.sound_timer, 10);
    m.execute_opcode(0xF407, 0).unwrap();
    assert_eq!(m.registers[4], 10);
    for expected in (0..10u8).rev() {
        m.tick_timers();
        assert_eq!(m.delay_timer, expected);
    }
    assert_eq!(m.delay_timer, 0);
    m.tick_timers();
    m.tick_timers();
    assert_eq!(m.delay_timer, 0);
    assert_eq!(m.sound_timer, 0);
}

#[test]
fn fatal_conditions_leave_the_machine_untouched() {
    let rom: Vec<u8> = Vec::new();
    let mut m = Chip8::new(&rom).unwrap();
    m.registers[1] = 99;
    m.execute_opcode(0xAFFF, 0).unwrap();
    let pc_before = m.program_counter;
    assert_eq!(m.execute_opcode(0xF133, 0), Err(Chip8Error::MemoryOutOfRange));
    assert_eq!(m.program_counter, pc_before);
    assert_eq!(m.registers[1], 99);
    assert_eq!(m.memory[4095], 0);
}

#[test]
fn screen_dimensions() {
    let rom: Vec<u8> = Vec::new();
    let m = Chip8::new(&rom).unwrap();
    assert_eq!(m.screen_width(), 64);
    assert_eq!(m.screen_height(), 32);
}
