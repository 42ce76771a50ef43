use chip8::machine::Chip8;
use chip8::semantics::Chip8Error;

fn machine() -> Chip8 {
    let rom: Vec<u8> = Vec::new();
    Chip8::new(&rom).unwrap()
}

#[test]
fn store_immediate_sets_register_and_advances() {
    let mut m = machine();
    m.execute_opcode(0x6012, 0).unwrap();
    assert_eq!(m.registers[0], 0x12);
    assert_eq!(m.program_counter, 0x202);
}

#[test]
fn add_immediate_wraps_without_touching_flag() {
    let mut m = machine();
    m.registers[0] = 255;
    m.registers[15] = 9;
    m.execute_opcode(0x7001, 0).unwrap();
    assert_eq!(m.registers[0], 0);
    assert_eq!(m.registers[15], 9);
    assert_eq!(m.program_counter, 0x202);
}

#[test]
fn copy_or_and_xor() {
    let mut m = machine();
    m.registers[0] = 0b1100;
    m.registers[1] = 0b1010;
    m.execute_opcode(0x8011, 0).unwrap();
    assert_eq!(m.registers[0], 0b1110);
    m.registers[0] = 0b1100;
    m.execute_opcode(0x8012, 0).unwrap();
    assert_eq!(m.registers[0], 0b1000);
    m.registers[0] = 0b1100;
    m.execute_opcode(0x8013, 0).unwrap();
    assert_eq!(m.registers[0], 0b0110);
    m.execute_opcode(0x8010, 0).unwrap();
    assert_eq!(m.registers[0], 0b1010);
}

#[test]
fn add_registers_overflow_sets_carry() {
    let mut m = machine();
    m.registers[0] = 255;
    m.registers[1] = 1;
    m.execute_opcode(0x8014, 0).unwrap();
    assert_eq!(m.registers[0], 0);
    assert_eq!(m.registers[15], 1);
}

#[test]
fn add_registers_without_overflow_clears_carry() {
    let mut m = machine();
    m.registers[0] = 100;
    m.registers[1] = 55;
    m.registers[15] = 1;
    m.execute_opcode(0x8014, 0).unwrap();
    assert_eq!(m.registers[0], 155);
    assert_eq!(m.registers[15], 0);
}

#[test]
fn subtract_with_borrow_wraps_and_clears_flag() {
    let mut m = machine();
    m.registers[0] = 1;
    m.registers[1] = 2;
    m.execute_opcode(0x8015, 0).unwrap();
    assert_eq!(m.registers[0], 255);
    assert_eq!(m.registers[15], 0);
}

#[test]
fn subtract_without_borrow_sets_flag() {
    let mut m = machine();
    m.registers[0] = 7;
    m.registers[1] = 2;
    m.execute_opcode(0x8015, 0).unwrap();
    assert_eq!(m.registers[0], 5);
    assert_eq!(m.registers[15], 1);
}

#[test]
fn subtract_equal_values_means_no_borrow() {
    let mut m = machine();
    m.registers[0] = 9;
    m.registers[1] = 9;
    m.execute_opcode(0x8015, 0).unwrap();
    assert_eq!(m.registers[0], 0);
    assert_eq!(m.registers[15], 1);
}

#[test]
fn reverse_subtract_both_directions() {
    let mut m = machine();
    m.registers[0] = 2;
    m.registers[1] = 5;
    m.execute_opcode(0x8017, 0).unwrap();
    assert_eq!(m.registers[0], 3);
    assert_eq!(m.registers[15], 1);
    let mut m2 = machine();
    m2.registers[0] = 5;
    m2.registers[1] = 2;
    m2.execute_opcode(0x8017, 0).unwrap();
    assert_eq!(m2.registers[0], 253);
    assert_eq!(m2.registers[15], 0);
}

#[test]
fn shift_right_reports_shifted_out_bit() {
    let mut m = machine();
    m.registers[0] = 5;
    m.execute_opcode(0x8006, 0).unwrap();
    assert_eq!(m.registers[0], 2);
    assert_eq!(m.registers[15], 1);
}

#[test]
fn shift_left_reports_shifted_out_bit() {
    let mut m = machine();
    m.registers[0] = 0x81;
    m.execute_opcode(0x800E, 0).unwrap();
    assert_eq!(m.registers[0], 2);
    assert_eq!(m.registers[15], 1);
}

#[test]
fn skip_if_equal_immediate() {
    let mut m = machine();
    m.registers[3] = 0x42;
    m.execute_opcode(0x3342, 0).unwrap();
    assert_eq!(m.program_counter, 0x204);
    let mut m2 = machine();
    m2.registers[3] = 0x41;
    m2.execute_opcode(0x3342, 0).unwrap();
    assert_eq!(m2.program_counter, 0x202);
}

#[test]
fn skip_if_not_equal_immediate() {
    let mut m = machine();
    m.registers[3] = 0x41;
    m.execute_opcode(0x4342, 0).unwrap();
    assert_eq!(m.program_counter, 0x204);
    let mut m2 = machine();
    m2.registers[3] = 0x42;
    m2.execute_opcode(0x4342, 0).unwrap();
    assert_eq!(m2.program_counter, 0x202);
}

#[test]
fn skip_on_register_comparison() {
    let mut m = machine();
    m.registers[0] = 7;
    m.registers[1] = 7;
    m.execute_opcode(0x5010, 0).unwrap();
    assert_eq!(m.program_counter, 0x204);
    m.execute_opcode(0x9010, 0).unwrap();
    assert_eq!(m.program_counter, 0x206);
    m.registers[1] = 8;
    m.execute_opcode(0x9010, 0).unwrap();
    assert_eq!(m.program_counter, 0x20A);
}

#[test]
fn jump_sets_program_counter() {
    let mut m = machine();
    m.execute_opcode(0x1ABC, 0).unwrap();
    assert_eq!(m.program_counter, 0xABC);
}

#[test]
fn jump_with_offset_adds_v0() {
    let mut m = machine();
    m.registers[0] = 0x10;
    m.execute_opcode(0xB300, 0).unwrap();
    assert_eq!(m.program_counter, 0x310);
}

#[test]
fn call_pushes_and_return_resumes_after_call_site() {
    let mut m = machine();
    m.execute_opcode(0x2ABC, 0).unwrap();
    assert_eq!(m.stack, vec![0x200]);
    assert_eq!(m.program_counter, 0xABC);
    m.execute_opcode(0x00EE, 0).unwrap();
    assert!(m.stack.is_empty());
    assert_eq!(m.program_counter, 0x202);
}

#[test]
fn call_on_full_stack_is_stack_overflow() {
    let mut m = machine();
    let mut last: Result<(), Chip8Error> = Ok(());
    for _ in 0..17 {
        last = m.execute_opcode(0x2300, 0);
    }
    assert_eq!(last, Err(Chip8Error::StackOverflow));
    assert_eq!(m.stack.len(), 16);
}

#[test]
fn return_on_empty_stack_is_stack_underflow() {
    let mut m = machine();
    assert_eq!(m.execute_opcode(0x00EE, 0), Err(Chip8Error::StackUnderflow));
    assert_eq!(m.program_counter, 0x200);
}

#[test]
fn store_address_register() {
    let mut m = machine();
    m.execute_opcode(0xA123, 0).unwrap();
    assert_eq!(m.address_register, 0x123);
}

#[test]
fn add_to_address_register_has_no_carry_flag() {
    let mut m = machine();
    m.execute_opcode(0xAFFF, 0).unwrap();
    m.registers[2] = 10;
    m.registers[15] = 7;
    m.execute_opcode(0xF21E, 0).unwrap();
    assert_eq!(m.address_register, 4105);
    assert_eq!(m.registers[15], 7);
}

#[test]
fn font_sprite_address_is_five_per_digit() {
    let mut m = machine();
    m.registers[4] = 0xA;
    m.execute_opcode(0xF429, 0).unwrap();
    assert_eq!(m.address_register, 50);
}

#[test]
fn bcd_decompose_157() {
    let mut m = machine();
    m.registers[2] = 157;
    m.execute_opcode(0xA300, 0).unwrap();
    m.execute_opcode(0xF233, 0).unwrap();
    assert_eq!(m.memory[0x300], 1);
    assert_eq!(m.memory[0x301], 5);
    assert_eq!(m.memory[0x302], 7);
}

#[test]
fn bcd_past_end_of_memory_is_out_of_range() {
    let mut m = machine();
    m.execute_opcode(0xAFFF, 0).unwrap();
    assert_eq!(m.execute_opcode(0xF033, 0), Err(Chip8Error::MemoryOutOfRange));
}

#[test]
fn register_dump_writes_inclusive_range() {
    let mut m = machine();
    for i in 0..8u8 {
        m.registers[i as usize] = 10 + i;
    }
    m.execute_opcode(0xA300, 0).unwrap();
    m.execute_opcode(0xF555, 0).unwrap();
    for i in 0..6usize {
        assert_eq!(m.memory[0x300 + i], 10 + i as u8);
    }
    assert_eq!(m.memory[0x306], 0);
}

#[test]
fn register_dump_load_round_trip_restores_v0_to_v5() {
    let mut m = machine();
    let values: Vec<u8> = vec![11, 22, 33, 44, 55, 66];
    for i in 0..6usize {
        m.registers[i] = values[i];
    }
    m.execute_opcode(0xA300, 0).unwrap();
    m.execute_opcode(0xF555, 0).unwrap();
    for i in 0..6usize {
        m.registers[i] = 0;
    }
    m.execute_opcode(0xF565, 0).unwrap();
    for i in 0..6usize {
        assert_eq!(m.registers[i], values[i]);
    }
}

#[test]
fn register_load_past_end_of_memory_is_out_of_range() {
    let mut m = machine();
    m.execute_opcode(0xAFFE, 0).unwrap();
    assert_eq!(m.execute_opcode(0xF565, 0), Err(Chip8Error::MemoryOutOfRange));
}

#[test]
fn masked_random_applies_mask_to_injected_byte() {
    let mut m = machine();
    m.execute_opcode(0xC00F, 0xAB).unwrap();
    assert_eq!(m.registers[0], 0x0B);
    m.execute_opcode(0xC1F0, 0xAB).unwrap();
    assert_eq!(m.registers[1], 0xA0);
}

#[test]
fn unknown_opcode_is_a_no_op_that_advances() {
    let mut m = machine();
    m.execute_opcode(0x0123, 0).unwrap();
    assert_eq!(m.program_counter, 0x202);
    assert_eq!(m.registers, vec![0; 16]);
    m.execute_opcode(0x8FF8, 0).unwrap();
    assert_eq!(m.program_counter, 0x204);
    m.execute_opcode(0xE0FF, 0).unwrap();
    assert_eq!(m.program_counter, 0x206);
    m.execute_opcode(0xF0FF, 0).unwrap();
    assert_eq!(m.program_counter, 0x208);
}

#[test]
fn uniform_advance_across_instruction_families() {
    // every non-jump, non-skip, non-wait instruction moves the program
    // counter forward by exactly two bytes
    let opcodes: Vec<u16> = vec![
        0x00E0, 0x6012, 0x7001, 0x8010, 0x8011, 0x8012, 0x8013, 0x8014, 0x8015, 0x8006, 0x8017,
        0x800E, 0xA123, 0xC0FF, 0xD011, 0xF007, 0xF015, 0xF018, 0xF01E, 0xF029, 0xF033, 0xF055,
        0xF065, 0x0123,
    ];
    for op in opcodes {
        let mut m = machine();
        let before = m.program_counter;
        m.execute_opcode(op, 0).unwrap();
        assert_eq!(m.program_counter, before + 2, "opcode {op:#06X}");
    }
}
