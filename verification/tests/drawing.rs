use chip8::machine::Chip8;
use chip8::semantics::Chip8Error;

fn machine_with_sprite(rows: &[u8]) -> Chip8 {
    // place the sprite rows at 0x300 and point the address register there
    let rom: Vec<u8> = Vec::new();
    let mut m = Chip8::new(&rom).unwrap();
    for (i, &row) in rows.iter().enumerate() {
        m.memory[0x300 + i] = row;
    }
    m.execute_opcode(0xA300, 0).unwrap();
    m
}

#[test]
fn drawing_on_a_dark_screen_clears_the_collision_flag() {
    let mut m = machine_with_sprite(&[0xF0, 0x90]);
    m.registers[0] = 10;
    m.registers[1] = 5;
    m.registers[15] = 1;
    m.execute_opcode(0xD012, 0).unwrap();
    assert_eq!(m.registers[15], 0);
    assert!(m.screen[5 * 64 + 10]);
    assert!(m.screen[5 * 64 + 13]);
    assert!(!m.screen[5 * 64 + 14]);
    assert!(m.screen[6 * 64 + 10]);
    assert!(!m.screen[6 * 64 + 11]);
    assert!(m.screen[6 * 64 + 13]);
}

#[test]
fn drawing_the_same_sprite_again_sets_the_collision_flag_and_clears_it() {
    let mut m = machine_with_sprite(&[0xF0, 0x90, 0x90, 0x90, 0xF0]);
    m.registers[0] = 10;
    m.registers[1] = 5;
    m.execute_opcode(0xD015, 0).unwrap();
    assert_eq!(m.registers[15], 0);
    m.execute_opcode(0xD015, 0).unwrap();
    assert_eq!(m.registers[15], 1);
    assert_eq!(m.screen, vec![false; 64 * 32]);
}

#[test]
fn single_shared_pixel_reports_a_collision() {
    let mut m = machine_with_sprite(&[0x80]);
    m.registers[0] = 0;
    m.registers[1] = 0;
    m.execute_opcode(0xD011, 0).unwrap();
    assert_eq!(m.registers[15], 0);
    assert!(m.screen[0]);
    // a single shared pixel at the origin goes dark and raises the flag
    m.execute_opcode(0xD011, 0).unwrap();
    assert_eq!(m.registers[15], 1);
    assert!(!m.screen[0]);
}

#[test]
fn sprite_at_column_63_wraps_to_column_0() {
    let mut m = machine_with_sprite(&[0xF0]);
    m.registers[0] = 63;
    m.registers[1] = 2;
    m.execute_opcode(0xD011, 0).unwrap();
    assert!(m.screen[2 * 64 + 63]);
    assert!(m.screen[2 * 64 + 0]);
    assert!(m.screen[2 * 64 + 1]);
    assert!(m.screen[2 * 64 + 2]);
    assert!(!m.screen[2 * 64 + 3]);
    assert!(!m.screen[2 * 64 + 62]);
}

#[test]
fn sprite_at_bottom_row_wraps_to_top_row() {
    let mut m = machine_with_sprite(&[0x80, 0x80]);
    m.registers[0] = 4;
    m.registers[1] = 31;
    m.execute_opcode(0xD012, 0).unwrap();
    assert!(m.screen[31 * 64 + 4]);
    assert!(m.screen[0 * 64 + 4]);
}

#[test]
fn draw_coordinates_wrap_at_the_origin() {
    // starting position is taken modulo the screen size
    let mut m = machine_with_sprite(&[0x80]);
    m.registers[0] = 64 + 3;
    m.registers[1] = 32 + 1;
    m.execute_opcode(0xD011, 0).unwrap();
    assert!(m.screen[1 * 64 + 3]);
}

#[test]
fn draw_with_zero_rows_changes_nothing() {
    let mut m = machine_with_sprite(&[0xFF]);
    m.execute_opcode(0xD010, 0).unwrap();
    assert_eq!(m.screen, vec![false; 64 * 32]);
    assert_eq!(m.registers[15], 0);
    assert_eq!(m.program_counter, 0x204);
}

#[test]
fn draw_reading_past_memory_is_out_of_range() {
    let rom: Vec<u8> = Vec::new();
    let mut m = Chip8::new(&rom).unwrap();
    m.execute_opcode(0xAFFF, 0).unwrap();
    assert_eq!(m.execute_opcode(0xD012, 0), Err(Chip8Error::MemoryOutOfRange));
}

#[test]
fn clear_screen_darkens_everything() {
    let mut m = machine_with_sprite(&[0xFF, 0xFF]);
    m.execute_opcode(0xD012, 0).unwrap();
    assert!(m.screen.iter().any(|&p| p));
    m.execute_opcode(0x00E0, 0).unwrap();
    assert_eq!(m.screen, vec![false; 64 * 32]);
}

#[test]
fn rgba_export_is_flipped_white_on_black() {
    let rom: Vec<u8> = Vec::new();
    let mut m = Chip8::new(&rom).unwrap();
    m.screen[0] = true;  // screen row 0, column 0
    let image = m.get_video_buffer_as_rgba();
    assert_eq!(image.len(), 64 * 32 * 4);
    // screen row 0 appears at the bottom of the image: output row 31
    let lit = (31 * 64 + 0) * 4;
    assert_eq!(&image[lit..lit + 4], &[255, 255, 255, 255]);
    // the top-left output pixel shows screen row 31, which is dark
    assert_eq!(&image[0..4], &[0, 0, 0, 255]);
    // every fourth byte is full alpha
    for p in 0..64 * 32 {
        assert_eq!(image[p * 4 + 3], 255);
    }
}
