use chip8::chip::Chip;
use chip8::fault::Fault;
use chip8::keypad::Key;
use chip8::semantics::{decode, Instruction, Outcome};
use chip8::video::{PIXEL_OFF, PIXEL_ON};

fn chip_with(program: &[u8]) -> Chip {
    let mut chip = Chip::new();
    chip.load_rom(program).unwrap();
    chip
}

fn step(chip: &mut Chip) -> Result<Outcome, Fault> {
    chip.cycle_with(0)
}

fn pc(chip: &Chip) -> u16 {
    chip.get_memory().get_pointer()
}

fn reg(chip: &Chip, i: u8) -> u8 {
    chip.get_registers().read(i)
}

#[test]
fn load_immediate_sets_register() {
    for kk in [0u8, 1, 0x42, 0xFF] {
        let mut chip = chip_with(&[0x6A, kk]);
        assert_eq!(step(&mut chip), Ok(Outcome::Executed));
        assert_eq!(reg(&chip, 0xA), kk);
        assert_eq!(pc(&chip), 0x202);
    }
}

#[test]
fn add_immediate_wraps_without_flag() {
    let mut chip = chip_with(&[0x63, 0xF0, 0x6F, 0x07, 0x73, 0x20]);
    step(&mut chip).unwrap();
    step(&mut chip).unwrap();
    step(&mut chip).unwrap();
    assert_eq!(reg(&chip, 3), 0x10);
    assert_eq!(reg(&chip, 0xF), 0x07);
}

#[test]
fn add_registers_with_carry_instruction() {
    let mut chip = chip_with(&[0x61, 250, 0x62, 10, 0x81, 0x24]);
    for _ in 0..3 {
        step(&mut chip).unwrap();
    }
    assert_eq!(reg(&chip, 1), 4);
    assert_eq!(reg(&chip, 0xF), 1);
}

#[test]
fn subtract_registers_instruction() {
    let mut chip = chip_with(&[0x61, 3, 0x62, 10, 0x81, 0x25]);
    for _ in 0..3 {
        step(&mut chip).unwrap();
    }
    assert_eq!(reg(&chip, 1), 249);
    assert_eq!(reg(&chip, 0xF), 0);
}

#[test]
fn skip_if_equal_immediate() {
    let mut chip = chip_with(&[0x61, 0x05, 0x31, 0x05]);
    step(&mut chip).unwrap();
    step(&mut chip).unwrap();
    assert_eq!(pc(&chip), 0x206);

    let mut chip = chip_with(&[0x61, 0x05, 0x31, 0x06]);
    step(&mut chip).unwrap();
    step(&mut chip).unwrap();
    assert_eq!(pc(&chip), 0x204);
}

#[test]
fn skip_if_not_equal_immediate() {
    let mut chip = chip_with(&[0x41, 0x05]);
    step(&mut chip).unwrap();
    assert_eq!(pc(&chip), 0x204);

    let mut chip = chip_with(&[0x41, 0x00]);
    step(&mut chip).unwrap();
    assert_eq!(pc(&chip), 0x202);
}

#[test]
fn skip_on_register_comparison() {
    let mut chip = chip_with(&[0x61, 0x05, 0x62, 0x05, 0x51, 0x20]);
    for _ in 0..3 {
        step(&mut chip).unwrap();
    }
    assert_eq!(pc(&chip), 0x208);

    let mut chip = chip_with(&[0x61, 0x05, 0x62, 0x05, 0x91, 0x20]);
    for _ in 0..3 {
        step(&mut chip).unwrap();
    }
    assert_eq!(pc(&chip), 0x206);

    let mut chip = chip_with(&[0x61, 0x05, 0x91, 0x20]);
    step(&mut chip).unwrap();
    step(&mut chip).unwrap();
    assert_eq!(pc(&chip), 0x206);
}

#[test]
fn call_then_return() {
    // 0x200: call 0x300; 0x300: return
    let mut program = vec![0u8; 0x102];
    program[0] = 0x23;
    program[1] = 0x00;
    program[0x100] = 0x00;
    program[0x101] = 0xEE;
    let mut chip = chip_with(&program);
    step(&mut chip).unwrap();
    assert_eq!(pc(&chip), 0x300);
    assert_eq!(chip.get_stack_depth(), 1);
    step(&mut chip).unwrap();
    assert_eq!(pc(&chip), 0x202);
    assert_eq!(chip.get_stack_depth(), 0);
}

#[test]
fn return_on_empty_stack_faults() {
    let mut chip = chip_with(&[0x00, 0xEE]);
    assert_eq!(step(&mut chip), Err(Fault::StackUnderflow));
    assert_eq!(pc(&chip), 0x200);
}

#[test]
fn seventeenth_nested_call_faults() {
    // 0x200: call 0x200, forever
    let mut chip = chip_with(&[0x22, 0x00]);
    for _ in 0..16 {
        assert_eq!(step(&mut chip), Ok(Outcome::Executed));
    }
    assert_eq!(chip.get_stack_depth(), 16);
    assert_eq!(step(&mut chip), Err(Fault::StackOverflow));
    assert_eq!(chip.get_stack_depth(), 16);
}

#[test]
fn jump_and_jump_with_offset() {
    let mut chip = chip_with(&[0x1A, 0xBC]);
    step(&mut chip).unwrap();
    assert_eq!(pc(&chip), 0xABC);

    let mut chip = chip_with(&[0x60, 0x10, 0xB3, 0x00]);
    step(&mut chip).unwrap();
    step(&mut chip).unwrap();
    assert_eq!(pc(&chip), 0x310);
}

#[test]
fn fetch_past_end_of_memory_faults() {
    let mut chip = chip_with(&[0x1F, 0xFF]);
    step(&mut chip).unwrap();
    assert_eq!(step(&mut chip), Err(Fault::OutOfBounds));
    assert_eq!(pc(&chip), 0xFFF);
}

#[test]
fn unknown_instruction_is_skipped() {
    let mut chip = chip_with(&[0x01, 0x23, 0x5A, 0xB1, 0x61, 0x07]);
    assert_eq!(step(&mut chip), Ok(Outcome::Unknown(0x0123)));
    assert_eq!(step(&mut chip), Ok(Outcome::Unknown(0x5AB1)));
    assert_eq!(step(&mut chip), Ok(Outcome::Executed));
    assert_eq!(reg(&chip, 1), 7);
}

#[test]
fn decimal_digits_instruction() {
    // V1 = 123; I = 0x300; store digits
    let mut chip = chip_with(&[0x61, 123, 0xA3, 0x00, 0xF1, 0x33]);
    for _ in 0..3 {
        step(&mut chip).unwrap();
    }
    assert_eq!(chip.get_memory().slice(0x300, 0x303), &[1u8, 2, 3][..]);

    let mut chip = chip_with(&[0x61, 5, 0xA3, 0x00, 0xF1, 0x33]);
    for _ in 0..3 {
        step(&mut chip).unwrap();
    }
    assert_eq!(chip.get_memory().slice(0x300, 0x303), &[0u8, 0, 5][..]);
}

#[test]
fn decimal_digits_past_end_fault() {
    let mut chip = chip_with(&[0xAF, 0xFE, 0xF1, 0x33]);
    step(&mut chip).unwrap();
    assert_eq!(step(&mut chip), Err(Fault::OutOfBounds));
    assert_eq!(pc(&chip), 0x202);
}

#[test]
fn store_then_load_registers_round_trip() {
    let mut chip = chip_with(&[
        0x60, 0x11, 0x61, 0x22, 0x62, 0x33, 0xA4, 0x00, 0xF2, 0x55, 0xF2, 0x65,
    ]);
    for _ in 0..5 {
        step(&mut chip).unwrap();
    }
    assert_eq!(chip.get_memory().slice(0x400, 0x404), &[0x11u8, 0x22, 0x33, 0][..]);
    step(&mut chip).unwrap();
    assert_eq!(reg(&chip, 0), 0x11);
    assert_eq!(reg(&chip, 1), 0x22);
    assert_eq!(reg(&chip, 2), 0x33);
}

#[test]
fn load_registers_from_memory() {
    // I = 0x50 (glyph of 0), load V0..V1
    let mut chip = chip_with(&[0xA0, 0x50, 0xF1, 0x65]);
    step(&mut chip).unwrap();
    step(&mut chip).unwrap();
    assert_eq!(reg(&chip, 0), 0xF0);
    assert_eq!(reg(&chip, 1), 0x90);
    assert_eq!(reg(&chip, 2), 0);
}

#[test]
fn draw_twice_restores_framebuffer() {
    // I = glyph of 0, draw it at (V0, V1) = (0, 0) twice
    let mut chip = chip_with(&[0xA0, 0x50, 0xD0, 0x15, 0xD0, 0x15]);
    step(&mut chip).unwrap();
    step(&mut chip).unwrap();
    assert_eq!(reg(&chip, 0xF), 0);
    let lit = chip.get_video().buffer().iter().filter(|p| **p == PIXEL_ON).count();
    assert_eq!(lit, 14);
    assert_eq!(chip.get_video().buffer()[0], PIXEL_ON);
    assert_eq!(chip.get_video().buffer()[4], PIXEL_OFF);
    step(&mut chip).unwrap();
    assert_eq!(reg(&chip, 0xF), 1);
    assert!(chip.get_video().buffer().iter().all(|p| *p == PIXEL_OFF));
}

#[test]
fn draw_wraps_around_edges() {
    // V0 = 62, V1 = 31, I = glyph of 0 (first row 0xF0), draw one row
    let mut chip = chip_with(&[0x60, 62, 0x61, 31, 0xA0, 0x50, 0xD0, 0x11]);
    for _ in 0..4 {
        step(&mut chip).unwrap();
    }
    let buf = chip.get_video().buffer();
    assert_eq!(buf[31 * 64 + 62], PIXEL_ON);
    assert_eq!(buf[31 * 64 + 63], PIXEL_ON);
    assert_eq!(buf[31 * 64], PIXEL_ON);
    assert_eq!(buf[31 * 64 + 1], PIXEL_ON);
    assert_eq!(buf[31 * 64 + 2], PIXEL_OFF);
    assert_eq!(reg(&chip, 0xF), 0);
}

#[test]
fn draw_past_end_of_memory_faults() {
    let mut chip = chip_with(&[0xAF, 0xFE, 0xD0, 0x03]);
    step(&mut chip).unwrap();
    assert_eq!(step(&mut chip), Err(Fault::OutOfBounds));
}

#[test]
fn clear_screen() {
    let mut chip = chip_with(&[0xA0, 0x50, 0xD0, 0x15, 0x00, 0xE0]);
    for _ in 0..3 {
        step(&mut chip).unwrap();
    }
    assert!(chip.get_video().buffer().iter().all(|p| *p == PIXEL_OFF));
}

#[test]
fn wait_for_key_repeats_until_pressed() {
    let mut chip = chip_with(&[0xF3, 0x0A]);
    for _ in 0..5 {
        assert_eq!(step(&mut chip), Ok(Outcome::Executed));
        assert_eq!(pc(&chip), 0x200);
    }
    chip.get_keypad().set_pressed(Key::KeyD);
    chip.get_keypad().set_pressed(Key::KeyA);
    step(&mut chip).unwrap();
    assert_eq!(reg(&chip, 3), 7);
    assert_eq!(pc(&chip), 0x202);
}

#[test]
fn skip_on_key_state() {
    let mut chip = chip_with(&[0x65, 0x04, 0xE5, 0x9E, 0xE5, 0xA1]);
    step(&mut chip).unwrap();
    step(&mut chip).unwrap();
    assert_eq!(pc(&chip), 0x204);
    step(&mut chip).unwrap();
    assert_eq!(pc(&chip), 0x208);

    let mut chip = chip_with(&[0x65, 0x04, 0xE5, 0x9E]);
    chip.get_keypad().set_pressed(Key::KeyQ);
    step(&mut chip).unwrap();
    step(&mut chip).unwrap();
    assert_eq!(pc(&chip), 0x206);
}

#[test]
fn key_index_out_of_range_faults() {
    let mut chip = chip_with(&[0x65, 0x10, 0xE5, 0x9E]);
    step(&mut chip).unwrap();
    assert_eq!(step(&mut chip), Err(Fault::OutOfBounds));
}

#[test]
fn timers_count_down_to_zero() {
    let mut chip = chip_with(&[0x61, 0x03, 0xF1, 0x15, 0xF1, 0x18, 0xF2, 0x07]);
    step(&mut chip).unwrap();
    step(&mut chip).unwrap();
    assert_eq!(chip.get_delay_timer(), 2);
    step(&mut chip).unwrap();
    assert_eq!(chip.get_delay_timer(), 1);
    assert_eq!(chip.get_sound_timer(), 2);
    step(&mut chip).unwrap();
    assert_eq!(reg(&chip, 2), 1);
    assert_eq!(chip.get_delay_timer(), 0);
    step(&mut chip).unwrap();
    assert_eq!(chip.get_delay_timer(), 0);
    assert_eq!(chip.get_sound_timer(), 0);
}

#[test]
fn index_instructions() {
    let mut chip = chip_with(&[0xA1, 0x00, 0x61, 0x20, 0xF1, 0x1E, 0x62, 0x0A, 0xF2, 0x29]);
    step(&mut chip).unwrap();
    assert_eq!(chip.get_memory().get_index_register(), 0x100);
    step(&mut chip).unwrap();
    step(&mut chip).unwrap();
    assert_eq!(chip.get_memory().get_index_register(), 0x120);
    step(&mut chip).unwrap();
    step(&mut chip).unwrap();
    assert_eq!(chip.get_memory().get_index_register(), 0x50 + 50);
}

#[test]
fn random_byte_is_masked() {
    let mut chip = chip_with(&[0xC4, 0x0F]);
    assert_eq!(chip.cycle_with(0xAB), Ok(Outcome::Executed));
    assert_eq!(reg(&chip, 4), 0x0B);

    let mut chip = chip_with(&[0xC4, 0x0F, 0xC5, 0x00]);
    chip.cycle().unwrap();
    assert_eq!(reg(&chip, 4) & 0xF0, 0);
    chip.cycle().unwrap();
    assert_eq!(reg(&chip, 5), 0);
}

#[test]
fn register_moves_and_logic() {
    let mut chip = chip_with(&[
        0x61, 0x0C, 0x62, 0x0A, 0x83, 0x10, 0x83, 0x21, 0x84, 0x10, 0x84, 0x22, 0x85, 0x10,
        0x85, 0x23, 0x86, 0x10, 0x86, 0x26, 0x87, 0x10, 0x87, 0x2E, 0x88, 0x20, 0x88, 0x17,
    ]);
    for _ in 0..14 {
        step(&mut chip).unwrap();
    }
    assert_eq!(reg(&chip, 3), 0x0E);
    assert_eq!(reg(&chip, 4), 0x08);
    assert_eq!(reg(&chip, 5), 0x06);
    assert_eq!(reg(&chip, 6), 0x06);
    assert_eq!(reg(&chip, 7), 0x18);
    assert_eq!(reg(&chip, 8), 0x02);
    assert_eq!(reg(&chip, 0xF), 1);
}

#[test]
fn oversized_rom_is_refused() {
    let mut chip = Chip::new();
    assert_eq!(chip.load_rom(&vec![0u8; 3585]), Err(Fault::RomTooLarge));
    assert_eq!(chip.load_rom(&vec![0u8; 3584]), Ok(()));
}

#[test]
fn decode_examples() {
    assert_eq!(decode(0x00E0), Instruction::Clear);
    assert_eq!(decode(0x00EE), Instruction::Return);
    assert_eq!(decode(0x1234), Instruction::Jump(0x234));
    assert_eq!(decode(0x5120), Instruction::SkipEqReg(1, 2));
    assert_eq!(decode(0x5121), Instruction::Unknown(0x5121));
    assert_eq!(decode(0x8AB6), Instruction::ShiftRight(0xA));
    assert_eq!(decode(0x8AB8), Instruction::Unknown(0x8AB8));
    assert_eq!(decode(0xD12F), Instruction::Draw(1, 2, 0xF));
    assert_eq!(decode(0xE39E), Instruction::SkipKeyPressed(3));
    assert_eq!(decode(0xE3A2), Instruction::Unknown(0xE3A2));
    assert_eq!(decode(0xF765), Instruction::LoadRegs(7));
    assert_eq!(decode(0xF799), Instruction::Unknown(0xF799));
}
