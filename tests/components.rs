use chip8::fault::Fault;
use chip8::keypad::{Key, Keypad};
use chip8::memory::{Memory, FONTSET, MEMORY_SIZE, START_ADDRESS};
use chip8::video::{Video, PIXEL_OFF, PIXEL_ON, VIDEO_SIZE};

#[test]
fn memory_starts_with_font_and_program_counter() {
    let memory = Memory::new();
    assert_eq!(memory.get_pointer(), 0x200);
    assert_eq!(memory.get_index_register(), 0);
    assert_eq!(memory.slice(0x50, 0xA0), &FONTSET[..]);
    assert!(memory.slice(0, 0x50).iter().all(|b| *b == 0));
    assert!(memory.slice(0xA0, MEMORY_SIZE).iter().all(|b| *b == 0));
}

#[test]
fn load_largest_program_succeeds() {
    let mut memory = Memory::new();
    let data = vec![0xABu8; 3584];
    assert_eq!(memory.load_instructions(&data), Ok(()));
    assert_eq!(memory.slice(START_ADDRESS, MEMORY_SIZE), &data[..]);
}

#[test]
fn load_oversized_program_fails() {
    let mut memory = Memory::new();
    let data = vec![0xABu8; 3585];
    assert_eq!(memory.load_instructions(&data), Err(Fault::RomTooLarge));
    assert!(memory.slice(START_ADDRESS, MEMORY_SIZE).iter().all(|b| *b == 0));
}

#[test]
fn load_instructions_test() {
    let mut memory = Memory::new();
    let instructions = vec![1u8, 10, 6, 7, 99, 3, 4];
    assert_eq!(memory.load_instructions(&instructions), Ok(()));
    assert_eq!(memory.slice(START_ADDRESS, START_ADDRESS + 7), &instructions[..]);
}

#[test]
fn fetch_is_big_endian_and_advances() {
    let mut memory = Memory::new();
    memory.load_instructions(&[0x12, 0x34, 0xAB, 0xCD]).unwrap();
    assert_eq!(memory.fetch(), 0x1234);
    assert_eq!(memory.get_pointer(), 0x202);
    assert_eq!(memory.fetch(), 0xABCD);
    assert_eq!(memory.get_pointer(), 0x204);
    memory.go_back(2);
    assert_eq!(memory.get_pointer(), 0x202);
    memory.advance(6);
    assert_eq!(memory.get_pointer(), 0x208);
    memory.set_address(0x345);
    assert_eq!(memory.get_pointer(), 0x345);
}

#[test]
fn decimal_digits_of_123_and_5() {
    let mut memory = Memory::new();
    memory.set_index_register(0x300);
    memory.store_bcd_repr(123);
    assert_eq!(memory.slice(0x300, 0x303), &[1u8, 2, 3][..]);
    memory.store_bcd_repr(5);
    assert_eq!(memory.slice(0x300, 0x303), &[0u8, 0, 5][..]);
    memory.store_bcd_repr(250);
    assert_eq!(memory.slice(0x300, 0x303), &[2u8, 5, 0][..]);
}

#[test]
fn glyph_addresses() {
    let mut memory = Memory::new();
    memory.set_index_register_to_font_no(0);
    assert_eq!(memory.get_index_register(), 0x50);
    memory.set_index_register_to_font_no(0xF);
    assert_eq!(memory.get_index_register(), 0x50 + 75);
}

#[test]
fn copy_from_writes_at_index() {
    let mut memory = Memory::new();
    memory.set_index_register(0x400);
    memory.copy_from(&[7, 8, 9]);
    assert_eq!(memory.slice(0x3FF, 0x404), &[0u8, 7, 8, 9, 0][..]);
}

#[test]
fn keypad_reports_lowest_pressed_key() {
    let mut keypad = Keypad::new();
    assert_eq!(keypad.get_pressed(), None);
    keypad.set_pressed(Key::KeyF);
    keypad.set_pressed(Key::Key3);
    assert_eq!(keypad.get_pressed(), Some(3));
    assert!(keypad.is_pressed(3));
    assert!(keypad.is_pressed(14));
    assert!(!keypad.is_pressed(0));
    keypad.set_unpressed(Key::Key3);
    assert_eq!(keypad.get_pressed(), Some(14));
    keypad.set_pressed(Key::KeyX);
    assert_eq!(keypad.get_pressed(), Some(0));
    assert_eq!(Key::KeyV.index(), 15);
}

#[test]
fn video_pixels_and_clear() {
    let mut video = Video::new();
    assert_eq!(video.buffer().len(), VIDEO_SIZE);
    *video.pixel(1, 2) = PIXEL_ON;
    assert_eq!(video.buffer()[64 + 2], PIXEL_ON);
    video.clear();
    assert!(video.buffer().iter().all(|p| *p == PIXEL_OFF));
}
