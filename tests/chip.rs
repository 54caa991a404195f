use std::collections::BTreeSet;

use rust8::chip::Chip;
use rust8::error::ChipError;
use rust8::model::{COLOR, FRAME_SIZE};

fn load(program: &[u8]) -> Chip {
    Chip::try_new(program.to_vec()).unwrap()
}

fn run(chip: &mut Chip, cycles: usize) {
    let keys = BTreeSet::new();
    for _ in 0..cycles {
        chip.run_cycle(&None, &keys, 0).unwrap();
    }
}

#[test]
fn load_add_then_clear_leaves_eight() {
    let mut chip = load(&[0x60, 0x05, 0x70, 0x03, 0x00, 0xE0]);
    let keys = BTreeSet::new();
    for _ in 0..3 {
        chip.step(&None, &keys).unwrap();
    }
    assert_eq!(chip.register(0), 8);
    assert!(chip.display().iter().all(|p| !*p));
    assert_eq!(chip.pc(), 0x206);
}

#[test]
fn return_on_empty_stack_underflows() {
    let mut chip = load(&[0x00, 0xEE]);
    let keys = BTreeSet::new();
    let r = chip.step(&None, &keys);
    assert_eq!(r, Err(ChipError::CallStackUnderflow { addr: 0x200 }));
    assert_eq!(chip.pc(), 0x200);
}

#[test]
fn program_one_byte_too_large_is_refused() {
    let r = Chip::try_new(vec![0; 4096 - 0x200 + 1]);
    assert!(matches!(r, Err(ChipError::ProgramTooLarge { size: 3585 })));
    assert!(Chip::try_new(vec![0; 4096 - 0x200]).is_ok());
}

#[test]
fn new_chip_holds_glyphs_and_program() {
    let chip = load(&[0x12, 0x34]);
    assert_eq!(chip.memory_at(0), 0xF0);
    assert_eq!(chip.memory_at(5), 0x20);
    assert_eq!(chip.memory_at(79), 0x80);
    assert_eq!(chip.memory_at(80), 0);
    assert_eq!(chip.memory_at(0x200), 0x12);
    assert_eq!(chip.memory_at(0x201), 0x34);
    assert_eq!(chip.memory_at(0x202), 0);
    assert_eq!(chip.pc(), 0x200);
    assert_eq!(chip.index(), 0);
    assert_eq!(chip.stack_depth(), 0);
    assert_eq!(chip.display().len(), 64 * 32);
}

#[test]
fn add_immediate_wraps_and_keeps_flag() {
    let mut chip = load(&[0x6F, 0x07, 0x61, 0xFF, 0x71, 0x02]);
    run(&mut chip, 3);
    assert_eq!(chip.register(1), 0x01);
    assert_eq!(chip.register(0xF), 0x07);
}

#[test]
fn add_registers_sets_carry() {
    let mut chip = load(&[0x60, 200, 0x61, 100, 0x80, 0x14, 0x62, 10, 0x63, 20, 0x82, 0x34]);
    run(&mut chip, 3);
    assert_eq!(chip.register(0), 44);
    assert_eq!(chip.register(0xF), 1);
    run(&mut chip, 3);
    assert_eq!(chip.register(2), 30);
    assert_eq!(chip.register(0xF), 0);
}

#[test]
fn sub_registers_sets_flag_when_greater() {
    let mut chip = load(&[0x60, 5, 0x61, 10, 0x80, 0x15, 0x62, 10, 0x63, 5, 0x82, 0x35]);
    run(&mut chip, 3);
    assert_eq!(chip.register(0), 251);
    assert_eq!(chip.register(0xF), 0);
    run(&mut chip, 3);
    assert_eq!(chip.register(2), 5);
    assert_eq!(chip.register(0xF), 1);
}

#[test]
fn sub_equal_registers_clears_flag() {
    let mut chip = load(&[0x6F, 1, 0x60, 9, 0x61, 9, 0x80, 0x15]);
    run(&mut chip, 4);
    assert_eq!(chip.register(0), 0);
    assert_eq!(chip.register(0xF), 0);
}

#[test]
fn move_and_xor() {
    let mut chip = load(&[0x60, 0b1100, 0x61, 0b1010, 0x82, 0x00, 0x82, 0x12, 0x80, 0x13]);
    run(&mut chip, 5);
    assert_eq!(chip.register(2), 0b1000);
    assert_eq!(chip.register(0), 0b0110);
}

#[test]
fn drawing_twice_restores_display() {
    let mut chip = load(&[0x60, 10, 0x61, 5, 0xA0, 0x00, 0xD0, 0x15, 0xD0, 0x15]);
    run(&mut chip, 4);
    assert!(chip.display()[5 * 64 + 10]);
    assert_eq!(chip.register(0xF), 0);
    run(&mut chip, 1);
    assert!(chip.display().iter().all(|p| !*p));
    assert_eq!(chip.register(0xF), 1);
}

#[test]
fn sprite_wraps_to_column_zero() {
    // V0 = 63, V1 = 0, I = 0x208, draw one row of 0xC0.
    let mut chip = load(&[0x60, 0x3F, 0x61, 0x00, 0xA2, 0x08, 0xD0, 0x11, 0xC0, 0x00]);
    run(&mut chip, 4);
    let screen = chip.display();
    assert!(screen[63]);
    assert!(screen[0]);
    assert!(!screen[64]);
    assert!(!screen[1]);
    assert_eq!(screen.iter().filter(|p| **p).count(), 2);
}

#[test]
fn sprite_wraps_to_row_zero() {
    // V0 = 0, V1 = 31, I = 0x208, draw two rows of 0x80.
    let mut chip = load(&[0x60, 0x00, 0x61, 0x1F, 0xA2, 0x08, 0xD0, 0x12, 0x80, 0x80]);
    run(&mut chip, 4);
    let screen = chip.display();
    assert!(screen[31 * 64]);
    assert!(screen[0]);
    assert_eq!(screen.iter().filter(|p| **p).count(), 2);
}

#[test]
fn wait_key_blocks_until_release() {
    let mut chip = load(&[0xF3, 0x0A]);
    let keys = BTreeSet::new();
    chip.run_cycle(&None, &keys, 0).unwrap();
    chip.run_cycle(&None, &keys, 0).unwrap();
    assert_eq!(chip.pc(), 0x200);
    chip.run_cycle(&Some(7), &keys, 0).unwrap();
    assert_eq!(chip.pc(), 0x202);
    assert_eq!(chip.register(3), 7);
}

#[test]
fn timers_stop_at_zero() {
    let mut chip = load(&[0x60, 3, 0xF0, 0x15, 0xF0, 0x18]);
    run(&mut chip, 3);
    assert_eq!(chip.delay(), 3);
    assert!(chip.sound_active());
    for _ in 0..10 {
        chip.tick();
    }
    assert_eq!(chip.delay(), 0);
    assert_eq!(chip.sound(), 0);
    assert!(!chip.sound_active());
    chip.decrement_delay();
    chip.decrement_sound();
    assert_eq!(chip.delay(), 0);
}

#[test]
fn load_delay_reads_timer() {
    let mut chip = load(&[0x60, 9, 0xF0, 0x15, 0xF1, 0x07]);
    run(&mut chip, 2);
    chip.tick();
    run(&mut chip, 1);
    assert_eq!(chip.register(1), 8);
}

#[test]
fn call_and_return() {
    let mut chip = load(&[0x22, 0x04, 0x00, 0x00, 0x00, 0xEE]);
    run(&mut chip, 1);
    assert_eq!(chip.pc(), 0x204);
    assert_eq!(chip.stack_depth(), 1);
    run(&mut chip, 1);
    assert_eq!(chip.pc(), 0x202);
    assert_eq!(chip.stack_depth(), 0);
}

#[test]
fn seventeenth_nested_call_overflows() {
    let mut chip = load(&[0x22, 0x00]);
    run(&mut chip, 16);
    assert_eq!(chip.stack_depth(), 16);
    let keys = BTreeSet::new();
    let r = chip.run_cycle(&None, &keys, 0);
    assert_eq!(r, Err(ChipError::CallStackOverflow { addr: 0x200 }));
    assert_eq!(chip.stack_depth(), 16);
}

#[test]
fn jump_sets_counter() {
    let mut chip = load(&[0x1A, 0xBC]);
    run(&mut chip, 1);
    assert_eq!(chip.pc(), 0xABC);
}

#[test]
fn skips_on_immediate_and_register_compare() {
    let mut chip = load(&[0x60, 5, 0x30, 5]);
    run(&mut chip, 2);
    assert_eq!(chip.pc(), 0x206);
    let mut chip = load(&[0x60, 5, 0x30, 6]);
    run(&mut chip, 2);
    assert_eq!(chip.pc(), 0x204);
    let mut chip = load(&[0x60, 5, 0x40, 6]);
    run(&mut chip, 2);
    assert_eq!(chip.pc(), 0x206);
    let mut chip = load(&[0x60, 5, 0x61, 5, 0x50, 0x10]);
    run(&mut chip, 3);
    assert_eq!(chip.pc(), 0x208);
}

#[test]
fn skips_on_keys() {
    let mut keys = BTreeSet::new();
    keys.insert(4u16);
    let mut chip = load(&[0x60, 4, 0xE0, 0x9E]);
    chip.run_cycle(&None, &keys, 0).unwrap();
    chip.run_cycle(&None, &keys, 0).unwrap();
    assert_eq!(chip.pc(), 0x206);
    let mut chip = load(&[0x60, 4, 0xE0, 0xA1]);
    chip.run_cycle(&None, &keys, 0).unwrap();
    chip.run_cycle(&None, &keys, 0).unwrap();
    assert_eq!(chip.pc(), 0x204);
}

#[test]
fn random_is_masked() {
    let mut chip = load(&[0xC0, 0x0F]);
    let keys = BTreeSet::new();
    chip.run_cycle(&None, &keys, 0xAB).unwrap();
    assert_eq!(chip.register(0), 0x0B);
    let mut chip = load(&[0xC0, 0x00]);
    chip.step(&None, &keys).unwrap();
    assert_eq!(chip.register(0), 0);
    assert_eq!(chip.pc(), 0x202);
}

#[test]
fn index_operations() {
    let mut chip = load(&[0xAF, 0xFF, 0x60, 0xFF, 0xF0, 0x1E, 0x61, 0x0A, 0xF1, 0x29]);
    run(&mut chip, 3);
    assert_eq!(chip.index(), 0x10FE);
    run(&mut chip, 2);
    assert_eq!(chip.index(), 50);
}

#[test]
fn store_decimal_digits() {
    let mut chip = load(&[0x60, 234, 0xA3, 0x00, 0xF0, 0x33]);
    run(&mut chip, 3);
    assert_eq!(chip.memory_at(0x300), 2);
    assert_eq!(chip.memory_at(0x301), 3);
    assert_eq!(chip.memory_at(0x302), 4);
}

#[test]
fn store_and_load_registers() {
    let mut chip = load(&[
        0x60, 1, 0x61, 2, 0x62, 3, 0xA3, 0x00, 0xF1, 0x55, 0x60, 0, 0x61, 0, 0x62, 0, 0xF2, 0x65,
    ]);
    run(&mut chip, 5);
    assert_eq!(chip.memory_at(0x300), 1);
    assert_eq!(chip.memory_at(0x301), 2);
    assert_eq!(chip.memory_at(0x302), 0);
    run(&mut chip, 4);
    assert_eq!(chip.register(0), 1);
    assert_eq!(chip.register(1), 2);
    assert_eq!(chip.register(2), 0);
}

#[test]
fn access_past_memory_end_is_an_error() {
    let mut chip = load(&[0xAF, 0xFF, 0xF1, 0x55]);
    run(&mut chip, 1);
    let keys = BTreeSet::new();
    let r = chip.run_cycle(&None, &keys, 0);
    assert_eq!(r, Err(ChipError::AddressOutOfRange { location: 0x1000 }));
    assert_eq!(chip.pc(), 0x202);
}

#[test]
fn fetch_past_memory_end_is_an_error() {
    let mut chip = load(&[0x1F, 0xFF]);
    run(&mut chip, 1);
    let keys = BTreeSet::new();
    let r = chip.run_cycle(&None, &keys, 0);
    assert_eq!(r, Err(ChipError::AddressOutOfRange { location: 0x1000 }));
}

#[test]
fn unknown_word_is_invalid_opcode() {
    let mut chip = load(&[0x00, 0x00]);
    let keys = BTreeSet::new();
    let r = chip.step(&None, &keys);
    assert_eq!(r, Err(ChipError::InvalidOpcode { op: 0x0000, addr: 0x200 }));
    let mut chip = load(&[0x91, 0x20]);
    let r = chip.step(&None, &keys);
    assert_eq!(r, Err(ChipError::InvalidOpcode { op: 0x9120, addr: 0x200 }));
}

#[test]
fn register_accessors_use_op_nibbles() {
    let mut chip = load(&[]);
    chip.set_x_reg_value(0x0300, 42);
    assert_eq!(chip.register(3), 42);
    assert_eq!(chip.get_x_reg_value(0x0300), 42);
    assert_eq!(chip.get_y_reg_value(0x0030), 42);
    assert_eq!(chip.get_y_reg_value(0x0300), 0);
}

#[test]
fn frame_scales_each_pixel() {
    // V0 = 1, V1 = 1, I = 0x208, draw one row of 0x80: lights pixel (1, 1).
    let mut chip = load(&[0x60, 1, 0x61, 1, 0xA2, 0x08, 0xD0, 0x11, 0x80, 0x00]);
    run(&mut chip, 4);
    let mut frame = vec![7u32; FRAME_SIZE];
    chip.render_to_buffer(&mut frame);
    assert_eq!(frame[2 * 128 + 2], COLOR);
    assert_eq!(frame[2 * 128 + 3], COLOR);
    assert_eq!(frame[3 * 128 + 2], COLOR);
    assert_eq!(frame[3 * 128 + 3], COLOR);
    assert_eq!(frame[0], 0);
    assert_eq!(frame[2 * 128 + 4], 0);
    assert_eq!(frame.iter().filter(|p| **p == COLOR).count(), 4);
}
