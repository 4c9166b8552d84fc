//! The machine: construction, keypad, timer, arithmetic flags, shifts,
//! BCD, block transfers, drawing and the fault paths.

use chip8::chip8::{Chip8, Fault, HEIGHT, WIDTH};
use chip8::instruction::Instruction;

/// The pixel at standard-resolution coordinates: standard-mode drawing
/// scales each sprite pixel to a 2x2 block of the full-resolution grid.
fn lpix(machine: &Chip8, x: usize, y: usize) -> bool {
    machine.get_display()[(2 * y) * WIDTH + 2 * x]
}

#[test]
fn apply_keypad_value() {
    let mut chip8 = Chip8::new(&[]);
    assert_eq!(chip8.keypad_mask(), 0b0000_0000);
    chip8.apply_keypad_value(0x0, true);
    assert_eq!(chip8.keypad_mask(), 0b0000_0001);
    chip8.apply_keypad_value(0x2, true);
    assert_eq!(chip8.keypad_mask(), 0b0000_0101);
    chip8.apply_keypad_value(0x0, false);
    assert_eq!(chip8.keypad_mask(), 0b0000_0100);
}

#[test]
fn check_keypad() {
    let mut chip8 = Chip8::new(&[]);
    chip8.set_keypad_mask(0b0000_0000_0000_0000u16);
    assert_eq!(chip8.check_keypad(), None);
    chip8.set_keypad_mask(0b0000_0000_0000_0001u16);
    assert_eq!(chip8.check_keypad(), Some(0));
    chip8.set_keypad_mask(0b0000_0000_0000_1000u16);
    assert_eq!(chip8.check_keypad(), Some(3));
    chip8.set_keypad_mask(0b0000_0000_0000_1010u16);
    assert_eq!(chip8.check_keypad(), Some(1));
    chip8.set_keypad_mask(0b1010_1010_1010_1010u16);
    assert_eq!(chip8.check_keypad(), Some(1));
}

#[test]
fn keypad_round_trip() {
    let mut chip8 = Chip8::new(&[]);
    chip8.apply_keypad_value(3, true);
    chip8.apply_keypad_value(0, false);
    assert_eq!(chip8.keypad_mask(), 0b0000_1000);
    assert_eq!(chip8.check_keypad(), Some(3));
}

#[test]
fn execute_ldbx() {
    let mut chip8 = Chip8::new(&[]);
    chip8.set_reg(0, 123);
    chip8.set_index_register(456);
    chip8.execute(&Instruction::LDbx { x: 0 }, 0).unwrap();
    assert_eq!(chip8.mem_at(456), 1);
    assert_eq!(chip8.mem_at(457), 2);
    assert_eq!(chip8.mem_at(458), 3);
}

#[test]
fn bcd_edge_values() {
    let mut chip8 = Chip8::new(&[]);
    chip8.set_reg(5, 0);
    chip8.set_index_register(700);
    chip8.execute(&Instruction::LDbx { x: 5 }, 0).unwrap();
    assert_eq!(
        [chip8.mem_at(700), chip8.mem_at(701), chip8.mem_at(702)],
        [0, 0, 0]
    );
    chip8.set_reg(5, 255);
    chip8.execute(&Instruction::LDbx { x: 5 }, 0).unwrap();
    assert_eq!(
        [chip8.mem_at(700), chip8.mem_at(701), chip8.mem_at(702)],
        [2, 5, 5]
    );
}

#[test]
fn execute_drw() {
    let mut chip8 = Chip8::new(&[]);
    chip8.set_reg(0, 2);
    chip8.set_reg(1, 3);
    chip8.set_index_register(456);
    chip8.set_mem(456, 0b00111100);
    chip8.set_mem(457, 0b01000010);
    chip8.set_mem(458, 0b10000001);
    chip8.execute(&Instruction::DRW { x: 0, y: 1, n: 3 }, 0).unwrap();

    assert_eq!(lpix(&chip8, 2, 3), false);
    assert_eq!(lpix(&chip8, 3, 3), false);
    assert_eq!(lpix(&chip8, 4, 3), true);
    assert_eq!(lpix(&chip8, 5, 3), true);
    assert_eq!(lpix(&chip8, 6, 3), true);
    assert_eq!(lpix(&chip8, 7, 3), true);
    assert_eq!(lpix(&chip8, 8, 3), false);
    assert_eq!(lpix(&chip8, 9, 3), false);

    assert_eq!(lpix(&chip8, 2, 4), false);
    assert_eq!(lpix(&chip8, 3, 4), true);
    assert_eq!(lpix(&chip8, 4, 4), false);
    assert_eq!(lpix(&chip8, 5, 4), false);
    assert_eq!(lpix(&chip8, 6, 4), false);
    assert_eq!(lpix(&chip8, 7, 4), false);
    assert_eq!(lpix(&chip8, 8, 4), true);
    assert_eq!(lpix(&chip8, 9, 4), false);

    assert_eq!(lpix(&chip8, 2, 5), true);
    assert_eq!(lpix(&chip8, 3, 5), false);
    assert_eq!(lpix(&chip8, 4, 5), false);
    assert_eq!(lpix(&chip8, 5, 5), false);
    assert_eq!(lpix(&chip8, 6, 5), false);
    assert_eq!(lpix(&chip8, 7, 5), false);
    assert_eq!(lpix(&chip8, 8, 5), false);
    assert_eq!(lpix(&chip8, 9, 5), true);
    assert_eq!(chip8.reg(0xF), 0);
}

#[test]
fn execute_drw_collision() {
    let mut chip8 = Chip8::new(&[]);
    chip8.set_reg(0, 2);
    chip8.set_reg(1, 3);
    chip8.set_index_register(456);
    chip8.set_mem(456, 0b1000_0000);

    chip8.execute(&Instruction::DRW { x: 0, y: 1, n: 1 }, 0).unwrap();
    assert_eq!(chip8.reg(0xF), 0);

    chip8.execute(&Instruction::DRW { x: 0, y: 1, n: 1 }, 0).unwrap();
    assert_eq!(chip8.reg(0xF), 1);
}

#[test]
fn drw_xor_self_cancels() {
    let mut chip8 = Chip8::new(&[]);
    chip8.set_reg(0, 2);
    chip8.set_reg(1, 3);
    chip8.set_index_register(456);
    chip8.set_mem(456, 0b00111100);
    chip8.set_mem(457, 0b01000010);
    chip8.set_mem(458, 0b10000001);
    chip8.execute(&Instruction::DRW { x: 0, y: 1, n: 3 }, 0).unwrap();
    assert_eq!(chip8.reg(0xF), 0);
    chip8.execute(&Instruction::DRW { x: 0, y: 1, n: 3 }, 0).unwrap();
    assert_eq!(chip8.reg(0xF), 1);
    assert!(chip8.get_display().iter().all(|&p| !p));
}

#[test]
fn drw_wraps_toroidally() {
    let mut chip8 = Chip8::new(&[]);
    chip8.execute(&Instruction::HIGH, 0).unwrap();
    chip8.set_reg(0, 126);
    chip8.set_reg(1, 0);
    chip8.set_index_register(900);
    chip8.set_mem(900, 0xFF);
    chip8.execute(&Instruction::DRW { x: 0, y: 1, n: 1 }, 0).unwrap();
    let d = chip8.get_display();
    assert!(d[126] && d[127]);
    for x in 0..6 {
        assert!(d[x], "wrapped pixel {} should be lit", x);
    }
    assert!(!d[6]);
}

#[test]
fn drw16_standard_mode_is_inert() {
    let mut chip8 = Chip8::new(&[]);
    chip8.set_reg(0xF, 1);
    chip8.set_index_register(900);
    chip8.set_mem(900, 0xFF);
    chip8.execute(&Instruction::DRWH { x: 0, y: 1 }, 0).unwrap();
    assert_eq!(chip8.reg(0xF), 0);
    assert!(chip8.get_display().iter().all(|&p| !p));
}

#[test]
fn drw16_extended_mode() {
    let mut chip8 = Chip8::new(&[]);
    chip8.execute(&Instruction::HIGH, 0).unwrap();
    assert!(chip8.is_super_mode());
    chip8.set_index_register(900);
    for k in 0..32 {
        chip8.set_mem(900 + k, 0xFF);
    }
    chip8.set_reg(0, 4);
    chip8.set_reg(1, 2);
    chip8.execute(&Instruction::DRWH { x: 0, y: 1 }, 0).unwrap();
    assert_eq!(chip8.reg(0xF), 0);
    let d = chip8.get_display();
    for y in 2..18 {
        for x in 4..20 {
            assert!(d[y * WIDTH + x]);
        }
    }
    assert!(!d[2 * WIDTH + 3]);
    assert!(!d[2 * WIDTH + 20]);
    assert!(!d[WIDTH + 4]);
    assert!(!d[18 * WIDTH + 4]);
}

#[test]
fn add_sets_carry_flag() {
    let mut chip8 = Chip8::new(&[]);
    chip8.set_reg(1, 200);
    chip8.set_reg(2, 100);
    chip8.execute(&Instruction::ADDxy { x: 1, y: 2 }, 0).unwrap();
    assert_eq!(chip8.reg(1), 44);
    assert_eq!(chip8.reg(0xF), 1);

    chip8.set_reg(3, 1);
    chip8.set_reg(4, 2);
    chip8.execute(&Instruction::ADDxy { x: 3, y: 4 }, 0).unwrap();
    assert_eq!(chip8.reg(3), 3);
    assert_eq!(chip8.reg(0xF), 0);

    chip8.set_reg(5, 255);
    chip8.set_reg(6, 1);
    chip8.execute(&Instruction::ADDxy { x: 5, y: 6 }, 0).unwrap();
    assert_eq!(chip8.reg(5), 0);
    assert_eq!(chip8.reg(0xF), 1);
}

#[test]
fn sub_sets_no_borrow_flag() {
    let mut chip8 = Chip8::new(&[]);
    chip8.set_reg(1, 10);
    chip8.set_reg(2, 3);
    chip8.execute(&Instruction::SUB { x: 1, y: 2 }, 0).unwrap();
    assert_eq!(chip8.reg(1), 7);
    assert_eq!(chip8.reg(0xF), 1);

    chip8.set_reg(3, 3);
    chip8.set_reg(4, 10);
    chip8.execute(&Instruction::SUB { x: 3, y: 4 }, 0).unwrap();
    assert_eq!(chip8.reg(3), 249);
    assert_eq!(chip8.reg(0xF), 0);

    chip8.set_reg(5, 8);
    chip8.set_reg(6, 8);
    chip8.execute(&Instruction::SUB { x: 5, y: 6 }, 0).unwrap();
    assert_eq!(chip8.reg(5), 0);
    assert_eq!(chip8.reg(0xF), 1);
}

#[test]
fn subn_reverses_operands() {
    let mut chip8 = Chip8::new(&[]);
    chip8.set_reg(1, 3);
    chip8.set_reg(2, 10);
    chip8.execute(&Instruction::SUBN { x: 1, y: 2 }, 0).unwrap();
    assert_eq!(chip8.reg(1), 7);
    assert_eq!(chip8.reg(0xF), 1);

    chip8.set_reg(3, 10);
    chip8.set_reg(4, 3);
    chip8.execute(&Instruction::SUBN { x: 3, y: 4 }, 0).unwrap();
    assert_eq!(chip8.reg(3), 249);
    assert_eq!(chip8.reg(0xF), 0);
}

#[test]
fn shifts_capture_the_outgoing_bit() {
    let mut chip8 = Chip8::new(&[]);
    chip8.set_reg(0, 0b1000_0001);
    chip8.execute(&Instruction::SHL { x: 0, y: 7 }, 0).unwrap();
    assert_eq!(chip8.reg(0), 0b0000_0010);
    assert_eq!(chip8.reg(0xF), 1);

    chip8.set_reg(1, 0b1000_0001);
    chip8.execute(&Instruction::SHR { x: 1, y: 7 }, 0).unwrap();
    assert_eq!(chip8.reg(1), 0b0100_0000);
    assert_eq!(chip8.reg(0xF), 1);

    chip8.set_reg(2, 0b0000_1111);
    chip8.execute(&Instruction::SHL { x: 2, y: 7 }, 0).unwrap();
    assert_eq!(chip8.reg(2), 0b0001_1110);
    assert_eq!(chip8.reg(0xF), 0);
}

#[test]
fn logic_ops() {
    let mut chip8 = Chip8::new(&[]);
    chip8.set_reg(1, 0b1100);
    chip8.set_reg(2, 0b1010);
    chip8.execute(&Instruction::AND { x: 1, y: 2 }, 0).unwrap();
    assert_eq!(chip8.reg(1), 0b1000);
    chip8.set_reg(1, 0b1100);
    chip8.execute(&Instruction::OR { x: 1, y: 2 }, 0).unwrap();
    assert_eq!(chip8.reg(1), 0b1110);
    chip8.set_reg(1, 0b1100);
    chip8.execute(&Instruction::XOR { x: 1, y: 2 }, 0).unwrap();
    assert_eq!(chip8.reg(1), 0b0110);
}

#[test]
fn timer_floors_at_zero() {
    let mut chip8 = Chip8::new(&[]);
    assert_eq!(chip8.delay_timer(), 0);
    chip8.decrement_counter();
    assert_eq!(chip8.delay_timer(), 0);

    chip8.set_delay_timer(5);
    for _ in 0..5 {
        chip8.decrement_counter();
    }
    assert_eq!(chip8.delay_timer(), 0);
    chip8.decrement_counter();
    assert_eq!(chip8.delay_timer(), 0);
}

#[test]
fn timer_transfers() {
    let mut chip8 = Chip8::new(&[]);
    chip8.set_reg(2, 42);
    chip8.execute(&Instruction::LDtx { x: 2 }, 0).unwrap();
    assert_eq!(chip8.delay_timer(), 42);
    chip8.execute(&Instruction::LDxt { x: 3 }, 0).unwrap();
    assert_eq!(chip8.reg(3), 42);
}

#[test]
fn new_loads_font_and_program() {
    let chip8 = Chip8::new(&[0xA1, 0x23, 0x55]);
    assert_eq!(chip8.mem_at(0), 0xF0);
    assert_eq!(chip8.mem_at(79), 0x80);
    assert_eq!(chip8.mem_at(80), 0);
    assert_eq!(chip8.mem_at(511), 0);
    assert_eq!(chip8.mem_at(512), 0xA1);
    assert_eq!(chip8.mem_at(513), 0x23);
    assert_eq!(chip8.mem_at(514), 0x55);
    assert_eq!(chip8.mem_at(515), 0);
    assert_eq!(chip8.program_counter(), 512);
    assert_eq!(chip8.index_register(), 0);
    assert_eq!(chip8.get_display().len(), WIDTH * HEIGHT);
    assert!(chip8.get_display().iter().all(|&p| !p));
    assert!(!chip8.is_super_mode());
}

#[test]
fn tick_advances_pc_by_two() {
    let mut chip8 = Chip8::new(&[0x60, 0x0A]);
    let pc0 = chip8.program_counter();
    let decoded = chip8.tick().unwrap();
    assert_eq!(decoded, Instruction::LDxkk { x: 0, kk: 0x0A });
    assert_eq!(chip8.reg(0), 0x0A);
    assert_eq!(chip8.program_counter(), pc0 + 2);
}

#[test]
fn tick_fetches_big_endian() {
    let mut chip8 = Chip8::new(&[0xA1, 0x23]);
    assert_eq!(chip8.tick().unwrap(), Instruction::LDnnn { nnn: 0x123 });
    assert_eq!(chip8.index_register(), 0x123);
}

#[test]
fn tick_key_wait_rewinds_until_pressed() {
    let mut chip8 = Chip8::new(&[0xF5, 0x0A]);
    assert_eq!(chip8.tick().unwrap(), Instruction::LDx { x: 5 });
    assert_eq!(chip8.program_counter(), 512);
    chip8.apply_keypad_value(0x7, true);
    assert_eq!(chip8.tick().unwrap(), Instruction::LDx { x: 5 });
    assert_eq!(chip8.reg(5), 0x7);
    assert_eq!(chip8.program_counter(), 514);
}

#[test]
fn skips_add_two_when_taken() {
    let mut chip8 = Chip8::new(&[]);
    chip8.set_reg(1, 9);
    chip8.execute(&Instruction::SExkk { x: 1, kk: 9 }, 0).unwrap();
    assert_eq!(chip8.program_counter(), 514);
    chip8.execute(&Instruction::SExkk { x: 1, kk: 8 }, 0).unwrap();
    assert_eq!(chip8.program_counter(), 514);
    chip8.execute(&Instruction::SNExkk { x: 1, kk: 8 }, 0).unwrap();
    assert_eq!(chip8.program_counter(), 516);
    chip8.set_reg(2, 9);
    chip8.execute(&Instruction::SExy { x: 1, y: 2 }, 0).unwrap();
    assert_eq!(chip8.program_counter(), 518);
    chip8.execute(&Instruction::SNExy { x: 1, y: 2 }, 0).unwrap();
    assert_eq!(chip8.program_counter(), 518);
}

#[test]
fn keypad_skips() {
    let mut chip8 = Chip8::new(&[]);
    chip8.set_reg(0, 0x4);
    chip8.apply_keypad_value(0x4, true);
    chip8.execute(&Instruction::SKP { x: 0 }, 0).unwrap();
    assert_eq!(chip8.program_counter(), 514);
    chip8.execute(&Instruction::SKNP { x: 0 }, 0).unwrap();
    assert_eq!(chip8.program_counter(), 514);
    chip8.apply_keypad_value(0x4, false);
    chip8.execute(&Instruction::SKNP { x: 0 }, 0).unwrap();
    assert_eq!(chip8.program_counter(), 516);
}

#[test]
fn call_and_ret_round_trip() {
    let mut chip8 = Chip8::new(&[]);
    chip8.execute(&Instruction::CALL { nnn: 0x300 }, 0).unwrap();
    assert_eq!(chip8.program_counter(), 0x300);
    chip8.execute(&Instruction::RET, 0).unwrap();
    assert_eq!(chip8.program_counter(), 512);
}

#[test]
fn jumps() {
    let mut chip8 = Chip8::new(&[]);
    chip8.execute(&Instruction::JPnnn { nnn: 0x400 }, 0).unwrap();
    assert_eq!(chip8.program_counter(), 0x400);
    chip8.set_reg(0, 4);
    chip8.execute(&Instruction::JPnnnv { nnn: 0x300 }, 0).unwrap();
    assert_eq!(chip8.program_counter(), 0x304);
}

#[test]
fn index_register_ops() {
    let mut chip8 = Chip8::new(&[]);
    chip8.execute(&Instruction::LDnnn { nnn: 10 }, 0).unwrap();
    assert_eq!(chip8.index_register(), 10);
    chip8.set_reg(1, 5);
    chip8.execute(&Instruction::ADDix { x: 1 }, 0).unwrap();
    assert_eq!(chip8.index_register(), 15);
    chip8.set_reg(2, 0xA);
    chip8.execute(&Instruction::LDfx { x: 2 }, 0).unwrap();
    assert_eq!(chip8.index_register(), 50);
}

#[test]
fn block_store_and_load_leave_index_unmodified() {
    let mut chip8 = Chip8::new(&[]);
    chip8.set_reg(0, 11);
    chip8.set_reg(1, 22);
    chip8.set_reg(2, 33);
    chip8.set_index_register(600);
    chip8.execute(&Instruction::LDix { x: 2 }, 0).unwrap();
    assert_eq!(chip8.mem_at(600), 11);
    assert_eq!(chip8.mem_at(601), 22);
    assert_eq!(chip8.mem_at(602), 33);
    assert_eq!(chip8.mem_at(603), 0);
    assert_eq!(chip8.index_register(), 600);

    chip8.set_mem(601, 99);
    chip8.execute(&Instruction::LDxi { x: 2 }, 0).unwrap();
    assert_eq!(chip8.reg(0), 11);
    assert_eq!(chip8.reg(1), 99);
    assert_eq!(chip8.reg(2), 33);
    assert_eq!(chip8.reg(3), 0);
    assert_eq!(chip8.index_register(), 600);
}

#[test]
fn rnd_masks_the_random_byte() {
    let mut chip8 = Chip8::new(&[0xC1, 0x00, 0xC2, 0x0F]);
    chip8.set_reg(1, 0xAA);
    chip8.tick().unwrap();
    assert_eq!(chip8.reg(1), 0);
    chip8.tick().unwrap();
    assert!(chip8.reg(2) < 16);
}

#[test]
fn rnd_uses_the_supplied_byte() {
    let mut chip8 = Chip8::new(&[]);
    chip8.execute(&Instruction::RND { x: 1, kk: 0xF0 }, 0b1010_1010).unwrap();
    assert_eq!(chip8.reg(1), 0b1010_0000);
}

#[test]
fn cls_clears_everything() {
    let mut chip8 = Chip8::new(&[]);
    chip8.set_index_register(456);
    chip8.set_mem(456, 0xFF);
    chip8.execute(&Instruction::DRW { x: 0, y: 0, n: 1 }, 0).unwrap();
    assert!(chip8.get_display().iter().any(|&p| p));
    chip8.execute(&Instruction::CLS, 0).unwrap();
    assert!(chip8.get_display().iter().all(|&p| !p));
}

#[test]
fn mode_switch_toggles_flag_only() {
    let mut chip8 = Chip8::new(&[]);
    chip8.set_index_register(456);
    chip8.set_mem(456, 0x80);
    chip8.execute(&Instruction::DRW { x: 0, y: 0, n: 1 }, 0).unwrap();
    chip8.execute(&Instruction::HIGH, 0).unwrap();
    assert!(chip8.is_super_mode());
    assert!(chip8.get_display()[0]);
    chip8.execute(&Instruction::LOW, 0).unwrap();
    assert!(!chip8.is_super_mode());
    assert!(chip8.get_display()[0]);
}

#[test]
fn register_transfers() {
    let mut chip8 = Chip8::new(&[]);
    chip8.set_reg(7, 0x5C);
    chip8.execute(&Instruction::LDxy { x: 2, y: 7 }, 0).unwrap();
    assert_eq!(chip8.reg(2), 0x5C);
    chip8.execute(&Instruction::LDxkk { x: 2, kk: 0x11 }, 0).unwrap();
    assert_eq!(chip8.reg(2), 0x11);
    chip8.execute(&Instruction::ADDxkk { x: 2, kk: 0xFF }, 0).unwrap();
    assert_eq!(chip8.reg(2), 0x10);
}

#[test]
fn sound_timer_is_inert() {
    let mut chip8 = Chip8::new(&[]);
    let before = chip8.program_counter();
    chip8.execute(&Instruction::LDsx { x: 3 }, 0).unwrap();
    assert_eq!(chip8.program_counter(), before);
    assert_eq!(chip8.delay_timer(), 0);
}
