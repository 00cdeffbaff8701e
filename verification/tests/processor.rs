use chip8_core::display::{cell, color, Cell, Rgb, SCALE_FACTOR, WINDOW_HEIGHT, WINDOW_WIDTH};
use chip8_core::fault::Fault;
use chip8_core::font::FONTSET;
use chip8_core::processor::Processor;

const NO_KEYS: [bool; 16] = [false; 16];

fn machine_with(rom: &[u8]) -> Processor {
    let mut p = Processor::new();
    assert_eq!(p.load_rom(rom), Ok(()));
    p
}

fn lit_pixels(p: &Processor) -> usize {
    let mut count = 0;
    for row in p.framebuffer().iter() {
        for &pixel in row.iter() {
            assert!(pixel <= 1);
            count += pixel as usize;
        }
    }
    count
}

#[test]
fn power_on_state() {
    let p = Processor::new();
    for x in 0..16 {
        assert_eq!(p.register(x), 0);
        assert_eq!(p.stack_at(x), 0);
    }
    assert_eq!(p.sp(), 0);
    assert_eq!(p.index(), 0);
    assert_eq!(p.delay_timer(), 0);
    assert_eq!(p.sound_timer(), 0);
    assert!(!p.sound_on());
    assert_eq!(p.opcode(), 0);
    assert_eq!(p.pc(), 0x200);
    assert_eq!(lit_pixels(&p), 0);
    for i in 0..80 {
        assert_eq!(p.memory_at(0x050 + i), FONTSET[i]);
    }
    for a in (0..0x050).chain(0x0A0..4096) {
        assert_eq!(p.memory_at(a), 0);
    }
}

#[test]
fn font_glyphs_match_the_published_table() {
    assert_eq!(&FONTSET[0..5], &[0xF0, 0x90, 0x90, 0x90, 0xF0]);
    assert_eq!(&FONTSET[5..10], &[0x20, 0x60, 0x20, 0x20, 0x70]);
    assert_eq!(&FONTSET[35..40], &[0xF0, 0x10, 0x20, 0x40, 0x40]);
    assert_eq!(&FONTSET[50..55], &[0xF0, 0x90, 0xF0, 0x90, 0x90]);
    assert_eq!(&FONTSET[75..80], &[0xF0, 0x80, 0xF0, 0x80, 0x80]);
}

#[test]
fn load_rom_copies_to_entry_address() {
    let p = machine_with(&[0xAA, 0xBB, 0xCC]);
    assert_eq!(p.memory_at(0x1FF), 0);
    assert_eq!(p.memory_at(0x200), 0xAA);
    assert_eq!(p.memory_at(0x201), 0xBB);
    assert_eq!(p.memory_at(0x202), 0xCC);
    assert_eq!(p.memory_at(0x203), 0);
    assert_eq!(p.pc(), 0x200);
}

#[test]
fn load_rom_accepts_the_largest_image() {
    let rom = vec![0x5A; 4096 - 0x200];
    let p = machine_with(&rom);
    assert_eq!(p.memory_at(0x200), 0x5A);
    assert_eq!(p.memory_at(4095), 0x5A);
}

#[test]
fn load_rom_refuses_an_image_too_large() {
    let rom = vec![0x5A; 4096 - 0x200 + 1];
    let mut p = Processor::new();
    assert_eq!(p.load_rom(&rom), Err(Fault::RomTooLarge));
    assert_eq!(p.memory_at(0x200), 0);
    assert_eq!(p.memory_at(4095), 0);
}

#[test]
fn jump_self() {
    let mut p = machine_with(&[0x12, 0x00]);
    assert_eq!(p.tick(NO_KEYS), Ok(()));
    assert_eq!(p.pc(), 0x200);
    assert_eq!(p.opcode(), 0x1200);
}

#[test]
fn add_with_carry() {
    let mut p = machine_with(&[0x60, 0xFF, 0x61, 0x01, 0x80, 0x14]);
    for _ in 0..3 {
        assert_eq!(p.tick(NO_KEYS), Ok(()));
    }
    assert_eq!(p.register(0), 0x00);
    assert_eq!(p.register(0xF), 1);
    assert_eq!(p.pc(), 0x206);
}

#[test]
fn bcd() {
    let mut p = Processor::new();
    p.op_6xkk(0, 123);
    p.op_annn(0x300);
    assert_eq!(p.op_fx33(0), Ok(()));
    assert_eq!(p.memory_at(0x300), 1);
    assert_eq!(p.memory_at(0x301), 2);
    assert_eq!(p.memory_at(0x302), 3);
    assert_eq!(p.index(), 0x300);
}

#[test]
fn bcd_then_fill_recovers_digits() {
    let mut p = Processor::new();
    p.op_6xkk(7, 209);
    p.op_annn(0x400);
    assert_eq!(p.op_fx33(7), Ok(()));
    assert_eq!(p.op_fx65(2), Ok(()));
    assert_eq!(p.register(0), 2);
    assert_eq!(p.register(1), 0);
    assert_eq!(p.register(2), 9);
    assert_eq!(p.register(7), 209);
    assert_eq!(p.index(), 0x400);
}

#[test]
fn font_lookup() {
    let mut p = machine_with(&[0xF0, 0x29]);
    p.op_6xkk(0, 0x0A);
    assert_eq!(p.tick(NO_KEYS), Ok(()));
    assert_eq!(p.index(), 0x082);
}

#[test]
fn font_lookup_uses_low_nibble() {
    let mut p = Processor::new();
    p.op_6xkk(3, 0x1A);
    p.op_fx29(3);
    assert_eq!(p.index(), 0x050 + 5 * 10);
}

#[test]
fn draw_and_collide() {
    let mut p = Processor::new();
    p.op_annn(0x050);
    p.op_6xkk(0, 0);
    p.op_6xkk(1, 0);
    assert_eq!(p.op_dxyn(0, 1, 5), Ok(()));
    assert_eq!(p.register(0xF), 0);
    let glyph: [u8; 5] = [0xF0, 0x90, 0x90, 0x90, 0xF0];
    for y in 0..32 {
        for x in 0..64 {
            let expected = y < 5 && x < 8 && (glyph[y] >> (7 - x)) & 1 == 1;
            assert_eq!(p.pixel(x, y), expected);
            assert_eq!(p.framebuffer()[y][x], expected as u8);
        }
    }
    assert_eq!(lit_pixels(&p), 14);
    assert_eq!(p.op_dxyn(0, 1, 5), Ok(()));
    assert_eq!(lit_pixels(&p), 0);
    assert_eq!(p.register(0xF), 1);
}

#[test]
fn draw_through_tick() {
    let mut p = machine_with(&[0xA0, 0x50, 0xD0, 0x15, 0xD0, 0x15]);
    assert_eq!(p.tick(NO_KEYS), Ok(()));
    assert_eq!(p.tick(NO_KEYS), Ok(()));
    assert_eq!(lit_pixels(&p), 14);
    assert_eq!(p.register(0xF), 0);
    assert_eq!(p.tick(NO_KEYS), Ok(()));
    assert_eq!(lit_pixels(&p), 0);
    assert_eq!(p.register(0xF), 1);
    assert_eq!(p.pc(), 0x206);
}

#[test]
fn draw_wraps_at_both_edges() {
    let mut p = machine_with(&[0xFF, 0x81]);
    p.op_annn(0x200);
    p.op_6xkk(0, 60 + 64);
    p.op_6xkk(1, 31 + 32);
    assert_eq!(p.op_dxyn(0, 1, 2), Ok(()));
    for x in [60, 61, 62, 63, 0, 1, 2, 3] {
        assert!(p.pixel(x, 31));
    }
    assert!(p.pixel(60, 0));
    assert!(p.pixel(3, 0));
    assert!(!p.pixel(61, 0));
    assert!(!p.pixel(0, 0));
    assert_eq!(lit_pixels(&p), 10);
    assert_eq!(p.register(0xF), 0);
}

#[test]
fn draw_partial_collision_sets_flag_and_xors() {
    let mut p = machine_with(&[0xC0, 0x60]);
    p.op_annn(0x200);
    assert_eq!(p.op_dxyn(0, 0, 1), Ok(()));
    assert!(p.pixel(0, 0) && p.pixel(1, 0));
    p.op_annn(0x201);
    assert_eq!(p.op_dxyn(0, 0, 1), Ok(()));
    assert!(p.pixel(0, 0));
    assert!(!p.pixel(1, 0));
    assert!(p.pixel(2, 0));
    assert_eq!(p.register(0xF), 1);
}

#[test]
fn draw_of_no_rows_clears_flag() {
    let mut p = Processor::new();
    p.op_6xkk(0xF, 7);
    p.op_annn(0xFFFF);
    assert_eq!(p.op_dxyn(0, 1, 0), Ok(()));
    assert_eq!(p.register(0xF), 0);
    assert_eq!(lit_pixels(&p), 0);
}

#[test]
fn draw_takes_coordinates_before_clearing_flag() {
    let mut p = machine_with(&[0x80]);
    p.op_annn(0x200);
    p.op_6xkk(0xF, 5);
    p.op_6xkk(0, 2);
    assert_eq!(p.op_dxyn(0xF, 0, 1), Ok(()));
    assert!(p.pixel(5, 2));
    assert_eq!(lit_pixels(&p), 1);
    assert_eq!(p.register(0xF), 0);
}

#[test]
fn draw_past_end_of_memory_faults() {
    let mut p = Processor::new();
    p.op_annn(4095);
    assert_eq!(p.op_dxyn(0, 0, 2), Err(Fault::AddressOutOfRange));
    assert_eq!(lit_pixels(&p), 0);
    assert_eq!(p.op_dxyn(0, 0, 1), Ok(()));
}

#[test]
fn clear_screen() {
    let mut p = Processor::new();
    p.op_annn(0x050);
    assert_eq!(p.op_dxyn(0, 0, 5), Ok(()));
    assert!(lit_pixels(&p) > 0);
    p.op_00e0();
    assert_eq!(lit_pixels(&p), 0);
}

#[test]
fn key_wait() {
    let mut p = machine_with(&[0xF0, 0x0A]);
    p.op_6xkk(0, 0x33);
    for _ in 0..5 {
        assert_eq!(p.tick(NO_KEYS), Ok(()));
        assert_eq!(p.pc(), 0x200);
        assert_eq!(p.register(0), 0x33);
    }
    let mut keys = NO_KEYS;
    keys[7] = true;
    assert_eq!(p.tick(keys), Ok(()));
    assert_eq!(p.register(0), 7);
    assert_eq!(p.pc(), 0x202);
}

#[test]
fn key_wait_takes_lowest_key() {
    let mut p = machine_with(&[0xF4, 0x0A]);
    let mut keys = NO_KEYS;
    keys[0xC] = true;
    keys[3] = true;
    keys[9] = true;
    assert_eq!(p.tick(keys), Ok(()));
    assert_eq!(p.register(4), 3);
}

#[test]
fn key_wait_lets_timers_run() {
    let mut p = machine_with(&[0xF0, 0x0A]);
    p.op_6xkk(1, 3);
    p.op_fx15(1);
    p.op_fx18(1);
    assert_eq!(p.tick(NO_KEYS), Ok(()));
    assert_eq!(p.tick(NO_KEYS), Ok(()));
    assert_eq!(p.delay_timer(), 1);
    assert_eq!(p.sound_timer(), 1);
    assert!(p.sound_on());
    assert_eq!(p.tick(NO_KEYS), Ok(()));
    assert_eq!(p.tick(NO_KEYS), Ok(()));
    assert_eq!(p.delay_timer(), 0);
    assert_eq!(p.sound_timer(), 0);
    assert!(!p.sound_on());
}

#[test]
fn timers_step_once_per_tick() {
    let mut p = machine_with(&[0x60, 0x02, 0xF0, 0x15, 0x12, 0x04]);
    assert_eq!(p.tick(NO_KEYS), Ok(()));
    assert_eq!(p.tick(NO_KEYS), Ok(()));
    assert_eq!(p.delay_timer(), 2);
    assert_eq!(p.tick(NO_KEYS), Ok(()));
    assert_eq!(p.delay_timer(), 1);
    assert_eq!(p.tick(NO_KEYS), Ok(()));
    assert_eq!(p.delay_timer(), 0);
    assert_eq!(p.tick(NO_KEYS), Ok(()));
    assert_eq!(p.delay_timer(), 0);
}

#[test]
fn delay_timer_read_sees_stepped_value() {
    let mut p = machine_with(&[0xF2, 0x07]);
    p.op_6xkk(0, 9);
    p.op_fx15(0);
    assert_eq!(p.tick(NO_KEYS), Ok(()));
    assert_eq!(p.register(2), 8);
}

#[test]
fn op_8xy4_carry() {
    let mut p = Processor::new();
    p.op_6xkk(0, 0xFF);
    p.op_6xkk(1, 0x01);
    p.op_8xy4(0, 1);
    assert_eq!(p.register(0), 0x00);
    assert_eq!(p.register(0xF), 1);
    p.op_6xkk(0, 0x10);
    p.op_6xkk(1, 0x20);
    p.op_8xy4(0, 1);
    assert_eq!(p.register(0), 0x30);
    assert_eq!(p.register(0xF), 0);
}

#[test]
fn op_8xy5_borrow() {
    let mut p = Processor::new();
    p.op_6xkk(0, 0x05);
    p.op_6xkk(1, 0x03);
    p.op_8xy5(0, 1);
    assert_eq!(p.register(0), 0x02);
    assert_eq!(p.register(0xF), 1);
    p.op_6xkk(0, 0x03);
    p.op_6xkk(1, 0x05);
    p.op_8xy5(0, 1);
    assert_eq!(p.register(0), 0xFE);
    assert_eq!(p.register(0xF), 0);
    p.op_6xkk(0, 0x07);
    p.op_6xkk(1, 0x07);
    p.op_8xy5(0, 1);
    assert_eq!(p.register(0), 0);
    assert_eq!(p.register(0xF), 0);
}

#[test]
fn op_8xy7_reverse_subtract() {
    let mut p = Processor::new();
    p.op_6xkk(0, 0x03);
    p.op_6xkk(1, 0x05);
    p.op_8xy7(0, 1);
    assert_eq!(p.register(0), 0x02);
    assert_eq!(p.register(0xF), 1);
    p.op_6xkk(0, 0x05);
    p.op_6xkk(1, 0x03);
    p.op_8xy7(0, 1);
    assert_eq!(p.register(0), 0xFE);
    assert_eq!(p.register(0xF), 0);
}

#[test]
fn shifts_put_lost_bit_in_flag() {
    let mut p = Processor::new();
    p.op_6xkk(2, 0b1000_0101);
    p.op_8xy6(2);
    assert_eq!(p.register(2), 0b0100_0010);
    assert_eq!(p.register(0xF), 1);
    p.op_8xy6(2);
    assert_eq!(p.register(2), 0b0010_0001);
    assert_eq!(p.register(0xF), 0);
    p.op_6xkk(2, 0b1100_0001);
    p.op_8xye(2);
    assert_eq!(p.register(2), 0b1000_0010);
    assert_eq!(p.register(0xF), 1);
    p.op_6xkk(2, 0b0100_0001);
    p.op_8xye(2);
    assert_eq!(p.register(2), 0b1000_0010);
    assert_eq!(p.register(0xF), 0);
}

#[test]
fn flag_wins_when_destination_is_flag_register() {
    let mut p = Processor::new();
    p.op_6xkk(0xF, 0xFF);
    p.op_6xkk(1, 0x02);
    p.op_8xy4(0xF, 1);
    assert_eq!(p.register(0xF), 1);
    p.op_6xkk(0xF, 0x10);
    p.op_8xy4(0xF, 1);
    assert_eq!(p.register(0xF), 0);
    p.op_6xkk(0xF, 0x09);
    p.op_8xy5(0xF, 1);
    assert_eq!(p.register(0xF), 1);
    p.op_6xkk(0xF, 0x03);
    p.op_8xy6(0xF);
    assert_eq!(p.register(0xF), 1);
    p.op_6xkk(0xF, 0x80);
    p.op_8xye(0xF);
    assert_eq!(p.register(0xF), 1);
    p.op_6xkk(0xF, 0x01);
    p.op_8xy7(0xF, 1);
    assert_eq!(p.register(0xF), 1);
}

#[test]
fn logic_and_moves() {
    let mut p = Processor::new();
    p.op_6xkk(0, 0b1100);
    p.op_6xkk(1, 0b1010);
    p.op_8xy1(0, 1);
    assert_eq!(p.register(0), 0b1110);
    p.op_6xkk(0, 0b1100);
    p.op_8xy2(0, 1);
    assert_eq!(p.register(0), 0b1000);
    p.op_6xkk(0, 0b1100);
    p.op_8xy3(0, 1);
    assert_eq!(p.register(0), 0b0110);
    p.op_8xy0(0, 1);
    assert_eq!(p.register(0), 0b1010);
    assert_eq!(p.register(0xF), 0);
}

#[test]
fn add_immediate_wraps_and_keeps_flag() {
    let mut p = Processor::new();
    p.op_6xkk(0xF, 0x55);
    p.op_6xkk(4, 0xF0);
    p.op_7xkk(4, 0x20);
    assert_eq!(p.register(4), 0x10);
    assert_eq!(p.register(0xF), 0x55);
}

#[test]
fn add_index_wraps_at_sixteen_bits() {
    let mut p = Processor::new();
    p.op_annn(0xFFFF);
    p.op_6xkk(0, 2);
    p.op_fx1e(0);
    assert_eq!(p.index(), 1);
    p.op_annn(0x0FFF);
    p.op_fx1e(0);
    assert_eq!(p.index(), 0x1001);
}

#[test]
fn skips() {
    let mut p = Processor::new();
    p.op_6xkk(0, 7);
    p.op_6xkk(1, 7);
    p.op_6xkk(2, 8);
    assert_eq!(p.op_3xkk(0, 7), Ok(()));
    assert_eq!(p.pc(), 0x202);
    assert_eq!(p.op_3xkk(0, 8), Ok(()));
    assert_eq!(p.pc(), 0x202);
    assert_eq!(p.op_4xkk(0, 8), Ok(()));
    assert_eq!(p.pc(), 0x204);
    assert_eq!(p.op_4xkk(0, 7), Ok(()));
    assert_eq!(p.pc(), 0x204);
    assert_eq!(p.op_5xy0(0, 1), Ok(()));
    assert_eq!(p.pc(), 0x206);
    assert_eq!(p.op_5xy0(0, 2), Ok(()));
    assert_eq!(p.pc(), 0x206);
    assert_eq!(p.op_9xy0(0, 2), Ok(()));
    assert_eq!(p.pc(), 0x208);
    assert_eq!(p.op_9xy0(0, 1), Ok(()));
    assert_eq!(p.pc(), 0x208);
}

#[test]
fn key_skips_use_low_nibble() {
    let mut p = machine_with(&[0xE0, 0x9E, 0xE0, 0xA1, 0xE0, 0xA1, 0x00, 0xE0, 0xE0, 0x9E]);
    p.op_6xkk(0, 0x17);
    let mut keys = NO_KEYS;
    keys[7] = true;
    assert_eq!(p.tick(keys), Ok(()));
    assert_eq!(p.pc(), 0x204);
    assert_eq!(p.tick(keys), Ok(()));
    assert_eq!(p.pc(), 0x206);
    assert_eq!(p.tick(NO_KEYS), Ok(()));
    assert_eq!(p.pc(), 0x208);
    assert_eq!(p.tick(NO_KEYS), Ok(()));
    assert_eq!(p.pc(), 0x20A);
}

#[test]
fn call_then_ret() {
    let mut p = machine_with(&[0x23, 0x00]);
    assert_eq!(p.load_rom(&{
        let mut rom = vec![0u8; 0x102];
        rom[0] = 0x23;
        rom[1] = 0x00;
        rom[0x100] = 0x00;
        rom[0x101] = 0xEE;
        rom
    }), Ok(()));
    assert_eq!(p.tick(NO_KEYS), Ok(()));
    assert_eq!(p.pc(), 0x300);
    assert_eq!(p.sp(), 1);
    assert_eq!(p.stack_at(0), 0x202);
    assert_eq!(p.tick(NO_KEYS), Ok(()));
    assert_eq!(p.pc(), 0x202);
    assert_eq!(p.sp(), 0);
}

#[test]
fn jump_with_offset() {
    let mut p = Processor::new();
    p.op_6xkk(0, 0x10);
    assert_eq!(p.op_bnnn(0x300), Ok(()));
    assert_eq!(p.pc(), 0x310);
    p.op_6xkk(0, 0xFF);
    assert_eq!(p.op_bnnn(0xFFF), Err(Fault::AddressOutOfRange));
    assert_eq!(p.pc(), 0x310);
}

#[test]
fn store_and_fill_leave_index() {
    let mut p = Processor::new();
    for x in 0..16 {
        p.op_6xkk(x, 0x10 + x as u8);
    }
    p.op_annn(0x300);
    assert_eq!(p.op_fx55(3), Ok(()));
    assert_eq!(p.index(), 0x300);
    for i in 0..4 {
        assert_eq!(p.memory_at(0x300 + i), 0x10 + i as u8);
    }
    assert_eq!(p.memory_at(0x304), 0);
    for x in 0..16 {
        p.op_6xkk(x, 0);
    }
    assert_eq!(p.op_fx65(2), Ok(()));
    assert_eq!(p.register(0), 0x10);
    assert_eq!(p.register(1), 0x11);
    assert_eq!(p.register(2), 0x12);
    assert_eq!(p.register(3), 0);
    assert_eq!(p.index(), 0x300);
    assert_eq!(p.op_fx55(0), Ok(()));
    assert_eq!(p.memory_at(0x300), 0x10);
    assert_eq!(p.memory_at(0x301), 0x11);
}

#[test]
fn memory_access_past_the_end_faults() {
    let mut p = Processor::new();
    p.op_annn(4094);
    assert_eq!(p.op_fx33(0), Err(Fault::AddressOutOfRange));
    assert_eq!(p.op_fx55(2), Err(Fault::AddressOutOfRange));
    assert_eq!(p.op_fx65(2), Err(Fault::AddressOutOfRange));
    assert_eq!(p.op_fx55(1), Ok(()));
    assert_eq!(p.op_fx65(1), Ok(()));
    p.op_annn(4093);
    assert_eq!(p.op_fx33(0), Ok(()));
}

#[test]
fn unknown_opcode_is_reported_and_changes_nothing() {
    let mut p = machine_with(&[0x60, 0x05, 0xF0, 0x15, 0x5A, 0xB1]);
    assert_eq!(p.tick(NO_KEYS), Ok(()));
    assert_eq!(p.tick(NO_KEYS), Ok(()));
    let mut keys = NO_KEYS;
    keys[1] = true;
    assert_eq!(p.tick(keys), Err(Fault::UnknownOpcode { opcode: 0x5AB1, pc: 0x204 }));
    assert_eq!(p.pc(), 0x204);
    assert_eq!(p.delay_timer(), 5);
    assert_eq!(p.opcode(), 0xF015);
}

#[test]
fn unknown_opcodes_of_every_family() {
    for word in [0x0000u16, 0x00E1, 0x0123, 0x5001, 0x8008, 0x800F, 0x9001, 0xE09F, 0xE0A0, 0xF000, 0xF0FF, 0xF056] {
        let mut p = machine_with(&[(word >> 8) as u8, word as u8]);
        assert_eq!(p.tick(NO_KEYS), Err(Fault::UnknownOpcode { opcode: word, pc: 0x200 }));
    }
}

#[test]
fn return_with_empty_stack_faults() {
    let mut p = machine_with(&[0x00, 0xEE]);
    assert_eq!(p.tick(NO_KEYS), Err(Fault::StackUnderflow));
    assert_eq!(p.pc(), 0x200);
    assert_eq!(p.sp(), 0);
}

#[test]
fn seventeenth_call_faults() {
    let mut p = machine_with(&[0x22, 0x00]);
    for depth in 0..16 {
        assert_eq!(p.tick(NO_KEYS), Ok(()));
        assert_eq!(p.sp(), depth + 1);
        assert_eq!(p.stack_at(depth as usize), 0x202);
    }
    assert_eq!(p.tick(NO_KEYS), Err(Fault::StackOverflow));
    assert_eq!(p.sp(), 16);
    assert_eq!(p.pc(), 0x200);
}

#[test]
fn jumps_past_the_end_of_memory_fault() {
    let mut p = Processor::new();
    assert_eq!(p.op_1nnn(0xFFE), Ok(()));
    assert_eq!(p.op_1nnn(0x1000), Err(Fault::AddressOutOfRange));
    assert_eq!(p.op_2nnn(0x1000), Err(Fault::AddressOutOfRange));
    assert_eq!(p.sp(), 0);
    assert_eq!(p.op_3xkk(0, 0), Err(Fault::AddressOutOfRange));
    assert_eq!(p.pc(), 0xFFE);
    assert_eq!(p.tick(NO_KEYS), Err(Fault::UnknownOpcode { opcode: 0x0000, pc: 0xFFE }));
    assert_eq!(p.pc(), 0xFFE);
}

#[test]
fn fetch_needs_both_bytes_in_memory() {
    let mut p = Processor::new();
    assert_eq!(p.op_1nnn(0xFFF), Ok(()));
    assert_eq!(p.tick(NO_KEYS), Err(Fault::AddressOutOfRange));
    assert_eq!(p.pc(), 0xFFF);
}

fn rom_ending_in(hi: u8, lo: u8) -> Vec<u8> {
    let mut rom = vec![0u8; 4096 - 0x200];
    rom[0] = 0x1F;
    rom[1] = 0xFE;
    rom[0xDFE] = hi;
    rom[0xDFF] = lo;
    rom
}

#[test]
fn jump_in_the_last_word_of_memory_runs() {
    let mut p = machine_with(&rom_ending_in(0x12, 0x00));
    assert_eq!(p.tick(NO_KEYS), Ok(()));
    assert_eq!(p.pc(), 0xFFE);
    assert_eq!(p.tick(NO_KEYS), Ok(()));
    assert_eq!(p.pc(), 0x200);
    assert_eq!(p.opcode(), 0x1200);
}

#[test]
fn key_wait_in_the_last_word_of_memory_holds() {
    let mut p = machine_with(&rom_ending_in(0xF0, 0x0A));
    assert_eq!(p.tick(NO_KEYS), Ok(()));
    for _ in 0..3 {
        assert_eq!(p.tick(NO_KEYS), Ok(()));
        assert_eq!(p.pc(), 0xFFE);
    }
    let mut keys = NO_KEYS;
    keys[2] = true;
    p.op_6xkk(1, 4);
    p.op_fx15(1);
    assert_eq!(p.tick(keys), Err(Fault::AddressOutOfRange));
    assert_eq!(p.register(0), 0);
    assert_eq!(p.delay_timer(), 4);
    assert_eq!(p.pc(), 0xFFE);
}

#[test]
fn falling_off_the_end_of_memory_faults_and_changes_nothing() {
    let mut p = machine_with(&rom_ending_in(0x63, 0x05));
    assert_eq!(p.tick(NO_KEYS), Ok(()));
    p.op_6xkk(1, 9);
    p.op_fx15(1);
    p.op_fx18(1);
    assert_eq!(p.tick(NO_KEYS), Err(Fault::AddressOutOfRange));
    assert_eq!(p.register(3), 0);
    assert_eq!(p.pc(), 0xFFE);
    assert_eq!(p.delay_timer(), 9);
    assert_eq!(p.sound_timer(), 9);
    assert_eq!(p.opcode(), 0x1FFE);
    assert_eq!(p.tick_with(NO_KEYS, 0), Err(Fault::AddressOutOfRange));
    assert_eq!(p.register(3), 0);
    assert_eq!(p.opcode(), 0x1FFE);
}

#[test]
fn key_wait_at_address_zero_cannot_step_back() {
    let mut p = Processor::new();
    assert_eq!(p.op_1nnn(0), Ok(()));
    assert_eq!(p.op_fx0a(0), Err(Fault::AddressOutOfRange));
    assert_eq!(p.pc(), 0);
}

#[test]
fn random_is_masked() {
    let mut p = machine_with(&[0xC0, 0x0F, 0xC1, 0x00, 0x12, 0x00]);
    p.op_6xkk(1, 0xFF);
    for _ in 0..50 {
        assert_eq!(p.tick(NO_KEYS), Ok(()));
        assert!(p.register(0) <= 0x0F);
        assert_eq!(p.tick(NO_KEYS), Ok(()));
        assert_eq!(p.register(1), 0);
        assert_eq!(p.tick(NO_KEYS), Ok(()));
    }
}

#[test]
fn random_varies() {
    let mut p = Processor::new();
    let mut seen = [false; 256];
    for _ in 0..4096 {
        p.op_cxkk(0, 0xFF);
        seen[p.register(0) as usize] = true;
    }
    assert!(seen.iter().filter(|&&s| s).count() > 100);
}

#[test]
fn supplied_random_byte_is_used() {
    let mut p = machine_with(&[0xC3, 0xF0]);
    assert_eq!(p.tick_with(NO_KEYS, 0xAB), Ok(()));
    assert_eq!(p.register(3), 0xA0);
    assert_eq!(p.pc(), 0x202);
    p.op_cxkk_with(4, 0x3C, 0xFF);
    assert_eq!(p.register(4), 0x3C);
}

#[test]
fn fetch_is_big_endian() {
    let mut p = machine_with(&[0xA1, 0x23]);
    assert_eq!(p.get_opcode(), 0xA123);
    assert_eq!(p.tick(NO_KEYS), Ok(()));
    assert_eq!(p.opcode(), 0xA123);
    assert_eq!(p.index(), 0x123);
}

#[test]
fn keypad_is_latched_each_tick() {
    let mut p = machine_with(&[0x12, 0x02, 0xE0, 0x9E]);
    let mut keys = NO_KEYS;
    keys[0] = true;
    assert_eq!(p.tick(keys), Ok(()));
    assert_eq!(p.tick(NO_KEYS), Ok(()));
    assert_eq!(p.pc(), 0x204);
}

#[test]
fn pixel_colours() {
    assert_eq!(color(0), Rgb { r: 0, g: 0, b: 0 });
    assert_eq!(color(1), Rgb { r: 0, g: 250, b: 0 });
    assert_eq!(color(255), Rgb { r: 0, g: 250, b: 0 });
}

#[test]
fn pixel_squares_tile_the_window() {
    assert_eq!(SCALE_FACTOR, 20);
    assert_eq!(WINDOW_WIDTH, 64 * 20);
    assert_eq!(WINDOW_HEIGHT, 32 * 20);
    assert_eq!(cell(0, 0), Cell { x: 0, y: 0, width: 20, height: 20 });
    assert_eq!(cell(3, 2), Cell { x: 60, y: 40, width: 20, height: 20 });
    assert_eq!(cell(63, 31), Cell { x: 1260, y: 620, width: 20, height: 20 });
}
