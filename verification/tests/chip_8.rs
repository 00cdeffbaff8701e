use chip8_core::chip_8::{Chip8, PIXEL_OFF, PIXEL_ON};
use chip8_core::fault::Fault;
use chip8_core::font::FONTSET;

const KEYS_UP: [u8; 16] = [0; 16];

fn chip_with(rom: &[u8]) -> Chip8 {
    let mut c = Chip8::new();
    assert_eq!(c.load_rom(rom), Ok(()));
    c
}

fn run(c: &mut Chip8, ticks: usize) {
    for _ in 0..ticks {
        assert_eq!(c.tick(KEYS_UP), Ok(()));
    }
}

fn lit_count(c: &Chip8) -> usize {
    let mut count = 0;
    for &pixel in c.framebuffer().iter() {
        assert!(pixel == PIXEL_ON || pixel == PIXEL_OFF);
        if pixel == PIXEL_ON {
            count += 1;
        }
    }
    count
}

#[test]
fn chip_power_on_state() {
    let c = Chip8::new();
    for x in 0..16 {
        assert_eq!(c.register(x), 0);
        assert_eq!(c.stack_at(x), 0);
    }
    assert_eq!(c.sp(), 0);
    assert_eq!(c.index(), 0);
    assert_eq!(c.delay_timer(), 0);
    assert_eq!(c.sound_timer(), 0);
    assert!(!c.sound_on());
    assert_eq!(c.pc(), 0x200);
    assert_eq!(lit_count(&c), 0);
    for i in 0..80 {
        assert_eq!(c.memory_at(0x050 + i), FONTSET[i]);
    }
    assert_eq!(c.memory_at(0x04F), 0);
    assert_eq!(c.memory_at(0x0A0), 0);
}

#[test]
fn chip_load_rom_bounds() {
    let mut c = Chip8::new();
    assert_eq!(c.load_rom(&vec![1u8; 3585]), Err(Fault::RomTooLarge));
    assert_eq!(c.memory_at(0x200), 0);
    assert_eq!(c.load_rom(&vec![1u8; 3584]), Ok(()));
    assert_eq!(c.memory_at(0x200), 1);
    assert_eq!(c.memory_at(0xFFF), 1);
}

#[test]
fn chip_jump_self() {
    let mut c = chip_with(&[0x12, 0x00]);
    run(&mut c, 1);
    assert_eq!(c.pc(), 0x200);
}

#[test]
fn chip_add_with_carry() {
    let mut c = chip_with(&[0x60, 0xFF, 0x61, 0x01, 0x80, 0x14]);
    run(&mut c, 3);
    assert_eq!(c.register(0), 0x00);
    assert_eq!(c.register(0xF), 1);
    assert_eq!(c.pc(), 0x206);
}

#[test]
fn chip_add_without_carry() {
    let mut c = chip_with(&[0x60, 0x10, 0x61, 0x20, 0x80, 0x14]);
    run(&mut c, 3);
    assert_eq!(c.register(0), 0x30);
    assert_eq!(c.register(0xF), 0);
}

#[test]
fn chip_subtract() {
    let mut c = chip_with(&[0x60, 0x05, 0x61, 0x03, 0x80, 0x15, 0x62, 0x03, 0x63, 0x05, 0x82, 0x35]);
    run(&mut c, 3);
    assert_eq!(c.register(0), 0x02);
    assert_eq!(c.register(0xF), 1);
    run(&mut c, 3);
    assert_eq!(c.register(2), 0xFE);
    assert_eq!(c.register(0xF), 0);
}

#[test]
fn chip_reverse_subtract_and_shifts() {
    let mut c = chip_with(&[0x60, 0x03, 0x61, 0x05, 0x80, 0x17, 0x62, 0x85, 0x82, 0x06, 0x63, 0xC1, 0x83, 0x0E]);
    run(&mut c, 3);
    assert_eq!(c.register(0), 0x02);
    assert_eq!(c.register(0xF), 1);
    run(&mut c, 2);
    assert_eq!(c.register(2), 0x42);
    assert_eq!(c.register(0xF), 1);
    run(&mut c, 2);
    assert_eq!(c.register(3), 0x82);
    assert_eq!(c.register(0xF), 1);
}

#[test]
fn chip_logic_and_immediate_add() {
    let mut c = chip_with(&[
        0x60, 0x0C, 0x61, 0x0A, 0x80, 0x11, 0x62, 0x0C, 0x82, 0x12, 0x63, 0x0C, 0x83, 0x13, 0x84, 0x10,
        0x75, 0xF0, 0x75, 0x20,
    ]);
    run(&mut c, 10);
    assert_eq!(c.register(0), 0x0E);
    assert_eq!(c.register(2), 0x08);
    assert_eq!(c.register(3), 0x06);
    assert_eq!(c.register(4), 0x0A);
    assert_eq!(c.register(5), 0x10);
    assert_eq!(c.register(0xF), 0);
}

#[test]
fn chip_bcd_then_fill() {
    let mut c = chip_with(&[0x64, 0x7B, 0xA3, 0x00, 0xF4, 0x33, 0xF2, 0x65]);
    run(&mut c, 3);
    assert_eq!(c.memory_at(0x300), 1);
    assert_eq!(c.memory_at(0x301), 2);
    assert_eq!(c.memory_at(0x302), 3);
    run(&mut c, 1);
    assert_eq!(c.register(0), 1);
    assert_eq!(c.register(1), 2);
    assert_eq!(c.register(2), 3);
    assert_eq!(c.index(), 0x300);
}

#[test]
fn chip_store_writes_each_register_to_its_own_byte() {
    let mut c = chip_with(&[0x60, 0x11, 0x61, 0x22, 0x62, 0x33, 0xA4, 0x00, 0xF2, 0x55]);
    run(&mut c, 5);
    assert_eq!(c.memory_at(0x400), 0x11);
    assert_eq!(c.memory_at(0x401), 0x22);
    assert_eq!(c.memory_at(0x402), 0x33);
    assert_eq!(c.memory_at(0x403), 0);
    assert_eq!(c.index(), 0x400);
}

#[test]
fn chip_font_lookup() {
    let mut c = chip_with(&[0x60, 0x0A, 0xF0, 0x29]);
    run(&mut c, 2);
    assert_eq!(c.index(), 0x082);
}

#[test]
fn chip_draw_and_collide() {
    let mut c = chip_with(&[0xA0, 0x50, 0xD0, 0x15, 0xD0, 0x15]);
    run(&mut c, 2);
    let glyph: [u8; 5] = [0xF0, 0x90, 0x90, 0x90, 0xF0];
    for y in 0..32 {
        for x in 0..64 {
            let expected = y < 5 && x < 8 && (glyph[y] >> (7 - x)) & 1 == 1;
            assert_eq!(c.pixel(x, y), expected);
            assert_eq!(c.framebuffer()[y * 64 + x], if expected { PIXEL_ON } else { PIXEL_OFF });
        }
    }
    assert_eq!(c.register(0xF), 0);
    run(&mut c, 1);
    assert_eq!(lit_count(&c), 0);
    assert_eq!(c.register(0xF), 1);
}

#[test]
fn chip_draw_wraps_and_clears() {
    let mut c = chip_with(&[0x60, 0x3E, 0x61, 0x1F, 0xA2, 0x0A, 0xD0, 0x12, 0x00, 0xE0, 0xC0, 0xC0]);
    run(&mut c, 4);
    assert!(c.pixel(62, 31));
    assert!(c.pixel(63, 31));
    assert!(c.pixel(62, 0));
    assert!(c.pixel(63, 0));
    assert_eq!(lit_count(&c), 4);
    run(&mut c, 1);
    assert_eq!(lit_count(&c), 0);
}

#[test]
fn chip_key_wait() {
    let mut c = chip_with(&[0xF0, 0x0A]);
    for _ in 0..4 {
        assert_eq!(c.tick(KEYS_UP), Ok(()));
        assert_eq!(c.pc(), 0x200);
        assert_eq!(c.register(0), 0);
    }
    let mut keys = KEYS_UP;
    keys[7] = 1;
    keys[9] = 0xFF;
    assert_eq!(c.tick(keys), Ok(()));
    assert_eq!(c.register(0), 7);
    assert_eq!(c.pc(), 0x202);
}

#[test]
fn chip_key_skips() {
    let mut c = chip_with(&[0x60, 0x17, 0xE0, 0x9E, 0x00, 0x00, 0xE0, 0xA1, 0xE0, 0x9E]);
    let mut keys = KEYS_UP;
    keys[7] = 1;
    assert_eq!(c.tick(keys), Ok(()));
    assert_eq!(c.tick(keys), Ok(()));
    assert_eq!(c.pc(), 0x206);
    assert_eq!(c.tick(keys), Ok(()));
    assert_eq!(c.pc(), 0x208);
    assert_eq!(c.tick(KEYS_UP), Ok(()));
    assert_eq!(c.pc(), 0x20A);
}

#[test]
fn chip_skips_on_values() {
    let mut c = chip_with(&[
        0x60, 0x07, 0x30, 0x07, 0x00, 0x00, 0x40, 0x07, 0x50, 0x10, 0x90, 0x10, 0x00, 0x00, 0x30, 0x08,
    ]);
    run(&mut c, 2);
    assert_eq!(c.pc(), 0x206);
    run(&mut c, 1);
    assert_eq!(c.pc(), 0x208);
    run(&mut c, 1);
    assert_eq!(c.pc(), 0x20A);
    run(&mut c, 1);
    assert_eq!(c.pc(), 0x20E);
    run(&mut c, 1);
    assert_eq!(c.pc(), 0x210);
}

#[test]
fn chip_call_then_ret() {
    let mut rom = vec![0u8; 0x102];
    rom[0] = 0x23;
    rom[1] = 0x00;
    rom[0x100] = 0x00;
    rom[0x101] = 0xEE;
    let mut c = chip_with(&rom);
    run(&mut c, 1);
    assert_eq!(c.pc(), 0x300);
    assert_eq!(c.sp(), 1);
    assert_eq!(c.stack_at(0), 0x202);
    run(&mut c, 1);
    assert_eq!(c.pc(), 0x202);
    assert_eq!(c.sp(), 0);
}

#[test]
fn chip_timers_and_index() {
    let mut c = chip_with(&[0x60, 0x03, 0xF0, 0x15, 0xF0, 0x18, 0xF1, 0x07, 0xAF, 0xFF, 0xF0, 0x1E, 0xB2, 0x0B]);
    run(&mut c, 3);
    assert_eq!(c.delay_timer(), 2);
    assert_eq!(c.sound_timer(), 3);
    assert!(c.sound_on());
    run(&mut c, 1);
    assert_eq!(c.register(1), 1);
    run(&mut c, 2);
    assert_eq!(c.index(), 0x1002);
    assert_eq!(c.delay_timer(), 0);
    assert_eq!(c.sound_timer(), 0);
    assert!(!c.sound_on());
    run(&mut c, 1);
    assert_eq!(c.pc(), 0x20E);
}

#[test]
fn chip_faults_leave_machine_untouched() {
    let mut c = chip_with(&[0x00, 0xEE]);
    assert_eq!(c.tick(KEYS_UP), Err(Fault::StackUnderflow));
    assert_eq!(c.pc(), 0x200);
    let mut c = chip_with(&[0x22, 0x00]);
    run(&mut c, 16);
    assert_eq!(c.tick(KEYS_UP), Err(Fault::StackOverflow));
    assert_eq!(c.sp(), 16);
    let mut c = chip_with(&[0x60, 0x09, 0xF0, 0x15, 0x80, 0x08]);
    run(&mut c, 2);
    assert_eq!(c.tick(KEYS_UP), Err(Fault::UnknownOpcode { opcode: 0x8008, pc: 0x204 }));
    assert_eq!(c.delay_timer(), 9);
    assert_eq!(c.pc(), 0x204);
    let mut c = chip_with(&[0xAF, 0xFE, 0xF0, 0x33]);
    run(&mut c, 1);
    assert_eq!(c.tick(KEYS_UP), Err(Fault::AddressOutOfRange));
    assert_eq!(c.pc(), 0x202);
    assert_eq!(c.memory_at(0xFFE), 0);
}

#[test]
fn chip_random_is_masked() {
    let mut c = chip_with(&[0xC0, 0x0F, 0x12, 0x00]);
    for _ in 0..50 {
        run(&mut c, 2);
        assert!(c.register(0) <= 0x0F);
    }
    let mut c = chip_with(&[0xC3, 0xF0]);
    assert_eq!(c.tick_with(KEYS_UP, 0xAB), Ok(()));
    assert_eq!(c.register(3), 0xA0);
}

#[test]
fn chip_random_varies() {
    let mut c = chip_with(&[0xC0, 0xFF, 0x12, 0x00]);
    let mut seen = [false; 256];
    for _ in 0..4096 {
        run(&mut c, 2);
        seen[c.register(0) as usize] = true;
    }
    assert!(seen.iter().filter(|&&s| s).count() > 100);
}

#[test]
fn chip_last_word_of_memory() {
    let mut rom = vec![0u8; 4096 - 0x200];
    rom[0] = 0x1F;
    rom[1] = 0xFE;
    rom[0xDFE] = 0x12;
    rom[0xDFF] = 0x00;
    let mut c = chip_with(&rom);
    run(&mut c, 2);
    assert_eq!(c.pc(), 0x200);
    rom[0xDFE] = 0x63;
    rom[0xDFF] = 0x05;
    let mut c = chip_with(&rom);
    run(&mut c, 1);
    assert_eq!(c.tick(KEYS_UP), Err(Fault::AddressOutOfRange));
    assert_eq!(c.register(3), 0);
    assert_eq!(c.pc(), 0xFFE);
    assert_eq!(c.tick_with(KEYS_UP, 7), Err(Fault::AddressOutOfRange));
    assert_eq!(c.register(3), 0);
}
