// End-to-end scenarios through the dispatch engine: programs loaded from
// bytes and executed cycle by cycle.

use chip8::machine::Chip8;
use chip8::flow::Fault;

fn fresh_with(rom: Vec<u8>) -> Chip8 {
    let mut c = Chip8::new();
    c.load(&rom);
    c
}

#[test]
fn set_then_add_immediate() {
    // 6005: V[0] = 5; 7003: V[0] += 3.
    let mut c = fresh_with(vec![0x60, 0x05, 0x70, 0x03]);
    assert_eq!(c.pc, 0x200);
    c.emulate_cycle(0).unwrap();
    assert_eq!(c.v[0], 5);
    c.emulate_cycle(0).unwrap();
    assert_eq!(c.v[0], 8);
    assert_eq!(c.pc, 0x204);
    assert_eq!(c.v[15], 0);
}

#[test]
fn add_immediate_overflow_clears_flag() {
    // 60FF: V[0] = 255; 7002: V[0] += 2 wraps to 1, flag still 0.
    let mut c = fresh_with(vec![0x60, 0xFF, 0x70, 0x02]);
    c.emulate_cycle(0).unwrap();
    c.emulate_cycle(0).unwrap();
    assert_eq!(c.v[0], 1);
    assert_eq!(c.v[15], 0);
}

#[test]
fn set_index_register() {
    let mut c = fresh_with(vec![0xA2, 0x34]);
    c.emulate_cycle(0).unwrap();
    assert_eq!(c.i, 0x234);
    assert_eq!(c.pc, 0x202);
}

#[test]
fn jsr_then_ret_restores_pc_and_sp() {
    // 0x200: 2204 call 0x204; 0x204: 00EE ret.
    let mut c = fresh_with(vec![0x22, 0x04, 0x00, 0x00, 0x00, 0xEE]);
    c.emulate_cycle(0).unwrap();
    assert_eq!(c.pc, 0x204);
    assert_eq!(c.sp, 1);
    c.emulate_cycle(0).unwrap();
    assert_eq!(c.pc, 0x202);
    assert_eq!(c.sp, 0);
}

#[test]
fn jump_and_jump_v0() {
    let mut c = fresh_with(vec![0x13, 0x00]);
    c.emulate_cycle(0).unwrap();
    assert_eq!(c.pc, 0x300);

    let mut d = fresh_with(vec![0xB3, 0x00]);
    d.v[0] = 8;
    d.emulate_cycle(0).unwrap();
    assert_eq!(d.pc, 0x308);
}

#[test]
fn draw_twice_restores_framebuffer() {
    // Glyph 0 (5 bytes at 0x50) drawn at (0, 0) twice: XOR self-inverse.
    let mut c = fresh_with(vec![0xD0, 0x15, 0xD0, 0x15]);
    c.i = 0x50;
    c.emulate_cycle(0).unwrap();
    assert_eq!(c.v[15], 0);
    assert_eq!(c.gfx[0], 1); // 0xF0: top row pixels 0..4 lit
    assert_eq!(c.gfx[3], 1);
    assert_eq!(c.gfx[4], 0);
    assert!(c.draw_flag);
    c.emulate_cycle(0).unwrap();
    assert_eq!(c.v[15], 1); // second pass collides
    for g in 0..2048 {
        assert_eq!(c.gfx[g], 0); // every pixel restored
    }
}

#[test]
fn clear_screen_zeroes_every_pixel() {
    // Draw a glyph, then 00E0.
    let mut c = fresh_with(vec![0xD0, 0x15, 0x00, 0xE0]);
    c.i = 0x50;
    c.emulate_cycle(0).unwrap();
    assert!(c.gfx.iter().any(|&p| p == 1));
    c.emulate_cycle(0).unwrap();
    for g in 0..2048 {
        assert_eq!(c.gfx[g], 0);
    }
}

#[test]
fn delay_timer_armed_then_read_immediately() {
    // Arm the delay timer from V[0] = 10 and read it back with no time
    // elapsed: the value must stay within [9, 10].
    let mut c = Chip8::new();
    c.v[0] = 10;
    c.start_delay(0, 1_000);
    c.get_delay(3, 1_000);
    assert!(c.v[3] >= 9 && c.v[3] <= 10);
    assert_eq!(c.v[3], 10);
}

#[test]
fn delay_timer_decays_with_wall_clock() {
    let mut c = Chip8::new();
    c.v[0] = 10;
    c.start_delay(0, 1_000);
    c.get_delay(3, 1_100); // 100 ms = 6 ticks
    assert_eq!(c.v[3], 4);
    c.get_delay(3, 5_000); // long past: saturates at 0
    assert_eq!(c.v[3], 0);
}

#[test]
fn delay_timer_via_opcodes() {
    // 600A: V[0] = 10; F015: arm; F107: read into V[1].
    let mut c = fresh_with(vec![0x60, 0x0A, 0xF0, 0x15, 0xF1, 0x07]);
    c.emulate_cycle(0).unwrap();
    c.emulate_cycle(500).unwrap();
    c.emulate_cycle(500).unwrap();
    assert!(c.v[1] >= 9 && c.v[1] <= 10);
}

#[test]
fn unarmed_timer_read_leaves_register() {
    let mut c = Chip8::new();
    c.v[2] = 77;
    c.get_delay(2, 12345);
    assert_eq!(c.v[2], 77);
    c.get_sound_delay(2, 12345);
    assert_eq!(c.v[2], 77);
}

#[test]
fn sound_timer_mirrors_delay_path() {
    let mut c = Chip8::new();
    c.v[0] = 6;
    c.start_sound_delay(0, 0);
    c.get_sound_delay(1, 50); // 3 ticks
    assert_eq!(c.v[1], 3);
}

#[test]
fn exit_parks_pc_then_fetch_faults() {
    let mut c = fresh_with(vec![0x00, 0xFD]);
    assert!(!c.halted());
    c.emulate_cycle(0).unwrap();
    assert!(c.halted());
    assert_eq!(c.emulate_cycle(0), Err(Fault::PcOutOfRange));
}

#[test]
fn font_installed_in_both_windows() {
    let c = fresh_with(vec![]);
    assert_eq!(c.memory[0x50], 0xF0); // low-resolution glyph 0
    assert_eq!(c.memory[0x54], 0xF0);
    assert_eq!(c.memory[0xA0], 0x3C); // high-resolution glyph 0
    assert_eq!(c.memory[0xA0 + 99], 0x7C); // last high-resolution byte
    assert_eq!(c.memory[0x104], 0); // past the font window
}

#[test]
fn load_copies_rom_at_program_base() {
    let c = fresh_with(vec![0xDE, 0xAD, 0xBE, 0xEF]);
    assert_eq!(c.memory[0x200], 0xDE);
    assert_eq!(c.memory[0x203], 0xEF);
    assert_eq!(c.memory[0x204], 0);
}

#[test]
fn scheduler_rate_gate() {
    assert!(!chip8::cycle::cycle_due(0, 0));
    assert!(!chip8::cycle::cycle_due(0, 1)); // 550 < 1000
    assert!(chip8::cycle::cycle_due(0, 2)); // 1100 >= 1000
    assert!(!chip8::cycle::cycle_due(5, 3)); // clock moved backwards
    assert!(chip8::cycle::cycle_due(100, 102));
}

#[test]
fn wait_key_stalls_without_fault() {
    // F30A with no key latched: the cycle succeeds but pc does not move,
    // so the same instruction is re-fetched; a latched key releases it.
    let mut c = fresh_with(vec![0xF3, 0x0A]);
    c.emulate_cycle(0).unwrap();
    assert_eq!(c.pc, 0x200);
    c.emulate_cycle(0).unwrap();
    assert_eq!(c.pc, 0x200);
    c.set_keys(&vec![0xB]);
    c.emulate_cycle(0).unwrap();
    assert_eq!(c.v[3], 0xB);
    assert_eq!(c.pc, 0x202);
}

#[test]
fn zero_height_draw_in_low_resolution() {
    // D010 with the resolution flag clear: no rows, nothing changes but
    // the flag register, the dirty bit and pc.
    let mut c = fresh_with(vec![0xD0, 0x10]);
    c.v[15] = 1;
    c.emulate_cycle(0).unwrap();
    assert!(c.gfx.iter().all(|&p| p == 0));
    assert_eq!(c.v[15], 0);
    assert!(c.draw_flag);
    assert_eq!(c.pc, 0x202);
}

#[test]
fn run_tick_is_one_cycle() {
    let mut c = fresh_with(vec![0x6C, 0x2A]);
    c.run_tick(0).unwrap();
    assert_eq!(c.v[0xC], 0x2A);
    assert_eq!(c.pc, 0x202);
}
