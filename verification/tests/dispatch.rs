// The decode table, instruction group by instruction group: every handler
// reached through raw opcode words fed to the dispatch engine.

use chip8::machine::Chip8;

fn loaded(rom: Vec<u8>) -> Chip8 {
    let mut c = Chip8::new();
    c.load(&rom);
    c
}

#[test]
fn dispatch_skip_group() {
    // 3009 taken, 4009 not taken, 5010 taken, 9010 not taken.
    let mut c = loaded(vec![
        0x30, 0x09, 0x00, 0x00, 0x40, 0x09, 0x50, 0x10, 0x00, 0x00, 0x90, 0x10,
    ]);
    c.v[0] = 9;
    c.v[1] = 9;
    c.emulate_cycle(0).unwrap(); // 3009: V[0] == 9, skip
    assert_eq!(c.pc, 0x204);
    c.emulate_cycle(0).unwrap(); // 4009: V[0] != 9 fails, step
    assert_eq!(c.pc, 0x206);
    c.emulate_cycle(0).unwrap(); // 5010: V[0] == V[1], skip
    assert_eq!(c.pc, 0x20A);
    c.emulate_cycle(0).unwrap(); // 9010: skips only when unequal, step
    assert_eq!(c.pc, 0x20C);
}

#[test]
fn dispatch_alu_group() {
    let mut c = loaded(vec![0x80, 0x11, 0x80, 0x22, 0x80, 0x33, 0x84, 0x50]);
    c.v[0] = 0b0101;
    c.v[1] = 0b0011;
    c.emulate_cycle(0).unwrap(); // 8011: or
    assert_eq!(c.v[0], 0b0111);
    c.v[2] = 0b0110;
    c.emulate_cycle(0).unwrap(); // 8022: and
    assert_eq!(c.v[0], 0b0110);
    c.v[3] = 0b1111;
    c.emulate_cycle(0).unwrap(); // 8033: xor
    assert_eq!(c.v[0], 0b1001);
    c.v[5] = 77;
    c.emulate_cycle(0).unwrap(); // 8450: copy
    assert_eq!(c.v[4], 77);
}

#[test]
fn dispatch_arithmetic_group() {
    let mut c = loaded(vec![0x80, 0x14, 0x80, 0x25, 0x80, 0x37]);
    c.v[0] = 250;
    c.v[1] = 10;
    c.emulate_cycle(0).unwrap(); // 8014: add, carries
    assert_eq!(c.v[0], 4);
    assert_eq!(c.v[15], 1);
    c.v[2] = 3;
    c.emulate_cycle(0).unwrap(); // 8025: 4 - 3, no borrow
    assert_eq!(c.v[0], 1);
    assert_eq!(c.v[15], 1);
    c.v[3] = 5;
    c.emulate_cycle(0).unwrap(); // 8037: 5 - 1, no borrow
    assert_eq!(c.v[0], 4);
    assert_eq!(c.v[15], 1);
}

#[test]
fn dispatch_shift_group() {
    let mut c = loaded(vec![0x80, 0x16, 0x80, 0x1E]);
    c.v[1] = 0x81;
    c.emulate_cycle(0).unwrap(); // 8016: V[0] = V[1] >> 1
    assert_eq!(c.v[0], 0x40);
    assert_eq!(c.v[15], 1);
    c.emulate_cycle(0).unwrap(); // 801E: V[0] = V[1] << 1
    assert_eq!(c.v[0], 0x02);
    assert_eq!(c.v[15], 1);
}

#[test]
fn dispatch_random_masked() {
    let mut c = loaded(vec![0xC5, 0x00]);
    c.v[5] = 123;
    c.emulate_cycle(0).unwrap(); // C500: random & 0 == 0
    assert_eq!(c.v[5], 0);
    assert_eq!(c.pc, 0x202);
}

#[test]
fn dispatch_sprite_and_index_group() {
    let mut c = loaded(vec![0xF0, 0x29, 0xF0, 0x30, 0xF0, 0x1E]);
    c.v[0] = 4;
    c.emulate_cycle(0).unwrap(); // F029
    assert_eq!(c.i, 0x50 + 20);
    c.emulate_cycle(0).unwrap(); // F030
    assert_eq!(c.i, 0xA0 + 40);
    c.emulate_cycle(0).unwrap(); // F01E
    assert_eq!(c.i, 0xA0 + 44);
}

#[test]
fn dispatch_transfer_group() {
    let mut c = loaded(vec![0xF1, 0x55, 0xA3, 0x00, 0xF1, 0x65]);
    c.v[0] = 11;
    c.v[1] = 22;
    c.i = 0x400;
    c.emulate_cycle(0).unwrap(); // F155: store V[0..=1] at 0x400
    assert_eq!(c.memory[0x400], 11);
    assert_eq!(c.memory[0x401], 22);
    assert_eq!(c.i, 0x402);
    c.memory[0x300] = 31;
    c.memory[0x301] = 32;
    c.emulate_cycle(0).unwrap(); // A300
    c.emulate_cycle(0).unwrap(); // F165: read V[0..=1] from 0x300
    assert_eq!(c.v[0], 31);
    assert_eq!(c.v[1], 32);
    assert_eq!(c.i, 0x302);
}

#[test]
fn dispatch_persistent_flags_group() {
    let mut c = loaded(vec![0xF1, 0x75, 0xA0, 0x00, 0xF1, 0x85]);
    c.v[0] = 5;
    c.v[1] = 6;
    c.i = 0; // flag file indexed from I
    c.emulate_cycle(0).unwrap(); // F175
    assert_eq!(c.r[0], 5);
    assert_eq!(c.r[1], 6);
    c.v[0] = 0;
    c.v[1] = 0;
    c.emulate_cycle(0).unwrap(); // A000
    c.emulate_cycle(0).unwrap(); // F185
    assert_eq!(c.v[0], 5);
    assert_eq!(c.v[1], 6);
}

#[test]
fn dispatch_bcd() {
    let mut c = loaded(vec![0xF7, 0x33]);
    c.v[7] = 208;
    c.i = 0x500;
    c.emulate_cycle(0).unwrap();
    assert_eq!(c.memory[0x500], 2);
    assert_eq!(c.memory[0x501], 0);
    assert_eq!(c.memory[0x502], 8);
}

#[test]
fn dispatch_screen_control_group() {
    let mut c = loaded(vec![0x00, 0xFF, 0x00, 0xFB, 0x00, 0xFC, 0x00, 0xFE, 0x00, 0xC1]);
    c.gfx[64] = 1; // row 1, col 0
    c.emulate_cycle(0).unwrap(); // 00FF: high resolution on
    assert!(c.hgr);
    c.emulate_cycle(0).unwrap(); // 00FB: scroll right, no movement
    c.emulate_cycle(0).unwrap(); // 00FC: scroll left, no movement
    assert_eq!(c.gfx[64], 1);
    c.emulate_cycle(0).unwrap(); // 00FE: high resolution off
    assert!(!c.hgr);
    c.v[1] = 1;
    c.emulate_cycle(0).unwrap(); // 00C1: scroll down by V[1] = 1
    assert_eq!(c.gfx[2 * 64], 1);
    assert_eq!(c.pc, 0x20A);
}

#[test]
fn dispatch_key_skips() {
    let mut c = loaded(vec![0xE2, 0x9E, 0x00, 0x00, 0xE2, 0xA1]);
    c.v[2] = 7;
    c.set_keys(&vec![7]);
    c.emulate_cycle(0).unwrap(); // E29E: pressed, skip
    assert_eq!(c.pc, 0x204);
    c.emulate_cycle(0).unwrap(); // E2A1: pressed, no skip
    assert_eq!(c.pc, 0x206);
}

#[test]
fn dispatch_sound_arm() {
    let mut c = loaded(vec![0x60, 0x09, 0xF0, 0x18]);
    c.emulate_cycle(100).unwrap();
    c.emulate_cycle(100).unwrap(); // F018: arm sound timer
    assert_eq!(c.sound_timer, 9);
    assert_eq!(c.sound_start, Some(100));
}
