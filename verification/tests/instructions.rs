// Individual instruction handlers: arithmetic flags, shifts through the
// secondary register, block transfers, BCD, input latch and scrolls.

use chip8::machine::Chip8;

#[test]
fn add_carry_sets_flag_exactly_on_overflow() {
    let mut c = Chip8::new();
    c.v[0] = 200;
    c.v[1] = 56; // 256 exactly
    c.vx_add_vy_carry(0, 1);
    assert_eq!(c.v[0], 0);
    assert_eq!(c.v[15], 1);

    let mut d = Chip8::new();
    d.v[0] = 200;
    d.v[1] = 55; // 255: no carry
    d.vx_add_vy_carry(0, 1);
    assert_eq!(d.v[0], 255);
    assert_eq!(d.v[15], 0);
}

#[test]
fn sub_borrow_flag_polarity_inverted() {
    let mut c = Chip8::new();
    c.v[0] = 5;
    c.v[1] = 7;
    c.vx_sub_vy_borrow(0, 1); // borrows: flag 0
    assert_eq!(c.v[0], 254);
    assert_eq!(c.v[15], 0);

    let mut d = Chip8::new();
    d.v[0] = 7;
    d.v[1] = 5;
    d.vx_sub_vy_borrow(0, 1); // no borrow: flag 1
    assert_eq!(d.v[0], 2);
    assert_eq!(d.v[15], 1);
}

#[test]
fn reversed_sub_borrow() {
    let mut c = Chip8::new();
    c.v[0] = 7;
    c.v[1] = 5;
    c.vy_sub_vx_borrow(0, 1); // 5 - 7 borrows
    assert_eq!(c.v[0], 254);
    assert_eq!(c.v[15], 0);

    let mut d = Chip8::new();
    d.v[0] = 5;
    d.v[1] = 7;
    d.vy_sub_vx_borrow(0, 1);
    assert_eq!(d.v[0], 2);
    assert_eq!(d.v[15], 1);
}

#[test]
fn bitwise_ops() {
    let mut c = Chip8::new();
    c.v[0] = 0b1100;
    c.v[1] = 0b1010;
    c.vx_or_vy(0, 1);
    assert_eq!(c.v[0], 0b1110);
    c.v[0] = 0b1100;
    c.vx_and_vy(0, 1);
    assert_eq!(c.v[0], 0b1000);
    c.v[0] = 0b1100;
    c.vx_xor_vy(0, 1);
    assert_eq!(c.v[0], 0b0110);
    c.set_v_v(2, 1);
    assert_eq!(c.v[2], 0b1010);
}

#[test]
fn shift_right_source_is_secondary() {
    let mut c = Chip8::new();
    c.v[1] = 5;
    c.vx_as_rshift_vy(0, 1);
    assert_eq!(c.v[0], 2);
    assert_eq!(c.v[15], 1); // shifted-out low bit
    assert_eq!(c.v[1], 5); // source untouched
}

#[test]
fn shift_left_flag_is_high_bit() {
    let mut c = Chip8::new();
    c.v[1] = 0x90;
    c.vx_as_lshift_vy(0, 1);
    assert_eq!(c.v[0], 0x20);
    assert_eq!(c.v[15], 1); // bit 0x80 was set

    let mut d = Chip8::new();
    d.v[1] = 0x10; // high bit clear: flag 0
    d.vx_as_lshift_vy(0, 1);
    assert_eq!(d.v[0], 0x20);
    assert_eq!(d.v[15], 0);
}

#[test]
fn skip_family_pc_deltas() {
    let mut c = Chip8::new();
    c.v[0] = 9;
    c.if_vx_eq_nn(0, 9);
    assert_eq!(c.pc, 0x204); // taken: +4
    c.if_vx_eq_nn(0, 8);
    assert_eq!(c.pc, 0x206); // not taken: +2
    c.if_not_eq(0, 8);
    assert_eq!(c.pc, 0x20A);
    c.v[1] = 9;
    c.if_eq(0, 1);
    assert_eq!(c.pc, 0x20E);
    c.if_vx_eq_vy(0, 1); // skips on inequality; equal here: +2
    assert_eq!(c.pc, 0x210);
    c.v[1] = 3;
    c.if_vx_eq_vy(0, 1);
    assert_eq!(c.pc, 0x214);
}

#[test]
fn bcd_expansion() {
    let mut c = Chip8::new();
    c.v[2] = 137;
    c.i = 100;
    c.vx_as_bcd(2);
    assert_eq!(c.memory[100], 1);
    assert_eq!(c.memory[101], 3);
    assert_eq!(c.memory[102], 7);
}

#[test]
fn store_and_read_registers_advance_index() {
    let mut c = Chip8::new();
    for k in 0..4 {
        c.v[k] = 10 + k as u8;
    }
    c.i = 0x300;
    c.store_v0_vx(3);
    assert_eq!(c.i, 0x304); // incremented by x + 1
    assert_eq!(c.memory[0x300], 10);
    assert_eq!(c.memory[0x303], 13);

    let mut d = Chip8::new();
    d.memory[0x300] = 42;
    d.memory[0x301] = 43;
    d.i = 0x300;
    d.read_v0_vx(1);
    assert_eq!(d.v[0], 42);
    assert_eq!(d.v[1], 43);
    assert_eq!(d.v[2], 0);
    assert_eq!(d.i, 0x302);
}

#[test]
fn persistent_flags_roundtrip_at_low_index() {
    let mut c = Chip8::new();
    c.v[0] = 7;
    c.v[1] = 8;
    c.i = 4;
    c.store_rpl_v0_vx(1); // R[4] = 7, R[5] = 8
    assert_eq!(c.r[4], 7);
    assert_eq!(c.r[5], 8);
    assert_eq!(c.i, 6);
    c.v[0] = 0;
    c.v[1] = 0;
    c.i = 4;
    c.read_rpl_v0_vx(1);
    assert_eq!(c.v[0], 7);
    assert_eq!(c.v[1], 8);
}

#[test]
fn sprite_index_instructions() {
    let mut c = Chip8::new();
    c.v[0] = 2;
    c.i_as_sprite_vx(0);
    assert_eq!(c.i, 0x50 + 10);
    c.v[0] = 3;
    c.i_as_hgr_sprite_vx(0);
    assert_eq!(c.i, 0xA0 + 30);
    c.v[0] = 5;
    c.i = 100;
    c.i_add_vx(0);
    assert_eq!(c.i, 105);
}

#[test]
fn random_masked_with_zero_is_zero() {
    let mut c = Chip8::new();
    c.v[0] = 99;
    c.vx_rnd(0, 0x00);
    assert_eq!(c.v[0], 0);
    assert_eq!(c.pc, 0x202);
    c.vx_rnd(1, 0x0F);
    assert!(c.v[1] < 16);
}

#[test]
fn input_latch_refresh() {
    let mut c = Chip8::new();
    c.set_keys(&vec![5, 2]);
    assert_eq!(c.key[5], 0xFF);
    assert_eq!(c.key[2], 0xFF);
    assert_eq!(c.key[0], 0);
    assert_eq!(c.last_key, Some(5));

    c.set_keys(&vec![20, 7]); // 20 has no logical slot
    assert_eq!(c.key[5], 0); // reset each refresh
    assert_eq!(c.key[7], 0xFF);
    assert_eq!(c.last_key, Some(7));

    c.set_keys(&vec![]);
    assert_eq!(c.last_key, None);
    assert!(c.key.iter().all(|&k| k == 0));
}

#[test]
fn key_skips_and_wait() {
    let mut c = Chip8::new();
    c.v[0] = 4;
    c.set_keys(&vec![4]);
    c.skip_if_key_vx(0);
    assert_eq!(c.pc, 0x204);
    c.skip_if_not_key_vx(0);
    assert_eq!(c.pc, 0x206);

    let mut d = Chip8::new();
    d.wait_for_next_key(3); // no latch: stall, pc unchanged
    assert_eq!(d.pc, 0x200);
    d.set_keys(&vec![9]);
    d.wait_for_next_key(3);
    assert_eq!(d.v[3], 9);
    assert_eq!(d.pc, 0x202);
}

#[test]
fn scroll_down_shifts_rows_and_keeps_vacated_top() {
    let mut c = Chip8::new();
    c.gfx[0] = 1; // row 0, col 0
    c.gfx[3 * 64 + 7] = 1; // row 3, col 7
    c.v[0] = 2;
    c.scroll_down(0);
    assert_eq!(c.gfx[2 * 64], 1); // row 0 copied to row 2
    assert_eq!(c.gfx[5 * 64 + 7], 1); // row 3 copied to row 5
    assert_eq!(c.gfx[0], 1); // vacated top row keeps prior content
    assert_eq!(c.gfx[3 * 64 + 7], 0); // row 3 overwritten from row 1, which was off
    assert_eq!(c.pc, 0x202);
}

#[test]
fn scroll_sideways_move_nothing() {
    let mut c = Chip8::new();
    c.gfx[100] = 1;
    c.scroll_left();
    c.scroll_right();
    assert_eq!(c.gfx[100], 1);
    assert_eq!(c.pc, 0x204);
}

#[test]
fn resolution_toggle_keeps_framebuffer() {
    let mut c = Chip8::new();
    c.gfx[9] = 1;
    c.hgr(true);
    assert!(c.hgr);
    assert_eq!(c.gfx[9], 1);
    c.hgr(false);
    assert!(!c.hgr);
    assert_eq!(c.pc, 0x204);
}

#[test]
fn high_resolution_draw_is_15_columns_wide() {
    // Rows of 0x80 0x00 light column 0 for 15 rows; rows of 0x00 0x01
    // would light column 15, which the draw never processes.
    let mut c = Chip8::new();
    for r in 0..15 {
        c.memory[0x300 + 2 * r] = 0x80;
        c.memory[0x300 + 2 * r + 1] = 0x00;
    }
    c.i = 0x300;
    c.hgr(true);
    c.draw_x_y_high(0, 1, 0);
    for r in 0..15 {
        assert_eq!(c.gfx[r * 64], 1);
    }
    assert_eq!(c.gfx[15 * 64], 0);
    assert_eq!(c.v[15], 0);
    assert!(c.draw_flag);

    let mut d = Chip8::new();
    for r in 0..15 {
        d.memory[0x300 + 2 * r] = 0x00;
        d.memory[0x300 + 2 * r + 1] = 0x01; // only bit 15 set
    }
    d.i = 0x300;
    d.hgr(true);
    d.draw_x_y_high(0, 1, 0);
    assert!(d.gfx.iter().all(|&p| p == 0)); // ignored column
    assert_eq!(d.v[15], 0);
}

#[test]
fn low_draw_dispatches_high_when_flag_set_and_n_zero() {
    let mut c = Chip8::new();
    for r in 0..15 {
        c.memory[0x300 + 2 * r] = 0x80;
    }
    c.i = 0x300;
    c.hgr(true);
    c.draw_x_y_low(0, 1, 0);
    assert_eq!(c.gfx[0], 1);
    assert_eq!(c.gfx[14 * 64], 1);
}
