//! Laws relating the instruction contracts: what holds of every input, or
//! of two instructions run in sequence, proved from the postcondition
//! predicates the handlers ensure.

use vstd::prelude::*;
use crate::machine::{Chip8, flip, STACK_SIZE, GFX_SIZE};
use crate::alu::{add_v_post, vx_add_vy_carry_post};
use crate::flow::{jsr_post, ret_post};
use crate::draw::{
    pix_at, lo_row_bit, lo_hit, lo_draw_ok, lo_draw_post, hi_row_bit, hi_hit, hi_draw_ok,
    hi_draw_post,
};

verus! {

/// Adding an immediate stores the sum modulo 256 and always zeroes the
/// flag register, whether or not the addition overflowed. (When `x` is
/// the flag register itself, the unconditional zeroing wins.)
pub proof fn lemma_add_v_value(pre: Chip8, post: Chip8, x: u8, nn: u8)
    requires
        pre.wf(),
        x < 16,
        x != 15,
        add_v_post(pre, post, x, nn),
    ensures
        post.v@[x as int] == (pre.v@[x as int] + nn) % 256,
        post.v@[15] == 0,
{
}

/// Register-register addition sets the flag register to 1 exactly when
/// the true sum reaches 256 before wrapping.
pub proof fn lemma_add_carry_flag(pre: Chip8, post: Chip8, x: u8, y: u8)
    requires
        pre.wf(),
        x < 16,
        y < 16,
        vx_add_vy_carry_post(pre, post, x, y),
    ensures
        (post.v@[15] == 1) <==> (pre.v@[x as int] + pre.v@[y as int] >= 256),
        (post.v@[15] == 0) <==> (pre.v@[x as int] + pre.v@[y as int] < 256),
{
}

/// A subroutine call followed immediately by a return resumes at the
/// instruction after the call — the stored address plus 2 — and leaves
/// the stack depth unchanged net.
pub proof fn lemma_jsr_ret_round_trip(s0: Chip8, s1: Chip8, s2: Chip8, nnn: u16)
    requires
        s0.wf(),
        s0.sp < STACK_SIZE,
        jsr_post(s0, s1, nnn),
        ret_post(s1, s2),
    ensures
        s2.pc == s0.pc + 2,
        s2.sp == s0.sp,
{
    assert(s1.stack@[s0.sp as int] == s0.pc);
}

/// Drawing the same sprite twice at the same coordinates with no
/// intervening clear restores every pixel (XOR is self-inverse), and the
/// second pass reports a collision exactly where the first pass lit a
/// pixel that was off before it.
pub proof fn lemma_draw_twice_restores(s0: Chip8, s1: Chip8, s2: Chip8, x: u8, y: u8, n: u8)
    requires
        s0.wf(),
        x < 16,
        y < 16,
        x != 15,
        y != 15,
        lo_draw_ok(s0, x, y, n),
        lo_draw_post(s0, s1, x, y, n),
        lo_draw_post(s1, s2, x, y, n),
    ensures
        s2.gfx@ == s0.gfx@,
        (s2.v@[15] == 1) <==> (exists|row: int, col: int|
            0 <= row < n && 0 <= col < 8 && #[trigger] lo_row_bit(
                s0.memory@,
                s0.i as int,
                row,
                col,
            ) && s0.gfx@[pix_at(s0.v@[x as int], s0.v@[y as int], row, col)] == 0),
{
    let px = s0.v@[x as int];
    let py = s0.v@[y as int];
    let mem = s0.memory@;
    let i = s0.i as int;
    assert(s1.v@[x as int] == px);
    assert(s1.v@[y as int] == py);
    assert(s1.memory@ == mem);
    assert(s1.i == s0.i);
    assert forall|g: int| 0 <= g < GFX_SIZE implies s2.gfx@[g] == s0.gfx@[g] by {
        if lo_hit(mem, i, px, py, n as int, g) {
            assert(s1.gfx@[g] == flip(s0.gfx@[g]));
            assert(s2.gfx@[g] == flip(flip(s0.gfx@[g])));
        }
    }
    assert(s2.gfx@ =~= s0.gfx@);
    if s2.v@[15] == 1 {
        let (row, col) = choose|row: int, col: int|
            0 <= row < n && 0 <= col < 8 && #[trigger] lo_row_bit(
                s1.memory@,
                s1.i as int,
                row,
                col,
            ) && s1.gfx@[pix_at(s1.v@[x as int], s1.v@[y as int], row, col)] == 1;
        let t = pix_at(px, py, row, col);
        assert(t < GFX_SIZE);
        assert(lo_hit(mem, i, px, py, n as int, t));
        assert(s1.gfx@[t] == flip(s0.gfx@[t]));
        assert(s0.gfx@[t] == 0);
    }
    if exists|row: int, col: int|
        0 <= row < n && 0 <= col < 8 && #[trigger] lo_row_bit(mem, i, row, col) && s0.gfx@[pix_at(
            px,
            py,
            row,
            col,
        )] == 0 {
        let (row, col) = choose|row: int, col: int|
            0 <= row < n && 0 <= col < 8 && #[trigger] lo_row_bit(mem, i, row, col)
                && s0.gfx@[pix_at(px, py, row, col)] == 0;
        let t = pix_at(px, py, row, col);
        assert(t < GFX_SIZE);
        assert(lo_hit(mem, i, px, py, n as int, t));
        assert(s1.gfx@[t] == flip(s0.gfx@[t]));
        assert(s1.gfx@[t] == 1);
        assert(s2.v@[15] == 1);
    }
}

/// As `lemma_draw_twice_restores`, for the high-resolution draw.
pub proof fn lemma_hi_draw_twice_restores(s0: Chip8, s1: Chip8, s2: Chip8, x: u8, y: u8)
    requires
        s0.wf(),
        x < 16,
        y < 16,
        x != 15,
        y != 15,
        hi_draw_ok(s0, x, y),
        hi_draw_post(s0, s1, x, y),
        hi_draw_post(s1, s2, x, y),
    ensures
        s2.gfx@ == s0.gfx@,
        (s2.v@[15] == 1) <==> (exists|row: int, col: int|
            0 <= row < 15 && 0 <= col < 15 && #[trigger] hi_row_bit(
                s0.memory@,
                s0.i as int,
                row,
                col,
            ) && s0.gfx@[pix_at(s0.v@[x as int], s0.v@[y as int], row, col)] == 0),
{
    let px = s0.v@[x as int];
    let py = s0.v@[y as int];
    let mem = s0.memory@;
    let i = s0.i as int;
    assert(s1.v@[x as int] == px);
    assert(s1.v@[y as int] == py);
    assert(s1.memory@ == mem);
    assert(s1.i == s0.i);
    assert forall|g: int| 0 <= g < GFX_SIZE implies s2.gfx@[g] == s0.gfx@[g] by {
        if hi_hit(mem, i, px, py, g) {
            assert(s1.gfx@[g] == flip(s0.gfx@[g]));
            assert(s2.gfx@[g] == flip(flip(s0.gfx@[g])));
        }
    }
    assert(s2.gfx@ =~= s0.gfx@);
    if s2.v@[15] == 1 {
        let (row, col) = choose|row: int, col: int|
            0 <= row < 15 && 0 <= col < 15 && #[trigger] hi_row_bit(
                s1.memory@,
                s1.i as int,
                row,
                col,
            ) && s1.gfx@[pix_at(s1.v@[x as int], s1.v@[y as int], row, col)] == 1;
        let t = pix_at(px, py, row, col);
        assert(t < GFX_SIZE);
        assert(hi_hit(mem, i, px, py, t));
        assert(s1.gfx@[t] == flip(s0.gfx@[t]));
        assert(s0.gfx@[t] == 0);
    }
    if exists|row: int, col: int|
        0 <= row < 15 && 0 <= col < 15 && #[trigger] hi_row_bit(mem, i, row, col) && s0.gfx@[
        pix_at(px, py, row, col)] == 0 {
        let (row, col) = choose|row: int, col: int|
            0 <= row < 15 && 0 <= col < 15 && #[trigger] hi_row_bit(mem, i, row, col)
                && s0.gfx@[pix_at(px, py, row, col)] == 0;
        let t = pix_at(px, py, row, col);
        assert(t < GFX_SIZE);
        assert(hi_hit(mem, i, px, py, t));
        assert(s1.gfx@[t] == flip(s0.gfx@[t]));
        assert(s1.gfx@[t] == 1);
        assert(s2.v@[15] == 1);
    }
}

} // verus!
