//! The framebuffer and drawing engine: XOR sprite compositing with
//! collision flagging in both resolution modes, the screen clear and the
//! scroll instructions.
//!
//! A sprite draw is specified pointwise: a pixel is "hit" when some sprite
//! bit targets it, each pixel is hit at most once (sprite targets are
//! injective), a hit pixel is flipped, and the flag register reports
//! whether any hit pixel was already lit. Coordinates are not wrapped; a
//! draw whose set bits would leave the framebuffer, or whose sprite rows
//! would leave memory, is refused as a fault by the dispatch engine, which
//! checks with `check_lo_draw` / `check_hi_draw` before drawing.

use vstd::prelude::*;
use crate::machine::{
    Chip8, flip, frame_pc, frame_gfx_pc, frame_hgr_pc, frame_draw, same_mem, same_timers,
    same_input, same_call_stack, MEM_SIZE, GFX_SIZE,
};

verus! {

/// The framebuffer index a sprite bit at `(row, col)` targets when the
/// sprite's top-left pixel is `(px, py)`: bits are horizontal, rows are 64
/// pixels apart.
pub open spec fn pix_at(px: u8, py: u8, row: int, col: int) -> int {
    px + col + (py + row) * 64
}

/// The flat framebuffer index of screen position `(row, col)`.
pub open spec fn gidx(row: int, col: int) -> int {
    row * 64 + col
}

/// Whether bit `col` (most significant first) of the low-resolution sprite
/// row `row` is set, for a sprite read from memory at `i`.
pub open spec fn lo_row_bit(mem: Seq<u8>, i: int, row: int, col: int) -> bool {
    mem[i + row] & (0x80u8 >> (col as u8)) != 0
}

/// The 16-bit row `row` of a high-resolution sprite at `i`: two bytes
/// merged, first byte high.
pub open spec fn hi_row(mem: Seq<u8>, i: int, row: int) -> u16 {
    ((mem[i + 2 * row] as u16) << 8u16) | (mem[i + 1 + 2 * row] as u16)
}

/// Whether bit `col` (most significant first) of high-resolution sprite
/// row `row` is set.
pub open spec fn hi_row_bit(mem: Seq<u8>, i: int, row: int, col: int) -> bool {
    hi_row(mem, i, row) & (0x8000u16 >> (col as u16)) != 0
}

/// Distinct sprite bits target distinct pixels.
proof fn lemma_pix_at_injective(px: u8, py: u8, r1: int, c1: int, r2: int, c2: int)
    requires
        0 <= r1,
        0 <= r2,
        0 <= c1 < 64,
        0 <= c2 < 64,
        pix_at(px, py, r1, c1) == pix_at(px, py, r2, c2),
    ensures
        r1 == r2,
        c1 == c2,
{
    assert(c1 - c2 == 64 * (r2 - r1));
}

/// Distinct screen positions have distinct flat indices.
proof fn lemma_gidx_injective(r1: int, c1: int, r2: int, c2: int)
    requires
        0 <= r1,
        0 <= r2,
        0 <= c1 < 64,
        0 <= c2 < 64,
        gidx(r1, c1) == gidx(r2, c2),
    ensures
        r1 == r2,
        c1 == c2,
{
    assert(c1 - c2 == 64 * (r2 - r1));
}

/// A low-resolution draw of height `n` stays in range: every sprite row
/// is readable and every set bit targets a framebuffer pixel.
pub open spec fn lo_draw_ok(s: Chip8, x: u8, y: u8, n: u8) -> bool {
    &&& s.i + n <= MEM_SIZE
    &&& forall|row: int, col: int|
        0 <= row < n && 0 <= col < 8 && #[trigger] lo_row_bit(s.memory@, s.i as int, row, col)
            ==> pix_at(s.v@[x as int], s.v@[y as int], row, col) < GFX_SIZE
}

/// Some set bit of the sprite targets pixel `g`.
pub open spec fn lo_hit(mem: Seq<u8>, i: int, px: u8, py: u8, n: int, g: int) -> bool {
    exists|row: int, col: int|
        0 <= row < n && 0 <= col < 8 && #[trigger] lo_row_bit(mem, i, row, col) && g == pix_at(
            px,
            py,
            row,
            col,
        )
}

/// Some set bit of the sprite targets an already-lit pixel: the collision
/// the flag register reports.
pub open spec fn lo_collision(s: Chip8, x: u8, y: u8, n: u8) -> bool {
    exists|row: int, col: int|
        0 <= row < n && 0 <= col < 8 && #[trigger] lo_row_bit(s.memory@, s.i as int, row, col)
            && s.gfx@[pix_at(s.v@[x as int], s.v@[y as int], row, col)] == 1
}

/// `Dxyn` in low resolution: every hit pixel is flipped and no other
/// changes, the flag register becomes 1 exactly on collision, and the
/// dirty bit is set.
pub open spec fn lo_draw_post(pre: Chip8, post: Chip8, x: u8, y: u8, n: u8) -> bool {
    &&& frame_draw(pre, post)
    &&& post.gfx@.len() == GFX_SIZE
    &&& forall|g: int|
        0 <= g < GFX_SIZE ==> post.gfx@[g] == (if lo_hit(
            pre.memory@,
            pre.i as int,
            pre.v@[x as int],
            pre.v@[y as int],
            n as int,
            g,
        ) {
            flip(pre.gfx@[g])
        } else {
            pre.gfx@[g]
        })
    &&& post.v@ == pre.v@.update(
        15,
        (if lo_collision(pre, x, y, n) {
            1u8
        } else {
            0u8
        }),
    )
    &&& post.draw_flag == true
    &&& post.pc == pre.pc + 2
}

/// A high-resolution draw stays in range: 15 two-byte rows are readable
/// and every set bit of the 15 leading columns targets a pixel.
pub open spec fn hi_draw_ok(s: Chip8, x: u8, y: u8) -> bool {
    &&& s.i + 30 <= MEM_SIZE
    &&& forall|row: int, col: int|
        0 <= row < 15 && 0 <= col < 15 && #[trigger] hi_row_bit(s.memory@, s.i as int, row, col)
            ==> pix_at(s.v@[x as int], s.v@[y as int], row, col) < GFX_SIZE
}

/// Some set bit of the high-resolution sprite targets pixel `g`.
pub open spec fn hi_hit(mem: Seq<u8>, i: int, px: u8, py: u8, g: int) -> bool {
    exists|row: int, col: int|
        0 <= row < 15 && 0 <= col < 15 && #[trigger] hi_row_bit(mem, i, row, col) && g == pix_at(
            px,
            py,
            row,
            col,
        )
}

/// Some set bit of the high-resolution sprite targets an already-lit pixel.
pub open spec fn hi_collision(s: Chip8, x: u8, y: u8) -> bool {
    exists|row: int, col: int|
        0 <= row < 15 && 0 <= col < 15 && #[trigger] hi_row_bit(s.memory@, s.i as int, row, col)
            && s.gfx@[pix_at(s.v@[x as int], s.v@[y as int], row, col)] == 1
}

/// `Dxy0` with the resolution flag set: a fixed 15-row, 15-column region,
/// two sprite bytes per row, otherwise as in low resolution.
pub open spec fn hi_draw_post(pre: Chip8, post: Chip8, x: u8, y: u8) -> bool {
    &&& frame_draw(pre, post)
    &&& post.gfx@.len() == GFX_SIZE
    &&& forall|g: int|
        0 <= g < GFX_SIZE ==> post.gfx@[g] == (if hi_hit(
            pre.memory@,
            pre.i as int,
            pre.v@[x as int],
            pre.v@[y as int],
            g,
        ) {
            flip(pre.gfx@[g])
        } else {
            pre.gfx@[g]
        })
    &&& post.v@ == pre.v@.update(
        15,
        (if hi_collision(pre, x, y) {
            1u8
        } else {
            0u8
        }),
    )
    &&& post.draw_flag == true
    &&& post.pc == pre.pc + 2
}

/// `00E0`: every pixel off, unconditionally of prior state.
pub open spec fn draw_clear_post(pre: Chip8, post: Chip8) -> bool {
    &&& frame_gfx_pc(pre, post)
    &&& post.gfx@.len() == GFX_SIZE
    &&& forall|g: int| 0 <= g < GFX_SIZE ==> post.gfx@[g] == 0
    &&& post.pc == pre.pc + 2
}

/// `00Cx`: rows shift downward by `V[x]` positions; rows shifted off the
/// bottom are overwritten, vacated top rows keep their prior content.
pub open spec fn scroll_down_post(pre: Chip8, post: Chip8, x: u8) -> bool {
    let amt = pre.v@[x as int] as int;
    &&& frame_gfx_pc(pre, post)
    &&& post.gfx@.len() == GFX_SIZE
    &&& forall|r: int, c: int|
        0 <= r < 32 && 0 <= c < 64 ==> post.gfx@[#[trigger] gidx(r, c)] == (if r >= amt {
            pre.gfx@[gidx(r - amt, c)]
        } else {
            pre.gfx@[gidx(r, c)]
        })
    &&& post.pc == pre.pc + 2
}

/// `00FE` / `00FF`: set the resolution-mode flag; the framebuffer is
/// neither resized nor cleared.
pub open spec fn hgr_post(pre: Chip8, post: Chip8, enable: bool) -> bool {
    &&& frame_hgr_pc(pre, post)
    &&& post.hgr == enable
    &&& post.pc == pre.pc + 2
}

/// Sprite bits hit so far by a low-resolution draw, in row-major order up
/// to (but not including) position `(row, col)`.
spec fn lo_hit_upto(mem: Seq<u8>, i: int, px: u8, py: u8, row: int, col: int, g: int) -> bool {
    exists|r: int, c: int|
        0 <= r && 0 <= c < 8 && (r < row || (r == row && c < col)) && #[trigger] lo_row_bit(
            mem,
            i,
            r,
            c,
        ) && g == pix_at(px, py, r, c)
}

/// Collisions seen so far by a low-resolution draw.
spec fn lo_collision_upto(pre: Chip8, px: u8, py: u8, row: int, col: int) -> bool {
    exists|r: int, c: int|
        0 <= r && 0 <= c < 8 && (r < row || (r == row && c < col)) && #[trigger] lo_row_bit(
            pre.memory@,
            pre.i as int,
            r,
            c,
        ) && pre.gfx@[pix_at(px, py, r, c)] == 1
}

/// Sprite bits hit so far by a high-resolution draw.
spec fn hi_hit_upto(mem: Seq<u8>, i: int, px: u8, py: u8, row: int, col: int, g: int) -> bool {
    exists|r: int, c: int|
        0 <= r && 0 <= c < 15 && (r < row || (r == row && c < col)) && #[trigger] hi_row_bit(
            mem,
            i,
            r,
            c,
        ) && g == pix_at(px, py, r, c)
}

/// Collisions seen so far by a high-resolution draw.
spec fn hi_collision_upto(pre: Chip8, px: u8, py: u8, row: int, col: int) -> bool {
    exists|r: int, c: int|
        0 <= r && 0 <= c < 15 && (r < row || (r == row && c < col)) && #[trigger] hi_row_bit(
            pre.memory@,
            pre.i as int,
            r,
            c,
        ) && pre.gfx@[pix_at(px, py, r, c)] == 1
}

/// Before any bit is processed, nothing has been hit.
proof fn lemma_lo_upto_none(mem: Seq<u8>, i: int, px: u8, py: u8, g: int)
    ensures
        !lo_hit_upto(mem, i, px, py, 0, 0, g),
{
}

/// Processing one more bit adds exactly that bit's target to the hits.
proof fn lemma_lo_upto_succ(mem: Seq<u8>, i: int, px: u8, py: u8, row: int, col: int, g: int)
    requires
        0 <= row,
        0 <= col < 8,
    ensures
        lo_hit_upto(mem, i, px, py, row, col + 1, g) == (lo_hit_upto(mem, i, px, py, row, col, g)
            || (lo_row_bit(mem, i, row, col) && g == pix_at(px, py, row, col))),
{
    if lo_hit_upto(mem, i, px, py, row, col + 1, g) {
        let (r, c) = choose|r: int, c: int|
            0 <= r && 0 <= c < 8 && (r < row || (r == row && c < col + 1)) && #[trigger] lo_row_bit(
                mem,
                i,
                r,
                c,
            ) && g == pix_at(px, py, r, c);
        if !(r == row && c == col) {
            assert(r < row || (r == row && c < col));
            assert(lo_hit_upto(mem, i, px, py, row, col, g));
        }
    }
    if lo_hit_upto(mem, i, px, py, row, col, g) {
        let (r, c) = choose|r: int, c: int|
            0 <= r && 0 <= c < 8 && (r < row || (r == row && c < col)) && #[trigger] lo_row_bit(
                mem,
                i,
                r,
                c,
            ) && g == pix_at(px, py, r, c);
        assert(lo_hit_upto(mem, i, px, py, row, col + 1, g));
    }
    if lo_row_bit(mem, i, row, col) && g == pix_at(px, py, row, col) {
        assert(lo_hit_upto(mem, i, px, py, row, col + 1, g));
    }
}

/// Finishing a row's 8 bits is starting the next row.
proof fn lemma_lo_upto_row(mem: Seq<u8>, i: int, px: u8, py: u8, row: int, g: int)
    requires
        0 <= row,
    ensures
        lo_hit_upto(mem, i, px, py, row, 8, g) == lo_hit_upto(mem, i, px, py, row + 1, 0, g),
{
    if lo_hit_upto(mem, i, px, py, row, 8, g) {
        let (r, c) = choose|r: int, c: int|
            0 <= r && 0 <= c < 8 && (r < row || (r == row && c < 8)) && #[trigger] lo_row_bit(
                mem,
                i,
                r,
                c,
            ) && g == pix_at(px, py, r, c);
        assert(lo_hit_upto(mem, i, px, py, row + 1, 0, g));
    }
    if lo_hit_upto(mem, i, px, py, row + 1, 0, g) {
        let (r, c) = choose|r: int, c: int|
            0 <= r && 0 <= c < 8 && (r < row + 1 || (r == row + 1 && c < 0)) && #[trigger] lo_row_bit(
                mem,
                i,
                r,
                c,
            ) && g == pix_at(px, py, r, c);
        assert(lo_hit_upto(mem, i, px, py, row, 8, g));
    }
}

/// After the last row, the hits so far are exactly the sprite's hits.
proof fn lemma_lo_upto_end(mem: Seq<u8>, i: int, px: u8, py: u8, n: int, g: int)
    requires
        0 <= n,
    ensures
        lo_hit_upto(mem, i, px, py, n, 0, g) == lo_hit(mem, i, px, py, n, g),
{
    if lo_hit_upto(mem, i, px, py, n, 0, g) {
        let (r, c) = choose|r: int, c: int|
            0 <= r && 0 <= c < 8 && (r < n || (r == n && c < 0)) && #[trigger] lo_row_bit(
                mem,
                i,
                r,
                c,
            ) && g == pix_at(px, py, r, c);
        assert(lo_hit(mem, i, px, py, n, g));
    }
    if lo_hit(mem, i, px, py, n, g) {
        let (r, c) = choose|r: int, c: int|
            0 <= r < n && 0 <= c < 8 && #[trigger] lo_row_bit(mem, i, r, c) && g == pix_at(
                px,
                py,
                r,
                c,
            );
        assert(lo_hit_upto(mem, i, px, py, n, 0, g));
    }
}

/// The bit being processed never targets a pixel hit earlier.
proof fn lemma_lo_no_prior_hit(mem: Seq<u8>, i: int, px: u8, py: u8, row: int, col: int)
    requires
        0 <= row,
        0 <= col < 8,
    ensures
        !lo_hit_upto(mem, i, px, py, row, col, pix_at(px, py, row, col)),
{
    if lo_hit_upto(mem, i, px, py, row, col, pix_at(px, py, row, col)) {
        let (r, c) = choose|r: int, c: int|
            0 <= r && 0 <= c < 8 && (r < row || (r == row && c < col)) && #[trigger] lo_row_bit(
                mem,
                i,
                r,
                c,
            ) && pix_at(px, py, row, col) == pix_at(px, py, r, c);
        lemma_pix_at_injective(px, py, r, c, row, col);
    }
}

/// As `lemma_lo_upto_none`, for the collisions seen.
proof fn lemma_lo_coll_none(pre: Chip8, px: u8, py: u8)
    ensures
        !lo_collision_upto(pre, px, py, 0, 0),
{
}

/// As `lemma_lo_upto_succ`, for the collisions seen.
proof fn lemma_lo_coll_succ(pre: Chip8, px: u8, py: u8, row: int, col: int)
    requires
        0 <= row,
        0 <= col < 8,
    ensures
        lo_collision_upto(pre, px, py, row, col + 1) == (lo_collision_upto(pre, px, py, row, col)
            || (lo_row_bit(pre.memory@, pre.i as int, row, col) && pre.gfx@[pix_at(
            px,
            py,
            row,
            col,
        )] == 1)),
{
    if lo_collision_upto(pre, px, py, row, col + 1) {
        let (r, c) = choose|r: int, c: int|
            0 <= r && 0 <= c < 8 && (r < row || (r == row && c < col + 1)) && #[trigger] lo_row_bit(
                pre.memory@,
                pre.i as int,
                r,
                c,
            ) && pre.gfx@[pix_at(px, py, r, c)] == 1;
        if !(r == row && c == col) {
            assert(r < row || (r == row && c < col));
            assert(lo_collision_upto(pre, px, py, row, col));
        }
    }
    if lo_collision_upto(pre, px, py, row, col) {
        let (r, c) = choose|r: int, c: int|
            0 <= r && 0 <= c < 8 && (r < row || (r == row && c < col)) && #[trigger] lo_row_bit(
                pre.memory@,
                pre.i as int,
                r,
                c,
            ) && pre.gfx@[pix_at(px, py, r, c)] == 1;
        assert(lo_collision_upto(pre, px, py, row, col + 1));
    }
    if lo_row_bit(pre.memory@, pre.i as int, row, col) && pre.gfx@[pix_at(px, py, row, col)]
        == 1 {
        assert(lo_collision_upto(pre, px, py, row, col + 1));
    }
}

/// As `lemma_lo_upto_row`, for the collisions seen.
proof fn lemma_lo_coll_row(pre: Chip8, px: u8, py: u8, row: int)
    requires
        0 <= row,
    ensures
        lo_collision_upto(pre, px, py, row, 8) == lo_collision_upto(pre, px, py, row + 1, 0),
{
    if lo_collision_upto(pre, px, py, row, 8) {
        let (r, c) = choose|r: int, c: int|
            0 <= r && 0 <= c < 8 && (r < row || (r == row && c < 8)) && #[trigger] lo_row_bit(
                pre.memory@,
                pre.i as int,
                r,
                c,
            ) && pre.gfx@[pix_at(px, py, r, c)] == 1;
        assert(lo_collision_upto(pre, px, py, row + 1, 0));
    }
    if lo_collision_upto(pre, px, py, row + 1, 0) {
        let (r, c) = choose|r: int, c: int|
            0 <= r && 0 <= c < 8 && (r < row + 1 || (r == row + 1 && c < 0))
                && #[trigger] lo_row_bit(pre.memory@, pre.i as int, r, c) && pre.gfx@[pix_at(
                px,
                py,
                r,
                c,
            )] == 1;
        assert(lo_collision_upto(pre, px, py, row, 8));
    }
}

/// As `lemma_lo_upto_end`, for the collisions seen.
proof fn lemma_lo_coll_end(pre: Chip8, x: u8, y: u8, n: u8)
    requires
        x < 16,
        y < 16,
        pre.v@.len() == 16,
    ensures
        lo_collision_upto(pre, pre.v@[x as int], pre.v@[y as int], n as int, 0) == lo_collision(
            pre,
            x,
            y,
            n,
        ),
{
    let px = pre.v@[x as int];
    let py = pre.v@[y as int];
    if lo_collision_upto(pre, px, py, n as int, 0) {
        let (r, c) = choose|r: int, c: int|
            0 <= r && 0 <= c < 8 && (r < n || (r == n && c < 0)) && #[trigger] lo_row_bit(
                pre.memory@,
                pre.i as int,
                r,
                c,
            ) && pre.gfx@[pix_at(px, py, r, c)] == 1;
        assert(lo_collision(pre, x, y, n));
    }
    if lo_collision(pre, x, y, n) {
        let (r, c) = choose|r: int, c: int|
            0 <= r < n && 0 <= c < 8 && #[trigger] lo_row_bit(pre.memory@, pre.i as int, r, c)
                && pre.gfx@[pix_at(px, py, r, c)] == 1;
        assert(lo_collision_upto(pre, px, py, n as int, 0));
    }
}

/// As `lemma_lo_upto_none`, in high resolution.
proof fn lemma_hi_upto_none(mem: Seq<u8>, i: int, px: u8, py: u8, g: int)
    ensures
        !hi_hit_upto(mem, i, px, py, 0, 0, g),
{
}

/// As `lemma_lo_upto_succ`, in high resolution.
proof fn lemma_hi_upto_succ(mem: Seq<u8>, i: int, px: u8, py: u8, row: int, col: int, g: int)
    requires
        0 <= row,
        0 <= col < 15,
    ensures
        hi_hit_upto(mem, i, px, py, row, col + 1, g) == (hi_hit_upto(mem, i, px, py, row, col, g)
            || (hi_row_bit(mem, i, row, col) && g == pix_at(px, py, row, col))),
{
    if hi_hit_upto(mem, i, px, py, row, col + 1, g) {
        let (r, c) = choose|r: int, c: int|
            0 <= r && 0 <= c < 15 && (r < row || (r == row && c < col + 1)) && #[trigger] hi_row_bit(
                mem,
                i,
                r,
                c,
            ) && g == pix_at(px, py, r, c);
        if !(r == row && c == col) {
            assert(r < row || (r == row && c < col));
            assert(hi_hit_upto(mem, i, px, py, row, col, g));
        }
    }
    if hi_hit_upto(mem, i, px, py, row, col, g) {
        let (r, c) = choose|r: int, c: int|
            0 <= r && 0 <= c < 15 && (r < row || (r == row && c < col)) && #[trigger] hi_row_bit(
                mem,
                i,
                r,
                c,
            ) && g == pix_at(px, py, r, c);
        assert(hi_hit_upto(mem, i, px, py, row, col + 1, g));
    }
    if hi_row_bit(mem, i, row, col) && g == pix_at(px, py, row, col) {
        assert(hi_hit_upto(mem, i, px, py, row, col + 1, g));
    }
}

/// As `lemma_lo_upto_row`, in high resolution.
proof fn lemma_hi_upto_row(mem: Seq<u8>, i: int, px: u8, py: u8, row: int, g: int)
    requires
        0 <= row,
    ensures
        hi_hit_upto(mem, i, px, py, row, 15, g) == hi_hit_upto(mem, i, px, py, row + 1, 0, g),
{
    if hi_hit_upto(mem, i, px, py, row, 15, g) {
        let (r, c) = choose|r: int, c: int|
            0 <= r && 0 <= c < 15 && (r < row || (r == row && c < 15)) && #[trigger] hi_row_bit(
                mem,
                i,
                r,
                c,
            ) && g == pix_at(px, py, r, c);
        assert(hi_hit_upto(mem, i, px, py, row + 1, 0, g));
    }
    if hi_hit_upto(mem, i, px, py, row + 1, 0, g) {
        let (r, c) = choose|r: int, c: int|
            0 <= r && 0 <= c < 15 && (r < row + 1 || (r == row + 1 && c < 0))
                && #[trigger] hi_row_bit(mem, i, r, c) && g == pix_at(px, py, r, c);
        assert(hi_hit_upto(mem, i, px, py, row, 15, g));
    }
}

/// As `lemma_lo_upto_end`, in high resolution.
proof fn lemma_hi_upto_end(mem: Seq<u8>, i: int, px: u8, py: u8, g: int)
    ensures
        hi_hit_upto(mem, i, px, py, 15, 0, g) == hi_hit(mem, i, px, py, g),
{
    if hi_hit_upto(mem, i, px, py, 15, 0, g) {
        let (r, c) = choose|r: int, c: int|
            0 <= r && 0 <= c < 15 && (r < 15 || (r == 15 && c < 0)) && #[trigger] hi_row_bit(
                mem,
                i,
                r,
                c,
            ) && g == pix_at(px, py, r, c);
        assert(hi_hit(mem, i, px, py, g));
    }
    if hi_hit(mem, i, px, py, g) {
        let (r, c) = choose|r: int, c: int|
            0 <= r < 15 && 0 <= c < 15 && #[trigger] hi_row_bit(mem, i, r, c) && g == pix_at(
                px,
                py,
                r,
                c,
            );
        assert(hi_hit_upto(mem, i, px, py, 15, 0, g));
    }
}

/// As `lemma_lo_no_prior_hit`, in high resolution.
proof fn lemma_hi_no_prior_hit(mem: Seq<u8>, i: int, px: u8, py: u8, row: int, col: int)
    requires
        0 <= row,
        0 <= col < 15,
    ensures
        !hi_hit_upto(mem, i, px, py, row, col, pix_at(px, py, row, col)),
{
    if hi_hit_upto(mem, i, px, py, row, col, pix_at(px, py, row, col)) {
        let (r, c) = choose|r: int, c: int|
            0 <= r && 0 <= c < 15 && (r < row || (r == row && c < col)) && #[trigger] hi_row_bit(
                mem,
                i,
                r,
                c,
            ) && pix_at(px, py, row, col) == pix_at(px, py, r, c);
        lemma_pix_at_injective(px, py, r, c, row, col);
    }
}

/// As `lemma_lo_coll_none`, in high resolution.
proof fn lemma_hi_coll_none(pre: Chip8, px: u8, py: u8)
    ensures
        !hi_collision_upto(pre, px, py, 0, 0),
{
}

/// As `lemma_lo_coll_succ`, in high resolution.
proof fn lemma_hi_coll_succ(pre: Chip8, px: u8, py: u8, row: int, col: int)
    requires
        0 <= row,
        0 <= col < 15,
    ensures
        hi_collision_upto(pre, px, py, row, col + 1) == (hi_collision_upto(pre, px, py, row, col)
            || (hi_row_bit(pre.memory@, pre.i as int, row, col) && pre.gfx@[pix_at(
            px,
            py,
            row,
            col,
        )] == 1)),
{
    if hi_collision_upto(pre, px, py, row, col + 1) {
        let (r, c) = choose|r: int, c: int|
            0 <= r && 0 <= c < 15 && (r < row || (r == row && c < col + 1)) && #[trigger] hi_row_bit(
                pre.memory@,
                pre.i as int,
                r,
                c,
            ) && pre.gfx@[pix_at(px, py, r, c)] == 1;
        if !(r == row && c == col) {
            assert(r < row || (r == row && c < col));
            assert(hi_collision_upto(pre, px, py, row, col));
        }
    }
    if hi_collision_upto(pre, px, py, row, col) {
        let (r, c) = choose|r: int, c: int|
            0 <= r && 0 <= c < 15 && (r < row || (r == row && c < col)) && #[trigger] hi_row_bit(
                pre.memory@,
                pre.i as int,
                r,
                c,
            ) && pre.gfx@[pix_at(px, py, r, c)] == 1;
        assert(hi_collision_upto(pre, px, py, row, col + 1));
    }
    if hi_row_bit(pre.memory@, pre.i as int, row, col) && pre.gfx@[pix_at(px, py, row, col)]
        == 1 {
        assert(hi_collision_upto(pre, px, py, row, col + 1));
    }
}

/// As `lemma_lo_coll_row`, in high resolution.
proof fn lemma_hi_coll_row(pre: Chip8, px: u8, py: u8, row: int)
    requires
        0 <= row,
    ensures
        hi_collision_upto(pre, px, py, row, 15) == hi_collision_upto(pre, px, py, row + 1, 0),
{
    if hi_collision_upto(pre, px, py, row, 15) {
        let (r, c) = choose|r: int, c: int|
            0 <= r && 0 <= c < 15 && (r < row || (r == row && c < 15)) && #[trigger] hi_row_bit(
                pre.memory@,
                pre.i as int,
                r,
                c,
            ) && pre.gfx@[pix_at(px, py, r, c)] == 1;
        assert(hi_collision_upto(pre, px, py, row + 1, 0));
    }
    if hi_collision_upto(pre, px, py, row + 1, 0) {
        let (r, c) = choose|r: int, c: int|
            0 <= r && 0 <= c < 15 && (r < row + 1 || (r == row + 1 && c < 0))
                && #[trigger] hi_row_bit(pre.memory@, pre.i as int, r, c) && pre.gfx@[pix_at(
                px,
                py,
                r,
                c,
            )] == 1;
        assert(hi_collision_upto(pre, px, py, row, 15));
    }
}

/// As `lemma_lo_coll_end`, in high resolution.
proof fn lemma_hi_coll_end(pre: Chip8, x: u8, y: u8)
    requires
        x < 16,
        y < 16,
        pre.v@.len() == 16,
    ensures
        hi_collision_upto(pre, pre.v@[x as int], pre.v@[y as int], 15, 0) == hi_collision(
            pre,
            x,
            y,
        ),
{
    let px = pre.v@[x as int];
    let py = pre.v@[y as int];
    if hi_collision_upto(pre, px, py, 15, 0) {
        let (r, c) = choose|r: int, c: int|
            0 <= r && 0 <= c < 15 && (r < 15 || (r == 15 && c < 0)) && #[trigger] hi_row_bit(
                pre.memory@,
                pre.i as int,
                r,
                c,
            ) && pre.gfx@[pix_at(px, py, r, c)] == 1;
        assert(hi_collision(pre, x, y));
    }
    if hi_collision(pre, x, y) {
        let (r, c) = choose|r: int, c: int|
            0 <= r < 15 && 0 <= c < 15 && #[trigger] hi_row_bit(pre.memory@, pre.i as int, r, c)
                && pre.gfx@[pix_at(px, py, r, c)] == 1;
        assert(hi_collision_upto(pre, px, py, 15, 0));
    }
}

impl Chip8 {
    /// `00E0`: clear the framebuffer.
    pub fn draw_clear(&mut self)
        requires
            old(self).wf(),
            old(self).pc + 2 <= u16::MAX,
        ensures
            final(self).wf(),
            draw_clear_post(*old(self), *final(self)),
    {
        self.gfx = vec![0u8; GFX_SIZE];
        self.pc += 2;
    }

    /// `00FC`: scroll left, accepted but moving no pixels.
    pub fn scroll_left(&mut self)
        requires
            old(self).wf(),
            old(self).pc + 2 <= u16::MAX,
        ensures
            final(self).wf(),
            frame_pc(*old(self), *final(self)),
            final(self).pc == old(self).pc + 2,
    {
        self.pc += 2;
    }

    /// `00FB`: scroll right, accepted but moving no pixels.
    pub fn scroll_right(&mut self)
        requires
            old(self).wf(),
            old(self).pc + 2 <= u16::MAX,
        ensures
            final(self).wf(),
            frame_pc(*old(self), *final(self)),
            final(self).pc == old(self).pc + 2,
    {
        self.pc += 2;
    }

    /// `00FE` / `00FF`: set the resolution-mode flag.
    pub fn hgr(&mut self, enable: bool)
        requires
            old(self).wf(),
            old(self).pc + 2 <= u16::MAX,
        ensures
            final(self).wf(),
            hgr_post(*old(self), *final(self), enable),
    {
        self.hgr = enable;
        self.pc += 2;
    }

    /// `00Cx`: scroll the screen down by `V[x]` rows.
    pub fn scroll_down(&mut self, x: u8)
        requires
            old(self).wf(),
            x < 16,
            old(self).pc + 2 <= u16::MAX,
        ensures
            final(self).wf(),
            scroll_down_post(*old(self), *final(self), x),
    {
        let start = self.v[x as usize] as usize;
        let mut row: usize = 32;
        while row > start
            invariant
                old(self).wf(),
                start == old(self).v@[x as int],
                start <= row <= 32 || (start >= 32 && row == 32),
                self.wf(),
                frame_gfx_pc(*old(self), *self),
                self.pc == old(self).pc,
                self.gfx@.len() == GFX_SIZE,
                forall|r: int, c: int|
                    0 <= r < 32 && 0 <= c < 64 ==> self.gfx@[#[trigger] gidx(r, c)] == (if r
                        >= row {
                        old(self).gfx@[gidx(r - start, c)]
                    } else {
                        old(self).gfx@[gidx(r, c)]
                    }),
            decreases row,
        {
            row -= 1;
            let mut col: usize = 0;
            while col < 64
                invariant
                    old(self).wf(),
                    start == old(self).v@[x as int],
                    start <= row < 32,
                    col <= 64,
                    self.wf(),
                    frame_gfx_pc(*old(self), *self),
                    self.pc == old(self).pc,
                    self.gfx@.len() == GFX_SIZE,
                    forall|r: int, c: int|
                        0 <= r < 32 && 0 <= c < 64 ==> self.gfx@[#[trigger] gidx(r, c)] == (if r
                            > row || (r == row && c < col) {
                            old(self).gfx@[gidx(r - start, c)]
                        } else {
                            old(self).gfx@[gidx(r, c)]
                        }),
                decreases 64 - col,
            {
                let src = self.gfx[(row - start) * 64 + col];
                self.gfx[row * 64 + col] = src;
                proof {
                    assert forall|r: int, c: int| 0 <= r < 32 && 0 <= c < 64 implies self.gfx@[
                        #[trigger] gidx(r, c)] == (if r > row || (r == row && c < col + 1) {
                        old(self).gfx@[gidx(r - start, c)]
                    } else {
                        old(self).gfx@[gidx(r, c)]
                    }) by {
                        if gidx(r, c) == gidx(row as int, col as int) {
                            lemma_gidx_injective(r, c, row as int, col as int);
                        }
                    }
                }
                col += 1;
            }
        }
        self.pc += 2;
    }

    /// Whether a low-resolution draw of height `n` at `(V[x], V[y])` would
    /// stay in range; checked by the dispatch engine before drawing.
    pub fn check_lo_draw(&self, x: u8, y: u8, n: u8) -> (b: bool)
        requires
            self.wf(),
            x < 16,
            y < 16,
        ensures
            b == lo_draw_ok(*self, x, y, n),
    {
        if self.i as usize + n as usize > MEM_SIZE {
            return false;
        }
        let px = self.v[x as usize];
        let py = self.v[y as usize];
        let mut row: usize = 0;
        while row < n as usize
            invariant
                self.wf(),
                x < 16,
                y < 16,
                px == self.v@[x as int],
                py == self.v@[y as int],
                row <= n,
                self.i + n <= MEM_SIZE,
                forall|r: int, c: int|
                    0 <= r < row && 0 <= c < 8 && #[trigger] lo_row_bit(
                        self.memory@,
                        self.i as int,
                        r,
                        c,
                    ) ==> pix_at(px, py, r, c) < GFX_SIZE,
            decreases n - row,
        {
            let pixel = self.memory[self.i as usize + row];
            let mut col: usize = 0;
            while col < 8
                invariant
                    self.wf(),
                    x < 16,
                    y < 16,
                    px == self.v@[x as int],
                    py == self.v@[y as int],
                    row < n,
                    col <= 8,
                    self.i + n <= MEM_SIZE,
                    pixel == self.memory@[self.i + row],
                    forall|r: int, c: int|
                        0 <= r < row && 0 <= c < 8 && #[trigger] lo_row_bit(
                            self.memory@,
                            self.i as int,
                            r,
                            c,
                        ) ==> pix_at(px, py, r, c) < GFX_SIZE,
                    forall|c: int|
                        0 <= c < col && #[trigger] lo_row_bit(
                            self.memory@,
                            self.i as int,
                            row as int,
                            c,
                        ) ==> pix_at(px, py, row as int, c) < GFX_SIZE,
                decreases 8 - col,
            {
                let bit = pixel & (0x80u8 >> (col as u8));
                if bit != 0 {
                    let g: usize = px as usize + col + (py as usize + row) * 64;
                    if g >= GFX_SIZE {
                        assert(lo_row_bit(self.memory@, self.i as int, row as int, col as int));
                        return false;
                    }
                }
                col += 1;
            }
            proof {
                assert forall|r: int, c: int|
                    0 <= r < row + 1 && 0 <= c < 8 && #[trigger] lo_row_bit(
                        self.memory@,
                        self.i as int,
                        r,
                        c,
                    ) implies pix_at(px, py, r, c) < GFX_SIZE by {
                    if r < row {
                    } else {
                        assert(r == row && 0 <= c < 8);
                    }
                }
            }
            row += 1;
        }
        true
    }

    /// Whether a high-resolution draw at `(V[x], V[y])` would stay in
    /// range; checked by the dispatch engine before drawing.
    pub fn check_hi_draw(&self, x: u8, y: u8) -> (b: bool)
        requires
            self.wf(),
            x < 16,
            y < 16,
        ensures
            b == hi_draw_ok(*self, x, y),
    {
        if self.i as usize + 30 > MEM_SIZE {
            return false;
        }
        let px = self.v[x as usize];
        let py = self.v[y as usize];
        let mut row: usize = 0;
        while row < 15
            invariant
                self.wf(),
                x < 16,
                y < 16,
                px == self.v@[x as int],
                py == self.v@[y as int],
                row <= 15,
                self.i + 30 <= MEM_SIZE,
                forall|r: int, c: int|
                    0 <= r < row && 0 <= c < 15 && #[trigger] hi_row_bit(
                        self.memory@,
                        self.i as int,
                        r,
                        c,
                    ) ==> pix_at(px, py, r, c) < GFX_SIZE,
            decreases 15 - row,
        {
            let left = self.memory[self.i as usize + 2 * row];
            let right = self.memory[self.i as usize + 1 + 2 * row];
            let pixel: u16 = ((left as u16) << 8u16) | (right as u16);
            assert(pixel == hi_row(self.memory@, self.i as int, row as int));
            let mut col: usize = 0;
            while col < 15
                invariant
                    self.wf(),
                    x < 16,
                    y < 16,
                    px == self.v@[x as int],
                    py == self.v@[y as int],
                    row < 15,
                    col <= 15,
                    self.i + 30 <= MEM_SIZE,
                    pixel == hi_row(self.memory@, self.i as int, row as int),
                    forall|r: int, c: int|
                        0 <= r < row && 0 <= c < 15 && #[trigger] hi_row_bit(
                            self.memory@,
                            self.i as int,
                            r,
                            c,
                        ) ==> pix_at(px, py, r, c) < GFX_SIZE,
                    forall|c: int|
                        0 <= c < col && #[trigger] hi_row_bit(
                            self.memory@,
                            self.i as int,
                            row as int,
                            c,
                        ) ==> pix_at(px, py, row as int, c) < GFX_SIZE,
                decreases 15 - col,
            {
                let bit = pixel & (0x8000u16 >> (col as u16));
                if bit != 0 {
                    let g: usize = px as usize + col + (py as usize + row) * 64;
                    if g >= GFX_SIZE {
                        assert(hi_row_bit(self.memory@, self.i as int, row as int, col as int));
                        return false;
                    }
                }
                col += 1;
            }
            proof {
                assert forall|r: int, c: int|
                    0 <= r < row + 1 && 0 <= c < 15 && #[trigger] hi_row_bit(
                        self.memory@,
                        self.i as int,
                        r,
                        c,
                    ) implies pix_at(px, py, r, c) < GFX_SIZE by {
                    if r < row {
                    } else {
                        assert(r == row && 0 <= c < 15);
                    }
                }
            }
            row += 1;
        }
        true
    }

    /// High-resolution draw: a fixed 15-row, 15-column region at
    /// `(V[x], V[y])`, two sprite bytes per row merged 16 bits wide, the
    /// height operand ignored.
    #[allow(unused_variables)]
    pub fn draw_x_y_high(&mut self, x: u8, y: u8, n: u8)
        requires
            old(self).wf(),
            x < 16,
            y < 16,
            old(self).pc + 2 <= u16::MAX,
            hi_draw_ok(*old(self), x, y),
        ensures
            final(self).wf(),
            hi_draw_post(*old(self), *final(self), x, y),
    {
        let ghost pre = *old(self);
        let px = self.v[x as usize];
        let py = self.v[y as usize];
        self.v[15] = 0;
        let i_base = self.i as usize;
        proof {
            assert forall|g: int| 0 <= g < GFX_SIZE implies !hi_hit_upto(
                pre.memory@,
                pre.i as int,
                px,
                py,
                0,
                0,
                g,
            ) by {
                lemma_hi_upto_none(pre.memory@, pre.i as int, px, py, g);
            }
            lemma_hi_coll_none(pre, px, py);
        }
        let mut row: usize = 0;
        while row < 15
            invariant
                pre.wf(),
                x < 16,
                y < 16,
                row <= 15,
                px == pre.v@[x as int],
                py == pre.v@[y as int],
                i_base == pre.i,
                hi_draw_ok(pre, x, y),
                self.wf(),
                same_mem(pre, *self),
                same_timers(pre, *self),
                same_input(pre, *self),
                same_call_stack(pre, *self),
                self.r@ == pre.r@,
                self.i == pre.i,
                self.hgr == pre.hgr,
                self.draw_flag == pre.draw_flag,
                self.pc == pre.pc,
                self.v@ == pre.v@.update(
                    15,
                    (if hi_collision_upto(pre, px, py, row as int, 0) {
                        1u8
                    } else {
                        0u8
                    }),
                ),
                self.gfx@.len() == GFX_SIZE,
                forall|g: int|
                    0 <= g < GFX_SIZE ==> self.gfx@[g] == (if hi_hit_upto(
                        pre.memory@,
                        pre.i as int,
                        px,
                        py,
                        row as int,
                        0,
                        g,
                    ) {
                        flip(pre.gfx@[g])
                    } else {
                        pre.gfx@[g]
                    }),
            decreases 15 - row,
        {
            let left = self.memory[i_base + 2 * row];
            let right = self.memory[i_base + 1 + 2 * row];
            let pixel: u16 = ((left as u16) << 8u16) | (right as u16);
            assert(pixel == hi_row(pre.memory@, pre.i as int, row as int));
            let mut col: usize = 0;
            while col < 15
                invariant
                    pre.wf(),
                    x < 16,
                    y < 16,
                    row < 15,
                    col <= 15,
                    px == pre.v@[x as int],
                    py == pre.v@[y as int],
                    i_base == pre.i,
                    hi_draw_ok(pre, x, y),
                    pixel == hi_row(pre.memory@, pre.i as int, row as int),
                    self.wf(),
                    same_mem(pre, *self),
                    same_timers(pre, *self),
                    same_input(pre, *self),
                    same_call_stack(pre, *self),
                    self.r@ == pre.r@,
                    self.i == pre.i,
                    self.hgr == pre.hgr,
                    self.draw_flag == pre.draw_flag,
                    self.pc == pre.pc,
                    self.v@ == pre.v@.update(
                        15,
                        (if hi_collision_upto(pre, px, py, row as int, col as int) {
                            1u8
                        } else {
                            0u8
                        }),
                    ),
                    self.gfx@.len() == GFX_SIZE,
                    forall|g: int|
                        0 <= g < GFX_SIZE ==> self.gfx@[g] == (if hi_hit_upto(
                            pre.memory@,
                            pre.i as int,
                            px,
                            py,
                            row as int,
                            col as int,
                            g,
                        ) {
                            flip(pre.gfx@[g])
                        } else {
                            pre.gfx@[g]
                        }),
                decreases 15 - col,
            {
                let bit = pixel & (0x8000u16 >> (col as u16));
                proof {
                    lemma_hi_coll_succ(pre, px, py, row as int, col as int);
                }
                if bit != 0 {
                    proof {
                        assert(hi_row_bit(pre.memory@, pre.i as int, row as int, col as int));
                        lemma_hi_no_prior_hit(
                            pre.memory@,
                            pre.i as int,
                            px,
                            py,
                            row as int,
                            col as int,
                        );
                    }
                    let g: usize = px as usize + col + (py as usize + row) * 64;
                    assert(g == pix_at(px, py, row as int, col as int));
                    assert(g < GFX_SIZE);
                    let cur = self.gfx[g];
                    assert(cur == pre.gfx@[g as int]);
                    if cur == 1 {
                        self.v[15] = 1;
                        proof {
                            assert(self.v@ =~= pre.v@.update(15, 1u8));
                        }
                    }
                    self.gfx[g] = if cur == 1 {
                        0
                    } else {
                        1
                    };
                    proof {
                        assert forall|gg: int| 0 <= gg < GFX_SIZE implies self.gfx@[gg] == (
                        if hi_hit_upto(
                            pre.memory@,
                            pre.i as int,
                            px,
                            py,
                            row as int,
                            col + 1,
                            gg,
                        ) {
                            flip(pre.gfx@[gg])
                        } else {
                            pre.gfx@[gg]
                        }) by {
                            lemma_hi_upto_succ(
                                pre.memory@,
                                pre.i as int,
                                px,
                                py,
                                row as int,
                                col as int,
                                gg,
                            );
                        }
                    }
                } else {
                    proof {
                        assert(!hi_row_bit(pre.memory@, pre.i as int, row as int, col as int));
                        assert forall|gg: int| 0 <= gg < GFX_SIZE implies self.gfx@[gg] == (
                        if hi_hit_upto(
                            pre.memory@,
                            pre.i as int,
                            px,
                            py,
                            row as int,
                            col + 1,
                            gg,
                        ) {
                            flip(pre.gfx@[gg])
                        } else {
                            pre.gfx@[gg]
                        }) by {
                            lemma_hi_upto_succ(
                                pre.memory@,
                                pre.i as int,
                                px,
                                py,
                                row as int,
                                col as int,
                                gg,
                            );
                        }
                    }
                }
                col += 1;
            }
            proof {
                assert forall|gg: int| 0 <= gg < GFX_SIZE implies self.gfx@[gg] == (if hi_hit_upto(
                    pre.memory@,
                    pre.i as int,
                    px,
                    py,
                    row + 1,
                    0,
                    gg,
                ) {
                    flip(pre.gfx@[gg])
                } else {
                    pre.gfx@[gg]
                }) by {
                    lemma_hi_upto_row(pre.memory@, pre.i as int, px, py, row as int, gg);
                }
                lemma_hi_coll_row(pre, px, py, row as int);
            }
            row += 1;
        }
        proof {
            assert forall|gg: int| 0 <= gg < GFX_SIZE implies self.gfx@[gg] == (if hi_hit(
                pre.memory@,
                pre.i as int,
                px,
                py,
                gg,
            ) {
                flip(pre.gfx@[gg])
            } else {
                pre.gfx@[gg]
            }) by {
                lemma_hi_upto_end(pre.memory@, pre.i as int, px, py, gg);
            }
            lemma_hi_coll_end(pre, x, y);
        }
        self.draw_flag = true;
        self.pc += 2;
    }

    /// `Dxyn`: draw the sprite at memory `I`, `n` rows of 8 bits, at
    /// `(V[x], V[y])`; with the resolution flag set and `n == 0`, a
    /// high-resolution draw instead.
    pub fn draw_x_y_low(&mut self, x: u8, y: u8, n: u8)
        requires
            old(self).wf(),
            x < 16,
            y < 16,
            old(self).pc + 2 <= u16::MAX,
            (if old(self).hgr && n == 0 {
                hi_draw_ok(*old(self), x, y)
            } else {
                lo_draw_ok(*old(self), x, y, n)
            }),
        ensures
            final(self).wf(),
            (if old(self).hgr && n == 0 {
                hi_draw_post(*old(self), *final(self), x, y)
            } else {
                lo_draw_post(*old(self), *final(self), x, y, n)
            }),
    {
        if self.hgr && n == 0 {
            self.draw_x_y_high(x, y, n);
            return ;
        }
        let ghost pre = *old(self);
        let px = self.v[x as usize];
        let py = self.v[y as usize];
        self.v[15] = 0;
        let i_base = self.i as usize;
        proof {
            assert forall|g: int| 0 <= g < GFX_SIZE implies !lo_hit_upto(
                pre.memory@,
                pre.i as int,
                px,
                py,
                0,
                0,
                g,
            ) by {
                lemma_lo_upto_none(pre.memory@, pre.i as int, px, py, g);
            }
            lemma_lo_coll_none(pre, px, py);
        }
        let mut row: usize = 0;
        while row < n as usize
            invariant
                pre.wf(),
                x < 16,
                y < 16,
                row <= n,
                px == pre.v@[x as int],
                py == pre.v@[y as int],
                i_base == pre.i,
                lo_draw_ok(pre, x, y, n),
                self.wf(),
                same_mem(pre, *self),
                same_timers(pre, *self),
                same_input(pre, *self),
                same_call_stack(pre, *self),
                self.r@ == pre.r@,
                self.i == pre.i,
                self.hgr == pre.hgr,
                self.draw_flag == pre.draw_flag,
                self.pc == pre.pc,
                self.v@ == pre.v@.update(
                    15,
                    (if lo_collision_upto(pre, px, py, row as int, 0) {
                        1u8
                    } else {
                        0u8
                    }),
                ),
                self.gfx@.len() == GFX_SIZE,
                forall|g: int|
                    0 <= g < GFX_SIZE ==> self.gfx@[g] == (if lo_hit_upto(
                        pre.memory@,
                        pre.i as int,
                        px,
                        py,
                        row as int,
                        0,
                        g,
                    ) {
                        flip(pre.gfx@[g])
                    } else {
                        pre.gfx@[g]
                    }),
            decreases n - row,
        {
            let pixel = self.memory[i_base + row];
            let mut col: usize = 0;
            while col < 8
                invariant
                    pre.wf(),
                    x < 16,
                    y < 16,
                    row < n,
                    col <= 8,
                    px == pre.v@[x as int],
                    py == pre.v@[y as int],
                    i_base == pre.i,
                    lo_draw_ok(pre, x, y, n),
                    pixel == pre.memory@[pre.i + row],
                    self.wf(),
                    same_mem(pre, *self),
                    same_timers(pre, *self),
                    same_input(pre, *self),
                    same_call_stack(pre, *self),
                    self.r@ == pre.r@,
                    self.i == pre.i,
                    self.hgr == pre.hgr,
                    self.draw_flag == pre.draw_flag,
                    self.pc == pre.pc,
                    self.v@ == pre.v@.update(
                        15,
                        (if lo_collision_upto(pre, px, py, row as int, col as int) {
                            1u8
                        } else {
                            0u8
                        }),
                    ),
                    self.gfx@.len() == GFX_SIZE,
                    forall|g: int|
                        0 <= g < GFX_SIZE ==> self.gfx@[g] == (if lo_hit_upto(
                            pre.memory@,
                            pre.i as int,
                            px,
                            py,
                            row as int,
                            col as int,
                            g,
                        ) {
                            flip(pre.gfx@[g])
                        } else {
                            pre.gfx@[g]
                        }),
                decreases 8 - col,
            {
                let bit = pixel & (0x80u8 >> (col as u8));
                proof {
                    lemma_lo_upto_succ(
                        pre.memory@,
                        pre.i as int,
                        px,
                        py,
                        row as int,
                        col as int,
                        0,
                    );
                    lemma_lo_coll_succ(pre, px, py, row as int, col as int);
                }
                if bit != 0 {
                    proof {
                        assert(lo_row_bit(pre.memory@, pre.i as int, row as int, col as int));
                        lemma_lo_no_prior_hit(
                            pre.memory@,
                            pre.i as int,
                            px,
                            py,
                            row as int,
                            col as int,
                        );
                    }
                    let g: usize = px as usize + col + (py as usize + row) * 64;
                    assert(g == pix_at(px, py, row as int, col as int));
                    assert(g < GFX_SIZE);
                    let cur = self.gfx[g];
                    assert(cur == pre.gfx@[g as int]);
                    if cur == 1 {
                        self.v[15] = 1;
                        proof {
                            assert(self.v@ =~= pre.v@.update(15, 1u8));
                        }
                    }
                    self.gfx[g] = if cur == 1 {
                        0
                    } else {
                        1
                    };
                    proof {
                        assert forall|gg: int| 0 <= gg < GFX_SIZE implies self.gfx@[gg] == (
                        if lo_hit_upto(
                            pre.memory@,
                            pre.i as int,
                            px,
                            py,
                            row as int,
                            col + 1,
                            gg,
                        ) {
                            flip(pre.gfx@[gg])
                        } else {
                            pre.gfx@[gg]
                        }) by {
                            lemma_lo_upto_succ(
                                pre.memory@,
                                pre.i as int,
                                px,
                                py,
                                row as int,
                                col as int,
                                gg,
                            );
                        }
                    }
                } else {
                    proof {
                        assert(!lo_row_bit(pre.memory@, pre.i as int, row as int, col as int));
                        assert forall|gg: int| 0 <= gg < GFX_SIZE implies self.gfx@[gg] == (
                        if lo_hit_upto(
                            pre.memory@,
                            pre.i as int,
                            px,
                            py,
                            row as int,
                            col + 1,
                            gg,
                        ) {
                            flip(pre.gfx@[gg])
                        } else {
                            pre.gfx@[gg]
                        }) by {
                            lemma_lo_upto_succ(
                                pre.memory@,
                                pre.i as int,
                                px,
                                py,
                                row as int,
                                col as int,
                                gg,
                            );
                        }
                    }
                }
                col += 1;
            }
            proof {
                assert forall|gg: int| 0 <= gg < GFX_SIZE implies self.gfx@[gg] == (if lo_hit_upto(
                    pre.memory@,
                    pre.i as int,
                    px,
                    py,
                    row + 1,
                    0,
                    gg,
                ) {
                    flip(pre.gfx@[gg])
                } else {
                    pre.gfx@[gg]
                }) by {
                    lemma_lo_upto_row(pre.memory@, pre.i as int, px, py, row as int, gg);
                }
                lemma_lo_coll_row(pre, px, py, row as int);
            }
            row += 1;
        }
        proof {
            assert forall|gg: int| 0 <= gg < GFX_SIZE implies self.gfx@[gg] == (if lo_hit(
                pre.memory@,
                pre.i as int,
                px,
                py,
                n as int,
                gg,
            ) {
                flip(pre.gfx@[gg])
            } else {
                pre.gfx@[gg]
            }) by {
                lemma_lo_upto_end(pre.memory@, pre.i as int, px, py, n as int, gg);
            }
            lemma_lo_coll_end(pre, x, y, n);
        }
        self.draw_flag = true;
        self.pc += 2;
    }
}

} // verus!
