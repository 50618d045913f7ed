//! The machine-state aggregate: memory, registers, call stack, framebuffer,
//! timers and the input latch, together with its well-formedness invariant
//! and the frame predicates that the instruction contracts share.

use vstd::prelude::*;

verus! {

/// Bytes of addressable memory.
pub const MEM_SIZE: usize = 4096;
/// Framebuffer size: one byte per pixel of the 64-by-32 grid.
pub const GFX_SIZE: usize = 2048;
/// First address of program memory; `pc` starts here.
pub const PROG_BASE: usize = 512;
/// First address of the low-resolution glyph window.
pub const FONT_BASE: usize = 80;
/// First address of the high-resolution glyph window.
pub const HGR_FONT_BASE: usize = 160;
/// Call-stack depth.
pub const STACK_SIZE: usize = 16;
/// The program counter value that signals the run loop to stop fetching.
pub const EXIT_SENTINEL: u16 = 0xFFFF;

/// The interpreter's entire mutable state.
pub struct Chip8 {
    /// Flat byte-addressable memory, `MEM_SIZE` bytes.
    pub memory: Vec<u8>,
    /// General-purpose 8-bit registers `V0..VF`; `V[0xF]` doubles as the
    /// carry/borrow/collision flag.
    pub v: Vec<u8>,
    /// Persistent flag registers, untouched by ordinary execution.
    pub r: Vec<u8>,
    /// Index register: base address for memory-indexed instructions.
    pub i: u16,
    /// Program counter.
    pub pc: u16,
    /// Call stack of return addresses; `sp` indexes the next free slot.
    pub stack: Vec<u16>,
    /// Stack pointer, `0 <= sp <= STACK_SIZE`.
    pub sp: u16,
    /// Framebuffer, one byte per pixel, each 0 (off) or 1 (on).
    pub gfx: Vec<u8>,
    /// Resolution-mode flag: alters how the draw instruction reads its
    /// height operand.
    pub hgr: bool,
    /// Armed value of the delay timer.
    pub delay_timer: u8,
    /// Instant (milliseconds) at which the delay timer was armed.
    pub delay_start: Option<u64>,
    /// Armed value of the sound timer.
    pub sound_timer: u8,
    /// Instant (milliseconds) at which the sound timer was armed.
    pub sound_start: Option<u64>,
    /// Pressed state of the 16 logical keys: 0 released, nonzero pressed.
    pub key: Vec<u8>,
    /// First pressed key seen by the most recent input refresh, if any.
    pub last_key: Option<u8>,
    /// Dirty bit: the framebuffer changed since the last redraw.
    pub draw_flag: bool,
}

impl Chip8 {
    /// Well-formedness: every array has its fixed size, the stack pointer
    /// stays in range, stacked return addresses can be resumed past, and
    /// every pixel is 0 or 1.
    pub open spec fn wf(self) -> bool {
        &&& self.memory@.len() == MEM_SIZE
        &&& self.v@.len() == 16
        &&& self.r@.len() == 16
        &&& self.stack@.len() == STACK_SIZE
        &&& self.sp <= STACK_SIZE
        &&& self.gfx@.len() == GFX_SIZE
        &&& self.key@.len() == 16
        &&& forall|g: int| 0 <= g < GFX_SIZE ==> self.gfx@[g] == 0 || self.gfx@[g] == 1
        &&& forall|s: int| 0 <= s < STACK_SIZE ==> self.stack@[s] + 2 <= u16::MAX
    }

    /// A fresh machine: all-zero state except `pc`, which points at the
    /// first address of program memory.
    pub fn new() -> (c: Chip8)
        ensures
            c.wf(),
            forall|a: int| 0 <= a < MEM_SIZE ==> c.memory@[a] == 0,
            forall|x: int| 0 <= x < 16 ==> c.v@[x] == 0,
            forall|x: int| 0 <= x < 16 ==> c.r@[x] == 0,
            c.i == 0,
            c.pc == PROG_BASE,
            forall|s: int| 0 <= s < STACK_SIZE ==> c.stack@[s] == 0,
            c.sp == 0,
            forall|g: int| 0 <= g < GFX_SIZE ==> c.gfx@[g] == 0,
            c.hgr == false,
            c.delay_timer == 0,
            c.delay_start is None,
            c.sound_timer == 0,
            c.sound_start is None,
            forall|k: int| 0 <= k < 16 ==> c.key@[k] == 0,
            c.last_key is None,
            c.draw_flag == false,
    {
        Chip8 {
            memory: vec![0u8; MEM_SIZE],
            v: vec![0u8; 16],
            r: vec![0u8; 16],
            i: 0,
            pc: PROG_BASE as u16,
            stack: vec![0u16; STACK_SIZE],
            sp: 0,
            gfx: vec![0u8; GFX_SIZE],
            hgr: false,
            delay_timer: 0,
            delay_start: None,
            sound_timer: 0,
            sound_start: None,
            key: vec![0u8; 16],
            last_key: None,
            draw_flag: false,
        }
    }
}

/// The 180 bytes of glyph data installed at `FONT_BASE`: sixteen 5-byte
/// low-resolution digit sprites, then ten 10-byte high-resolution digit
/// sprites (which therefore begin at `HGR_FONT_BASE`).
pub open spec fn font_seq() -> Seq<u8> {
    seq![
        0xf0u8, 0x90, 0x90, 0x90, 0xf0, 0x20, 0x60, 0x20, 0x20, 0x70, 0xF0, 0x10, 0xF0, 0x80,
        0xF0, 0xF0, 0x10, 0xF0, 0x10, 0xF0, 0x90, 0x90, 0xF0, 0x10, 0x10, 0xf0, 0x80, 0xf0, 0x10,
        0xf0, 0xf0, 0x80, 0xf0, 0x90, 0xf0, 0xf0, 0x10, 0x20, 0x40, 0x40, 0xf0, 0x90, 0xf0, 0x90,
        0xf0, 0xf0, 0x90, 0xf0, 0x10, 0xf0, 0xF0, 0x90, 0xF0, 0x90, 0x90, 0xE0, 0x90, 0xE0, 0x90,
        0xE0, 0xf0, 0x80, 0x80, 0x80, 0xf0, 0xf0, 0x90, 0x90, 0x90, 0xf0, 0xf0, 0x80, 0xe0, 0x80,
        0xf0, 0xf0, 0x80, 0xf0, 0x80, 0x80, 0x3C, 0x7E, 0xE7, 0xC3, 0xC3, 0xC3, 0xC3, 0xE7, 0x7E,
        0x3C, 0x18, 0x38, 0x58, 0x18, 0x18, 0x18, 0x18, 0x18, 0x18, 0x3C, 0x3E, 0x7F, 0xC3, 0x06,
        0x0C, 0x18, 0x30, 0x60, 0xFF, 0xFF, 0x3C, 0x7E, 0xC3, 0x03, 0x0E, 0x0E, 0x03, 0xC3, 0x7E,
        0x3C, 0x06, 0x0E, 0x1E, 0x36, 0x66, 0xC6, 0xFF, 0xFF, 0x06, 0x06, 0xFF, 0xFF, 0xC0, 0xC0,
        0xFC, 0xFE, 0x03, 0xC3, 0x7E, 0x3C, 0x3E, 0x7C, 0xC0, 0xC0, 0xFC, 0xFE, 0xC3, 0xC3, 0x7E,
        0x3C, 0xFF, 0xFF, 0x03, 0x06, 0x0C, 0x18, 0x30, 0x60, 0x60, 0x60, 0x3C, 0x7E, 0xC3, 0xC3,
        0x7E, 0x7E, 0xC3, 0xC3, 0x7E, 0x3C, 0x3C, 0x7E, 0xC3, 0xC3, 0x7F, 0x3F, 0x03, 0x03, 0x3E,
        0x7C,
    ]
}

/// Installing the glyph data changes exactly the 180-byte font window.
pub open spec fn font_post(pre: Chip8, post: Chip8) -> bool {
    &&& frame_mem_pc(pre, post)
    &&& post.pc == pre.pc
    &&& post.memory@.len() == MEM_SIZE
    &&& forall|a: int|
        0 <= a < MEM_SIZE ==> post.memory@[a] == (if FONT_BASE <= a < FONT_BASE + 180 {
            font_seq()[a - FONT_BASE]
        } else {
            pre.memory@[a]
        })
}

/// Loading a program installs the glyph data, then copies the ROM bytes
/// verbatim from the program base address; nothing else changes.
pub open spec fn load_post(pre: Chip8, post: Chip8, rom: Seq<u8>) -> bool {
    &&& frame_mem_pc(pre, post)
    &&& post.pc == pre.pc
    &&& post.memory@.len() == MEM_SIZE
    &&& forall|a: int|
        0 <= a < MEM_SIZE ==> post.memory@[a] == (if FONT_BASE <= a < FONT_BASE + 180 {
            font_seq()[a - FONT_BASE]
        } else if PROG_BASE <= a < PROG_BASE + rom.len() {
            rom[a - PROG_BASE]
        } else {
            pre.memory@[a]
        })
}

impl Chip8 {
    /// Install the two glyph sets into their reserved memory windows.
    pub fn font(&mut self)
        requires
            old(self).wf(),
        ensures
            final(self).wf(),
            font_post(*old(self), *final(self)),
    {
        let fdata: [u8; 180] = [
            0xf0, 0x90, 0x90, 0x90, 0xf0, 0x20, 0x60, 0x20, 0x20, 0x70, 0xF0, 0x10, 0xF0, 0x80,
            0xF0, 0xF0, 0x10, 0xF0, 0x10, 0xF0, 0x90, 0x90, 0xF0, 0x10, 0x10, 0xf0, 0x80, 0xf0,
            0x10, 0xf0, 0xf0, 0x80, 0xf0, 0x90, 0xf0, 0xf0, 0x10, 0x20, 0x40, 0x40, 0xf0, 0x90,
            0xf0, 0x90, 0xf0, 0xf0, 0x90, 0xf0, 0x10, 0xf0, 0xF0, 0x90, 0xF0, 0x90, 0x90, 0xE0,
            0x90, 0xE0, 0x90, 0xE0, 0xf0, 0x80, 0x80, 0x80, 0xf0, 0xf0, 0x90, 0x90, 0x90, 0xf0,
            0xf0, 0x80, 0xe0, 0x80, 0xf0, 0xf0, 0x80, 0xf0, 0x80, 0x80, 0x3C, 0x7E, 0xE7, 0xC3,
            0xC3, 0xC3, 0xC3, 0xE7, 0x7E, 0x3C, 0x18, 0x38, 0x58, 0x18, 0x18, 0x18, 0x18, 0x18,
            0x18, 0x3C, 0x3E, 0x7F, 0xC3, 0x06, 0x0C, 0x18, 0x30, 0x60, 0xFF, 0xFF, 0x3C, 0x7E,
            0xC3, 0x03, 0x0E, 0x0E, 0x03, 0xC3, 0x7E, 0x3C, 0x06, 0x0E, 0x1E, 0x36, 0x66, 0xC6,
            0xFF, 0xFF, 0x06, 0x06, 0xFF, 0xFF, 0xC0, 0xC0, 0xFC, 0xFE, 0x03, 0xC3, 0x7E, 0x3C,
            0x3E, 0x7C, 0xC0, 0xC0, 0xFC, 0xFE, 0xC3, 0xC3, 0x7E, 0x3C, 0xFF, 0xFF, 0x03, 0x06,
            0x0C, 0x18, 0x30, 0x60, 0x60, 0x60, 0x3C, 0x7E, 0xC3, 0xC3, 0x7E, 0x7E, 0xC3, 0xC3,
            0x7E, 0x3C, 0x3C, 0x7E, 0xC3, 0xC3, 0x7F, 0x3F, 0x03, 0x03, 0x3E, 0x7C,
        ];
        proof {
            assert(fdata@ =~= font_seq());
        }
        let mut k: usize = 0;
        while k < 180
            invariant
                old(self).wf(),
                k <= 180,
                fdata@ =~= font_seq(),
                self.wf(),
                frame_mem_pc(*old(self), *self),
                self.pc == old(self).pc,
                self.memory@.len() == MEM_SIZE,
                forall|a: int|
                    0 <= a < MEM_SIZE ==> self.memory@[a] == (if FONT_BASE <= a < FONT_BASE + k {
                        font_seq()[a - FONT_BASE]
                    } else {
                        old(self).memory@[a]
                    }),
            decreases 180 - k,
        {
            self.memory[FONT_BASE + k] = fdata[k];
            k += 1;
        }
    }

    /// Load a program: install the glyph data, then copy the ROM bytes
    /// verbatim starting at the program base address.
    pub fn load(&mut self, rom: &Vec<u8>)
        requires
            old(self).wf(),
            rom@.len() <= MEM_SIZE - PROG_BASE,
        ensures
            final(self).wf(),
            load_post(*old(self), *final(self), rom@),
    {
        self.font();
        let mut k: usize = 0;
        while k < rom.len()
            invariant
                old(self).wf(),
                k <= rom@.len(),
                rom@.len() <= MEM_SIZE - PROG_BASE,
                self.wf(),
                frame_mem_pc(*old(self), *self),
                self.pc == old(self).pc,
                self.memory@.len() == MEM_SIZE,
                forall|a: int|
                    0 <= a < MEM_SIZE ==> self.memory@[a] == (if FONT_BASE <= a < FONT_BASE
                        + 180 {
                        font_seq()[a - FONT_BASE]
                    } else if PROG_BASE <= a < PROG_BASE + k {
                        rom@[a - PROG_BASE]
                    } else {
                        old(self).memory@[a]
                    }),
            decreases rom@.len() - k,
        {
            self.memory[PROG_BASE + k] = rom[k];
            k += 1;
        }
    }
}

/// Addition of two register values with 8-bit wraparound.
pub open spec fn wrap_add(a: u8, b: u8) -> u8 {
    ((a + b) % 256) as u8
}

/// Subtraction of two register values with 8-bit wraparound.
pub open spec fn wrap_sub(a: u8, b: u8) -> u8 {
    if a >= b {
        (a - b) as u8
    } else {
        (a + 256 - b) as u8
    }
}

/// The other state of a 0-or-1 pixel.
pub open spec fn flip(p: u8) -> u8 {
    if p == 0 {
        1u8
    } else {
        0u8
    }
}

/// Memory is unchanged.
pub open spec fn same_mem(pre: Chip8, post: Chip8) -> bool {
    post.memory@ == pre.memory@
}

/// The framebuffer, the resolution mode and the dirty bit are unchanged.
pub open spec fn same_screen(pre: Chip8, post: Chip8) -> bool {
    &&& post.gfx@ == pre.gfx@
    &&& post.hgr == pre.hgr
    &&& post.draw_flag == pre.draw_flag
}

/// Both timers are unchanged.
pub open spec fn same_timers(pre: Chip8, post: Chip8) -> bool {
    &&& post.delay_timer == pre.delay_timer
    &&& post.delay_start == pre.delay_start
    &&& post.sound_timer == pre.sound_timer
    &&& post.sound_start == pre.sound_start
}

/// The key-state vector and the last-pressed latch are unchanged.
pub open spec fn same_input(pre: Chip8, post: Chip8) -> bool {
    &&& post.key@ == pre.key@
    &&& post.last_key == pre.last_key
}

/// The call stack and the stack pointer are unchanged.
pub open spec fn same_call_stack(pre: Chip8, post: Chip8) -> bool {
    &&& post.stack@ == pre.stack@
    &&& post.sp == pre.sp
}

/// Everything except the general-purpose registers and `pc` is unchanged.
pub open spec fn frame_v_pc(pre: Chip8, post: Chip8) -> bool {
    &&& same_mem(pre, post)
    &&& same_screen(pre, post)
    &&& same_timers(pre, post)
    &&& same_input(pre, post)
    &&& same_call_stack(pre, post)
    &&& post.r@ == pre.r@
    &&& post.i == pre.i
}

/// Everything except `pc` is unchanged.
pub open spec fn frame_pc(pre: Chip8, post: Chip8) -> bool {
    &&& frame_v_pc(pre, post)
    &&& post.v@ == pre.v@
}

/// Everything except the index register and `pc` is unchanged.
pub open spec fn frame_i_pc(pre: Chip8, post: Chip8) -> bool {
    &&& same_mem(pre, post)
    &&& same_screen(pre, post)
    &&& same_timers(pre, post)
    &&& same_input(pre, post)
    &&& same_call_stack(pre, post)
    &&& post.v@ == pre.v@
    &&& post.r@ == pre.r@
}

/// Everything except memory and `pc` is unchanged.
pub open spec fn frame_mem_pc(pre: Chip8, post: Chip8) -> bool {
    &&& same_screen(pre, post)
    &&& same_timers(pre, post)
    &&& same_input(pre, post)
    &&& same_call_stack(pre, post)
    &&& post.v@ == pre.v@
    &&& post.r@ == pre.r@
    &&& post.i == pre.i
}

/// Everything except memory, the index register and `pc` is unchanged.
pub open spec fn frame_mem_i_pc(pre: Chip8, post: Chip8) -> bool {
    &&& same_screen(pre, post)
    &&& same_timers(pre, post)
    &&& same_input(pre, post)
    &&& same_call_stack(pre, post)
    &&& post.v@ == pre.v@
    &&& post.r@ == pre.r@
}

/// Everything except the general-purpose registers, the index register and
/// `pc` is unchanged.
pub open spec fn frame_v_i_pc(pre: Chip8, post: Chip8) -> bool {
    &&& same_mem(pre, post)
    &&& same_screen(pre, post)
    &&& same_timers(pre, post)
    &&& same_input(pre, post)
    &&& same_call_stack(pre, post)
    &&& post.r@ == pre.r@
}

/// Everything except the persistent flag registers, the index register and
/// `pc` is unchanged.
pub open spec fn frame_r_i_pc(pre: Chip8, post: Chip8) -> bool {
    &&& same_mem(pre, post)
    &&& same_screen(pre, post)
    &&& same_timers(pre, post)
    &&& same_input(pre, post)
    &&& same_call_stack(pre, post)
    &&& post.v@ == pre.v@
}

/// Everything except the framebuffer and `pc` is unchanged.
pub open spec fn frame_gfx_pc(pre: Chip8, post: Chip8) -> bool {
    &&& same_mem(pre, post)
    &&& same_timers(pre, post)
    &&& same_input(pre, post)
    &&& same_call_stack(pre, post)
    &&& post.v@ == pre.v@
    &&& post.r@ == pre.r@
    &&& post.i == pre.i
    &&& post.hgr == pre.hgr
    &&& post.draw_flag == pre.draw_flag
}

/// Everything except the framebuffer, the flag register, the dirty bit and
/// `pc` is unchanged.
pub open spec fn frame_draw(pre: Chip8, post: Chip8) -> bool {
    &&& same_mem(pre, post)
    &&& same_timers(pre, post)
    &&& same_input(pre, post)
    &&& same_call_stack(pre, post)
    &&& post.r@ == pre.r@
    &&& post.i == pre.i
    &&& post.hgr == pre.hgr
}

/// Everything except the resolution-mode flag and `pc` is unchanged.
pub open spec fn frame_hgr_pc(pre: Chip8, post: Chip8) -> bool {
    &&& same_mem(pre, post)
    &&& same_timers(pre, post)
    &&& same_input(pre, post)
    &&& same_call_stack(pre, post)
    &&& post.v@ == pre.v@
    &&& post.r@ == pre.r@
    &&& post.i == pre.i
    &&& post.gfx@ == pre.gfx@
    &&& post.draw_flag == pre.draw_flag
}

/// Everything except the call stack and `pc` is unchanged.
pub open spec fn frame_stack_pc(pre: Chip8, post: Chip8) -> bool {
    &&& same_mem(pre, post)
    &&& same_screen(pre, post)
    &&& same_timers(pre, post)
    &&& same_input(pre, post)
    &&& post.v@ == pre.v@
    &&& post.r@ == pre.r@
    &&& post.i == pre.i
}

/// Everything except the delay timer and `pc` is unchanged.
pub open spec fn frame_delay_pc(pre: Chip8, post: Chip8) -> bool {
    &&& same_mem(pre, post)
    &&& same_screen(pre, post)
    &&& same_input(pre, post)
    &&& same_call_stack(pre, post)
    &&& post.v@ == pre.v@
    &&& post.r@ == pre.r@
    &&& post.i == pre.i
    &&& post.sound_timer == pre.sound_timer
    &&& post.sound_start == pre.sound_start
}

/// Everything except the sound timer and `pc` is unchanged.
pub open spec fn frame_sound_pc(pre: Chip8, post: Chip8) -> bool {
    &&& same_mem(pre, post)
    &&& same_screen(pre, post)
    &&& same_input(pre, post)
    &&& same_call_stack(pre, post)
    &&& post.v@ == pre.v@
    &&& post.r@ == pre.r@
    &&& post.i == pre.i
    &&& post.delay_timer == pre.delay_timer
    &&& post.delay_start == pre.delay_start
}

} // verus!
