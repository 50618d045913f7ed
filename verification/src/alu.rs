//! Register and index-register instructions: loads, wrapping arithmetic
//! with the carry/borrow flag conventions, bitwise operations, shifts
//! through the secondary register, BCD expansion and the random byte.

use vstd::prelude::*;
use crate::machine::{
    Chip8, wrap_add, wrap_sub, frame_v_pc, frame_i_pc, frame_mem_pc, MEM_SIZE, FONT_BASE,
    HGR_FONT_BASE,
};
use crate::rng::random_byte;

verus! {

/// `6xkk`: `V[x] = nn`.
pub open spec fn set_v_post(pre: Chip8, post: Chip8, x: u8, nn: u8) -> bool {
    &&& frame_v_pc(pre, post)
    &&& post.v@ == pre.v@.update(x as int, nn)
    &&& post.pc == pre.pc + 2
}

/// `7xkk`: wrapping add of an immediate; the flag register is
/// unconditionally zeroed, never set to the carry outcome.
pub open spec fn add_v_post(pre: Chip8, post: Chip8, x: u8, nn: u8) -> bool {
    &&& frame_v_pc(pre, post)
    &&& post.v@ == pre.v@.update(x as int, wrap_add(pre.v@[x as int], nn)).update(15, 0u8)
    &&& post.pc == pre.pc + 2
}

/// `8xy0`: `V[x] = V[y]`.
pub open spec fn set_v_v_post(pre: Chip8, post: Chip8, x: u8, y: u8) -> bool {
    &&& frame_v_pc(pre, post)
    &&& post.v@ == pre.v@.update(x as int, pre.v@[y as int])
    &&& post.pc == pre.pc + 2
}

/// `8xy1`: `V[x] |= V[y]`.
pub open spec fn vx_or_vy_post(pre: Chip8, post: Chip8, x: u8, y: u8) -> bool {
    &&& frame_v_pc(pre, post)
    &&& post.v@ == pre.v@.update(x as int, pre.v@[x as int] | pre.v@[y as int])
    &&& post.pc == pre.pc + 2
}

/// `8xy2`: `V[x] &= V[y]`.
pub open spec fn vx_and_vy_post(pre: Chip8, post: Chip8, x: u8, y: u8) -> bool {
    &&& frame_v_pc(pre, post)
    &&& post.v@ == pre.v@.update(x as int, pre.v@[x as int] & pre.v@[y as int])
    &&& post.pc == pre.pc + 2
}

/// `8xy3`: `V[x] ^= V[y]`.
pub open spec fn vx_xor_vy_post(pre: Chip8, post: Chip8, x: u8, y: u8) -> bool {
    &&& frame_v_pc(pre, post)
    &&& post.v@ == pre.v@.update(x as int, pre.v@[x as int] ^ pre.v@[y as int])
    &&& post.pc == pre.pc + 2
}

/// `8xy4`: wrapping add; the flag register becomes 1 exactly when the
/// true sum reaches 256.
pub open spec fn vx_add_vy_carry_post(pre: Chip8, post: Chip8, x: u8, y: u8) -> bool {
    &&& frame_v_pc(pre, post)
    &&& post.v@ == pre.v@.update(x as int, wrap_add(pre.v@[x as int], pre.v@[y as int])).update(
        15,
        (if pre.v@[x as int] + pre.v@[y as int] >= 256 {
            1u8
        } else {
            0u8
        }),
    )
    &&& post.pc == pre.pc + 2
}

/// `8xy5`: `V[x] -= V[y]` wrapping; the flag register becomes 0 exactly
/// when the subtraction borrows, else 1.
pub open spec fn vx_sub_vy_borrow_post(pre: Chip8, post: Chip8, x: u8, y: u8) -> bool {
    &&& frame_v_pc(pre, post)
    &&& post.v@ == pre.v@.update(x as int, wrap_sub(pre.v@[x as int], pre.v@[y as int])).update(
        15,
        (if pre.v@[x as int] < pre.v@[y as int] {
            0u8
        } else {
            1u8
        }),
    )
    &&& post.pc == pre.pc + 2
}

/// `8xy7`: `V[x] = V[y] - V[x]` wrapping; flag as for `8xy5`.
pub open spec fn vy_sub_vx_borrow_post(pre: Chip8, post: Chip8, x: u8, y: u8) -> bool {
    &&& frame_v_pc(pre, post)
    &&& post.v@ == pre.v@.update(x as int, wrap_sub(pre.v@[y as int], pre.v@[x as int])).update(
        15,
        (if pre.v@[y as int] < pre.v@[x as int] {
            0u8
        } else {
            1u8
        }),
    )
    &&& post.pc == pre.pc + 2
}

/// `8xy6`: the flag register takes the shifted-out low bit of `V[y]`,
/// then `V[x]` takes `V[y] >> 1`, in that order (so the source is re-read
/// after the flag write when `y == 0xF`).
pub open spec fn vx_as_rshift_vy_post(pre: Chip8, post: Chip8, x: u8, y: u8) -> bool {
    let a = pre.v@.update(15, (pre.v@[y as int] & 1));
    &&& frame_v_pc(pre, post)
    &&& post.v@ == a.update(x as int, (a[y as int] >> 1))
    &&& post.pc == pre.pc + 2
}

/// `8xyE`: the flag register takes the shifted-out high bit of `V[y]`,
/// then `V[x]` takes `V[y] << 1`, in that order.
pub open spec fn vx_as_lshift_vy_post(pre: Chip8, post: Chip8, x: u8, y: u8) -> bool {
    let a = pre.v@.update(
        15,
        (if pre.v@[y as int] & 0x80 != 0 {
            1u8
        } else {
            0u8
        }),
    );
    &&& frame_v_pc(pre, post)
    &&& post.v@ == a.update(x as int, (a[y as int] << 1))
    &&& post.pc == pre.pc + 2
}

/// `Cxkk`: `V[x]` takes a fresh random byte masked with `nn`.
pub open spec fn vx_rnd_post(pre: Chip8, post: Chip8, x: u8, nn: u8) -> bool {
    &&& frame_v_pc(pre, post)
    &&& exists|b: u8| post.v@ == pre.v@.update(x as int, b & nn)
    &&& post.pc == pre.pc + 2
}

/// `Annn`: `I = nnn`.
pub open spec fn set_i_post(pre: Chip8, post: Chip8, nnn: u16) -> bool {
    &&& frame_i_pc(pre, post)
    &&& post.i == nnn
    &&& post.pc == pre.pc + 2
}

/// `Fx1E`: `I += V[x]`.
pub open spec fn i_add_vx_post(pre: Chip8, post: Chip8, x: u8) -> bool {
    &&& frame_i_pc(pre, post)
    &&& post.i == pre.i + pre.v@[x as int]
    &&& post.pc == pre.pc + 2
}

/// `Fx29`: point `I` at the low-resolution glyph for the digit in `V[x]`,
/// five bytes per glyph.
pub open spec fn i_as_sprite_vx_post(pre: Chip8, post: Chip8, x: u8) -> bool {
    &&& frame_i_pc(pre, post)
    &&& post.i == FONT_BASE + 5 * pre.v@[x as int]
    &&& post.pc == pre.pc + 2
}

/// `Fx30`: point `I` at the high-resolution glyph for the digit in `V[x]`,
/// ten bytes per glyph.
pub open spec fn i_as_hgr_sprite_vx_post(pre: Chip8, post: Chip8, x: u8) -> bool {
    &&& frame_i_pc(pre, post)
    &&& post.i == HGR_FONT_BASE + 10 * pre.v@[x as int]
    &&& post.pc == pre.pc + 2
}

/// `Fx33`: write the hundreds, tens and ones digits of `V[x]` into
/// `memory[I..I+3]`.
pub open spec fn vx_as_bcd_post(pre: Chip8, post: Chip8, x: u8) -> bool {
    let val = pre.v@[x as int];
    &&& frame_mem_pc(pre, post)
    &&& post.memory@ == pre.memory@.update(pre.i as int, (val / 100)).update(
        pre.i + 1,
        ((val / 10) % 10),
    ).update(pre.i + 2, (val % 10))
    &&& post.pc == pre.pc + 2
}

impl Chip8 {
    /// `6xkk`: set register.
    pub fn set_v(&mut self, x: u8, nn: u8)
        requires
            old(self).wf(),
            x < 16,
            old(self).pc + 2 <= u16::MAX,
        ensures
            final(self).wf(),
            set_v_post(*old(self), *final(self), x, nn),
    {
        self.v[x as usize] = nn;
        self.pc += 2;
    }

    /// `7xkk`: add immediate, wrapping; always clears the flag register.
    pub fn add_v(&mut self, x: u8, nn: u8)
        requires
            old(self).wf(),
            x < 16,
            old(self).pc + 2 <= u16::MAX,
        ensures
            final(self).wf(),
            add_v_post(*old(self), *final(self), x, nn),
    {
        let sum: u16 = self.v[x as usize] as u16 + nn as u16;
        self.v[x as usize] = (sum % 256) as u8;
        self.v[15] = 0;
        self.pc += 2;
    }

    /// `8xy0`: copy register.
    pub fn set_v_v(&mut self, x: u8, y: u8)
        requires
            old(self).wf(),
            x < 16,
            y < 16,
            old(self).pc + 2 <= u16::MAX,
        ensures
            final(self).wf(),
            set_v_v_post(*old(self), *final(self), x, y),
    {
        self.v[x as usize] = self.v[y as usize];
        self.pc += 2;
    }

    /// `8xy1`: bitwise or.
    pub fn vx_or_vy(&mut self, x: u8, y: u8)
        requires
            old(self).wf(),
            x < 16,
            y < 16,
            old(self).pc + 2 <= u16::MAX,
        ensures
            final(self).wf(),
            vx_or_vy_post(*old(self), *final(self), x, y),
    {
        self.v[x as usize] = self.v[x as usize] | self.v[y as usize];
        self.pc += 2;
    }

    /// `8xy2`: bitwise and.
    pub fn vx_and_vy(&mut self, x: u8, y: u8)
        requires
            old(self).wf(),
            x < 16,
            y < 16,
            old(self).pc + 2 <= u16::MAX,
        ensures
            final(self).wf(),
            vx_and_vy_post(*old(self), *final(self), x, y),
    {
        self.v[x as usize] = self.v[x as usize] & self.v[y as usize];
        self.pc += 2;
    }

    /// `8xy3`: bitwise exclusive or.
    pub fn vx_xor_vy(&mut self, x: u8, y: u8)
        requires
            old(self).wf(),
            x < 16,
            y < 16,
            old(self).pc + 2 <= u16::MAX,
        ensures
            final(self).wf(),
            vx_xor_vy_post(*old(self), *final(self), x, y),
    {
        self.v[x as usize] = self.v[x as usize] ^ self.v[y as usize];
        self.pc += 2;
    }

    /// `8xy4`: add register, wrapping, with the carry in the flag register.
    pub fn vx_add_vy_carry(&mut self, x: u8, y: u8)
        requires
            old(self).wf(),
            x < 16,
            y < 16,
            old(self).pc + 2 <= u16::MAX,
        ensures
            final(self).wf(),
            vx_add_vy_carry_post(*old(self), *final(self), x, y),
    {
        let sum: u16 = self.v[x as usize] as u16 + self.v[y as usize] as u16;
        self.v[x as usize] = (sum % 256) as u8;
        self.v[15] = if sum >= 256 {
            1
        } else {
            0
        };
        self.pc += 2;
    }

    /// `8xy5`: subtract register, wrapping, with the inverted borrow in the
    /// flag register.
    pub fn vx_sub_vy_borrow(&mut self, x: u8, y: u8)
        requires
            old(self).wf(),
            x < 16,
            y < 16,
            old(self).pc + 2 <= u16::MAX,
        ensures
            final(self).wf(),
            vx_sub_vy_borrow_post(*old(self), *final(self), x, y),
    {
        let a = self.v[x as usize];
        let b = self.v[y as usize];
        if a >= b {
            self.v[x as usize] = a - b;
            self.v[15] = 1;
        } else {
            self.v[x as usize] = ((a as u16 + 256) - b as u16) as u8;
            self.v[15] = 0;
        }
        self.pc += 2;
    }

    /// `8xy7`: reversed subtract, wrapping, with the inverted borrow in the
    /// flag register.
    pub fn vy_sub_vx_borrow(&mut self, x: u8, y: u8)
        requires
            old(self).wf(),
            x < 16,
            y < 16,
            old(self).pc + 2 <= u16::MAX,
        ensures
            final(self).wf(),
            vy_sub_vx_borrow_post(*old(self), *final(self), x, y),
    {
        let a = self.v[y as usize];
        let b = self.v[x as usize];
        if a >= b {
            self.v[x as usize] = a - b;
            self.v[15] = 1;
        } else {
            self.v[x as usize] = ((a as u16 + 256) - b as u16) as u8;
            self.v[15] = 0;
        }
        self.pc += 2;
    }

    /// `8xy6`: shift the secondary register right into `V[x]`.
    pub fn vx_as_rshift_vy(&mut self, x: u8, y: u8)
        requires
            old(self).wf(),
            x < 16,
            y < 16,
            old(self).pc + 2 <= u16::MAX,
        ensures
            final(self).wf(),
            vx_as_rshift_vy_post(*old(self), *final(self), x, y),
    {
        self.v[15] = self.v[y as usize] & 1;
        self.v[x as usize] = self.v[y as usize] >> 1;
        self.pc += 2;
    }

    /// `8xyE`: shift the secondary register left into `V[x]`.
    pub fn vx_as_lshift_vy(&mut self, x: u8, y: u8)
        requires
            old(self).wf(),
            x < 16,
            y < 16,
            old(self).pc + 2 <= u16::MAX,
        ensures
            final(self).wf(),
            vx_as_lshift_vy_post(*old(self), *final(self), x, y),
    {
        self.v[15] = if self.v[y as usize] & 0x80 != 0 {
            1
        } else {
            0
        };
        self.v[x as usize] = self.v[y as usize] << 1;
        self.pc += 2;
    }

    /// `Cxkk` with the random byte already drawn: `V[x] = b & nn`.
    pub fn vx_rnd_with(&mut self, x: u8, nn: u8, b: u8)
        requires
            old(self).wf(),
            x < 16,
            old(self).pc + 2 <= u16::MAX,
        ensures
            final(self).wf(),
            frame_v_pc(*old(self), *final(self)),
            final(self).v@ == old(self).v@.update(x as int, b & nn),
            final(self).pc == old(self).pc + 2,
    {
        self.v[x as usize] = b & nn;
        self.pc += 2;
    }

    /// `Cxkk`: draw a random byte and store it masked with `nn`.
    pub fn vx_rnd(&mut self, x: u8, nn: u8)
        requires
            old(self).wf(),
            x < 16,
            old(self).pc + 2 <= u16::MAX,
        ensures
            final(self).wf(),
            vx_rnd_post(*old(self), *final(self), x, nn),
    {
        let b = random_byte();
        self.vx_rnd_with(x, nn, b);
    }

    /// `Annn`: set the index register.
    pub fn set_i(&mut self, nnn: u16)
        requires
            old(self).wf(),
            old(self).pc + 2 <= u16::MAX,
        ensures
            final(self).wf(),
            set_i_post(*old(self), *final(self), nnn),
    {
        self.i = nnn;
        self.pc += 2;
    }

    /// `Fx1E`: add `V[x]` to the index register.
    pub fn i_add_vx(&mut self, x: u8)
        requires
            old(self).wf(),
            x < 16,
            old(self).pc + 2 <= u16::MAX,
            old(self).i + old(self).v@[x as int] <= u16::MAX,
        ensures
            final(self).wf(),
            i_add_vx_post(*old(self), *final(self), x),
    {
        self.i += self.v[x as usize] as u16;
        self.pc += 2;
    }

    /// `Fx29`: point `I` at a low-resolution glyph.
    pub fn i_as_sprite_vx(&mut self, x: u8)
        requires
            old(self).wf(),
            x < 16,
            old(self).pc + 2 <= u16::MAX,
        ensures
            final(self).wf(),
            i_as_sprite_vx_post(*old(self), *final(self), x),
    {
        self.i = FONT_BASE as u16 + 5 * self.v[x as usize] as u16;
        self.pc += 2;
    }

    /// `Fx30`: point `I` at a high-resolution glyph.
    pub fn i_as_hgr_sprite_vx(&mut self, x: u8)
        requires
            old(self).wf(),
            x < 16,
            old(self).pc + 2 <= u16::MAX,
        ensures
            final(self).wf(),
            i_as_hgr_sprite_vx_post(*old(self), *final(self), x),
    {
        self.i = HGR_FONT_BASE as u16 + 10 * self.v[x as usize] as u16;
        self.pc += 2;
    }

    /// `Fx33`: BCD expansion of `V[x]` at `I`.
    pub fn vx_as_bcd(&mut self, x: u8)
        requires
            old(self).wf(),
            x < 16,
            old(self).pc + 2 <= u16::MAX,
            old(self).i + 3 <= MEM_SIZE,
        ensures
            final(self).wf(),
            vx_as_bcd_post(*old(self), *final(self), x),
    {
        let base = self.i as usize;
        let val = self.v[x as usize];
        self.memory[base] = val / 100;
        self.memory[base + 1] = (val / 10) % 10;
        self.memory[base + 2] = val % 10;
        self.pc += 2;
    }
}

} // verus!
