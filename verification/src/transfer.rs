//! Index-indirect block transfers: copying `x + 1` registers between
//! `V[0..=x]` and memory, or the persistent flag file, starting at `I`.
//! Afterward `I` advances by `x + 1`.
//!
//! The persistent-flag transfers index the flag file itself at `I`, as the
//! architecture's flag instructions do here; a transfer that would leave
//! its 16 slots is a fault, checked by the dispatch engine.

use vstd::prelude::*;
use crate::machine::{Chip8, frame_mem_i_pc, frame_v_i_pc, frame_r_i_pc, MEM_SIZE};

verus! {

/// `Fx55`: `memory[I + c] = V[c]` for `c` in `0..=x`, then `I += x + 1`.
pub open spec fn store_v0_vx_post(pre: Chip8, post: Chip8, x: u8) -> bool {
    &&& frame_mem_i_pc(pre, post)
    &&& post.memory@.len() == pre.memory@.len()
    &&& forall|a: int|
        0 <= a < MEM_SIZE ==> post.memory@[a] == (if pre.i <= a <= pre.i + x {
            pre.v@[a - pre.i]
        } else {
            pre.memory@[a]
        })
    &&& post.i == pre.i + x + 1
    &&& post.pc == pre.pc + 2
}

/// `Fx65`: `V[c] = memory[I + c]` for `c` in `0..=x`, then `I += x + 1`.
pub open spec fn read_v0_vx_post(pre: Chip8, post: Chip8, x: u8) -> bool {
    &&& frame_v_i_pc(pre, post)
    &&& post.v@.len() == 16
    &&& forall|c: int|
        0 <= c < 16 ==> post.v@[c] == (if c <= x {
            pre.memory@[pre.i + c]
        } else {
            pre.v@[c]
        })
    &&& post.i == pre.i + x + 1
    &&& post.pc == pre.pc + 2
}

/// `Fx75`: `R[I + c] = V[c]` for `c` in `0..=x`, then `I += x + 1`.
pub open spec fn store_rpl_v0_vx_post(pre: Chip8, post: Chip8, x: u8) -> bool {
    &&& frame_r_i_pc(pre, post)
    &&& post.r@.len() == 16
    &&& forall|a: int|
        0 <= a < 16 ==> post.r@[a] == (if pre.i <= a <= pre.i + x {
            pre.v@[a - pre.i]
        } else {
            pre.r@[a]
        })
    &&& post.i == pre.i + x + 1
    &&& post.pc == pre.pc + 2
}

/// `Fx85`: `V[c] = R[I + c]` for `c` in `0..=x`, then `I += x + 1`.
pub open spec fn read_rpl_v0_vx_post(pre: Chip8, post: Chip8, x: u8) -> bool {
    &&& frame_v_i_pc(pre, post)
    &&& post.v@.len() == 16
    &&& forall|c: int|
        0 <= c < 16 ==> post.v@[c] == (if c <= x {
            pre.r@[pre.i + c]
        } else {
            pre.v@[c]
        })
    &&& post.i == pre.i + x + 1
    &&& post.pc == pre.pc + 2
}

impl Chip8 {
    /// `Fx55`: store `V[0..=x]` into memory at `I`.
    pub fn store_v0_vx(&mut self, x: u8)
        requires
            old(self).wf(),
            x < 16,
            old(self).pc + 2 <= u16::MAX,
            old(self).i + x + 1 <= MEM_SIZE,
        ensures
            final(self).wf(),
            store_v0_vx_post(*old(self), *final(self), x),
    {
        let base = self.i as usize;
        let count = x as usize;
        let mut c: usize = 0;
        while c <= count
            invariant
                self.wf(),
                c <= count + 1,
                count == x,
                x < 16,
                old(self).wf(),
                base == old(self).i,
                base + count + 1 <= MEM_SIZE,
                frame_mem_i_pc(*old(self), *self),
                self.i == old(self).i,
                self.pc == old(self).pc,
                self.memory@.len() == old(self).memory@.len(),
                forall|a: int|
                    0 <= a < MEM_SIZE ==> self.memory@[a] == (if base <= a < base + c {
                        old(self).v@[a - base]
                    } else {
                        old(self).memory@[a]
                    }),
            decreases count + 1 - c,
        {
            self.memory[base + c] = self.v[c];
            c += 1;
        }
        self.i += x as u16 + 1;
        self.pc += 2;
    }

    /// `Fx65`: read `V[0..=x]` from memory at `I`.
    pub fn read_v0_vx(&mut self, x: u8)
        requires
            old(self).wf(),
            x < 16,
            old(self).pc + 2 <= u16::MAX,
            old(self).i + x + 1 <= MEM_SIZE,
        ensures
            final(self).wf(),
            read_v0_vx_post(*old(self), *final(self), x),
    {
        let base = self.i as usize;
        let count = x as usize;
        let mut c: usize = 0;
        while c <= count
            invariant
                self.wf(),
                c <= count + 1,
                count == x,
                x < 16,
                old(self).wf(),
                base == old(self).i,
                base + count + 1 <= MEM_SIZE,
                frame_v_i_pc(*old(self), *self),
                self.i == old(self).i,
                self.pc == old(self).pc,
                self.v@.len() == 16,
                forall|t: int|
                    0 <= t < 16 ==> self.v@[t] == (if t < c {
                        old(self).memory@[base + t]
                    } else {
                        old(self).v@[t]
                    }),
            decreases count + 1 - c,
        {
            self.v[c] = self.memory[base + c];
            c += 1;
        }
        self.i += x as u16 + 1;
        self.pc += 2;
    }

    /// `Fx75`: store `V[0..=x]` into the persistent flag file at `I`.
    pub fn store_rpl_v0_vx(&mut self, x: u8)
        requires
            old(self).wf(),
            x < 16,
            old(self).pc + 2 <= u16::MAX,
            old(self).i + x + 1 <= 16,
        ensures
            final(self).wf(),
            store_rpl_v0_vx_post(*old(self), *final(self), x),
    {
        let base = self.i as usize;
        let count = x as usize;
        let mut c: usize = 0;
        while c <= count
            invariant
                self.wf(),
                c <= count + 1,
                count == x,
                x < 16,
                old(self).wf(),
                base == old(self).i,
                base + count + 1 <= 16,
                frame_r_i_pc(*old(self), *self),
                self.i == old(self).i,
                self.pc == old(self).pc,
                self.r@.len() == 16,
                forall|a: int|
                    0 <= a < 16 ==> self.r@[a] == (if base <= a < base + c {
                        old(self).v@[a - base]
                    } else {
                        old(self).r@[a]
                    }),
            decreases count + 1 - c,
        {
            self.r[base + c] = self.v[c];
            c += 1;
        }
        self.i += x as u16 + 1;
        self.pc += 2;
    }

    /// `Fx85`: read `V[0..=x]` from the persistent flag file at `I`.
    pub fn read_rpl_v0_vx(&mut self, x: u8)
        requires
            old(self).wf(),
            x < 16,
            old(self).pc + 2 <= u16::MAX,
            old(self).i + x + 1 <= 16,
        ensures
            final(self).wf(),
            read_rpl_v0_vx_post(*old(self), *final(self), x),
    {
        let base = self.i as usize;
        let count = x as usize;
        let mut c: usize = 0;
        while c <= count
            invariant
                self.wf(),
                c <= count + 1,
                count == x,
                x < 16,
                old(self).wf(),
                base == old(self).i,
                base + count + 1 <= 16,
                frame_v_i_pc(*old(self), *self),
                self.i == old(self).i,
                self.pc == old(self).pc,
                self.v@.len() == 16,
                forall|t: int|
                    0 <= t < 16 ==> self.v@[t] == (if t < c {
                        old(self).r@[base + t]
                    } else {
                        old(self).v@[t]
                    }),
            decreases count + 1 - c,
        {
            self.v[c] = self.r[base + c];
            c += 1;
        }
        self.i += x as u16 + 1;
        self.pc += 2;
    }
}

} // verus!
