//! Control transfer and conditional-skip instructions, and the fault
//! taxonomy.
//!
//! A skip instruction advances `pc` by 4 when its condition holds, else
//! by 2. A condition that the machine cannot evaluate safely (an
//! out-of-range access, a full or empty call stack, an opcode with no
//! meaning) is reported as a `Fault` by the dispatch engine rather than
//! ignored; the machine is left unchanged and the run loop stops.

use vstd::prelude::*;
use crate::machine::{Chip8, frame_pc, frame_v_pc, frame_stack_pc, STACK_SIZE, EXIT_SENTINEL};

verus! {

/// Why a dispatch cycle refused to run: every unsafe access the source
/// machine leaves unguarded is made a fatal, reported condition here.
#[derive(Debug, Clone, Copy, PartialEq, Eq, Structural)]
pub enum Fault {
    /// The program counter does not point at two fetchable bytes (also
    /// raised after the exit instruction parks `pc` at the sentinel).
    PcOutOfRange,
    /// A subroutine call with all stack slots in use.
    StackOverflow,
    /// A return with no call outstanding.
    StackUnderflow,
    /// A sprite draw that would read memory or touch pixels out of range.
    DrawOutOfRange,
    /// A memory-indexed instruction that would leave addressable memory.
    MemoryOutOfRange,
    /// A persistent-flag transfer that would leave the flag file.
    FlagsOutOfRange,
    /// A key-state test for a key number no keypad has.
    KeyOutOfRange,
    /// Adding to the index register overflowed it.
    IndexOverflow,
    /// No dispatch pattern matched the fetched opcode.
    UnknownOpcode,
    /// A native machine-code call, which this interpreter does not support.
    NativeCall,
}

/// `1nnn`: jump.
pub open spec fn jmp_post(pre: Chip8, post: Chip8, nnn: u16) -> bool {
    &&& frame_pc(pre, post)
    &&& post.pc == nnn
}

/// `Bnnn`: jump to `V[0] + nnn`.
pub open spec fn jmp_v0_post(pre: Chip8, post: Chip8, nnn: u16) -> bool {
    &&& frame_pc(pre, post)
    &&& post.pc == pre.v@[0] + nnn
}

/// `2nnn`: push the current `pc` and jump.
pub open spec fn jsr_post(pre: Chip8, post: Chip8, nnn: u16) -> bool {
    &&& frame_stack_pc(pre, post)
    &&& post.stack@ == pre.stack@.update(pre.sp as int, pre.pc)
    &&& post.sp == pre.sp + 1
    &&& post.pc == nnn
}

/// `00EE`: pop and resume two bytes past the stored address.
pub open spec fn ret_post(pre: Chip8, post: Chip8) -> bool {
    &&& frame_stack_pc(pre, post)
    &&& post.stack@ == pre.stack@
    &&& post.sp == pre.sp - 1
    &&& post.pc == pre.stack@[pre.sp - 1] + 2
}

/// `00FD`: park `pc` at the out-of-range sentinel so the run loop stops.
pub open spec fn exit_post(pre: Chip8, post: Chip8) -> bool {
    &&& frame_pc(pre, post)
    &&& post.pc == EXIT_SENTINEL
}

/// A skip instruction: `pc` advances by 4 when `cond` holds, else by 2;
/// nothing else changes.
pub open spec fn skip_post(pre: Chip8, post: Chip8, cond: bool) -> bool {
    &&& frame_pc(pre, post)
    &&& post.pc == pre.pc + (if cond {
        4int
    } else {
        2int
    })
}

/// `Fx0A`: on a cycle with a latched key, capture it and advance; on a
/// cycle without one, change nothing so the same instruction is re-fetched.
pub open spec fn wait_for_next_key_post(pre: Chip8, post: Chip8, x: u8) -> bool {
    match pre.last_key {
        Some(k) => {
            &&& frame_v_pc(pre, post)
            &&& post.v@ == pre.v@.update(x as int, k)
            &&& post.pc == pre.pc + 2
        },
        None => post == pre,
    }
}

impl Chip8 {
    /// `1nnn`: jump to `nnn`.
    pub fn jmp(&mut self, nnn: u16)
        requires
            old(self).wf(),
        ensures
            final(self).wf(),
            jmp_post(*old(self), *final(self), nnn),
    {
        self.pc = nnn;
    }

    /// `Bnnn`: jump to `V[0] + nnn`.
    pub fn jmp_v0(&mut self, nnn: u16)
        requires
            old(self).wf(),
            old(self).v@[0] + nnn <= u16::MAX,
        ensures
            final(self).wf(),
            jmp_v0_post(*old(self), *final(self), nnn),
    {
        self.pc = self.v[0] as u16 + nnn;
    }

    /// `2nnn`: call the subroutine at `nnn`.
    pub fn jsr(&mut self, nnn: u16)
        requires
            old(self).wf(),
            old(self).sp < STACK_SIZE,
            old(self).pc + 2 <= u16::MAX,
        ensures
            final(self).wf(),
            jsr_post(*old(self), *final(self), nnn),
    {
        let sp = self.sp as usize;
        self.stack[sp] = self.pc;
        self.pc = nnn;
        self.sp += 1;
    }

    /// `00EE`: return from a subroutine.
    pub fn ret(&mut self)
        requires
            old(self).wf(),
            old(self).sp >= 1,
        ensures
            final(self).wf(),
            ret_post(*old(self), *final(self)),
    {
        self.pc = self.stack[(self.sp - 1) as usize];
        self.sp -= 1;
        // the stored address is the call site; resume past it
        self.pc += 2;
    }

    /// `00FD`: stop fetching.
    pub fn exit(&mut self)
        requires
            old(self).wf(),
        ensures
            final(self).wf(),
            exit_post(*old(self), *final(self)),
    {
        self.pc = EXIT_SENTINEL;
    }

    /// `0nnn`: a native machine-code call; unsupported, reported as a
    /// fault with the machine unchanged.
    pub fn native_call(&mut self, _nnn: u16) -> (f: Fault)
        requires
            old(self).wf(),
        ensures
            final(self).wf(),
            *final(self) == *old(self),
            f == Fault::NativeCall,
    {
        Fault::NativeCall
    }

    /// `3xkk`: skip when `V[x] == nn`.
    pub fn if_vx_eq_nn(&mut self, x: u8, nn: u8)
        requires
            old(self).wf(),
            x < 16,
            old(self).pc + 4 <= u16::MAX,
        ensures
            final(self).wf(),
            skip_post(*old(self), *final(self), old(self).v@[x as int] == nn),
    {
        if self.v[x as usize] == nn {
            self.pc += 4;
        } else {
            self.pc += 2;
        }
    }

    /// `4xkk`: skip when `V[x] != nn`.
    pub fn if_not_eq(&mut self, x: u8, nn: u8)
        requires
            old(self).wf(),
            x < 16,
            old(self).pc + 4 <= u16::MAX,
        ensures
            final(self).wf(),
            skip_post(*old(self), *final(self), old(self).v@[x as int] != nn),
    {
        if self.v[x as usize] != nn {
            self.pc += 4;
        } else {
            self.pc += 2;
        }
    }

    /// `5xy0`: skip when `V[x] == V[y]`.
    pub fn if_eq(&mut self, x: u8, y: u8)
        requires
            old(self).wf(),
            x < 16,
            y < 16,
            old(self).pc + 4 <= u16::MAX,
        ensures
            final(self).wf(),
            skip_post(*old(self), *final(self), old(self).v@[x as int] == old(self).v@[y as int]),
    {
        if self.v[x as usize] == self.v[y as usize] {
            self.pc += 4;
        } else {
            self.pc += 2;
        }
    }

    /// `9xy0`: skip when `V[x] != V[y]`.
    pub fn if_vx_eq_vy(&mut self, x: u8, y: u8)
        requires
            old(self).wf(),
            x < 16,
            y < 16,
            old(self).pc + 4 <= u16::MAX,
        ensures
            final(self).wf(),
            skip_post(*old(self), *final(self), old(self).v@[x as int] != old(self).v@[y as int]),
    {
        if self.v[x as usize] != self.v[y as usize] {
            self.pc += 4;
        } else {
            self.pc += 2;
        }
    }

    /// `Ex9E`: skip when the key numbered by `V[x]` is pressed.
    pub fn skip_if_key_vx(&mut self, x: u8)
        requires
            old(self).wf(),
            x < 16,
            old(self).v@[x as int] < 16,
            old(self).pc + 4 <= u16::MAX,
        ensures
            final(self).wf(),
            skip_post(
                *old(self),
                *final(self),
                old(self).key@[old(self).v@[x as int] as int] != 0,
            ),
    {
        let key = self.v[x as usize];
        if self.key[key as usize] != 0 {
            self.pc += 4;
        } else {
            self.pc += 2;
        }
    }

    /// `ExA1`: skip when the key numbered by `V[x]` is released.
    pub fn skip_if_not_key_vx(&mut self, x: u8)
        requires
            old(self).wf(),
            x < 16,
            old(self).v@[x as int] < 16,
            old(self).pc + 4 <= u16::MAX,
        ensures
            final(self).wf(),
            skip_post(
                *old(self),
                *final(self),
                old(self).key@[old(self).v@[x as int] as int] == 0,
            ),
    {
        let key = self.v[x as usize];
        if self.key[key as usize] == 0 {
            self.pc += 4;
        } else {
            self.pc += 2;
        }
    }

    /// `Fx0A`: poll for a latched key; stall until one appears.
    pub fn wait_for_next_key(&mut self, x: u8)
        requires
            old(self).wf(),
            x < 16,
            old(self).pc + 2 <= u16::MAX,
        ensures
            final(self).wf(),
            wait_for_next_key_post(*old(self), *final(self), x),
    {
        if let Some(key) = self.last_key {
            self.v[x as usize] = key;
            self.pc += 2;
        }
    }
}

} // verus!
