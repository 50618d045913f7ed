//! Lazily evaluated countdown timers.
//!
//! A timer is armed with an 8-bit starting value and the wall-clock instant
//! (in milliseconds) of the arming; it is never decremented by the
//! interpreter loop. Its current value is recomputed on every read from the
//! elapsed time: the timer loses one tick per 1/60th of a second and
//! saturates at zero. The clock itself is injected by the caller as a plain
//! millisecond count, so this module is pure arithmetic.

use vstd::prelude::*;
use crate::machine::{Chip8, frame_v_pc, frame_delay_pc, frame_sound_pc};

verus! {

/// The value of a timer armed with `armed` at instant `start`, read at
/// instant `now` (both in milliseconds, `start <= now`): the armed value
/// minus one tick per elapsed 60th of a second, saturated at zero.
pub open spec fn spec_remaining(armed: u8, start: u64, now: u64) -> u8 {
    let ticks = ((now - start) * 60) / 1000;
    if ticks >= armed {
        0u8
    } else {
        (armed - ticks) as u8
    }
}

/// Computes the current value of a timer armed with `armed` at `start_ms`,
/// read at `now_ms`.
pub fn remaining(armed: u8, start_ms: u64, now_ms: u64) -> (r: u8)
    requires
        start_ms <= now_ms,
    ensures
        r == spec_remaining(armed, start_ms, now_ms),
{
    let elapsed: u128 = (now_ms - start_ms) as u128;
    let ticks: u128 = (elapsed * 60) / 1000;
    if ticks >= armed as u128 {
        0
    } else {
        armed - (ticks as u8)
    }
}

/// `Fx15`: arm the delay timer with `V[x]` at instant `now`.
pub open spec fn start_delay_post(pre: Chip8, post: Chip8, x: u8, now: u64) -> bool {
    &&& frame_delay_pc(pre, post)
    &&& post.delay_timer == pre.v@[x as int]
    &&& post.delay_start == Some(now)
    &&& post.pc == pre.pc + 2
}

/// `Fx18`: arm the sound timer with `V[x]` at instant `now`.
pub open spec fn start_sound_delay_post(pre: Chip8, post: Chip8, x: u8, now: u64) -> bool {
    &&& frame_sound_pc(pre, post)
    &&& post.sound_timer == pre.v@[x as int]
    &&& post.sound_start == Some(now)
    &&& post.pc == pre.pc + 2
}

/// `Fx07`: read the delay timer into `V[x]`, recomputed from the elapsed
/// time; an un-armed timer (or a clock reading before the arm instant)
/// leaves the register untouched.
pub open spec fn get_delay_post(pre: Chip8, post: Chip8, x: u8, now: u64) -> bool {
    &&& frame_v_pc(pre, post)
    &&& post.v@ == (match pre.delay_start {
        Some(start) => {
            if start <= now {
                pre.v@.update(x as int, spec_remaining(pre.delay_timer, start, now))
            } else {
                pre.v@
            }
        },
        None => pre.v@,
    })
    &&& post.pc == pre.pc + 2
}

/// The sound-timer read path, mirroring `Fx07`.
pub open spec fn get_sound_delay_post(pre: Chip8, post: Chip8, x: u8, now: u64) -> bool {
    &&& frame_v_pc(pre, post)
    &&& post.v@ == (match pre.sound_start {
        Some(start) => {
            if start <= now {
                pre.v@.update(x as int, spec_remaining(pre.sound_timer, start, now))
            } else {
                pre.v@
            }
        },
        None => pre.v@,
    })
    &&& post.pc == pre.pc + 2
}

impl Chip8 {
    /// `Fx15`: arm the delay timer.
    pub fn start_delay(&mut self, x: u8, now_ms: u64)
        requires
            old(self).wf(),
            x < 16,
            old(self).pc + 2 <= u16::MAX,
        ensures
            final(self).wf(),
            start_delay_post(*old(self), *final(self), x, now_ms),
    {
        self.delay_start = Some(now_ms);
        self.delay_timer = self.v[x as usize];
        self.pc += 2;
    }

    /// `Fx18`: arm the sound timer.
    pub fn start_sound_delay(&mut self, x: u8, now_ms: u64)
        requires
            old(self).wf(),
            x < 16,
            old(self).pc + 2 <= u16::MAX,
        ensures
            final(self).wf(),
            start_sound_delay_post(*old(self), *final(self), x, now_ms),
    {
        self.sound_start = Some(now_ms);
        self.sound_timer = self.v[x as usize];
        self.pc += 2;
    }

    /// `Fx07`: read the delay timer into `V[x]`.
    pub fn get_delay(&mut self, x: u8, now_ms: u64)
        requires
            old(self).wf(),
            x < 16,
            old(self).pc + 2 <= u16::MAX,
        ensures
            final(self).wf(),
            get_delay_post(*old(self), *final(self), x, now_ms),
    {
        if let Some(start) = self.delay_start {
            if start <= now_ms {
                let rem = remaining(self.delay_timer, start, now_ms);
                self.v[x as usize] = rem;
            }
        }
        self.pc += 2;
    }

    /// The sound-timer read path, mirroring `Fx07`.
    pub fn get_sound_delay(&mut self, x: u8, now_ms: u64)
        requires
            old(self).wf(),
            x < 16,
            old(self).pc + 2 <= u16::MAX,
        ensures
            final(self).wf(),
            get_sound_delay_post(*old(self), *final(self), x, now_ms),
    {
        if let Some(start) = self.sound_start {
            if start <= now_ms {
                let rem = remaining(self.sound_timer, start, now_ms);
                self.v[x as usize] = rem;
            }
        }
        self.pc += 2;
    }
}

} // verus!
