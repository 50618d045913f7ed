//! The dispatch half of the engine: fetch two bytes at `pc`, decode, and
//! execute exactly one instruction, with every unsafe access refused as a
//! fault. Also the fixed-rate cycle scheduler the run loop consults.
//!
//! Stalls are told apart deliberately: the key-wait instruction leaves the
//! machine unchanged on a cycle without a key (intentional, execution
//! resumes when one appears), while an unknown opcode or a native call
//! halts the machine with a reported fault rather than hanging silently.

use vstd::prelude::*;
use crate::machine::{Chip8, frame_pc, MEM_SIZE, STACK_SIZE, EXIT_SENTINEL};
use crate::decode::{Instr, spec_decode, decode};
use crate::flow::{
    Fault, jmp_post, jmp_v0_post, jsr_post, ret_post, exit_post, skip_post,
    wait_for_next_key_post,
};
use crate::alu::{
    set_v_post, add_v_post, set_v_v_post, vx_or_vy_post, vx_and_vy_post, vx_xor_vy_post,
    vx_add_vy_carry_post, vx_sub_vy_borrow_post, vy_sub_vx_borrow_post, vx_as_rshift_vy_post,
    vx_as_lshift_vy_post, vx_rnd_post, set_i_post, i_add_vx_post, i_as_sprite_vx_post,
    i_as_hgr_sprite_vx_post, vx_as_bcd_post,
};
use crate::draw::{
    lo_draw_ok, lo_draw_post, hi_draw_ok, hi_draw_post, draw_clear_post, scroll_down_post,
    hgr_post,
};
use crate::timer::{start_delay_post, start_sound_delay_post, get_delay_post};
use crate::transfer::{
    store_v0_vx_post, read_v0_vx_post, store_rpl_v0_vx_post, read_rpl_v0_vx_post,
};

verus! {

/// What one dispatch cycle at instant `now` does: on an unfetchable `pc`
/// it faults with the machine unchanged; otherwise it decodes the fetched
/// word and either executes its handler's effect, or — where the handler
/// would leave an array, the stack or a register's range — faults with
/// the machine unchanged.
pub open spec fn cycle_post(pre: Chip8, post: Chip8, r: Result<(), Fault>, now: u64) -> bool {
    if pre.pc + 1 >= MEM_SIZE {
        &&& r == Err::<(), Fault>(Fault::PcOutOfRange)
        &&& post == pre
    } else {
        let b0 = pre.memory@[pre.pc as int];
        let b1 = pre.memory@[pre.pc + 1];
        match spec_decode(b0, b1) {
            Instr::ScrollDown(x) => r is Ok && scroll_down_post(pre, post, x),
            Instr::ScrollRight => r is Ok && frame_pc(pre, post) && post.pc == pre.pc + 2,
            Instr::ScrollLeft => r is Ok && frame_pc(pre, post) && post.pc == pre.pc + 2,
            Instr::Exit => r is Ok && exit_post(pre, post),
            Instr::LowRes => r is Ok && hgr_post(pre, post, false),
            Instr::HighRes => r is Ok && hgr_post(pre, post, true),
            Instr::Clear => r is Ok && draw_clear_post(pre, post),
            Instr::Ret => {
                if pre.sp >= 1 {
                    r is Ok && ret_post(pre, post)
                } else {
                    r == Err::<(), Fault>(Fault::StackUnderflow) && post == pre
                }
            },
            Instr::NativeCall(_nnn) => r == Err::<(), Fault>(Fault::NativeCall) && post == pre,
            Instr::Jmp(nnn) => r is Ok && jmp_post(pre, post, nnn),
            Instr::Jsr(nnn) => {
                if pre.sp < STACK_SIZE {
                    r is Ok && jsr_post(pre, post, nnn)
                } else {
                    r == Err::<(), Fault>(Fault::StackOverflow) && post == pre
                }
            },
            Instr::SkipEqNN(x, nn) => r is Ok && skip_post(pre, post, pre.v@[x as int] == nn),
            Instr::SkipNeNN(x, nn) => r is Ok && skip_post(pre, post, pre.v@[x as int] != nn),
            Instr::SkipEqV(x, y) => r is Ok && skip_post(
                pre,
                post,
                pre.v@[x as int] == pre.v@[y as int],
            ),
            Instr::SetV(x, nn) => r is Ok && set_v_post(pre, post, x, nn),
            Instr::AddV(x, nn) => r is Ok && add_v_post(pre, post, x, nn),
            Instr::MovV(x, y) => r is Ok && set_v_v_post(pre, post, x, y),
            Instr::OrV(x, y) => r is Ok && vx_or_vy_post(pre, post, x, y),
            Instr::AndV(x, y) => r is Ok && vx_and_vy_post(pre, post, x, y),
            Instr::XorV(x, y) => r is Ok && vx_xor_vy_post(pre, post, x, y),
            Instr::AddCarry(x, y) => r is Ok && vx_add_vy_carry_post(pre, post, x, y),
            Instr::SubBorrow(x, y) => r is Ok && vx_sub_vy_borrow_post(pre, post, x, y),
            Instr::ShrV(x, y) => r is Ok && vx_as_rshift_vy_post(pre, post, x, y),
            Instr::SubNBorrow(x, y) => r is Ok && vy_sub_vx_borrow_post(pre, post, x, y),
            Instr::ShlV(x, y) => r is Ok && vx_as_lshift_vy_post(pre, post, x, y),
            Instr::SkipNeV(x, y) => r is Ok && skip_post(
                pre,
                post,
                pre.v@[x as int] != pre.v@[y as int],
            ),
            Instr::SetI(nnn) => r is Ok && set_i_post(pre, post, nnn),
            Instr::JmpV0(nnn) => r is Ok && jmp_v0_post(pre, post, nnn),
            Instr::Rand(x, nn) => r is Ok && vx_rnd_post(pre, post, x, nn),
            Instr::Draw(x, y, n) => {
                if pre.hgr && n == 0 {
                    if hi_draw_ok(pre, x, y) {
                        r is Ok && hi_draw_post(pre, post, x, y)
                    } else {
                        r == Err::<(), Fault>(Fault::DrawOutOfRange) && post == pre
                    }
                } else {
                    if lo_draw_ok(pre, x, y, n) {
                        r is Ok && lo_draw_post(pre, post, x, y, n)
                    } else {
                        r == Err::<(), Fault>(Fault::DrawOutOfRange) && post == pre
                    }
                }
            },
            Instr::SkipKey(x) => {
                if pre.v@[x as int] < 16 {
                    r is Ok && skip_post(pre, post, pre.key@[pre.v@[x as int] as int] != 0)
                } else {
                    r == Err::<(), Fault>(Fault::KeyOutOfRange) && post == pre
                }
            },
            Instr::SkipNoKey(x) => {
                if pre.v@[x as int] < 16 {
                    r is Ok && skip_post(pre, post, pre.key@[pre.v@[x as int] as int] == 0)
                } else {
                    r == Err::<(), Fault>(Fault::KeyOutOfRange) && post == pre
                }
            },
            Instr::GetDelay(x) => r is Ok && get_delay_post(pre, post, x, now),
            Instr::WaitKey(x) => r is Ok && wait_for_next_key_post(pre, post, x),
            Instr::StartDelay(x) => r is Ok && start_delay_post(pre, post, x, now),
            Instr::StartSound(x) => r is Ok && start_sound_delay_post(pre, post, x, now),
            Instr::AddI(x) => {
                if pre.i + pre.v@[x as int] <= u16::MAX {
                    r is Ok && i_add_vx_post(pre, post, x)
                } else {
                    r == Err::<(), Fault>(Fault::IndexOverflow) && post == pre
                }
            },
            Instr::SpriteI(x) => r is Ok && i_as_sprite_vx_post(pre, post, x),
            Instr::HgrSpriteI(x) => r is Ok && i_as_hgr_sprite_vx_post(pre, post, x),
            Instr::Bcd(x) => {
                if pre.i + 3 <= MEM_SIZE {
                    r is Ok && vx_as_bcd_post(pre, post, x)
                } else {
                    r == Err::<(), Fault>(Fault::MemoryOutOfRange) && post == pre
                }
            },
            Instr::StoreV(x) => {
                if pre.i + x + 1 <= MEM_SIZE {
                    r is Ok && store_v0_vx_post(pre, post, x)
                } else {
                    r == Err::<(), Fault>(Fault::MemoryOutOfRange) && post == pre
                }
            },
            Instr::ReadV(x) => {
                if pre.i + x + 1 <= MEM_SIZE {
                    r is Ok && read_v0_vx_post(pre, post, x)
                } else {
                    r == Err::<(), Fault>(Fault::MemoryOutOfRange) && post == pre
                }
            },
            Instr::StoreFlags(x) => {
                if pre.i + x + 1 <= 16 {
                    r is Ok && store_rpl_v0_vx_post(pre, post, x)
                } else {
                    r == Err::<(), Fault>(Fault::FlagsOutOfRange) && post == pre
                }
            },
            Instr::ReadFlags(x) => {
                if pre.i + x + 1 <= 16 {
                    r is Ok && read_rpl_v0_vx_post(pre, post, x)
                } else {
                    r == Err::<(), Fault>(Fault::FlagsOutOfRange) && post == pre
                }
            },
            Instr::Unknown => r == Err::<(), Fault>(Fault::UnknownOpcode) && post == pre,
        }
    }
}

impl Chip8 {
    /// Whether the machine has executed the exit instruction and parked
    /// `pc` at the sentinel; the run loop must check this before fetching.
    pub fn halted(&self) -> (b: bool)
        ensures
            b == (self.pc == EXIT_SENTINEL),
    {
        self.pc == EXIT_SENTINEL
    }

    /// Fetch, decode and execute exactly one instruction at instant
    /// `now_ms`.
    pub fn emulate_cycle(&mut self, now_ms: u64) -> (r: Result<(), Fault>)
        requires
            old(self).wf(),
        ensures
            final(self).wf(),
            cycle_post(*old(self), *final(self), r, now_ms),
    {
        if self.pc as usize + 1 >= MEM_SIZE {
            return Err(Fault::PcOutOfRange);
        }
        let b0 = self.memory[self.pc as usize];
        let b1 = self.memory[self.pc as usize + 1];
        match decode(b0, b1) {
            Instr::ScrollDown(x) => {
                self.scroll_down(x);
                Ok(())
            },
            Instr::ScrollRight => {
                self.scroll_right();
                Ok(())
            },
            Instr::ScrollLeft => {
                self.scroll_left();
                Ok(())
            },
            Instr::Exit => {
                self.exit();
                Ok(())
            },
            Instr::LowRes => {
                self.hgr(false);
                Ok(())
            },
            Instr::HighRes => {
                self.hgr(true);
                Ok(())
            },
            Instr::Clear => {
                self.draw_clear();
                Ok(())
            },
            Instr::Ret => {
                if self.sp >= 1 {
                    self.ret();
                    Ok(())
                } else {
                    Err(Fault::StackUnderflow)
                }
            },
            Instr::NativeCall(nnn) => Err(self.native_call(nnn)),
            Instr::Jmp(nnn) => {
                self.jmp(nnn);
                Ok(())
            },
            Instr::Jsr(nnn) => {
                if self.sp < STACK_SIZE as u16 {
                    self.jsr(nnn);
                    Ok(())
                } else {
                    Err(Fault::StackOverflow)
                }
            },
            Instr::SkipEqNN(x, nn) => {
                self.if_vx_eq_nn(x, nn);
                Ok(())
            },
            Instr::SkipNeNN(x, nn) => {
                self.if_not_eq(x, nn);
                Ok(())
            },
            Instr::SkipEqV(x, y) => {
                self.if_eq(x, y);
                Ok(())
            },
            Instr::SetV(x, nn) => {
                self.set_v(x, nn);
                Ok(())
            },
            Instr::AddV(x, nn) => {
                self.add_v(x, nn);
                Ok(())
            },
            Instr::MovV(x, y) => {
                self.set_v_v(x, y);
                Ok(())
            },
            Instr::OrV(x, y) => {
                self.vx_or_vy(x, y);
                Ok(())
            },
            Instr::AndV(x, y) => {
                self.vx_and_vy(x, y);
                Ok(())
            },
            Instr::XorV(x, y) => {
                self.vx_xor_vy(x, y);
                Ok(())
            },
            Instr::AddCarry(x, y) => {
                self.vx_add_vy_carry(x, y);
                Ok(())
            },
            Instr::SubBorrow(x, y) => {
                self.vx_sub_vy_borrow(x, y);
                Ok(())
            },
            Instr::ShrV(x, y) => {
                self.vx_as_rshift_vy(x, y);
                Ok(())
            },
            Instr::SubNBorrow(x, y) => {
                self.vy_sub_vx_borrow(x, y);
                Ok(())
            },
            Instr::ShlV(x, y) => {
                self.vx_as_lshift_vy(x, y);
                Ok(())
            },
            Instr::SkipNeV(x, y) => {
                self.if_vx_eq_vy(x, y);
                Ok(())
            },
            Instr::SetI(nnn) => {
                self.set_i(nnn);
                Ok(())
            },
            Instr::JmpV0(nnn) => {
                self.jmp_v0(nnn);
                Ok(())
            },
            Instr::Rand(x, nn) => {
                self.vx_rnd(x, nn);
                Ok(())
            },
            Instr::Draw(x, y, n) => {
                if self.hgr && n == 0 {
                    if self.check_hi_draw(x, y) {
                        self.draw_x_y_low(x, y, n);
                        Ok(())
                    } else {
                        Err(Fault::DrawOutOfRange)
                    }
                } else {
                    if self.check_lo_draw(x, y, n) {
                        self.draw_x_y_low(x, y, n);
                        Ok(())
                    } else {
                        Err(Fault::DrawOutOfRange)
                    }
                }
            },
            Instr::SkipKey(x) => {
                if self.v[x as usize] < 16 {
                    self.skip_if_key_vx(x);
                    Ok(())
                } else {
                    Err(Fault::KeyOutOfRange)
                }
            },
            Instr::SkipNoKey(x) => {
                if self.v[x as usize] < 16 {
                    self.skip_if_not_key_vx(x);
                    Ok(())
                } else {
                    Err(Fault::KeyOutOfRange)
                }
            },
            Instr::GetDelay(x) => {
                self.get_delay(x, now_ms);
                Ok(())
            },
            Instr::WaitKey(x) => {
                self.wait_for_next_key(x);
                Ok(())
            },
            Instr::StartDelay(x) => {
                self.start_delay(x, now_ms);
                Ok(())
            },
            Instr::StartSound(x) => {
                self.start_sound_delay(x, now_ms);
                Ok(())
            },
            Instr::AddI(x) => {
                if self.v[x as usize] as u16 <= u16::MAX - self.i {
                    self.i_add_vx(x);
                    Ok(())
                } else {
                    Err(Fault::IndexOverflow)
                }
            },
            Instr::SpriteI(x) => {
                self.i_as_sprite_vx(x);
                Ok(())
            },
            Instr::HgrSpriteI(x) => {
                self.i_as_hgr_sprite_vx(x);
                Ok(())
            },
            Instr::Bcd(x) => {
                if self.i as usize + 3 <= MEM_SIZE {
                    self.vx_as_bcd(x);
                    Ok(())
                } else {
                    Err(Fault::MemoryOutOfRange)
                }
            },
            Instr::StoreV(x) => {
                if self.i as usize + x as usize + 1 <= MEM_SIZE {
                    self.store_v0_vx(x);
                    Ok(())
                } else {
                    Err(Fault::MemoryOutOfRange)
                }
            },
            Instr::ReadV(x) => {
                if self.i as usize + x as usize + 1 <= MEM_SIZE {
                    self.read_v0_vx(x);
                    Ok(())
                } else {
                    Err(Fault::MemoryOutOfRange)
                }
            },
            Instr::StoreFlags(x) => {
                if self.i as usize + x as usize + 1 <= 16 {
                    self.store_rpl_v0_vx(x);
                    Ok(())
                } else {
                    Err(Fault::FlagsOutOfRange)
                }
            },
            Instr::ReadFlags(x) => {
                if self.i as usize + x as usize + 1 <= 16 {
                    self.read_rpl_v0_vx(x);
                    Ok(())
                } else {
                    Err(Fault::FlagsOutOfRange)
                }
            },
            Instr::Unknown => Err(Fault::UnknownOpcode),
        }
    }

    /// Run one dispatch cycle at instant `now_ms`.
    pub fn run_tick(&mut self, now_ms: u64) -> (r: Result<(), Fault>)
        requires
            old(self).wf(),
        ensures
            final(self).wf(),
            cycle_post(*old(self), *final(self), r, now_ms),
    {
        self.emulate_cycle(now_ms)
    }
}

/// Whether the next dispatch cycle is due at `now_ms`, with the previous
/// cycle run at `last_ms`: the machine targets 550 instructions per
/// second, so a cycle is due once 1000/550 of a millisecond-second has
/// passed. The elapsed time is recomputed against the previous cycle on
/// every call, so the rate holds for the whole run rather than only
/// through a warm-up window.
pub fn cycle_due(last_ms: u64, now_ms: u64) -> (b: bool)
    ensures
        b == (last_ms <= now_ms && (now_ms - last_ms) * 550 >= 1000),
{
    if now_ms < last_ms {
        return false;
    }
    let elapsed: u128 = (now_ms - last_ms) as u128;
    elapsed * 550 >= 1000
}

} // verus!
