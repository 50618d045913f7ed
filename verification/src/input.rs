//! The input latch: a 16-slot pressed/released vector plus a
//! "last pressed" latch, refreshed once per run-loop iteration from the
//! list of currently pressed logical key slots (already mapped from
//! physical keys by the caller, in scan order).

use vstd::prelude::*;
use crate::machine::{Chip8, same_mem, same_screen, same_timers, same_call_stack};

verus! {

/// The first entry of `pressed` that names one of the 16 logical keys,
/// if any: the value the "last pressed" latch takes for this refresh.
pub open spec fn first_slot(pressed: Seq<u8>) -> Option<u8>
    decreases pressed.len(),
{
    if pressed.len() == 0 {
        None
    } else if pressed[0] < 16 {
        Some(pressed[0])
    } else {
        first_slot(pressed.drop_first())
    }
}

/// Appending an entry on the right changes `first_slot` only when no
/// earlier entry was in range.
proof fn lemma_first_slot_push(s: Seq<u8>, k: u8)
    ensures
        first_slot(s.push(k)) == (match first_slot(s) {
            Some(f) => Some(f),
            None => {
                if k < 16 {
                    Some(k)
                } else {
                    None
                }
            },
        }),
    decreases s.len(),
{
    if s.len() == 0 {
        assert(s.push(k).drop_first() =~= s);
    } else {
        assert(s.push(k).drop_first() =~= s.drop_first().push(k));
        lemma_first_slot_push(s.drop_first(), k);
    }
}

/// One refresh of the input latch: every slot named in `pressed` becomes
/// pressed, every other slot released, and the latch takes the first
/// in-range entry (overwritten fully each refresh, never merged).
pub open spec fn set_keys_post(pre: Chip8, post: Chip8, pressed: Seq<u8>) -> bool {
    &&& same_mem(pre, post)
    &&& same_screen(pre, post)
    &&& same_timers(pre, post)
    &&& same_call_stack(pre, post)
    &&& post.v@ == pre.v@
    &&& post.r@ == pre.r@
    &&& post.i == pre.i
    &&& post.pc == pre.pc
    &&& forall|s: int|
        0 <= s < 16 ==> post.key@[s] == (if pressed.contains(s as u8) {
            0xffu8
        } else {
            0u8
        })
    &&& post.last_key == first_slot(pressed)
}

impl Chip8 {
    /// Refresh the key-state vector and the last-pressed latch from the
    /// pressed logical slots of this iteration; entries outside `0..16`
    /// are ignored.
    pub fn set_keys(&mut self, pressed: &Vec<u8>)
        requires
            old(self).wf(),
        ensures
            final(self).wf(),
            set_keys_post(*old(self), *final(self), pressed@),
    {
        let mut s: usize = 0;
        while s < 16
            invariant
                self.wf(),
                s <= 16,
                same_mem(*old(self), *self),
                same_screen(*old(self), *self),
                same_timers(*old(self), *self),
                same_call_stack(*old(self), *self),
                self.v@ == old(self).v@,
                self.r@ == old(self).r@,
                self.i == old(self).i,
                self.pc == old(self).pc,
                self.last_key == old(self).last_key,
                forall|t: int| 0 <= t < s ==> self.key@[t] == 0,
            decreases 16 - s,
        {
            self.key[s] = 0;
            s += 1;
        }
        self.last_key = None;
        let mut j: usize = 0;
        while j < pressed.len()
            invariant
                self.wf(),
                j <= pressed@.len(),
                same_mem(*old(self), *self),
                same_screen(*old(self), *self),
                same_timers(*old(self), *self),
                same_call_stack(*old(self), *self),
                self.v@ == old(self).v@,
                self.r@ == old(self).r@,
                self.i == old(self).i,
                self.pc == old(self).pc,
                forall|t: int|
                    0 <= t < 16 ==> self.key@[t] == (if pressed@.take(j as int).contains(t as u8) {
                        0xffu8
                    } else {
                        0u8
                    }),
                self.last_key == first_slot(pressed@.take(j as int)),
            decreases pressed@.len() - j,
        {
            let k = pressed[j];
            proof {
                assert(pressed@.take(j + 1) =~= pressed@.take(j as int).push(pressed@[j as int]));
                lemma_first_slot_push(pressed@.take(j as int), pressed@[j as int]);
            }
            if k < 16 {
                self.key[k as usize] = 0xff;
                if self.last_key.is_none() {
                    self.last_key = Some(k);
                }
            }
            proof {
                assert forall|t: int| 0 <= t < 16 implies self.key@[t] == (if pressed@.take(
                    j + 1,
                ).contains(t as u8) {
                    0xffu8
                } else {
                    0u8
                }) by {
                    if pressed@.take(j + 1).contains(t as u8) {
                        if pressed@.take(j as int).contains(t as u8) {
                        } else {
                            assert(pressed@[j as int] == t as u8);
                        }
                    } else {
                        assert(!pressed@.take(j as int).contains(t as u8)) by {
                            if pressed@.take(j as int).contains(t as u8) {
                                let w = choose|w: int|
                                    0 <= w < j && pressed@.take(j as int)[w] == t as u8;
                                assert(pressed@.take(j + 1)[w] == t as u8);
                            }
                        }
                        assert(pressed@[j as int] != t as u8) by {
                            if pressed@[j as int] == t as u8 {
                                assert(pressed@.take(j + 1)[j as int] == t as u8);
                            }
                        }
                    }
                }
            }
            j += 1;
        }
        proof {
            assert(pressed@.take(pressed@.len() as int) =~= pressed@);
        }
    }
}

} // verus!
