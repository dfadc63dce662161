//! A small seeded generator for the draws that decide serves.
//!
//! The game itself takes each draw as a plain number, so any source will do.
//! This one is for callers who want a run they can repeat: the same seed
//! always yields the same draws.

use vstd::prelude::*;

verus! {

/// The step by which the generator's state advances per draw.
pub const STATE_STEP: u64 = 0x9E37_79B9_7F4A_7C15;

/// The generator's state after one more draw.
pub open spec fn stepped(state: u64) -> u64 {
    state.wrapping_add(STATE_STEP)
}

/// The draw that a state yields: the state with its bits mixed, so that
/// neighbouring states yield unlike draws.
pub open spec fn mixed(state: u64) -> u64 {
    let a = (state ^ (state >> 30)).wrapping_mul(0xBF58_476D_1CE4_E5B9);
    let b = (a ^ (a >> 27)).wrapping_mul(0x94D0_49BB_1331_11EB);
    b ^ (b >> 31)
}

/// The state of a generator `count` draws after its state was `state`.
pub open spec fn state_after(state: u64, count: nat) -> u64
    decreases count,
{
    if count == 0 {
        state
    } else {
        stepped(state_after(state, (count - 1) as nat))
    }
}

/// The draw number `index`, counted from zero, of a generator seeded with
/// `seed`.
pub open spec fn draw_at(seed: u64, index: nat) -> u64 {
    mixed(state_after(seed, index + 1))
}

/// A generator of draws that is determined by its seed.
#[derive(Clone, Copy, Debug, PartialEq, Eq, Structural)]
pub struct SeededRng {
    pub state: u64,
}

impl SeededRng {
    /// A generator that starts from `seed`.
    pub fn new(seed: u64) -> (rng: SeededRng)
        ensures
            rng.state == seed,
    {
        SeededRng { state: seed }
    }

    /// Returns the next draw and advances the generator.
    pub fn next_u64(&mut self) -> (draw: u64)
        ensures
            final(self).state == stepped(old(self).state),
            draw == mixed(final(self).state),
            draw == draw_at(old(self).state, 0),
    {
        self.state = self.state.wrapping_add(STATE_STEP);
        let a: u64 = (self.state ^ (self.state >> 30)).wrapping_mul(0xBF58_476D_1CE4_E5B9);
        let b: u64 = (a ^ (a >> 27)).wrapping_mul(0x94D0_49BB_1331_11EB);
        proof {
            reveal_with_fuel(state_after, 2);
        }
        b ^ (b >> 31)
    }

    /// Returns the next `count` draws, in order, and advances the generator
    /// past them.
    pub fn draws(&mut self, count: usize) -> (all: Vec<u64>)
        ensures
            all@.len() == count,
            forall|i: int| 0 <= i < count ==> #[trigger] all@[i] == draw_at(old(self).state, i as nat),
            final(self).state == state_after(old(self).state, count as nat),
    {
        let mut all: Vec<u64> = Vec::new();
        let mut i: usize = 0;
        while i < count
            invariant
                0 <= i <= count,
                all@.len() == i,
                self.state == state_after(old(self).state, i as nat),
                forall|k: int|
                    0 <= k < i ==> #[trigger] all@[k] == draw_at(old(self).state, k as nat),
            decreases count - i,
        {
            let draw: u64 = self.next_u64();
            all.push(draw);
            i += 1;
        }
        all
    }
}

} // verus!
