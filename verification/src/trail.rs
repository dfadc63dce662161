//! The trail the ball leaves: a particle dropped at the ball's position every
//! few ticks, each of which lives for a fixed number of ticks.
//!
//! The trail looks at nothing but where the ball is. What a particle looks
//! like is the business of whoever draws it.

use vstd::prelude::*;
use crate::geometry::Vec2;
use vstd::arithmetic::div_mod::{
    lemma_fundamental_div_mod, lemma_fundamental_div_mod_converse, lemma_mod_bound,
    lemma_mod_multiples_basic, lemma_small_mod,
};

verus! {

/// One particle of the trail.
#[derive(Clone, Copy, Debug, PartialEq, Eq, Structural)]
pub struct Particle {
    /// Where the ball was when the particle was dropped.
    pub position: Vec2,
    /// The number of ticks the particle has lived.
    pub age: u32,
}

/// The particles that are still alive one tick later, each a tick older, in
/// their old order. A particle is gone once its age reaches `lifetime`.
pub open spec fn survivors(particles: Seq<Particle>, lifetime: u32) -> Seq<Particle>
    decreases particles.len(),
{
    if particles.len() == 0 {
        Seq::empty()
    } else {
        let earlier = survivors(particles.drop_last(), lifetime);
        let last = particles.last();
        if last.age + 1 < lifetime {
            earlier.push(Particle { position: last.position, age: (last.age + 1) as u32 })
        } else {
            earlier
        }
    }
}

/// The number of ticks since the last particle was dropped, `ticks` ticks
/// after it was `since`, for a trail that drops one every `period` ticks.
pub open spec fn phase_after(period: u32, since: u32, ticks: nat) -> int
    decreases ticks,
{
    if ticks == 0 {
        since as int
    } else {
        let before = phase_after(period, since, (ticks - 1) as nat);
        if before + 1 >= period {
            0
        } else {
            before + 1
        }
    }
}

/// The trail keeps time like a clock with `period` positions: after any
/// number of ticks its phase is the ticks gone by, counted from the old
/// phase, modulo the period. So a particle is dropped on every tick that
/// completes a period and on no other.
pub proof fn lemma_cadence(period: u32, since: u32, ticks: nat)
    requires
        1 <= period,
        since < period,
    ensures
        phase_after(period, since, ticks) == (since + ticks) % (period as int),
    decreases ticks,
{
    let p = period as int;
    if ticks == 0 {
        lemma_small_mod(since as nat, period as nat);
    } else {
        lemma_cadence(period, since, (ticks - 1) as nat);
        let before = since + ticks - 1;
        let q = before / p;
        let r = before % p;
        lemma_fundamental_div_mod(before, p);
        lemma_mod_bound(before, p);
        assert(p * q == q * p) by (nonlinear_arith);
        if r + 1 >= p {
            assert(before + 1 == (q + 1) * p) by (nonlinear_arith)
                requires
                    before == q * p + r,
                    r + 1 == p,
            ;
            lemma_mod_multiples_basic(q + 1, p);
        } else {
            lemma_fundamental_div_mod_converse(before + 1, p, q, r + 1);
        }
    }
}

/// The ball's trail.
#[derive(Debug, PartialEq, Eq)]
pub struct Trail {
    /// A particle is dropped every `period` ticks.
    pub period: u32,
    /// A particle is removed in the tick in which its age reaches `lifetime`.
    pub lifetime: u32,
    /// The number of ticks since the last particle was dropped.
    pub since_emission: u32,
    /// The living particles, oldest first.
    pub particles: Vec<Particle>,
}

impl Trail {
    /// The phase is within the period, and every particle is younger than
    /// the lifetime. A period of zero is a period of one: a particle every
    /// tick.
    pub open spec fn wf(self) -> bool {
        &&& self.since_emission < self.period || self.since_emission == 0
        &&& forall|i: int|
            0 <= i < self.particles@.len() ==> (#[trigger] self.particles@[i]).age < self.lifetime
    }

    /// An empty trail. Its first particle is dropped `period` ticks from now.
    pub fn new(period: u32, lifetime: u32) -> (trail: Trail)
        ensures
            trail.period == period,
            trail.lifetime == lifetime,
            trail.since_emission == 0,
            trail.particles@.len() == 0,
            trail.wf(),
    {
        Trail { period, lifetime, since_emission: 0, particles: Vec::new() }
    }

    /// Advances the trail by one tick and says whether a particle was
    /// dropped.
    ///
    /// Every particle grows a tick older and those that have reached the
    /// lifetime are removed. If this tick completes a period, a new particle
    /// of age zero is added at `ball_position`, provided the lifetime lets a
    /// particle live at all.
    pub fn advance(&mut self, ball_position: Vec2) -> (emitted: bool)
        requires
            old(self).wf(),
        ensures
            final(self).wf(),
            final(self).period == old(self).period,
            final(self).lifetime == old(self).lifetime,
            emitted == (old(self).since_emission + 1 >= old(self).period),
            final(self).since_emission == phase_after(old(self).period, old(self).since_emission, 1),
            final(self).particles@ == if emitted && old(self).lifetime > 0 {
                survivors(old(self).particles@, old(self).lifetime).push(
                    Particle { position: ball_position, age: 0 },
                )
            } else {
                survivors(old(self).particles@, old(self).lifetime)
            },
    {
        let mut kept: Vec<Particle> = Vec::new();
        let mut i: usize = 0;
        while i < self.particles.len()
            invariant
                0 <= i <= self.particles@.len(),
                *self == *old(self),
                self.wf(),
                kept@ == survivors(self.particles@.take(i as int), self.lifetime),
                forall|k: int| 0 <= k < kept@.len() ==> (#[trigger] kept@[k]).age < self.lifetime,
            decreases self.particles@.len() - i,
        {
            let particle: Particle = self.particles[i];
            assert(self.particles@.take(i as int + 1).drop_last() == self.particles@.take(i as int));
            assert(self.particles@.take(i as int + 1).last() == particle);
            assert(particle.age < self.lifetime);
            if particle.age + 1 < self.lifetime {
                kept.push(Particle { position: particle.position, age: particle.age + 1 });
            }
            i += 1;
        }
        assert(self.particles@.take(self.particles@.len() as int) == self.particles@);
        proof {
            reveal_with_fuel(phase_after, 2);
        }
        let emitted: bool = self.since_emission + 1 >= self.period;
        if emitted {
            self.since_emission = 0;
            if self.lifetime > 0 {
                kept.push(Particle { position: ball_position, age: 0 });
            }
        } else {
            self.since_emission = self.since_emission + 1;
        }
        self.particles = kept;
        emitted
    }
}

} // verus!
