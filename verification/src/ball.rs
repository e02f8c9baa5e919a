//! One link of the pendulum chain: the rod descriptor, the trail sample, and
//! the chain node (ball) with its dynamic state and bounded trail buffer.

use vstd::prelude::*;
use crate::fp::Fp;
use crate::vec2::Vec2;

verus! {

/// Static per-link parameters: rod length, nominal mass, display color.
#[derive(Clone, Copy, PartialEq, Eq, Structural, Debug)]
pub struct Rod {
    pub length: Fp,
    pub mass: Fp,
    pub color: u32,
}

impl Rod {
    pub fn new(length: Fp, mass: Fp, color: u32) -> (r: Rod)
        ensures
            r == (Rod { length, mass, color }),
    {
        Rod { length, mass, color }
    }

    /// Replaces the rod length; the owning chain recomputes positions.
    pub fn update_length(&mut self, length: Fp)
        ensures
            *final(self) == (Rod { length, ..*old(self) }),
    {
        self.length = length;
    }
}

/// The trail `t` with sample `s` appended and then the oldest samples
/// evicted while the buffer is longer than `max`.
pub open spec fn pushed_capped(t: Seq<Trail>, s: Trail, max: int) -> Seq<Trail> {
    if t.len() + 1 > max {
        t.push(s).subrange(1, t.len() as int + 1)
    } else {
        t.push(s)
    }
}

/// One recorded trail sample: a position and the color it was drawn with.
#[derive(Clone, Copy, PartialEq, Eq, Structural, Debug)]
pub struct Trail {
    pub pos: Vec2,
    pub color: u32,
}

/// A chain node: angle from the downward vertical, angular velocity, the
/// derived Cartesian position, the rod it hangs from, its trail buffer, and
/// its display parameters.
#[derive(Debug)]
pub struct Ball {
    pub pos: Vec2,
    pub omega: Fp,
    pub theta: Fp,
    pub rod: Rod,
    pub trail: Vec<Trail>,
    pub radius: i32,
    pub mass: Fp,
    pub color: u32,
}

impl Ball {
    /// A node with the given position, angular state, rod parameters and
    /// display parameters, and an empty trail.
    pub fn new(
        px: Fp,
        py: Fp,
        omega: Fp,
        theta: Fp,
        rl: Fp,
        rm: Fp,
        rc: u32,
        radius: i32,
        mass: Fp,
        color: u32,
    ) -> (r: Ball)
        ensures
            r.pos == (Vec2 { x: px, y: py }),
            r.omega == omega,
            r.theta == theta,
            r.rod == (Rod { length: rl, mass: rm, color: rc }),
            r.trail@ == Seq::<Trail>::empty(),
            r.radius == radius,
            r.mass == mass,
            r.color == color,
    {
        Ball {
            pos: Vec2::new(px, py),
            omega,
            theta,
            radius,
            mass,
            color,
            rod: Rod::new(rl, rm, rc),
            trail: Vec::new(),
        }
    }

    /// A copy of the trail buffer, oldest sample first.
    pub fn get_trail(&self) -> (r: Vec<Trail>)
        ensures
            r@ == self.trail@,
    {
        let mut out: Vec<Trail> = Vec::new();
        let mut i: usize = 0;
        while i < self.trail.len()
            invariant
                i <= self.trail.len(),
                out@ == self.trail@.subrange(0, i as int),
            decreases self.trail.len() - i,
        {
            out.push(self.trail[i]);
            i = i + 1;
        }
        assert(out@ =~= self.trail@);
        out
    }

    /// Appends one sample and evicts the oldest while the buffer is longer
    /// than `max`: the trail is a bounded first-in, first-out history.
    pub fn add_trail_point(&mut self, pos: Vec2, color: u32, max: usize)
        ensures
            final(self).trail@ == pushed_capped(
                old(self).trail@,
                Trail { pos, color },
                max as int,
            ),
            old(self).trail@.len() <= max ==> final(self).trail@.len() <= max,
            *final(self) == (Ball { trail: final(self).trail, ..*old(self) }),
    {
        self.trail.push(Trail { pos, color });
        if self.trail.len() > max {
            self.trail.remove(0);
        }
    }
}

} // verus!
