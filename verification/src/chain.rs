//! The position-recomputation rule of the chain: every node's Cartesian
//! position is the previous node's position plus its own rod vector
//! `length * (sin theta, cos theta)`, with the anchor at the origin.

use vstd::prelude::*;
use crate::ball::Ball;
use crate::fp::Fp;
use crate::vec2::Vec2;

verus! {

/// The position of the node before index `i`: the origin for the first node.
pub open spec fn prev_pos(balls: Seq<Ball>, i: int) -> Vec2 {
    if i == 0 {
        Vec2::spec_origin()
    } else {
        balls[i - 1].pos
    }
}

/// `prev` advanced by the rod vector of a node with rod length `length` and
/// angle `theta`.
pub open spec fn rod_step(prev: Vec2, length: Fp, theta: Fp) -> Vec2 {
    Vec2 {
        x: prev.x.spec_add(length.spec_mul(theta.spec_sin())),
        y: prev.y.spec_add(length.spec_mul(theta.spec_cos())),
    }
}

/// Whether every node from index `from` on sits at the end of the rod
/// hanging from its predecessor.
pub open spec fn chained_from(balls: Seq<Ball>, from: int) -> bool {
    forall|i: int|
        from <= i < balls.len() ==> (#[trigger] balls[i]).pos == rod_step(
            prev_pos(balls, i),
            balls[i].rod.length,
            balls[i].theta,
        )
}

/// The position of node `i` obtained by chaining rod vectors from the
/// anchor outward, over the given rod lengths and angles.
pub open spec fn pos_at(lengths: Seq<Fp>, thetas: Seq<Fp>, i: int) -> Vec2
    decreases i,
{
    let prev = if i <= 0 {
        Vec2::spec_origin()
    } else {
        pos_at(lengths, thetas, i - 1)
    };
    rod_step(prev, lengths[i], thetas[i])
}

/// A fully chained ball sequence carries exactly the positions that chaining
/// from the anchor computes.
pub proof fn lemma_chained_pos_at(balls: Seq<Ball>, i: int)
    requires
        chained_from(balls, 0),
        0 <= i < balls.len(),
    ensures
        balls[i].pos == pos_at(
            balls.map(|k: int, b: Ball| b.rod.length),
            balls.map(|k: int, b: Ball| b.theta),
            i,
        ),
    decreases i,
{
    if i > 0 {
        lemma_chained_pos_at(balls, i - 1);
    }
}

impl crate::universe::Universe {
    /// Recomputes the position of every node from index `from` on, chaining
    /// each from its predecessor (the anchor for the first node). No other
    /// field of any node changes.
    pub fn recompute_positions(&mut self, from: usize)
        ensures
            *final(self) == (crate::universe::Universe {
                balls: final(self).balls,
                ..*old(self)
            }),
            final(self).balls@.len() == old(self).balls@.len(),
            forall|i: int| 0 <= i < from ==> final(self).balls@[i] == old(self).balls@[i],
            forall|i: int|
                from <= i < final(self).balls@.len() ==> (#[trigger] final(self).balls@[i]) == (Ball {
                    pos: final(self).balls@[i].pos,
                    ..old(self).balls@[i]
                }),
            chained_from(final(self).balls@, from as int),
    {
        let n = self.balls.len();
        let mut i: usize = from;
        while i < n
            invariant
                from <= i <= n || (from > n && i == from),
                n == self.balls@.len(),
                self.balls@.len() == old(self).balls@.len(),
                *self == (crate::universe::Universe { balls: self.balls, ..*old(self) }),
                forall|k: int| 0 <= k < from ==> self.balls@[k] == old(self).balls@[k],
                forall|k: int|
                    from <= k < n ==> (#[trigger] self.balls@[k]) == (Ball {
                        pos: self.balls@[k].pos,
                        ..old(self).balls@[k]
                    }),
                forall|k: int|
                    from <= k < i ==> (#[trigger] self.balls@[k]).pos == rod_step(
                        prev_pos(self.balls@, k),
                        self.balls@[k].rod.length,
                        self.balls@[k].theta,
                    ),
            decreases n - i,
        {
            let prev = if i == 0 {
                Vec2::new(Fp::zero(), Fp::zero())
            } else {
                self.balls[i - 1].pos
            };
            let length = self.balls[i].rod.length;
            let theta = self.balls[i].theta;
            let x = prev.x.add(length.mul(theta.sin()));
            let y = prev.y.add(length.mul(theta.cos()));
            self.balls[i].pos = Vec2 { x, y };
            i = i + 1;
        }
    }
}

} // verus!
