//! Chain-level laws: the position-recomputation rule holds after every
//! successful advance, and the trail buffer is a bounded first-in,
//! first-out history.

use vstd::prelude::*;
use crate::ball::{pushed_capped, Trail};
use crate::chain::rod_step;
use crate::fp::Fp;
use crate::step::{chain_pos_seq, integrate, run_steps, step_core};
use crate::universe::{Core, Implementation};
use crate::vec2::Vec2;

verus! {

/// Positions chained from the anchor obey the recomputation rule: each is
/// the previous one advanced by its own rod vector.
pub proof fn lemma_chain_pos_step(lengths: Seq<Fp>, thetas: Seq<Fp>, i: int)
    requires
        0 <= i < thetas.len(),
    ensures
        chain_pos_seq(lengths, thetas)[i] == rod_step(
            if i == 0 {
                Vec2::spec_origin()
            } else {
                chain_pos_seq(lengths, thetas)[i - 1]
            },
            lengths[i],
            thetas[i],
        ),
{
}

/// After any run of sub-steps that ends with status 0, every node's
/// position is the previous node's position plus its own rod vector
/// `length * (sin theta, cos theta)`, the anchor standing at the origin.
pub proof fn lemma_run_positions_chained(
    c: Core,
    imp: Implementation,
    limit: bool,
    e: Fp,
    dt: Fp,
    k: nat,
    i: int,
)
    requires
        c.omegas.len() == c.thetas.len(),
        c.pos.len() == c.thetas.len(),
        k > 0,
        run_steps(c, imp, limit, e, dt, k).1 == 0,
        0 <= i < c.thetas.len(),
    ensures
        ({
            let p = run_steps(c, imp, limit, e, dt, k).0;
            p.pos[i] == rod_step(
                if i == 0 {
                    Vec2::spec_origin()
                } else {
                    p.pos[i - 1]
                },
                c.lengths[i],
                p.thetas[i],
            )
        }),
    decreases k,
{
    let prev = run_steps(c, imp, limit, e, dt, (k - 1) as nat);
    if prev.1 != 0 {
        assert(run_steps(c, imp, limit, e, dt, k) == prev);
        assert(false);
    }
    crate::step::lemma_run_static(c, imp, limit, e, dt, (k - 1) as nat);
    let q = prev.0;
    let p = step_core(q, imp, limit, e, dt);
    assert(p.1 == 0);
    let g = integrate(q, imp, dt).0;
    assert(integrate(q, imp, dt).1 == 0);
    assert(p.0.pos == g.pos);
    assert(p.0.thetas == g.thetas);
    match imp {
        Implementation::Euler => {
            assert(g.pos == chain_pos_seq(q.lengths, g.thetas));
        },
        Implementation::RK4 => {
            assert(g.pos == chain_pos_seq(q.lengths, g.thetas));
        },
        Implementation::Verlet => {
            assert(g.pos == chain_pos_seq(q.lengths, g.thetas));
        },
        Implementation::Leapfrog => {
            assert(g.pos == chain_pos_seq(q.lengths, g.thetas));
        },
    }
    lemma_chain_pos_step(q.lengths, g.thetas, i);
}

/// The trail buffer is a bounded first-in, first-out history: a buffer at
/// or below the cap stays at or below it after a sample is recorded; below
/// the cap the sample is simply appended; at the cap the oldest sample is
/// the one evicted and the new sample joins the young end.
pub proof fn lemma_trail_cap(t: Seq<Trail>, s: Trail, max: int)
    requires
        0 <= max,
        t.len() <= max,
    ensures
        pushed_capped(t, s, max).len() <= max,
        t.len() < max ==> pushed_capped(t, s, max) == t.push(s),
        t.len() == max && max > 0 ==> pushed_capped(t, s, max) == t.subrange(1, t.len() as int)
            .push(s),
{
    if t.len() < max {
        assert(pushed_capped(t, s, max) == t.push(s));
    } else if max > 0 {
        assert(pushed_capped(t, s, max) =~= t.subrange(1, t.len() as int).push(s));
    } else {
        assert(pushed_capped(t, s, max) =~= Seq::<Trail>::empty());
    }
}

} // verus!
