//! Mechanical energy of the chain and the stability safeguard that rescales
//! angular velocities when kinetic energy exceeds the budget.

use vstd::prelude::*;
use crate::ball::Ball;
use crate::fp::{Fp, fp};
use crate::universe::{core_of, Core, Universe, HALF_BITS};

verus! {

/// The cumulative height through node `k - 1`: the running sum of
/// `length * cos(theta)` from the anchor outward.
pub open spec fn ycum_to(c: Core, k: int) -> Fp
    decreases k,
{
    if k <= 0 {
        fp(0)
    } else {
        ycum_to(c, k - 1).spec_add(c.lengths[k - 1].spec_mul(c.thetas[k - 1].spec_cos()))
    }
}

/// The potential energy of the first `k` nodes: each node subtracts
/// `mass * gravity * (cumulative height through it)` from the total
/// (positive y points down).
pub open spec fn potential_to(c: Core, k: int) -> Fp
    decreases k,
{
    if k <= 0 {
        fp(0)
    } else {
        potential_to(c, k - 1).spec_sub(
            c.masses[k - 1].spec_mul(c.gravity).spec_mul(ycum_to(c, k)),
        )
    }
}

/// The total potential energy of the chain.
pub open spec fn spec_potential(c: Core) -> Fp {
    potential_to(c, c.masses.len() as int)
}

/// The horizontal velocity of node `j - 1`: the sum over nodes `0..j` of
/// `length * omega * cos(theta)`.
pub open spec fn vx_to(c: Core, j: int) -> Fp
    decreases j,
{
    if j <= 0 {
        fp(0)
    } else {
        vx_to(c, j - 1).spec_add(
            c.lengths[j - 1].spec_mul(c.omegas[j - 1]).spec_mul(c.thetas[j - 1].spec_cos()),
        )
    }
}

/// The vertical velocity of node `j - 1`: the sum over nodes `0..j` of
/// `-length * omega * sin(theta)`.
pub open spec fn vy_to(c: Core, j: int) -> Fp
    decreases j,
{
    if j <= 0 {
        fp(0)
    } else {
        vy_to(c, j - 1).spec_add(
            c.lengths[j - 1].spec_neg().spec_mul(c.omegas[j - 1]).spec_mul(
                c.thetas[j - 1].spec_sin(),
            ),
        )
    }
}

/// The kinetic energy of the first `k` nodes: each node adds
/// `(1/2) * mass * (vx^2 + vy^2)`.
pub open spec fn kinetic_to(c: Core, k: int) -> Fp
    decreases k,
{
    if k <= 0 {
        fp(0)
    } else {
        let vx = vx_to(c, k);
        let vy = vy_to(c, k);
        let v2 = vx.spec_mul(vx).spec_add(vy.spec_mul(vy));
        kinetic_to(c, k - 1).spec_add(fp(HALF_BITS).spec_mul(c.masses[k - 1]).spec_mul(v2))
    }
}

/// The total kinetic energy of the chain.
pub open spec fn spec_kinetic(c: Core) -> Fp {
    kinetic_to(c, c.masses.len() as int)
}

/// The total mechanical energy of the chain.
pub open spec fn spec_total_energy(c: Core) -> Fp {
    spec_potential(c).spec_add(spec_kinetic(c))
}

/// The angular velocities after the stability safeguard: when the energy
/// ceiling `e - potential` is non-negative and kinetic energy exceeds both
/// the ceiling and zero, every angular velocity is scaled by
/// `sqrt(ceiling / kinetic)`; otherwise nothing changes.
pub open spec fn clamped_omegas(c: Core, e: Fp) -> Seq<Fp> {
    let max_kinetic = e.spec_sub(spec_potential(c));
    if max_kinetic.spec_lt(fp(0)) {
        c.omegas
    } else {
        let kinetic = spec_kinetic(c);
        if kinetic.spec_gt(max_kinetic) && kinetic.spec_gt(fp(0)) {
            let scale = max_kinetic.spec_div(kinetic).spec_sqrt();
            c.omegas.map(|i: int, w: Fp| w.spec_mul(scale))
        } else {
            c.omegas
        }
    }
}

impl Universe {
    /// The total potential energy of the current chain.
    #[verifier::loop_isolation(false)]
    pub fn calculate_potential_energy(&self) -> (r: Fp)
        ensures
            r == spec_potential(core_of(*self)),
    {
        let ghost c = core_of(*self);
        let mut potential = Fp::zero();
        let mut y_cumulative = Fp::zero();
        let n = self.balls.len();
        let mut i: usize = 0;
        while i < n
            invariant
                i <= n,
                y_cumulative == ycum_to(c, i as int),
                potential == potential_to(c, i as int),
            decreases n - i,
        {
            y_cumulative = y_cumulative.add(
                self.balls[i].rod.length.mul(self.balls[i].theta.cos()),
            );
            let mass = if self.mass_calculation {
                self.balls[i].mass
            } else {
                self.default_mass
            };
            potential = potential.sub(mass.mul(self.gravity).mul(y_cumulative));
            i = i + 1;
        }
        potential
    }

    /// The total kinetic energy of the current chain.
    #[verifier::loop_isolation(false)]
    pub fn calculate_kinetic_energy(&self) -> (r: Fp)
        ensures
            r == spec_kinetic(core_of(*self)),
    {
        let ghost c = core_of(*self);
        let mut kinetic = Fp::zero();
        let n = self.balls.len();
        let mut i: usize = 0;
        while i < n
            invariant
                i <= n,
                kinetic == kinetic_to(c, i as int),
            decreases n - i,
        {
            let mut vx = Fp::zero();
            let mut vy = Fp::zero();
            let mut j: usize = 0;
            while j <= i
                invariant
                    j <= i + 1,
                    i < n,
                    vx == vx_to(c, j as int),
                    vy == vy_to(c, j as int),
                decreases i + 1 - j,
            {
                vx = vx.add(
                    self.balls[j].rod.length.mul(self.balls[j].omega).mul(
                        self.balls[j].theta.cos(),
                    ),
                );
                vy = vy.add(
                    self.balls[j].rod.length.neg().mul(self.balls[j].omega).mul(
                        self.balls[j].theta.sin(),
                    ),
                );
                j = j + 1;
            }
            let v_squared = vx.mul(vx).add(vy.mul(vy));
            let mass = if self.mass_calculation {
                self.balls[i].mass
            } else {
                self.default_mass
            };
            kinetic = kinetic.add(Fp::from_bits(HALF_BITS).mul(mass).mul(v_squared));
            i = i + 1;
        }
        kinetic
    }

    /// Applies the stability safeguard against the energy budget
    /// `initial_energy`: angular velocities become [`clamped_omegas`] of the
    /// current state, and nothing else changes.
    #[verifier::loop_isolation(false)]
    pub fn constrain_velocities(&mut self, initial_energy: Fp)
        ensures
            final(self).balls@.len() == old(self).balls@.len(),
            forall|i: int|
                0 <= i < old(self).balls@.len() ==> (#[trigger] final(self).balls@[i]) == (Ball {
                    omega: clamped_omegas(core_of(*old(self)), initial_energy)[i],
                    ..old(self).balls@[i]
                }),
            *final(self) == (Universe { balls: final(self).balls, ..*old(self) }),
    {
        let ghost c = core_of(*old(self));
        let current_potential = self.calculate_potential_energy();
        let max_kinetic = initial_energy.sub(current_potential);
        if max_kinetic.lt(Fp::zero()) {
            return ;
        }
        let current_kinetic = self.calculate_kinetic_energy();
        if current_kinetic.gt(max_kinetic) && current_kinetic.gt(Fp::zero()) {
            let scale_factor = max_kinetic.div(current_kinetic).sqrt();
            let n = self.balls.len();
            let mut i: usize = 0;
            while i < n
                invariant
                    i <= n,
                    self.balls@.len() == old(self).balls@.len(),
                    forall|k: int|
                        0 <= k < i ==> (#[trigger] self.balls@[k]) == (Ball {
                            omega: old(self).balls@[k].omega.spec_mul(scale_factor),
                            ..old(self).balls@[k]
                        }),
                    forall|k: int| i <= k < n ==> self.balls@[k] == old(self).balls@[k],
                    *self == (Universe { balls: self.balls, ..*old(self) }),
                decreases n - i,
            {
                let w = self.balls[i].omega;
                self.balls[i].omega = w.mul(scale_factor);
                i = i + 1;
            }
        }
    }

    /// Stores the current total mechanical energy as the budget the
    /// stability safeguard is measured against.
    pub fn update_initial_energy(&mut self)
        ensures
            *final(self) == (Universe {
                initial_energy: spec_total_energy(core_of(*old(self))),
                ..*old(self)
            }),
    {
        let pot = self.calculate_potential_energy();
        let kin = self.calculate_kinetic_energy();
        self.initial_energy = pot.add(kin);
    }
}

} // verus!
