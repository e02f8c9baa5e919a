//! The four time-stepping strategies, the single sub-step they share, and
//! the driver entry point that fans a frame delta into numerically stable
//! sub-steps.

use vstd::prelude::*;
use crate::accel::accel_core;
use crate::ball::{pushed_capped, Ball, Trail};
use crate::chain::{lemma_chained_pos_at, pos_at};
use crate::energy::clamped_omegas;
use crate::fp::{fp, fp_of_usize, fp_to_usize, Fp};
use crate::vec2::Vec2;
use crate::universe::{
    core_of, core_of_seq, Core, Implementation, Universe, FIFTY_BITS, HALF_BITS, ONE_BITS,
    PI_BITS, SIX_BITS, TRAIL_CAP, TWO_BITS, TWO_PI_BITS,
};

verus! {

/// Every element of `s` scaled by `f`.
pub open spec fn scale_seq(s: Seq<Fp>, f: Fp) -> Seq<Fp> {
    s.map(|i: int, x: Fp| x.spec_mul(f))
}

/// The elementwise sum of `a` and `b`.
pub open spec fn add_seqs(a: Seq<Fp>, b: Seq<Fp>) -> Seq<Fp> {
    Seq::new(a.len(), |i: int| a[i].spec_add(b[i]))
}

/// Whether any element is a NaN.
pub open spec fn has_nan(s: Seq<Fp>) -> bool {
    exists|i: int| 0 <= i < s.len() && (#[trigger] s[i]).spec_is_nan()
}

/// The angle folded into `(-pi, pi]`: the remainder modulo `2 pi`, shifted
/// by one turn when it falls outside the band.
pub open spec fn norm_angle(a: Fp) -> Fp {
    let m = a.spec_rem(fp(TWO_PI_BITS));
    if m.spec_gt(fp(PI_BITS)) {
        m.spec_sub(fp(TWO_PI_BITS))
    } else if m.spec_lt(fp(PI_BITS).spec_neg()) {
        m.spec_add(fp(TWO_PI_BITS))
    } else {
        m
    }
}

/// The positions of all nodes chained from the anchor outward over the
/// given rod lengths and angles.
pub open spec fn chain_pos_seq(lengths: Seq<Fp>, thetas: Seq<Fp>) -> Seq<Vec2> {
    Seq::new(thetas.len(), |i: int| pos_at(lengths, thetas, i))
}

/// Whether the semi-implicit Euler sub-step detects a NaN acceleration.
pub open spec fn euler_fails(c: Core) -> bool {
    has_nan(accel_core(c))
}

/// The semi-implicit Euler sub-step: the velocity absorbs the acceleration
/// first and the just-updated velocity advances the angle; positions are
/// re-chained. The angle is not normalized.
pub open spec fn euler_result(c: Core, dt: Fp) -> Core {
    let acc = accel_core(c);
    let n = c.thetas.len();
    let omegas = Seq::new(n, |i: int| c.omegas[i].spec_add(acc[i].spec_mul(dt)));
    let thetas = Seq::new(n, |i: int| c.thetas[i].spec_add(omegas[i].spec_mul(dt)));
    Core { thetas, omegas, pos: chain_pos_seq(c.lengths, thetas), ..c }
}

/// The second Runge-Kutta stage state: a half sub-step along the first
/// stage derivatives.
pub open spec fn rk4_c2(c: Core, dt: Fp) -> Core {
    let s = fp(HALF_BITS).spec_mul(dt);
    c.with_state(
        add_seqs(c.thetas, scale_seq(c.omegas, s)),
        add_seqs(c.omegas, scale_seq(accel_core(c), s)),
    )
}

/// The third Runge-Kutta stage state: a half sub-step along the second
/// stage derivatives.
pub open spec fn rk4_c3(c: Core, dt: Fp) -> Core {
    let s = fp(HALF_BITS).spec_mul(dt);
    c.with_state(
        add_seqs(c.thetas, scale_seq(rk4_c2(c, dt).omegas, s)),
        add_seqs(c.omegas, scale_seq(accel_core(rk4_c2(c, dt)), s)),
    )
}

/// The fourth Runge-Kutta stage state: a full sub-step along the third
/// stage derivatives.
pub open spec fn rk4_c4(c: Core, dt: Fp) -> Core {
    let s = fp(ONE_BITS).spec_mul(dt);
    c.with_state(
        add_seqs(c.thetas, scale_seq(rk4_c3(c, dt).omegas, s)),
        add_seqs(c.omegas, scale_seq(accel_core(rk4_c3(c, dt)), s)),
    )
}

/// The classical Runge-Kutta weighting `(k1 + 2 k2 + 2 k3 + k4) * (dt/6)`.
pub open spec fn rk4_weighted(
    k1: Seq<Fp>,
    k2: Seq<Fp>,
    k3: Seq<Fp>,
    k4: Seq<Fp>,
    dt: Fp,
) -> Seq<Fp> {
    Seq::new(
        k1.len(),
        |i: int|
            k1[i].spec_add(k2[i].spec_mul(fp(TWO_BITS))).spec_add(
                k3[i].spec_mul(fp(TWO_BITS)),
            ).spec_add(k4[i]).spec_mul(dt.spec_div(fp(SIX_BITS))),
    )
}

/// Whether any of the four Runge-Kutta stages yields a NaN acceleration.
pub open spec fn rk4_fails(c: Core, dt: Fp) -> bool {
    has_nan(accel_core(c)) || has_nan(accel_core(rk4_c2(c, dt))) || has_nan(
        accel_core(rk4_c3(c, dt)),
    ) || has_nan(accel_core(rk4_c4(c, dt)))
}

/// The classical fourth-order Runge-Kutta sub-step on the combined
/// (angle, velocity) state; positions are re-chained. The angle is not
/// normalized.
pub open spec fn rk4_result(c: Core, dt: Fp) -> Core {
    let c2 = rk4_c2(c, dt);
    let c3 = rk4_c3(c, dt);
    let c4 = rk4_c4(c, dt);
    let td = rk4_weighted(c.omegas, c2.omegas, c3.omegas, c4.omegas, dt);
    let wd = rk4_weighted(accel_core(c), accel_core(c2), accel_core(c3), accel_core(c4), dt);
    let n = c.thetas.len();
    let thetas = Seq::new(n, |i: int| c.thetas[i].spec_add(td[i]));
    let omegas = Seq::new(n, |i: int| c.omegas[i].spec_add(wd[i]));
    Core { thetas, omegas, pos: chain_pos_seq(c.lengths, thetas), ..c }
}

/// The position-form Verlet trial angles
/// `theta + omega dt + (1/2) a dt^2`, before normalization.
pub open spec fn verlet_thetas_raw(c: Core, dt: Fp) -> Seq<Fp> {
    Seq::new(
        c.thetas.len(),
        |i: int|
            c.thetas[i].spec_add(c.omegas[i].spec_mul(dt)).spec_add(
                fp(HALF_BITS).spec_mul(accel_core(c)[i]).spec_mul(dt).spec_mul(dt),
            ),
    )
}

/// The state the Verlet sub-step re-evaluates the accelerations at: the
/// trial angles with the old velocities.
pub open spec fn verlet_mid(c: Core, dt: Fp) -> Core {
    c.with_state(verlet_thetas_raw(c, dt), c.omegas)
}

/// Whether either Verlet acceleration pass yields a NaN.
pub open spec fn verlet_fails(c: Core, dt: Fp) -> bool {
    has_nan(accel_core(c)) || has_nan(accel_core(verlet_mid(c, dt)))
}

/// The position-form Verlet sub-step: trial angles from the current
/// accelerations, velocities from the average of old and new
/// accelerations, angles normalized into `(-pi, pi]`, positions re-chained.
pub open spec fn verlet_result(c: Core, dt: Fp) -> Core {
    let a1 = accel_core(c);
    let a2 = accel_core(verlet_mid(c, dt));
    let raw = verlet_thetas_raw(c, dt);
    let n = c.thetas.len();
    let omegas = Seq::new(
        n,
        |i: int|
            c.omegas[i].spec_add(
                fp(HALF_BITS).spec_mul(a1[i].spec_add(a2[i])).spec_mul(dt),
            ),
    );
    let thetas = Seq::new(n, |i: int| norm_angle(raw[i]));
    Core { thetas, omegas, pos: chain_pos_seq(c.lengths, thetas), ..c }
}

/// The leapfrog half-stepped velocities `omega + a dt/2`.
pub open spec fn leapfrog_half_omegas(c: Core, dt: Fp) -> Seq<Fp> {
    Seq::new(
        c.omegas.len(),
        |i: int| c.omegas[i].spec_add(accel_core(c)[i].spec_mul(dt.spec_div(fp(TWO_BITS)))),
    )
}

/// The leapfrog trial angles: a full step along the half-stepped
/// velocities, before normalization.
pub open spec fn leapfrog_thetas_raw(c: Core, dt: Fp) -> Seq<Fp> {
    Seq::new(
        c.thetas.len(),
        |i: int| c.thetas[i].spec_add(leapfrog_half_omegas(c, dt)[i].spec_mul(dt)),
    )
}

/// The state the leapfrog sub-step re-evaluates the accelerations at: the
/// trial angles with the half-stepped velocities.
pub open spec fn leapfrog_mid(c: Core, dt: Fp) -> Core {
    c.with_state(leapfrog_thetas_raw(c, dt), leapfrog_half_omegas(c, dt))
}

/// Whether either leapfrog acceleration pass yields a NaN.
pub open spec fn leapfrog_fails(c: Core, dt: Fp) -> bool {
    has_nan(accel_core(c)) || has_nan(accel_core(leapfrog_mid(c, dt)))
}

/// The leapfrog sub-step: velocities half-stepped, angles advanced by the
/// half-stepped velocities and normalized into `(-pi, pi]`, velocities
/// completed with the second half-step at the new angles, positions
/// re-chained.
pub open spec fn leapfrog_result(c: Core, dt: Fp) -> Core {
    let half = leapfrog_half_omegas(c, dt);
    let raw = leapfrog_thetas_raw(c, dt);
    let a2 = accel_core(leapfrog_mid(c, dt));
    let n = c.thetas.len();
    let omegas = Seq::new(
        n,
        |i: int| half[i].spec_add(a2[i].spec_mul(dt.spec_div(fp(TWO_BITS)))),
    );
    let thetas = Seq::new(n, |i: int| norm_angle(raw[i]));
    Core { thetas, omegas, pos: chain_pos_seq(c.lengths, thetas), ..c }
}

/// One sub-step of the selected integrator: the unchanged state with
/// status 1 when a NaN acceleration is detected, else the advanced state
/// with status 0.
pub open spec fn integrate(c: Core, imp: Implementation, dt: Fp) -> (Core, u8) {
    match imp {
        Implementation::Euler => if euler_fails(c) {
            (c, 1u8)
        } else {
            (euler_result(c, dt), 0u8)
        },
        Implementation::RK4 => if rk4_fails(c, dt) {
            (c, 1u8)
        } else {
            (rk4_result(c, dt), 0u8)
        },
        Implementation::Verlet => if verlet_fails(c, dt) {
            (c, 1u8)
        } else {
            (verlet_result(c, dt), 0u8)
        },
        Implementation::Leapfrog => if leapfrog_fails(c, dt) {
            (c, 1u8)
        } else {
            (leapfrog_result(c, dt), 0u8)
        },
    }
}

/// The state after the stability safeguard: the angular velocities become
/// [`clamped_omegas`] and nothing else changes.
pub open spec fn clamp_core(c: Core, e: Fp) -> Core {
    Core { omegas: clamped_omegas(c, e), ..c }
}

/// One full sub-step: the integrator, then, when energy limiting is on and
/// the sub-step succeeded, the stability safeguard against the budget `e`.
pub open spec fn step_core(c: Core, imp: Implementation, limit: bool, e: Fp, dt: Fp) -> (
    Core,
    u8,
) {
    let p = integrate(c, imp, dt);
    if p.1 != 0 {
        (c, 1u8)
    } else if limit {
        (clamp_core(p.0, e), 0u8)
    } else {
        (p.0, 0u8)
    }
}

/// `k` sub-steps run in order, stopping at the first failure: the state
/// reached and the status of the last sub-step that ran.
pub open spec fn run_steps(
    c: Core,
    imp: Implementation,
    limit: bool,
    e: Fp,
    dt: Fp,
    k: nat,
) -> (Core, u8)
    decreases k,
{
    if k == 0 {
        (c, 0u8)
    } else {
        let p = run_steps(c, imp, limit, e, dt, (k - 1) as nat);
        if p.1 != 0 {
            p
        } else {
            step_core(p.0, imp, limit, e, dt)
        }
    }
}

/// The doubled user-facing speed: the effective time multiplier.
pub open spec fn spec_speed_multiplier(speed: Fp) -> Fp {
    speed.spec_mul(fp(TWO_BITS))
}

/// The sub-step count `ceil(|multiplier| * 50)`, floored at one.
pub open spec fn spec_num_steps(speed: Fp) -> usize {
    let s = fp_to_usize(
        spec_speed_multiplier(speed).spec_abs().spec_mul(fp(FIFTY_BITS)).spec_ceil().bits,
    );
    if s < 1 {
        1
    } else {
        s
    }
}

/// The sub-step size `dt * multiplier / stepCount`.
pub open spec fn spec_sub_dt(speed: Fp, dt: Fp) -> Fp {
    dt.spec_mul(spec_speed_multiplier(speed)).spec_div(fp(fp_of_usize(spec_num_steps(speed))))
}

/// Once a sub-step has failed, running further sub-steps changes nothing.
proof fn lemma_run_stuck(
    c: Core,
    imp: Implementation,
    limit: bool,
    e: Fp,
    dt: Fp,
    k1: nat,
    k2: nat,
)
    requires
        k1 <= k2,
        run_steps(c, imp, limit, e, dt, k1).1 != 0,
    ensures
        run_steps(c, imp, limit, e, dt, k2) == run_steps(c, imp, limit, e, dt, k1),
    decreases k2,
{
    if k2 > k1 {
        lemma_run_stuck(c, imp, limit, e, dt, k1, (k2 - 1) as nat);
    }
}

/// The integrators never touch the static quantities, and keep the state
/// vectors at the chain's length.
pub proof fn lemma_run_static(c: Core, imp: Implementation, limit: bool, e: Fp, dt: Fp, k: nat)
    requires
        c.omegas.len() == c.thetas.len(),
        c.pos.len() == c.thetas.len(),
    ensures
        ({
            let p = run_steps(c, imp, limit, e, dt, k).0;
            &&& p.masses == c.masses
            &&& p.lengths == c.lengths
            &&& p.gravity == c.gravity
            &&& p.thetas.len() == c.thetas.len()
            &&& p.omegas.len() == c.thetas.len()
            &&& p.pos.len() == c.thetas.len()
        }),
    decreases k,
{
    if k > 0 {
        lemma_run_static(c, imp, limit, e, dt, (k - 1) as nat);
    }
}

/// Whether any element of `v` is a NaN.
#[verifier::loop_isolation(false)]
fn any_nan(v: &Vec<Fp>) -> (r: bool)
    ensures
        r == has_nan(v@),
{
    let mut i: usize = 0;
    while i < v.len()
        invariant
            i <= v@.len(),
            forall|k: int| 0 <= k < i ==> !(#[trigger] v@[k]).spec_is_nan(),
        decreases v@.len() - i,
    {
        if v[i].is_nan() {
            return true;
        }
        i = i + 1;
    }
    false
}

impl Universe {
    /// The angle folded into `(-pi, pi]`.
    pub fn normalize_angle(angle: Fp) -> (r: Fp)
        ensures
            r == norm_angle(angle),
    {
        let two_pi = Fp::from_bits(TWO_PI_BITS);
        let pi = Fp::from_bits(PI_BITS);
        let mut a = angle.rem(two_pi);
        if a.gt(pi) {
            a = a.sub(two_pi);
        } else if a.lt(pi.neg()) {
            a = a.add(two_pi);
        }
        a
    }

    /// The angles and angular velocities of all nodes, in chain order.
    #[verifier::loop_isolation(false)]
    fn gather_state(&self) -> (r: (Vec<Fp>, Vec<Fp>))
        ensures
            r.0@ == self.balls@.map(|k: int, b: Ball| b.theta),
            r.1@ == self.balls@.map(|k: int, b: Ball| b.omega),
    {
        let mut thetas: Vec<Fp> = Vec::new();
        let mut omegas: Vec<Fp> = Vec::new();
        let mut i: usize = 0;
        while i < self.balls.len()
            invariant
                i <= self.balls@.len(),
                thetas@.len() == i,
                omegas@.len() == i,
                forall|k: int| 0 <= k < i ==> thetas@[k] == self.balls@[k].theta,
                forall|k: int| 0 <= k < i ==> omegas@[k] == self.balls@[k].omega,
            decreases self.balls@.len() - i,
        {
            thetas.push(self.balls[i].theta);
            omegas.push(self.balls[i].omega);
            i = i + 1;
        }
        proof {
            assert(thetas@ =~= self.balls@.map(|k: int, b: Ball| b.theta));
            assert(omegas@ =~= self.balls@.map(|k: int, b: Ball| b.omega));
        }
        (thetas, omegas)
    }

    /// Writes the given angles and angular velocities into the nodes and
    /// re-chains every position from the anchor outward.
    #[verifier::loop_isolation(false)]
    fn apply_state(&mut self, thetas: &Vec<Fp>, omegas: &Vec<Fp>)
        requires
            thetas@.len() == old(self).balls@.len(),
            omegas@.len() == old(self).balls@.len(),
        ensures
            final(self).balls@.len() == old(self).balls@.len(),
            forall|i: int|
                0 <= i < old(self).balls@.len() ==> (#[trigger] final(self).balls@[i]) == (Ball {
                    theta: thetas@[i],
                    omega: omegas@[i],
                    pos: chain_pos_seq(
                        old(self).balls@.map(|k: int, b: Ball| b.rod.length),
                        thetas@,
                    )[i],
                    ..old(self).balls@[i]
                }),
            *final(self) == (Universe { balls: final(self).balls, ..*old(self) }),
    {
        let n = self.balls.len();
        let mut i: usize = 0;
        while i < n
            invariant
                i <= n,
                n == self.balls@.len(),
                self.balls@.len() == old(self).balls@.len(),
                *self == (Universe { balls: self.balls, ..*old(self) }),
                forall|k: int|
                    0 <= k < i ==> (#[trigger] self.balls@[k]) == (Ball {
                        theta: thetas@[k],
                        omega: omegas@[k],
                        ..old(self).balls@[k]
                    }),
                forall|k: int| i <= k < n ==> self.balls@[k] == old(self).balls@[k],
            decreases n - i,
        {
            self.balls[i].theta = thetas[i];
            self.balls[i].omega = omegas[i];
            i = i + 1;
        }
        self.recompute_positions(0);
        proof {
            let lengths = old(self).balls@.map(|k: int, b: Ball| b.rod.length);
            assert(self.balls@.map(|k: int, b: Ball| b.rod.length) =~= lengths);
            assert(self.balls@.map(|k: int, b: Ball| b.theta) =~= thetas@);
            assert forall|i: int| 0 <= i < self.balls@.len() implies (#[trigger] self.balls@[i]).pos
                == chain_pos_seq(lengths, thetas@)[i] by {
                lemma_chained_pos_at(self.balls@, i);
            }
        }
    }

    /// One sub-step of the selected integrator, followed by the stability
    /// safeguard when energy limiting is on: the chain's angles, angular
    /// velocities and positions become those of [`step_core`], and status 1
    /// reports a NaN acceleration with the chain left untouched.
    #[verifier::loop_isolation(false)]
    #[verifier::rlimit(100)]
    pub fn single_physics_step(&mut self, dt: Fp) -> (r: u8)
        requires
            old(self).balls@.len() * old(self).balls@.len() <= usize::MAX,
        ensures
            ({
                let p = step_core(
                    core_of(*old(self)),
                    old(self).implementation,
                    old(self).limit_total_energy,
                    old(self).initial_energy,
                    dt,
                );
                &&& r == p.1
                &&& final(self).balls@.len() == old(self).balls@.len()
                &&& forall|i: int|
                    0 <= i < old(self).balls@.len() ==> (#[trigger] final(self).balls@[i])
                        == (Ball {
                        theta: p.0.thetas[i],
                        omega: p.0.omegas[i],
                        pos: p.0.pos[i],
                        ..old(self).balls@[i]
                    })
                &&& *final(self) == (Universe { balls: final(self).balls, ..*old(self) })
            }),
    {
        let ghost c = core_of(*old(self));
        let ghost imp = old(self).implementation;
        let ghost c1 = integrate(c, imp, dt).0;
        let n = self.balls.len();
        let (thetas, theta_dots) = self.gather_state();
        proof {
            assert(c.with_state(thetas@, theta_dots@) =~= c);
        }
        match self.implementation {
            Implementation::Euler => {
                let acc = self.calculate_accelerations(&thetas, &theta_dots);
                let ddots = acc.1;
                if any_nan(&ddots) {
                    proof {
                        assert(euler_fails(c));
                    }
                    return 1;
                }
                let mut nw: Vec<Fp> = Vec::new();
                let mut nt: Vec<Fp> = Vec::new();
                let mut i: usize = 0;
                while i < n
                    invariant
                        i <= n,
                        nw@.len() == i,
                        nt@.len() == i,
                        forall|k: int|
                            0 <= k < i ==> nw@[k] == c.omegas[k].spec_add(
                                accel_core(c)[k].spec_mul(dt),
                            ),
                        forall|k: int|
                            0 <= k < i ==> nt@[k] == c.thetas[k].spec_add(
                                (#[trigger] nw@[k]).spec_mul(dt),
                            ),
                    decreases n - i,
                {
                    let w = theta_dots[i].add(ddots[i].mul(dt));
                    nw.push(w);
                    nt.push(thetas[i].add(w.mul(dt)));
                    i = i + 1;
                }
                proof {
                    assert(nw@ =~= euler_result(c, dt).omegas);
                    assert(nt@ =~= euler_result(c, dt).thetas);
                    assert(c1 == euler_result(c, dt));
                }
                self.apply_state(&nt, &nw);
            },
            Implementation::RK4 => {
                let k1 = self.calculate_accelerations(&thetas, &theta_dots);
                let s_half = Fp::from_bits(HALF_BITS).mul(dt);
                let mut t2: Vec<Fp> = Vec::new();
                let mut w2: Vec<Fp> = Vec::new();
                let mut i: usize = 0;
                while i < n
                    invariant
                        i <= n,
                        t2@.len() == i,
                        w2@.len() == i,
                        forall|k: int|
                            0 <= k < i ==> t2@[k] == c.thetas[k].spec_add(
                                c.omegas[k].spec_mul(fp(HALF_BITS).spec_mul(dt)),
                            ),
                        forall|k: int|
                            0 <= k < i ==> w2@[k] == c.omegas[k].spec_add(
                                accel_core(c)[k].spec_mul(fp(HALF_BITS).spec_mul(dt)),
                            ),
                    decreases n - i,
                {
                    t2.push(thetas[i].add(k1.0[i].mul(s_half)));
                    w2.push(theta_dots[i].add(k1.1[i].mul(s_half)));
                    i = i + 1;
                }
                proof {
                    assert(t2@ =~= rk4_c2(c, dt).thetas);
                    assert(w2@ =~= rk4_c2(c, dt).omegas);
                    assert(c.with_state(t2@, w2@) =~= rk4_c2(c, dt));
                }
                let k2 = self.calculate_accelerations(&t2, &w2);
                let mut t3: Vec<Fp> = Vec::new();
                let mut w3: Vec<Fp> = Vec::new();
                let mut i: usize = 0;
                while i < n
                    invariant
                        i <= n,
                        t3@.len() == i,
                        w3@.len() == i,
                        forall|k: int|
                            0 <= k < i ==> t3@[k] == c.thetas[k].spec_add(
                                rk4_c2(c, dt).omegas[k].spec_mul(fp(HALF_BITS).spec_mul(dt)),
                            ),
                        forall|k: int|
                            0 <= k < i ==> w3@[k] == c.omegas[k].spec_add(
                                accel_core(rk4_c2(c, dt))[k].spec_mul(
                                    fp(HALF_BITS).spec_mul(dt),
                                ),
                            ),
                    decreases n - i,
                {
                    t3.push(thetas[i].add(k2.0[i].mul(s_half)));
                    w3.push(theta_dots[i].add(k2.1[i].mul(s_half)));
                    i = i + 1;
                }
                proof {
                    assert(t3@ =~= rk4_c3(c, dt).thetas);
                    assert(w3@ =~= rk4_c3(c, dt).omegas);
                    assert(c.with_state(t3@, w3@) =~= rk4_c3(c, dt));
                }
                let k3 = self.calculate_accelerations(&t3, &w3);
                let s_one = Fp::from_bits(ONE_BITS).mul(dt);
                let mut t4: Vec<Fp> = Vec::new();
                let mut w4: Vec<Fp> = Vec::new();
                let mut i: usize = 0;
                while i < n
                    invariant
                        i <= n,
                        t4@.len() == i,
                        w4@.len() == i,
                        forall|k: int|
                            0 <= k < i ==> t4@[k] == c.thetas[k].spec_add(
                                rk4_c3(c, dt).omegas[k].spec_mul(fp(ONE_BITS).spec_mul(dt)),
                            ),
                        forall|k: int|
                            0 <= k < i ==> w4@[k] == c.omegas[k].spec_add(
                                accel_core(rk4_c3(c, dt))[k].spec_mul(fp(ONE_BITS).spec_mul(dt)),
                            ),
                    decreases n - i,
                {
                    t4.push(thetas[i].add(k3.0[i].mul(s_one)));
                    w4.push(theta_dots[i].add(k3.1[i].mul(s_one)));
                    i = i + 1;
                }
                proof {
                    assert(t4@ =~= rk4_c4(c, dt).thetas);
                    assert(w4@ =~= rk4_c4(c, dt).omegas);
                    assert(c.with_state(t4@, w4@) =~= rk4_c4(c, dt));
                }
                let k4 = self.calculate_accelerations(&t4, &w4);
                if any_nan(&k1.1) || any_nan(&k2.1) || any_nan(&k3.1) || any_nan(&k4.1) {
                    proof {
                        assert(rk4_fails(c, dt));
                    }
                    return 1;
                }
                let dt6 = dt.div(Fp::from_bits(SIX_BITS));
                let two = Fp::from_bits(TWO_BITS);
                let mut nt: Vec<Fp> = Vec::new();
                let mut nw: Vec<Fp> = Vec::new();
                let mut i: usize = 0;
                while i < n
                    invariant
                        i <= n,
                        nt@.len() == i,
                        nw@.len() == i,
                        forall|k: int|
                            0 <= k < i ==> nt@[k] == c.thetas[k].spec_add(
                                rk4_weighted(
                                    c.omegas,
                                    rk4_c2(c, dt).omegas,
                                    rk4_c3(c, dt).omegas,
                                    rk4_c4(c, dt).omegas,
                                    dt,
                                )[k],
                            ),
                        forall|k: int|
                            0 <= k < i ==> nw@[k] == c.omegas[k].spec_add(
                                rk4_weighted(
                                    accel_core(c),
                                    accel_core(rk4_c2(c, dt)),
                                    accel_core(rk4_c3(c, dt)),
                                    accel_core(rk4_c4(c, dt)),
                                    dt,
                                )[k],
                            ),
                    decreases n - i,
                {
                    let td = k1.0[i].add(k2.0[i].mul(two)).add(k3.0[i].mul(two)).add(
                        k4.0[i],
                    ).mul(dt6);
                    nt.push(thetas[i].add(td));
                    let wd = k1.1[i].add(k2.1[i].mul(two)).add(k3.1[i].mul(two)).add(
                        k4.1[i],
                    ).mul(dt6);
                    nw.push(theta_dots[i].add(wd));
                    i = i + 1;
                }
                proof {
                    assert(nt@ =~= rk4_result(c, dt).thetas);
                    assert(nw@ =~= rk4_result(c, dt).omegas);
                    assert(c1 == rk4_result(c, dt));
                }
                self.apply_state(&nt, &nw);
            },
            Implementation::Verlet => {
                let acc = self.calculate_accelerations(&thetas, &theta_dots);
                let ddots = acc.1;
                if any_nan(&ddots) {
                    proof {
                        assert(verlet_fails(c, dt));
                    }
                    return 1;
                }
                let half = Fp::from_bits(HALF_BITS);
                let mut raw: Vec<Fp> = Vec::new();
                let mut i: usize = 0;
                while i < n
                    invariant
                        i <= n,
                        raw@.len() == i,
                        forall|k: int| 0 <= k < i ==> raw@[k] == verlet_thetas_raw(c, dt)[k],
                    decreases n - i,
                {
                    raw.push(
                        thetas[i].add(theta_dots[i].mul(dt)).add(
                            half.mul(ddots[i]).mul(dt).mul(dt),
                        ),
                    );
                    i = i + 1;
                }
                proof {
                    assert(raw@ =~= verlet_thetas_raw(c, dt));
                    assert(c.with_state(raw@, theta_dots@) =~= verlet_mid(c, dt));
                }
                let acc2 = self.calculate_accelerations(&raw, &theta_dots);
                let ddots2 = acc2.1;
                if any_nan(&ddots2) {
                    proof {
                        assert(verlet_fails(c, dt));
                    }
                    return 1;
                }
                let mut nw: Vec<Fp> = Vec::new();
                let mut nt: Vec<Fp> = Vec::new();
                let mut i: usize = 0;
                while i < n
                    invariant
                        i <= n,
                        nw@.len() == i,
                        nt@.len() == i,
                        forall|k: int| 0 <= k < i ==> nw@[k] == verlet_result(c, dt).omegas[k],
                        forall|k: int| 0 <= k < i ==> nt@[k] == verlet_result(c, dt).thetas[k],
                    decreases n - i,
                {
                    nw.push(theta_dots[i].add(half.mul(ddots[i].add(ddots2[i])).mul(dt)));
                    nt.push(Universe::normalize_angle(raw[i]));
                    i = i + 1;
                }
                proof {
                    assert(nw@ =~= verlet_result(c, dt).omegas);
                    assert(nt@ =~= verlet_result(c, dt).thetas);
                    assert(c1 == verlet_result(c, dt));
                }
                self.apply_state(&nt, &nw);
            },
            Implementation::Leapfrog => {
                let acc = self.calculate_accelerations(&thetas, &theta_dots);
                let ddots = acc.1;
                if any_nan(&ddots) {
                    proof {
                        assert(leapfrog_fails(c, dt));
                    }
                    return 1;
                }
                let dt2 = dt.div(Fp::from_bits(TWO_BITS));
                let mut half_w: Vec<Fp> = Vec::new();
                let mut raw: Vec<Fp> = Vec::new();
                let mut i: usize = 0;
                while i < n
                    invariant
                        i <= n,
                        half_w@.len() == i,
                        raw@.len() == i,
                        forall|k: int| 0 <= k < i ==> half_w@[k] == leapfrog_half_omegas(c, dt)[k],
                        forall|k: int| 0 <= k < i ==> raw@[k] == leapfrog_thetas_raw(c, dt)[k],
                    decreases n - i,
                {
                    let h = theta_dots[i].add(ddots[i].mul(dt2));
                    half_w.push(h);
                    raw.push(thetas[i].add(h.mul(dt)));
                    i = i + 1;
                }
                proof {
                    assert(half_w@ =~= leapfrog_half_omegas(c, dt));
                    assert(raw@ =~= leapfrog_thetas_raw(c, dt));
                    assert(c.with_state(raw@, half_w@) =~= leapfrog_mid(c, dt));
                }
                let acc2 = self.calculate_accelerations(&raw, &half_w);
                let ddots2 = acc2.1;
                if any_nan(&ddots2) {
                    proof {
                        assert(leapfrog_fails(c, dt));
                    }
                    return 1;
                }
                let mut nw: Vec<Fp> = Vec::new();
                let mut nt: Vec<Fp> = Vec::new();
                let mut i: usize = 0;
                while i < n
                    invariant
                        i <= n,
                        nw@.len() == i,
                        nt@.len() == i,
                        forall|k: int| 0 <= k < i ==> nw@[k] == leapfrog_result(c, dt).omegas[k],
                        forall|k: int| 0 <= k < i ==> nt@[k] == leapfrog_result(c, dt).thetas[k],
                    decreases n - i,
                {
                    nw.push(half_w[i].add(ddots2[i].mul(dt2)));
                    nt.push(Universe::normalize_angle(raw[i]));
                    i = i + 1;
                }
                proof {
                    assert(nw@ =~= leapfrog_result(c, dt).omegas);
                    assert(nt@ =~= leapfrog_result(c, dt).thetas);
                    assert(c1 == leapfrog_result(c, dt));
                }
                self.apply_state(&nt, &nw);
            },
        }
        proof {
            assert(integrate(c, imp, dt).1 == 0);
            assert(self.balls@.map(|k: int, b: Ball| b.rod.length) =~= c.lengths);
            assert forall|i: int| 0 <= i < old(self).balls@.len() implies (
            #[trigger] self.balls@[i]) == (Ball {
                theta: c1.thetas[i],
                omega: c1.omegas[i],
                pos: c1.pos[i],
                ..old(self).balls@[i]
            }) by {
                assert(chain_pos_seq(c.lengths, c1.thetas)[i] == c1.pos[i]);
            }
        }
        if self.limit_total_energy {
            proof {
                assert(core_of(*self) =~= c1);
            }
            let e = self.initial_energy;
            self.constrain_velocities(e);
            proof {
                assert forall|i: int| 0 <= i < old(self).balls@.len() implies (
                #[trigger] self.balls@[i]) == (Ball {
                    theta: clamp_core(c1, old(self).initial_energy).thetas[i],
                    omega: clamp_core(c1, old(self).initial_energy).omegas[i],
                    pos: clamp_core(c1, old(self).initial_energy).pos[i],
                    ..old(self).balls@[i]
                }) by {
                    assert(clamped_omegas(c1, old(self).initial_energy)[i] == clamp_core(
                        c1,
                        old(self).initial_energy,
                    ).omegas[i]);
                }
            }
        }
        0
    }

    /// Advances the simulation by the frame delta `dt`: a no-op with
    /// status 1 when the chain is empty or paused; otherwise the chain is
    /// truncated to the node cap and [`run_steps`] sub-steps of size
    /// [`spec_sub_dt`] are run, stopping at the first NaN failure (whose
    /// status 1 is returned, keeping the progress already made). On full
    /// success, status 0, and one trail sample is recorded per node when
    /// trail display is on, each buffer capped first-in first-out.
    #[verifier::loop_isolation(false)]
    #[verifier::rlimit(60)]
    pub fn time_step(&mut self, dt: Fp) -> (r: u8)
        requires
            old(self).max_balls * old(self).max_balls <= usize::MAX,
        ensures
            (old(self).balls@.len() == 0 || old(self).is_paused) ==> (*final(self) == *old(self)
                && r == 1),
            !(old(self).balls@.len() == 0 || old(self).is_paused) ==> ({
                let u = *old(self);
                let tb = if u.balls@.len() > u.max_balls {
                    u.balls@.subrange(0, u.max_balls as int)
                } else {
                    u.balls@
                };
                let p = run_steps(
                    core_of_seq(u, tb),
                    u.implementation,
                    u.limit_total_energy,
                    u.initial_energy,
                    spec_sub_dt(u.speed, dt),
                    spec_num_steps(u.speed) as nat,
                );
                &&& r == p.1
                &&& final(self).balls@.len() == tb.len()
                &&& forall|i: int|
                    0 <= i < tb.len() ==> (#[trigger] final(self).balls@[i]) == (Ball {
                        theta: p.0.thetas[i],
                        omega: p.0.omegas[i],
                        pos: p.0.pos[i],
                        trail: final(self).balls@[i].trail,
                        ..tb[i]
                    })
                &&& forall|i: int|
                    0 <= i < tb.len() ==> (#[trigger] final(self).balls@[i]).trail@ == if p.1 == 0
                        && u.show_trails {
                        pushed_capped(
                            tb[i].trail@,
                            Trail { pos: p.0.pos[i], color: tb[i].color },
                            TRAIL_CAP as int,
                        )
                    } else {
                        tb[i].trail@
                    }
                &&& *final(self) == (Universe { balls: final(self).balls, ..u })
            }),
    {
        if self.balls.len() == 0 || self.is_paused {
            return 1;
        }
        let ghost u = *old(self);
        if self.balls.len() > self.max_balls {
            self.balls.truncate(self.max_balls);
        }
        let ghost tb = if u.balls@.len() > u.max_balls {
            u.balls@.subrange(0, u.max_balls as int)
        } else {
            u.balls@
        };
        proof {
            assert(self.balls@ =~= tb);
        }
        let ghost u1 = *self;
        let ghost c0 = core_of(u1);
        let ghost imp = u1.implementation;
        let ghost limit = u1.limit_total_energy;
        let ghost e = u1.initial_energy;

        let speed_mult = self.speed.mul(Fp::from_bits(TWO_BITS));
        let sf = speed_mult.abs().mul(Fp::from_bits(FIFTY_BITS)).ceil();
        let s0 = sf.to_usize();
        let steps: usize = if s0 < 1 {
            1
        } else {
            s0
        };
        let sub = dt.mul(speed_mult).div(Fp::from_usize(steps));
        proof {
            assert(steps == spec_num_steps(u.speed));
            assert(sub == spec_sub_dt(u.speed, dt));
            assert(self.balls@.len() * self.balls@.len() <= usize::MAX) by (nonlinear_arith)
                requires
                    self.balls@.len() <= u.max_balls,
                    u.max_balls * u.max_balls <= usize::MAX,
            ;
        }

        let mut k: usize = 0;
        while k < steps
            invariant
                k <= steps,
                run_steps(c0, imp, limit, e, sub, k as nat).1 == 0,
                self.balls@.len() == u1.balls@.len(),
                forall|i: int|
                    0 <= i < u1.balls@.len() ==> (#[trigger] self.balls@[i]) == (Ball {
                        theta: run_steps(c0, imp, limit, e, sub, k as nat).0.thetas[i],
                        omega: run_steps(c0, imp, limit, e, sub, k as nat).0.omegas[i],
                        pos: run_steps(c0, imp, limit, e, sub, k as nat).0.pos[i],
                        ..u1.balls@[i]
                    }),
                *self == (Universe { balls: self.balls, ..u1 }),
            decreases steps - k,
        {
            proof {
                lemma_run_static(c0, imp, limit, e, sub, k as nat);
                assert(core_of(*self) =~= run_steps(c0, imp, limit, e, sub, k as nat).0);
            }
            let res = self.single_physics_step(sub);
            proof {
                assert(run_steps(c0, imp, limit, e, sub, (k + 1) as nat) == step_core(
                    run_steps(c0, imp, limit, e, sub, k as nat).0,
                    imp,
                    limit,
                    e,
                    sub,
                ));
            }
            if res != 0 {
                proof {
                    lemma_run_stuck(c0, imp, limit, e, sub, (k + 1) as nat, steps as nat);
                }
                return res;
            }
            k = k + 1;
        }

        let ghost pfinal = run_steps(c0, imp, limit, e, sub, steps as nat);
        if self.show_trails {
            let ghost u2 = *self;
            let n = self.balls.len();
            let mut i: usize = 0;
            while i < n
                invariant
                    i <= n,
                    n == self.balls@.len(),
                    self.balls@.len() == u2.balls@.len(),
                    forall|j: int| i <= j < n ==> self.balls@[j] == u2.balls@[j],
                    forall|j: int|
                        0 <= j < i ==> (#[trigger] self.balls@[j]) == (Ball {
                            trail: self.balls@[j].trail,
                            ..u2.balls@[j]
                        }),
                    forall|j: int|
                        0 <= j < i ==> (#[trigger] self.balls@[j]).trail@ == pushed_capped(
                            u2.balls@[j].trail@,
                            Trail { pos: u2.balls@[j].pos, color: u2.balls@[j].color },
                            TRAIL_CAP as int,
                        ),
                    *self == (Universe { balls: self.balls, ..u2 }),
                decreases n - i,
            {
                let pos = self.balls[i].pos;
                let color = self.balls[i].color;
                self.balls[i].add_trail_point(pos, color, TRAIL_CAP);
                i = i + 1;
            }
        }
        0
    }
}

} // verus!
