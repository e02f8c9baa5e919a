//! The simulation driver: the ordered chain of nodes, the global
//! parameters, the chain-editing operations and the accessors.

use vstd::prelude::*;
use crate::ball::{Ball, Trail};
use crate::chain::{chained_from, rod_step};
use crate::fp::{Fp, fp};
use crate::vec2::Vec2;

verus! {

/// Bits of the double 3.141592653589793 (pi).
pub const PI_BITS: u64 = 0x4009_21fb_5444_2d18;

/// Bits of the double pi / 2.
pub const HALF_PI_BITS: u64 = 0x3ff9_21fb_5444_2d18;

/// Bits of the double 2 * pi.
pub const TWO_PI_BITS: u64 = 0x4019_21fb_5444_2d18;

/// Bits of the double 9.8, the default gravity.
pub const GRAVITY_BITS: u64 = 0x4023_9999_9999_999a;

/// Bits of the double 0.05, the default speed.
pub const SPEED_BITS: u64 = 0x3fa9_9999_9999_999a;

/// Bits of the double 100.0, the default rod length.
pub const HUNDRED_BITS: u64 = 0x4059_0000_0000_0000;

/// Bits of the double 200.0.
pub const TWO_HUNDRED_BITS: u64 = 0x4069_0000_0000_0000;

/// Bits of the double 10.0, the default mass.
pub const TEN_BITS: u64 = 0x4024_0000_0000_0000;

/// Bits of the double 1.0.
pub const ONE_BITS: u64 = 0x3ff0_0000_0000_0000;

/// Bits of the double 2.0.
pub const TWO_BITS: u64 = 0x4000_0000_0000_0000;

/// Bits of the double 0.5.
pub const HALF_BITS: u64 = 0x3fe0_0000_0000_0000;

/// Bits of the double 50.0.
pub const FIFTY_BITS: u64 = 0x4049_0000_0000_0000;

/// Bits of the double 6.0.
pub const SIX_BITS: u64 = 0x4018_0000_0000_0000;

/// The cap on the number of samples kept in one node's trail.
pub const TRAIL_CAP: usize = 250;

/// The default cap on the number of chain nodes.
pub const MAX_BALLS: usize = 100;

/// The four interchangeable time-stepping strategies.
#[derive(Clone, Copy, PartialEq, Eq, Structural, Debug)]
pub enum Implementation {
    Euler,
    RK4,
    Verlet,
    Leapfrog,
}

/// The world state: the ordered chain of nodes and the global parameters.
#[derive(Debug)]
pub struct Universe {
    pub balls: Vec<Ball>,
    pub gravity: Fp,
    pub mass_calculation: bool,
    pub show_trails: bool,
    pub is_paused: bool,
    pub implementation: Implementation,
    pub speed: Fp,
    pub max_balls: usize,
    pub initial_energy: Fp,
    pub default_mass: Fp,
    pub limit_total_energy: bool,
}

/// The quantities the physics reads and writes, extracted from the chain:
/// effective masses, rod lengths, angles, angular velocities, positions,
/// and gravity.
#[verifier::ext_equal]
pub ghost struct Core {
    pub masses: Seq<Fp>,
    pub lengths: Seq<Fp>,
    pub thetas: Seq<Fp>,
    pub omegas: Seq<Fp>,
    pub pos: Seq<Vec2>,
    pub gravity: Fp,
}

/// The effective masses of a chain: each node's own mass, or the uniform
/// default when variable-mass modeling is off.
pub open spec fn masses_of_seq(balls: Seq<Ball>, mass_calculation: bool, default_mass: Fp) -> Seq<
    Fp,
> {
    if mass_calculation {
        balls.map(|k: int, b: Ball| b.mass)
    } else {
        Seq::new(balls.len(), |k: int| default_mass)
    }
}

/// The core quantities of the chain `balls` under the parameters of `u`.
pub open spec fn core_of_seq(u: Universe, balls: Seq<Ball>) -> Core {
    Core {
        masses: masses_of_seq(balls, u.mass_calculation, u.default_mass),
        lengths: balls.map(|k: int, b: Ball| b.rod.length),
        thetas: balls.map(|k: int, b: Ball| b.theta),
        omegas: balls.map(|k: int, b: Ball| b.omega),
        pos: balls.map(|k: int, b: Ball| b.pos),
        gravity: u.gravity,
    }
}

/// The core quantities of `u`'s own chain.
pub open spec fn core_of(u: Universe) -> Core {
    core_of_seq(u, u.balls@)
}

/// The six palette entries the random node color is drawn from.
pub open spec fn is_palette_color(c: u32) -> bool {
    c == 0xff0000 || c == 0x0000ff || c == 0x00ff00 || c == 0xf0f000 || c == 0x00f0f0 || c
        == 0xf000f0
}

/// The default global parameters: gravity 9.8, Euler integration, speed
/// 0.05, variable mass on, trails on, not paused, at most 100 nodes,
/// default mass 10, energy limiting off.
pub open spec fn default_params(u: Universe) -> bool {
    &&& u.gravity == fp(GRAVITY_BITS)
    &&& u.implementation == Implementation::Euler
    &&& u.speed == fp(SPEED_BITS)
    &&& u.mass_calculation == true
    &&& u.show_trails == true
    &&& u.max_balls == MAX_BALLS
    &&& u.is_paused == false
    &&& u.default_mass == fp(TEN_BITS)
    &&& u.limit_total_energy == false
}

/// The default two-node chain: both nodes hang at angle pi / 2 with rod
/// length 100 and mass 10, at rest, with empty trails, at the positions
/// (100, 0) and (200, 0).
pub open spec fn default_chain(balls: Seq<Ball>) -> bool {
    &&& balls.len() == 2
    &&& balls[0] == (Ball {
        pos: Vec2 { x: fp(HUNDRED_BITS), y: fp(0) },
        omega: fp(0),
        theta: fp(HALF_PI_BITS),
        rod: crate::ball::Rod { length: fp(HUNDRED_BITS), mass: fp(TEN_BITS), color: 0x0f0f0f },
        trail: balls[0].trail,
        radius: 10,
        mass: fp(TEN_BITS),
        color: 0xff0000,
    })
    &&& balls[0].trail@ == Seq::<Trail>::empty()
    &&& balls[1] == (Ball {
        pos: Vec2 { x: fp(TWO_HUNDRED_BITS), y: fp(0) },
        omega: fp(0),
        theta: fp(HALF_PI_BITS),
        rod: crate::ball::Rod { length: fp(HUNDRED_BITS), mass: fp(TEN_BITS), color: 0x0f0f0f },
        trail: balls[1].trail,
        radius: 10,
        mass: fp(TEN_BITS),
        color: 0x0000ff,
    })
    &&& balls[1].trail@ == Seq::<Trail>::empty()
}

impl Universe {
    /// A universe in the default configuration, with its energy budget set
    /// to the total energy of that configuration.
    pub fn new() -> (r: Universe)
        ensures
            default_params(r),
            default_chain(r.balls@),
            r.initial_energy == crate::energy::spec_potential(core_of(r)).spec_add(
                crate::energy::spec_kinetic(core_of(r)),
            ),
    {
        let ball1 = Ball::new(
            Fp::from_bits(HUNDRED_BITS),
            Fp::zero(),
            Fp::zero(),
            Fp::from_bits(HALF_PI_BITS),
            Fp::from_bits(HUNDRED_BITS),
            Fp::from_bits(TEN_BITS),
            0x0f0f0f,
            10,
            Fp::from_bits(TEN_BITS),
            0xff0000,
        );
        let ball2 = Ball::new(
            Fp::from_bits(TWO_HUNDRED_BITS),
            Fp::zero(),
            Fp::zero(),
            Fp::from_bits(HALF_PI_BITS),
            Fp::from_bits(HUNDRED_BITS),
            Fp::from_bits(TEN_BITS),
            0x0f0f0f,
            10,
            Fp::from_bits(TEN_BITS),
            0x0000ff,
        );
        let mut balls: Vec<Ball> = Vec::new();
        balls.push(ball1);
        balls.push(ball2);
        let mut universe = Universe {
            balls,
            gravity: Fp::from_bits(GRAVITY_BITS),
            implementation: Implementation::Euler,
            speed: Fp::from_bits(SPEED_BITS),
            mass_calculation: true,
            show_trails: true,
            max_balls: MAX_BALLS,
            is_paused: false,
            initial_energy: Fp::zero(),
            default_mass: Fp::from_bits(TEN_BITS),
            limit_total_energy: false,
        };
        let pot = universe.calculate_potential_energy();
        let kin = universe.calculate_kinetic_energy();
        universe.initial_energy = pot.add(kin);
        universe
    }

    /// Puts the universe back in the default configuration.
    pub fn reset(&mut self)
        ensures
            default_params(*final(self)),
            default_chain(final(self).balls@),
            final(self).initial_energy == crate::energy::spec_potential(
                core_of(*final(self)),
            ).spec_add(crate::energy::spec_kinetic(core_of(*final(self)))),
    {
        *self = Universe::new();
    }

    /// Appends a node with the given state and display parameters to the
    /// tail of the chain, then recomputes the energy budget.
    pub fn add_ball(
        &mut self,
        px: Fp,
        py: Fp,
        omega: Fp,
        theta: Fp,
        rl: Fp,
        rm: Fp,
        rc: u32,
        radius: i32,
        mass: Fp,
        color: u32,
    )
        ensures
            final(self).balls@.len() == old(self).balls@.len() + 1,
            forall|i: int|
                0 <= i < old(self).balls@.len() ==> final(self).balls@[i] == old(self).balls@[i],
            ({
                let b = final(self).balls@.last();
                &&& b.pos == (Vec2 { x: px, y: py })
                &&& b.omega == omega
                &&& b.theta == theta
                &&& b.rod == (crate::ball::Rod { length: rl, mass: rm, color: rc })
                &&& b.trail@ == Seq::<Trail>::empty()
                &&& b.radius == radius
                &&& b.mass == mass
                &&& b.color == color
            }),
            *final(self) == (Universe {
                balls: final(self).balls,
                initial_energy: final(self).initial_energy,
                ..*old(self)
            }),
            final(self).initial_energy == crate::energy::spec_potential(
                core_of(*final(self)),
            ).spec_add(crate::energy::spec_kinetic(core_of(*final(self)))),
    {
        self.balls.push(Ball::new(px, py, omega, theta, rl, rm, rc, radius, mass, color));
        self.update_initial_energy();
    }

    /// One of the six palette colors, chosen at random.
    pub fn random_color() -> (r: u32)
        ensures
            is_palette_color(r),
    {
        let idx = random_index(6);
        if idx == 0 {
            0xff0000
        } else if idx == 1 {
            0x0000ff
        } else if idx == 2 {
            0x00ff00
        } else if idx == 3 {
            0xf0f000
        } else if idx == 4 {
            0x00f0f0
        } else {
            0xf000f0
        }
    }

    /// Appends a node at rest with the given angle, the default rod length
    /// and mass, a random palette color, and the position obtained by
    /// chaining the new rod vector from the tail node (or from the anchor
    /// when the chain is empty), then recomputes the energy budget.
    pub fn add_ball_simple(&mut self, theta: Fp)
        ensures
            final(self).balls@.len() == old(self).balls@.len() + 1,
            forall|i: int|
                0 <= i < old(self).balls@.len() ==> final(self).balls@[i] == old(self).balls@[i],
            ({
                let b = final(self).balls@.last();
                &&& old(self).balls@.len() > 0 ==> b.pos == rod_step(
                    old(self).balls@.last().pos,
                    fp(HUNDRED_BITS),
                    theta,
                )
                &&& old(self).balls@.len() == 0 ==> b.pos == (Vec2 {
                    x: fp(HUNDRED_BITS).spec_mul(theta.spec_sin()),
                    y: fp(HUNDRED_BITS).spec_mul(theta.spec_cos()),
                })
                &&& b.omega == fp(0)
                &&& b.theta == theta
                &&& b.rod == (crate::ball::Rod {
                    length: fp(HUNDRED_BITS),
                    mass: fp(TEN_BITS),
                    color: 0x0f0f0f,
                })
                &&& b.trail@ == Seq::<Trail>::empty()
                &&& b.radius == 10
                &&& b.mass == fp(TEN_BITS)
                &&& is_palette_color(b.color)
            }),
            *final(self) == (Universe {
                balls: final(self).balls,
                initial_energy: final(self).initial_energy,
                ..*old(self)
            }),
            final(self).initial_energy == crate::energy::spec_potential(
                core_of(*final(self)),
            ).spec_add(crate::energy::spec_kinetic(core_of(*final(self)))),
    {
        let default_length = Fp::from_bits(HUNDRED_BITS);
        let default_mass = Fp::from_bits(TEN_BITS);
        let default_color = Self::random_color();
        let default_rod_color: u32 = 0x0f0f0f;
        let n = self.balls.len();
        let (px, py) = if n > 0 {
            let last = &self.balls[n - 1];
            (
                last.pos.x.add(default_length.mul(theta.sin())),
                last.pos.y.add(default_length.mul(theta.cos())),
            )
        } else {
            (default_length.mul(theta.sin()), default_length.mul(theta.cos()))
        };
        self.balls.push(
            Ball::new(
                px,
                py,
                Fp::zero(),
                theta,
                default_length,
                default_mass,
                default_rod_color,
                10,
                default_mass,
                default_color,
            ),
        );
        self.update_initial_energy();
    }

    /// Removes the tail node, if any, then recomputes the energy budget.
    /// The remaining nodes are untouched.
    pub fn remove_ball(&mut self)
        ensures
            final(self).balls@ == if old(self).balls@.len() > 0 {
                old(self).balls@.drop_last()
            } else {
                old(self).balls@
            },
            *final(self) == (Universe {
                balls: final(self).balls,
                initial_energy: final(self).initial_energy,
                ..*old(self)
            }),
            final(self).initial_energy == crate::energy::spec_potential(
                core_of(*final(self)),
            ).spec_add(crate::energy::spec_kinetic(core_of(*final(self)))),
    {
        self.balls.pop();
        self.update_initial_energy();
    }

    /// A borrow of the full ordered node list.
    pub fn get_balls(&self) -> (r: &Vec<Ball>)
        ensures
            r@ == self.balls@,
    {
        &self.balls
    }

    /// A copy of the node at `index`, or `None` when out of range.
    pub fn get_ball(&self, index: usize) -> (r: Option<Ball>)
        ensures
            index < self.balls@.len() ==> ({
                let b = self.balls@[index as int];
                &&& r matches Some(g)
                &&& g == (Ball { trail: g.trail, ..b })
                &&& g.trail@ == b.trail@
            }),
            index >= self.balls@.len() ==> r is None,
    {
        if index < self.balls.len() {
            let b = &self.balls[index];
            Some(
                Ball {
                    pos: b.pos,
                    omega: b.omega,
                    theta: b.theta,
                    rod: b.rod,
                    trail: b.get_trail(),
                    radius: b.radius,
                    mass: b.mass,
                    color: b.color,
                },
            )
        } else {
            None
        }
    }

    /// The number of nodes in the chain.
    pub fn get_ball_count(&self) -> (r: i32)
        ensures
            r == self.balls@.len() as i32,
    {
        #[verifier::truncate] (self.balls.len() as i32)
    }

    /// Sets the angle of the node at `index` (a silent no-op when out of
    /// range), recomputes the positions of that node and all later ones,
    /// and recomputes the energy budget.
    pub fn update_ball_theta(&mut self, index: usize, theta: Fp)
        ensures
            index >= old(self).balls@.len() ==> *final(self) == *old(self),
            index < old(self).balls@.len() ==> ({
                &&& final(self).balls@.len() == old(self).balls@.len()
                &&& forall|i: int| 0 <= i < index ==> final(self).balls@[i] == old(self).balls@[i]
                &&& forall|i: int|
                    index <= i < old(self).balls@.len() ==> (#[trigger] final(self).balls@[i])
                        == (Ball {
                        pos: final(self).balls@[i].pos,
                        theta: if i == index {
                            theta
                        } else {
                            old(self).balls@[i].theta
                        },
                        ..old(self).balls@[i]
                    })
                &&& chained_from(final(self).balls@, index as int)
                &&& *final(self) == (Universe {
                    balls: final(self).balls,
                    initial_energy: final(self).initial_energy,
                    ..*old(self)
                })
                &&& final(self).initial_energy == crate::energy::spec_potential(
                    core_of(*final(self)),
                ).spec_add(crate::energy::spec_kinetic(core_of(*final(self))))
            }),
    {
        if index < self.balls.len() {
            self.balls[index].theta = theta;
            self.recompute_positions(index);
            self.update_initial_energy();
        }
    }

    /// Sets the rod length of the node at `index` (a silent no-op when out
    /// of range), recomputes the positions of that node and all later ones,
    /// and recomputes the energy budget.
    pub fn update_ball_length(&mut self, index: usize, length: Fp)
        ensures
            index >= old(self).balls@.len() ==> *final(self) == *old(self),
            index < old(self).balls@.len() ==> ({
                &&& final(self).balls@.len() == old(self).balls@.len()
                &&& forall|i: int| 0 <= i < index ==> final(self).balls@[i] == old(self).balls@[i]
                &&& forall|i: int|
                    index <= i < old(self).balls@.len() ==> (#[trigger] final(self).balls@[i])
                        == (Ball {
                        pos: final(self).balls@[i].pos,
                        rod: if i == index {
                            crate::ball::Rod { length, ..old(self).balls@[i].rod }
                        } else {
                            old(self).balls@[i].rod
                        },
                        ..old(self).balls@[i]
                    })
                &&& chained_from(final(self).balls@, index as int)
                &&& *final(self) == (Universe {
                    balls: final(self).balls,
                    initial_energy: final(self).initial_energy,
                    ..*old(self)
                })
                &&& final(self).initial_energy == crate::energy::spec_potential(
                    core_of(*final(self)),
                ).spec_add(crate::energy::spec_kinetic(core_of(*final(self))))
            }),
    {
        if index < self.balls.len() {
            self.balls[index].rod.length = length;
            self.recompute_positions(index);
            self.update_initial_energy();
        }
    }

    /// Sets the dynamic mass of the node at `index` (a silent no-op when
    /// out of range) and recomputes the energy budget.
    pub fn update_ball_mass(&mut self, index: usize, mass: Fp)
        ensures
            index >= old(self).balls@.len() ==> *final(self) == *old(self),
            index < old(self).balls@.len() ==> ({
                &&& final(self).balls@ == old(self).balls@.update(
                    index as int,
                    Ball { mass, ..old(self).balls@[index as int] },
                )
                &&& *final(self) == (Universe {
                    balls: final(self).balls,
                    initial_energy: final(self).initial_energy,
                    ..*old(self)
                })
                &&& final(self).initial_energy == crate::energy::spec_potential(
                    core_of(*final(self)),
                ).spec_add(crate::energy::spec_kinetic(core_of(*final(self))))
            }),
    {
        if index < self.balls.len() {
            self.balls[index].mass = mass;
            self.update_initial_energy();
        }
    }

    /// Sets the display color of the node at `index` (a silent no-op when
    /// out of range).
    pub fn update_ball_color(&mut self, index: usize, color: u32)
        ensures
            index >= old(self).balls@.len() ==> *final(self) == *old(self),
            index < old(self).balls@.len() ==> *final(self) == (Universe {
                balls: final(self).balls,
                ..*old(self)
            }) && final(self).balls@ == old(self).balls@.update(
                index as int,
                Ball { color, ..old(self).balls@[index as int] },
            ),
    {
        if index < self.balls.len() {
            self.balls[index].color = color;
        }
    }

    /// Sets the display radius of the node at `index` (a silent no-op when
    /// out of range).
    pub fn update_ball_radius(&mut self, index: usize, radius: i32)
        ensures
            index >= old(self).balls@.len() ==> *final(self) == *old(self),
            index < old(self).balls@.len() ==> *final(self) == (Universe {
                balls: final(self).balls,
                ..*old(self)
            }) && final(self).balls@ == old(self).balls@.update(
                index as int,
                Ball { radius, ..old(self).balls@[index as int] },
            ),
    {
        if index < self.balls.len() {
            self.balls[index].radius = radius;
        }
    }

    /// Sets the angular velocity of the node at `index` (a silent no-op
    /// when out of range) and recomputes the energy budget.
    pub fn update_ball_omega(&mut self, index: usize, omega: Fp)
        ensures
            index >= old(self).balls@.len() ==> *final(self) == *old(self),
            index < old(self).balls@.len() ==> ({
                &&& final(self).balls@ == old(self).balls@.update(
                    index as int,
                    Ball { omega, ..old(self).balls@[index as int] },
                )
                &&& *final(self) == (Universe {
                    balls: final(self).balls,
                    initial_energy: final(self).initial_energy,
                    ..*old(self)
                })
                &&& final(self).initial_energy == crate::energy::spec_potential(
                    core_of(*final(self)),
                ).spec_add(crate::energy::spec_kinetic(core_of(*final(self))))
            }),
    {
        if index < self.balls.len() {
            self.balls[index].omega = omega;
            self.update_initial_energy();
        }
    }

    /// One trail per node, oldest sample first; all empty when trail
    /// display is off.
    pub fn get_trails(&self) -> (r: Vec<Vec<Trail>>)
        ensures
            self.show_trails ==> r@.len() == self.balls@.len() && forall|i: int|
                0 <= i < r@.len() ==> (#[trigger] r@[i])@ == self.balls@[i].trail@,
            !self.show_trails ==> r@.len() == 0,
    {
        let mut trails: Vec<Vec<Trail>> = Vec::new();
        if self.show_trails {
            let mut i: usize = 0;
            while i < self.balls.len()
                invariant
                    i <= self.balls@.len(),
                    trails@.len() == i,
                    forall|k: int| 0 <= k < i ==> (#[trigger] trails@[k])@ == self.balls@[k].trail@,
                decreases self.balls@.len() - i,
            {
                trails.push(self.balls[i].get_trail());
                i = i + 1;
            }
        }
        trails
    }

    pub fn set_gravity(&mut self, gravity: Fp)
        ensures
            *final(self) == (Universe { gravity, ..*old(self) }),
    {
        self.gravity = gravity;
    }

    pub fn get_gravity(&self) -> (r: Fp)
        ensures
            r == self.gravity,
    {
        self.gravity
    }

    pub fn set_speed(&mut self, speed: Fp)
        ensures
            *final(self) == (Universe { speed, ..*old(self) }),
    {
        self.speed = speed;
    }

    pub fn get_speed(&self) -> (r: Fp)
        ensures
            r == self.speed,
    {
        self.speed
    }

    pub fn set_is_paused(&mut self, is_paused: bool)
        ensures
            *final(self) == (Universe { is_paused, ..*old(self) }),
    {
        self.is_paused = is_paused;
    }

    pub fn get_is_paused(&self) -> (r: bool)
        ensures
            r == self.is_paused,
    {
        self.is_paused
    }

    pub fn set_implementation(&mut self, implementation: Implementation)
        ensures
            *final(self) == (Universe { implementation, ..*old(self) }),
    {
        self.implementation = implementation;
    }

    pub fn get_implementation(&self) -> (r: Implementation)
        ensures
            r == self.implementation,
    {
        self.implementation
    }

    pub fn set_mass_calculation(&mut self, mass_calculation: bool)
        ensures
            *final(self) == (Universe { mass_calculation, ..*old(self) }),
    {
        self.mass_calculation = mass_calculation;
    }

    pub fn get_mass_calculation(&self) -> (r: bool)
        ensures
            r == self.mass_calculation,
    {
        self.mass_calculation
    }

    pub fn toggle_mass_calculation(&mut self)
        ensures
            *final(self) == (Universe {
                mass_calculation: !old(self).mass_calculation,
                ..*old(self)
            }),
    {
        self.mass_calculation = !self.mass_calculation;
    }

    pub fn set_show_trails(&mut self, show_trails: bool)
        ensures
            *final(self) == (Universe { show_trails, ..*old(self) }),
    {
        self.show_trails = show_trails;
    }

    pub fn get_show_trails(&self) -> (r: bool)
        ensures
            r == self.show_trails,
    {
        self.show_trails
    }

    pub fn toggle_show_trails(&mut self)
        ensures
            *final(self) == (Universe { show_trails: !old(self).show_trails, ..*old(self) }),
    {
        self.show_trails = !self.show_trails;
    }

    pub fn set_limit_total_energy(&mut self, limit_total_energy: bool)
        ensures
            *final(self) == (Universe { limit_total_energy, ..*old(self) }),
    {
        self.limit_total_energy = limit_total_energy;
    }

    pub fn get_limit_total_energy(&self) -> (r: bool)
        ensures
            r == self.limit_total_energy,
    {
        self.limit_total_energy
    }

    pub fn toggle_limit_total_energy(&mut self)
        ensures
            *final(self) == (Universe {
                limit_total_energy: !old(self).limit_total_energy,
                ..*old(self)
            }),
    {
        self.limit_total_energy = !self.limit_total_energy;
    }
}

/// Relies on rand's `random_range` over `rand::rng()`: the result is drawn
/// from `0..n`, so it is below `n` whatever the generator returned.
#[verifier::external_body]
fn random_index(n: usize) -> (r: usize)
    requires
        n >= 1,
    ensures
        r < n,
{
    rand::RngExt::random_range(&mut rand::rng(), 0..n)
}

} // verus!
