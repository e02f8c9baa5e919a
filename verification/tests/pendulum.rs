//! End-to-end tests of the pendulum chain: scalar arithmetic, chain
//! editing, the four integrators, the energy safeguard and the trails.

use pendulum::ball::Ball;
use pendulum::fp::Fp;
use pendulum::universe::{Implementation, Universe};
use pendulum::vec2::Vec2;

fn fpb(x: f64) -> Fp {
    Fp::from_bits(x.to_bits())
}

fn val(x: Fp) -> f64 {
    f64::from_bits(x.to_bits())
}

const PI: f64 = std::f64::consts::PI;

/// The effective mass of node `i` under the universe's mass model.
fn mass_of(u: &Universe, i: usize) -> f64 {
    if u.get_mass_calculation() {
        val(u.get_ball(i).unwrap().mass)
    } else {
        10.0
    }
}

/// The potential energy, computed as the library defines it.
fn potential(u: &Universe) -> f64 {
    let n = u.get_ball_count() as usize;
    let mut pot = 0.0;
    let mut ycum = 0.0;
    for i in 0..n {
        let b = u.get_ball(i).unwrap();
        ycum += val(b.rod.length) * libm::cos(val(b.theta));
        pot -= mass_of(u, i) * val(u.get_gravity()) * ycum;
    }
    pot
}

/// The kinetic energy, computed as the library defines it.
fn kinetic(u: &Universe) -> f64 {
    let n = u.get_ball_count() as usize;
    let mut kin = 0.0;
    for i in 0..n {
        let mut vx = 0.0;
        let mut vy = 0.0;
        for j in 0..=i {
            let b = u.get_ball(j).unwrap();
            vx += val(b.rod.length) * val(b.omega) * libm::cos(val(b.theta));
            vy += -val(b.rod.length) * val(b.omega) * libm::sin(val(b.theta));
        }
        kin += 0.5 * mass_of(u, i) * (vx * vx + vy * vy);
    }
    kin
}

#[test]
fn scalar_arithmetic_matches_ieee() {
    let cases = [
        (1.5, 2.25),
        (-0.125, 3.0),
        (9.8, 0.05),
        (1.0e300, 1.0e-300),
        (-7.75, -0.3),
    ];
    for (a, b) in cases {
        assert_eq!(val(fpb(a).add(fpb(b))), a + b);
        assert_eq!(val(fpb(a).sub(fpb(b))), a - b);
        assert_eq!(val(fpb(a).mul(fpb(b))), a * b);
        assert_eq!(val(fpb(a).div(fpb(b))), a / b);
        assert_eq!(val(fpb(a).rem(fpb(b))), a % b);
    }
    assert_eq!(val(fpb(2.0).sqrt()), libm::sqrt(2.0));
    assert_eq!(val(fpb(1.3).sin()), libm::sin(1.3));
    assert_eq!(val(fpb(1.3).cos()), libm::cos(1.3));
    assert_eq!(val(fpb(2.3).ceil()), 3.0);
    assert_eq!(val(fpb(-4.0).neg()), 4.0);
    assert_eq!(val(fpb(-4.0).abs()), 4.0);
    assert_eq!(fpb(7.9).to_usize(), 7);
    assert_eq!(val(Fp::from_usize(5)), 5.0);
}

#[test]
fn scalar_comparisons_follow_ieee_order() {
    assert!(fpb(1.0).lt(fpb(2.0)));
    assert!(!fpb(2.0).lt(fpb(1.0)));
    assert!(fpb(-2.0).lt(fpb(-1.0)));
    assert!(fpb(-1.0).lt(fpb(1.0)));
    assert!(!fpb(-0.0).lt(fpb(0.0)));
    assert!(!fpb(0.0).lt(fpb(-0.0)));
    assert!(!fpb(f64::NAN).lt(fpb(1.0)));
    assert!(!fpb(1.0).lt(fpb(f64::NAN)));
    assert!(fpb(2.0).gt(fpb(1.0)));
    assert!(fpb(f64::NAN).is_nan());
    assert!(!fpb(f64::INFINITY).is_nan());
}

#[test]
fn vec2_arithmetic() {
    let a = Vec2::new(fpb(3.0), fpb(4.0));
    let b = Vec2::new(fpb(1.0), fpb(2.0));
    let s = a.add(b);
    assert_eq!(val(s.x), 4.0);
    assert_eq!(val(s.y), 6.0);
    let d = a.sub(b);
    assert_eq!(val(d.x), 2.0);
    assert_eq!(val(d.y), 2.0);
    let m = a.mul(fpb(2.0));
    assert_eq!(val(m.x), 6.0);
    let q = a.div(fpb(2.0));
    assert_eq!(val(q.y), 2.0);
    let mut c = a;
    c.divide(fpb(2.0));
    assert_eq!(val(c.x), 1.5);
    assert_eq!(val(a.distance_from(b)), libm::sqrt(2.0 * 2.0 + 2.0 * 2.0));
}

#[test]
fn trail_is_capped_fifo() {
    let mut b = Ball::new(
        fpb(0.0),
        fpb(0.0),
        fpb(0.0),
        fpb(0.0),
        fpb(100.0),
        fpb(10.0),
        0x0f0f0f,
        10,
        fpb(10.0),
        0xff0000,
    );
    for i in 0..300usize {
        b.add_trail_point(Vec2::new(fpb(i as f64), fpb(0.0)), 7, 250);
    }
    let t = b.get_trail();
    assert_eq!(t.len(), 250);
    // the oldest samples were evicted first: the head is sample 50
    assert_eq!(val(t[0].pos.x), 50.0);
    assert_eq!(val(t[249].pos.x), 299.0);
}

#[test]
fn default_universe_configuration() {
    let u = Universe::new();
    assert_eq!(u.get_ball_count(), 2);
    assert_eq!(val(u.get_gravity()), 9.8);
    assert_eq!(val(u.get_speed()), 0.05);
    assert!(matches!(u.get_implementation(), Implementation::Euler));
    assert!(u.get_mass_calculation());
    assert!(u.get_show_trails());
    assert!(!u.get_is_paused());
    assert!(!u.get_limit_total_energy());
    let b0 = u.get_ball(0).unwrap();
    let b1 = u.get_ball(1).unwrap();
    assert_eq!(val(b0.pos.x), 100.0);
    assert_eq!(val(b0.pos.y), 0.0);
    assert_eq!(val(b1.pos.x), 200.0);
    assert_eq!(val(b1.theta), PI / 2.0);
    assert_eq!(val(b1.rod.length), 100.0);
    assert_eq!(val(b1.mass), 10.0);
    assert!(u.get_ball(2).is_none());
}

#[test]
fn paused_advance_is_noop() {
    let mut u = Universe::new();
    u.set_is_paused(true);
    let before: Vec<(u64, u64, u64, u64)> = (0..2)
        .map(|i| {
            let b = u.get_ball(i).unwrap();
            (b.theta.to_bits(), b.omega.to_bits(), b.pos.x.to_bits(), b.pos.y.to_bits())
        })
        .collect();
    assert_eq!(u.time_step(fpb(1.0 / 60.0)), 1);
    assert_eq!(u.time_step(fpb(100.0)), 1);
    for i in 0..2 {
        let b = u.get_ball(i).unwrap();
        assert_eq!(b.theta.to_bits(), before[i].0);
        assert_eq!(b.omega.to_bits(), before[i].1);
        assert_eq!(b.pos.x.to_bits(), before[i].2);
        assert_eq!(b.pos.y.to_bits(), before[i].3);
    }
}

#[test]
fn empty_advance_is_noop() {
    let mut u = Universe::new();
    u.remove_ball();
    u.remove_ball();
    assert_eq!(u.get_ball_count(), 0);
    assert_eq!(u.time_step(fpb(1.0 / 60.0)), 1);
}

#[test]
fn zero_dt_advance_keeps_state() {
    let mut u = Universe::new();
    let before: Vec<(f64, f64, f64, f64)> = (0..2)
        .map(|i| {
            let b = u.get_ball(i).unwrap();
            (val(b.theta), val(b.omega), val(b.pos.x), val(b.pos.y))
        })
        .collect();
    assert_eq!(u.time_step(fpb(0.0)), 0);
    for i in 0..2 {
        let b = u.get_ball(i).unwrap();
        assert_eq!(val(b.theta), before[i].0);
        assert_eq!(val(b.omega), before[i].1);
        assert!((val(b.pos.x) - before[i].2).abs() < 1e-9);
        assert!((val(b.pos.y) - before[i].3).abs() < 1e-9);
    }
}

/// The chaining rule checked bit-for-bit against the library's arithmetic.
fn assert_positions_chained(u: &Universe) {
    let n = u.get_ball_count() as usize;
    let mut px = 0.0f64;
    let mut py = 0.0f64;
    for i in 0..n {
        let b = u.get_ball(i).unwrap();
        px += val(b.rod.length) * libm::sin(val(b.theta));
        py += val(b.rod.length) * libm::cos(val(b.theta));
        assert_eq!(val(b.pos.x).to_bits(), px.to_bits());
        assert_eq!(val(b.pos.y).to_bits(), py.to_bits());
    }
}

#[test]
fn euler_advance_moves_the_default_chain() {
    let mut u = Universe::new();
    assert_eq!(u.time_step(fpb(1.0 / 60.0)), 0);
    // the first node swings at once; the second node's acceleration starts
    // near zero, so within one frame only its angular velocity has moved
    let b0 = u.get_ball(0).unwrap();
    let b1 = u.get_ball(1).unwrap();
    assert_ne!(val(b0.theta), PI / 2.0);
    assert_ne!(val(b0.omega), 0.0);
    assert_ne!(val(b1.omega), 0.0);
    assert_positions_chained(&u);
    // after a few more frames both angles have left pi / 2
    for _ in 0..60 {
        assert_eq!(u.time_step(fpb(1.0 / 60.0)), 0);
    }
    assert_ne!(val(u.get_ball(0).unwrap().theta), PI / 2.0);
    assert_ne!(val(u.get_ball(1).unwrap().theta), PI / 2.0);
    assert_positions_chained(&u);
}

#[test]
fn every_integrator_advances() {
    for imp in [
        Implementation::Euler,
        Implementation::RK4,
        Implementation::Verlet,
        Implementation::Leapfrog,
    ] {
        let mut u = Universe::new();
        u.set_implementation(imp);
        for _ in 0..10 {
            assert_eq!(u.time_step(fpb(1.0 / 60.0)), 0);
        }
        assert_positions_chained(&u);
        for i in 0..2 {
            let b = u.get_ball(i).unwrap();
            assert!(val(b.theta).is_finite());
            assert!(val(b.omega).is_finite());
        }
    }
}

#[test]
fn verlet_normalizes_angles() {
    let mut u = Universe::new();
    u.set_implementation(Implementation::Verlet);
    for _ in 0..50 {
        assert_eq!(u.time_step(fpb(1.0 / 60.0)), 0);
    }
    for i in 0..2 {
        let t = val(u.get_ball(i).unwrap().theta);
        assert!(t > -PI - 1e-12 && t <= PI + 1e-12);
    }
}

#[test]
fn append_simple_chains_from_tail() {
    let mut u = Universe::new();
    u.add_ball_simple(fpb(0.0));
    assert_eq!(u.get_ball_count(), 3);
    let b1 = u.get_ball(1).unwrap();
    let b2 = u.get_ball(2).unwrap();
    assert_eq!(val(b2.pos.x), val(b1.pos.x));
    assert_eq!(val(b2.pos.y), val(b1.pos.y) + 100.0);
    assert_eq!(val(b2.theta), 0.0);
    assert_eq!(val(b2.omega), 0.0);
    assert_eq!(val(b2.rod.length), 100.0);
    assert_eq!(val(b2.mass), 10.0);
    let palette = [0xff0000u32, 0x0000ff, 0x00ff00, 0xf0f000, 0x00f0f0, 0xf000f0];
    assert!(palette.contains(&b2.color));
}

#[test]
fn remove_ball_keeps_the_rest() {
    let mut u = Universe::new();
    let b0 = u.get_ball(0).unwrap();
    u.remove_ball();
    assert_eq!(u.get_ball_count(), 1);
    let kept = u.get_ball(0).unwrap();
    assert_eq!(kept.theta.to_bits(), b0.theta.to_bits());
    assert_eq!(kept.omega.to_bits(), b0.omega.to_bits());
    assert_eq!(kept.pos.x.to_bits(), b0.pos.x.to_bits());
    assert_eq!(kept.pos.y.to_bits(), b0.pos.y.to_bits());
    assert_eq!(kept.rod.length.to_bits(), b0.rod.length.to_bits());
    assert_eq!(kept.color, b0.color);
}

#[test]
fn add_ball_appends_given_state() {
    let mut u = Universe::new();
    u.add_ball(
        fpb(1.0),
        fpb(2.0),
        fpb(0.25),
        fpb(0.5),
        fpb(70.0),
        fpb(3.0),
        0x123456,
        12,
        fpb(4.5),
        0xabcdef,
    );
    assert_eq!(u.get_ball_count(), 3);
    let b = u.get_ball(2).unwrap();
    assert_eq!(val(b.pos.x), 1.0);
    assert_eq!(val(b.pos.y), 2.0);
    assert_eq!(val(b.omega), 0.25);
    assert_eq!(val(b.theta), 0.5);
    assert_eq!(val(b.rod.length), 70.0);
    assert_eq!(val(b.rod.mass), 3.0);
    assert_eq!(b.rod.color, 0x123456);
    assert_eq!(b.radius, 12);
    assert_eq!(val(b.mass), 4.5);
    assert_eq!(b.color, 0xabcdef);
}

#[test]
fn edit_theta_recomputes_positions_from_there() {
    let mut u = Universe::new();
    u.update_ball_theta(0, fpb(0.0));
    let b0 = u.get_ball(0).unwrap();
    assert_eq!(val(b0.theta), 0.0);
    assert_eq!(val(b0.pos.x).to_bits(), (100.0 * libm::sin(0.0)).to_bits());
    assert_eq!(val(b0.pos.y).to_bits(), (100.0 * libm::cos(0.0)).to_bits());
    let b1 = u.get_ball(1).unwrap();
    let ex = val(b0.pos.x) + 100.0 * libm::sin(val(b1.theta));
    let ey = val(b0.pos.y) + 100.0 * libm::cos(val(b1.theta));
    assert_eq!(val(b1.pos.x).to_bits(), ex.to_bits());
    assert_eq!(val(b1.pos.y).to_bits(), ey.to_bits());
    // out of range: a silent no-op
    u.update_ball_theta(9, fpb(1.0));
    assert_eq!(u.get_ball_count(), 2);
}

#[test]
fn edit_length_recomputes_positions() {
    let mut u = Universe::new();
    u.update_ball_length(1, fpb(50.0));
    let b0 = u.get_ball(0).unwrap();
    let b1 = u.get_ball(1).unwrap();
    assert_eq!(val(b1.rod.length), 50.0);
    let ex = val(b0.pos.x) + 50.0 * libm::sin(val(b1.theta));
    assert_eq!(val(b1.pos.x).to_bits(), ex.to_bits());
}

#[test]
fn edit_mass_omega_color_radius() {
    let mut u = Universe::new();
    u.update_ball_mass(0, fpb(20.0));
    assert_eq!(val(u.get_ball(0).unwrap().mass), 20.0);
    u.update_ball_omega(1, fpb(0.75));
    assert_eq!(val(u.get_ball(1).unwrap().omega), 0.75);
    u.update_ball_color(0, 0x00ffff);
    assert_eq!(u.get_ball(0).unwrap().color, 0x00ffff);
    u.update_ball_radius(1, 22);
    assert_eq!(u.get_ball(1).unwrap().radius, 22);
    u.update_ball_mass(5, fpb(1.0));
    assert_eq!(val(u.get_ball(0).unwrap().mass), 20.0);
}

#[test]
fn toggles_and_setters() {
    let mut u = Universe::new();
    u.set_gravity(fpb(1.62));
    assert_eq!(val(u.get_gravity()), 1.62);
    u.set_speed(fpb(0.2));
    assert_eq!(val(u.get_speed()), 0.2);
    u.toggle_mass_calculation();
    assert!(!u.get_mass_calculation());
    u.set_mass_calculation(true);
    assert!(u.get_mass_calculation());
    u.toggle_show_trails();
    assert!(!u.get_show_trails());
    u.set_show_trails(true);
    u.toggle_limit_total_energy();
    assert!(u.get_limit_total_energy());
    u.set_limit_total_energy(false);
    assert!(!u.get_limit_total_energy());
    u.set_implementation(Implementation::Leapfrog);
    assert!(matches!(u.get_implementation(), Implementation::Leapfrog));
}

#[test]
fn reset_restores_defaults() {
    let mut u = Universe::new();
    u.set_gravity(fpb(1.0));
    u.remove_ball();
    u.set_is_paused(true);
    u.reset();
    assert_eq!(u.get_ball_count(), 2);
    assert_eq!(val(u.get_gravity()), 9.8);
    assert!(!u.get_is_paused());
}

#[test]
fn trails_record_and_respect_toggle() {
    let mut u = Universe::new();
    for _ in 0..3 {
        assert_eq!(u.time_step(fpb(1.0 / 60.0)), 0);
    }
    let trails = u.get_trails();
    assert_eq!(trails.len(), 2);
    assert_eq!(trails[0].len(), 3);
    // the newest sample is the current position
    let b0 = u.get_ball(0).unwrap();
    assert_eq!(trails[0][2].pos.x.to_bits(), b0.pos.x.to_bits());
    assert_eq!(trails[0][2].color, b0.color);
    u.set_show_trails(false);
    assert!(u.get_trails().is_empty());
    // samples stop accumulating while the toggle is off
    assert_eq!(u.time_step(fpb(1.0 / 60.0)), 0);
    u.set_show_trails(true);
    assert_eq!(u.get_trails()[0].len(), 3);
}

#[test]
fn random_color_stays_in_palette() {
    let palette = [0xff0000u32, 0x0000ff, 0x00ff00, 0xf0f000, 0x00f0f0, 0xf000f0];
    for _ in 0..50 {
        assert!(palette.contains(&Universe::random_color()));
    }
}

#[test]
fn energy_drift_small_and_rk4_beats_euler() {
    let drift = |imp: Implementation| -> f64 {
        let mut u = Universe::new();
        u.remove_ball();
        u.set_implementation(imp);
        u.set_show_trails(false);
        let e0 = potential(&u) + kinetic(&u);
        for _ in 0..600 {
            assert_eq!(u.time_step(fpb(1.0 / 60.0)), 0);
        }
        (potential(&u) + kinetic(&u) - e0).abs()
    };
    let scale = 10.0 * 9.8 * 100.0;
    let de = drift(Implementation::Euler);
    let dr = drift(Implementation::RK4);
    assert!(de < 0.01 * scale, "euler drift {de}");
    assert!(dr < de, "rk4 drift {dr} not below euler drift {de}");
}

#[test]
fn energy_limiting_caps_kinetic_energy() {
    let mut u = Universe::new();
    u.set_limit_total_energy(true);
    u.set_show_trails(false);
    let e0 = potential(&u) + kinetic(&u);
    // a deliberately huge frame delta that would blow up kinetic energy
    for _ in 0..20 {
        u.time_step(fpb(50.0));
    }
    let ceiling = e0 - potential(&u);
    if ceiling >= 0.0 {
        assert!(kinetic(&u) <= ceiling * (1.0 + 1e-9) + 1e-6);
    }
}

#[test]
fn node_cap_truncates_excess() {
    let mut u = Universe::new();
    for _ in 0..120 {
        u.add_ball_simple(fpb(0.1));
    }
    assert_eq!(u.get_ball_count(), 122);
    u.set_show_trails(false);
    u.set_speed(fpb(0.001));
    u.time_step(fpb(0.0));
    assert_eq!(u.get_ball_count(), 100);
}

#[test]
fn get_balls_matches_get_ball() {
    let u = Universe::new();
    let all = u.get_balls();
    assert_eq!(all.len(), 2);
    for i in 0..2 {
        let b = u.get_ball(i).unwrap();
        assert_eq!(all[i].theta.to_bits(), b.theta.to_bits());
        assert_eq!(all[i].color, b.color);
    }
}

#[test]
fn normalize_angle_folds_into_band() {
    assert_eq!(val(Universe::normalize_angle(fpb(0.25))), 0.25);
    let a = val(Universe::normalize_angle(fpb(PI + 0.5)));
    assert!((a - (PI + 0.5 - 2.0 * PI)).abs() < 1e-12);
    let b = val(Universe::normalize_angle(fpb(-PI - 0.5)));
    assert!((b - (-PI - 0.5 + 2.0 * PI)).abs() < 1e-12);
}

#[test]
fn nan_acceleration_reports_failure_and_keeps_state() {
    let mut u = Universe::new();
    u.set_show_trails(false);
    u.update_ball_omega(0, fpb(f64::NAN));
    assert_eq!(u.time_step(fpb(1.0 / 60.0)), 1);
    // the failing sub-step mutated nothing
    assert_eq!(val(u.get_ball(0).unwrap().theta), PI / 2.0);
    assert_eq!(val(u.get_ball(1).unwrap().theta), PI / 2.0);
}

#[test]
fn singular_matrix_degrades_to_zero_acceleration() {
    let mut u = Universe::new();
    u.set_show_trails(false);
    // zero rod lengths make every mass-matrix entry zero: not invertible
    u.update_ball_length(0, fpb(0.0));
    u.update_ball_length(1, fpb(0.0));
    assert_eq!(u.time_step(fpb(1.0 / 60.0)), 0);
    assert_eq!(val(u.get_ball(0).unwrap().theta), PI / 2.0);
    assert_eq!(val(u.get_ball(0).unwrap().omega), 0.0);
}

#[test]
fn trails_stay_capped_through_many_frames() {
    let mut u = Universe::new();
    for _ in 0..260 {
        assert_eq!(u.time_step(fpb(1.0 / 60.0)), 0);
    }
    let trails = u.get_trails();
    for t in &trails {
        assert_eq!(t.len(), 250);
    }
}
