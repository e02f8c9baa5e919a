//! The equations-of-motion builder: from the chain's angles and angular
//! velocities it builds the mass matrix `M` and generalized-force vector
//! `F`, and solves `M * a = F` for the angular accelerations, falling back
//! to zero accelerations when the matrix is singular.

use vstd::prelude::*;
use crate::fp::{Fp, fp};
use crate::universe::{core_of_seq, Core, Universe};

verus! {

/// What nalgebra's LU solve returns for the flat row-major `n x n` matrix
/// `m` and right-hand side `v`: `None` exactly when the matrix is not
/// invertible, else the solution vector.
pub uninterp spec fn lu_solution(m: Seq<u64>, v: Seq<u64>) -> Option<Seq<u64>>;

/// The view of an optional bit vector.
pub open spec fn opt_bits_view(r: Option<Vec<u64>>) -> Option<Seq<u64>> {
    match r {
        Some(x) => Some(x@),
        None => None,
    }
}

/// The left fold, from positive zero, of the masses with indices `k..j`:
/// the partial suffix mass sum.
pub open spec fn suffix_sum_to(masses: Seq<Fp>, k: int, j: int) -> Fp
    decreases j - k,
{
    if j <= k {
        fp(0)
    } else {
        suffix_sum_to(masses, k, j - 1).spec_add(masses[j - 1])
    }
}

/// `S(k)`: the sum of the masses of all nodes at or beyond index `k`.
pub open spec fn suffix_sum(masses: Seq<Fp>, k: int) -> Fp {
    suffix_sum_to(masses, k, masses.len() as int)
}

/// The mass-matrix entry
/// `M[i][j] = S(max(i, j)) * L_i * L_j * cos(theta_i - theta_j)`.
pub open spec fn matrix_entry(c: Core, i: int, j: int) -> Fp {
    let mx = if i > j {
        i
    } else {
        j
    };
    suffix_sum(c.masses, mx).spec_mul(c.lengths[i]).spec_mul(c.lengths[j]).spec_mul(
        c.thetas[i].spec_sub(c.thetas[j]).spec_cos(),
    )
}

/// The first `j` entries of row `i` of the mass matrix, as bit patterns.
pub open spec fn matrix_row_bits(c: Core, i: int, j: int) -> Seq<u64>
    decreases j,
{
    if j <= 0 {
        Seq::empty()
    } else {
        matrix_row_bits(c, i, j - 1).push(matrix_entry(c, i, j - 1).bits)
    }
}

/// The first `i` rows of the mass matrix, flattened row-major.
pub open spec fn matrix_rows_bits(c: Core, i: int) -> Seq<u64>
    decreases i,
{
    if i <= 0 {
        Seq::empty()
    } else {
        matrix_rows_bits(c, i - 1) + matrix_row_bits(c, i - 1, c.thetas.len() as int)
    }
}

/// The flat row-major mass matrix of the whole chain, as bit patterns.
pub open spec fn matrix_bits(c: Core) -> Seq<u64> {
    matrix_rows_bits(c, c.thetas.len() as int)
}

/// The left fold, from positive zero, of the centrifugal terms of force
/// entry `i` over columns `0..j`: each subtracts
/// `S(max(i, j)) * L_i * L_j * sin(theta_i - theta_j) * omega_j^2`.
pub open spec fn force_sum_to(c: Core, i: int, j: int) -> Fp
    decreases j,
{
    if j <= 0 {
        fp(0)
    } else {
        let mx = if i > j - 1 {
            i
        } else {
            j - 1
        };
        force_sum_to(c, i, j - 1).spec_sub(
            suffix_sum(c.masses, mx).spec_mul(c.lengths[i]).spec_mul(c.lengths[j - 1]).spec_mul(
                c.thetas[i].spec_sub(c.thetas[j - 1]).spec_sin(),
            ).spec_mul(c.omegas[j - 1].spec_mul(c.omegas[j - 1])),
        )
    }
}

/// The force-vector entry `F[i]`: the centrifugal fold minus the
/// gravitational term `gravity * S(i) * L_i * sin(theta_i)`.
pub open spec fn force_entry(c: Core, i: int) -> Fp {
    force_sum_to(c, i, c.thetas.len() as int).spec_sub(
        c.gravity.spec_mul(suffix_sum(c.masses, i)).spec_mul(c.lengths[i]).spec_mul(
            c.thetas[i].spec_sin(),
        ),
    )
}

/// The first `i` entries of the force vector, as bit patterns.
pub open spec fn force_bits_to(c: Core, i: int) -> Seq<u64>
    decreases i,
{
    if i <= 0 {
        Seq::empty()
    } else {
        force_bits_to(c, i - 1).push(force_entry(c, i - 1).bits)
    }
}

/// The force vector of the whole chain, as bit patterns.
pub open spec fn force_bits(c: Core) -> Seq<u64> {
    force_bits_to(c, c.thetas.len() as int)
}

/// The angular accelerations: the LU solution of `M * a = F`, or all zeros
/// when the matrix is singular.
pub open spec fn accel_core(c: Core) -> Seq<Fp> {
    let n = c.thetas.len() as int;
    match lu_solution(matrix_bits(c), force_bits(c)) {
        Some(s) => Seq::new(n as nat, |i: int| fp(s[i])),
        None => Seq::new(n as nat, |i: int| fp(0)),
    }
}

/// Relies on nalgebra's `LU::new` and `LU::solve` on a square matrix built
/// row-major from `m` with right-hand side `v`: `solve` returns `None`
/// exactly when the matrix is not invertible, and a solution has the shape
/// of `v`. The `bytemuck` casts move bit patterns in and out unchanged, and
/// `libm::copysign(x, x)` is the bit-level identity, there to pin the
/// scalar type.
#[verifier::external_body]
fn lu_solve(n: usize, m: &Vec<u64>, v: &Vec<u64>) -> (r: Option<Vec<u64>>)
    requires
        m@.len() == n * n,
        v@.len() == n,
    ensures
        opt_bits_view(r) == lu_solution(m@, v@),
        r matches Some(x) ==> x@.len() == v@.len(),
{
    let a = nalgebra::DMatrix::from_row_iterator(n, n, m.iter().map(|b| bytemuck::cast(*b)));
    let bv = nalgebra::DVector::from_iterator(n, v.iter().map(|b| bytemuck::cast(*b)));
    nalgebra::LU::new(a).solve(&bv).map(
        |s| s.iter().map(|x| libm::copysign(*x, *x).to_bits()).collect(),
    )
}

impl Universe {
    /// Builds the mass matrix and force vector for the given angles and
    /// angular velocities and solves for the angular accelerations,
    /// returning the angular velocities passed through alongside them. The
    /// chain itself is not touched.
    #[verifier::loop_isolation(false)]
    pub fn calculate_accelerations(&self, thetas: &Vec<Fp>, theta_dots: &Vec<Fp>) -> (r: (
        Vec<Fp>,
        Vec<Fp>,
    ))
        requires
            thetas@.len() == self.balls@.len(),
            theta_dots@.len() == self.balls@.len(),
            self.balls@.len() * self.balls@.len() <= usize::MAX,
        ensures
            r.0@ == theta_dots@,
            r.1@ == accel_core(core_of_seq(*self, self.balls@).with_state(thetas@, theta_dots@)),
            r.1@.len() == self.balls@.len(),
    {
        let ghost c = core_of_seq(*self, self.balls@).with_state(thetas@, theta_dots@);
        let n = self.balls.len();

        let mut masses: Vec<Fp> = Vec::new();
        let mut i: usize = 0;
        while i < n
            invariant
                i <= n,
                masses@.len() == i,
                forall|k: int| 0 <= k < i ==> masses@[k] == c.masses[k],
            decreases n - i,
        {
            if self.mass_calculation {
                masses.push(self.balls[i].mass);
            } else {
                masses.push(self.default_mass);
            }
            i = i + 1;
        }
        proof {
            assert(masses@ =~= c.masses);
        }

        let mut m: Vec<u64> = Vec::new();
        let mut i: usize = 0;
        while i < n
            invariant
                i <= n,
                m@ == matrix_rows_bits(c, i as int),
                m@.len() == i * n,
            decreases n - i,
        {
            let mut j: usize = 0;
            while j < n
                invariant
                    j <= n,
                    m@ == matrix_rows_bits(c, i as int) + matrix_row_bits(c, i as int, j as int),
                    m@.len() == i * n + j,
                decreases n - j,
            {
                let mx = if i > j {
                    i
                } else {
                    j
                };
                let mut mass_sum = Fp::zero();
                let mut k: usize = mx;
                while k < n
                    invariant
                        mx <= k <= n,
                        mass_sum == suffix_sum_to(c.masses, mx as int, k as int),
                    decreases n - k,
                {
                    mass_sum = mass_sum.add(masses[k]);
                    k = k + 1;
                }
                let entry = mass_sum.mul(self.balls[i].rod.length).mul(
                    self.balls[j].rod.length,
                ).mul(thetas[i].sub(thetas[j]).cos());
                m.push(entry.bits);
                j = j + 1;
            }
            proof {
                assert((i as int + 1) * n == i as int * n + n) by (nonlinear_arith);
            }
            i = i + 1;
        }

        let mut v: Vec<u64> = Vec::new();
        let mut i: usize = 0;
        while i < n
            invariant
                i <= n,
                v@ == force_bits_to(c, i as int),
                v@.len() == i,
            decreases n - i,
        {
            let mut sum = Fp::zero();
            let mut j: usize = 0;
            while j < n
                invariant
                    j <= n,
                    i < n,
                    sum == force_sum_to(c, i as int, j as int),
                decreases n - j,
            {
                let mx = if i > j {
                    i
                } else {
                    j
                };
                let mut mass_sum = Fp::zero();
                let mut k: usize = mx;
                while k < n
                    invariant
                        mx <= k <= n,
                        mass_sum == suffix_sum_to(c.masses, mx as int, k as int),
                    decreases n - k,
                {
                    mass_sum = mass_sum.add(masses[k]);
                    k = k + 1;
                }
                let w = theta_dots[j];
                sum = sum.sub(
                    mass_sum.mul(self.balls[i].rod.length).mul(self.balls[j].rod.length).mul(
                        thetas[i].sub(thetas[j]).sin(),
                    ).mul(w.mul(w)),
                );
                j = j + 1;
            }
            let mut mass_sum_i = Fp::zero();
            let mut k: usize = i;
            while k < n
                invariant
                    i <= k <= n,
                    i < n,
                    mass_sum_i == suffix_sum_to(c.masses, i as int, k as int),
                decreases n - k,
            {
                mass_sum_i = mass_sum_i.add(masses[k]);
                k = k + 1;
            }
            sum = sum.sub(
                self.gravity.mul(mass_sum_i).mul(self.balls[i].rod.length).mul(thetas[i].sin()),
            );
            v.push(sum.bits);
            i = i + 1;
        }

        proof {
            assert(m@ =~= matrix_bits(c));
            assert(v@ =~= force_bits(c));
        }

        let solution = lu_solve(n, &m, &v);
        let mut theta_ddots: Vec<Fp> = Vec::new();
        match solution {
            Some(s) => {
                let mut i: usize = 0;
                while i < n
                    invariant
                        i <= n,
                        s@.len() == n,
                        opt_bits_view(Some(s)) == lu_solution(matrix_bits(c), force_bits(c)),
                        theta_ddots@.len() == i,
                        forall|k: int| 0 <= k < i ==> theta_ddots@[k] == fp(s@[k]),
                    decreases n - i,
                {
                    theta_ddots.push(Fp::from_bits(s[i]));
                    i = i + 1;
                }
            },
            None => {
                let mut i: usize = 0;
                while i < n
                    invariant
                        i <= n,
                        lu_solution(matrix_bits(c), force_bits(c)) is None,
                        theta_ddots@.len() == i,
                        forall|k: int| 0 <= k < i ==> theta_ddots@[k] == fp(0),
                    decreases n - i,
                {
                    theta_ddots.push(Fp::zero());
                    i = i + 1;
                }
            },
        }
        proof {
            assert(theta_ddots@ =~= accel_core(c));
        }

        let mut pass = Vec::new();
        let mut i: usize = 0;
        while i < n
            invariant
                i <= n,
                pass@ == theta_dots@.subrange(0, i as int),
            decreases n - i,
        {
            pass.push(theta_dots[i]);
            i = i + 1;
        }
        proof {
            assert(pass@ =~= theta_dots@);
        }
        (pass, theta_ddots)
    }
}

impl Core {
    /// This core with the angles and angular velocities replaced: the state
    /// a stage of an integrator evaluates the accelerations at.
    pub open spec fn with_state(self, thetas: Seq<Fp>, omegas: Seq<Fp>) -> Core {
        Core { thetas, omegas, ..self }
    }
}

} // verus!
