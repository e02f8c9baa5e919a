//! A minimal 2D point/vector over [`Fp`] scalars, used for positions and
//! trail samples.

use vstd::prelude::*;
use crate::fp::{Fp, fp};

verus! {

/// A 2D point or vector of binary64 values.
#[derive(Clone, Copy, PartialEq, Eq, Structural, Debug)]
pub struct Vec2 {
    pub x: Fp,
    pub y: Fp,
}

impl Vec2 {
    /// The origin.
    pub open spec fn spec_origin() -> Vec2 {
        Vec2 { x: fp(0), y: fp(0) }
    }

    /// Componentwise sum.
    pub open spec fn spec_add(self, rhs: Vec2) -> Vec2 {
        Vec2 { x: self.x.spec_add(rhs.x), y: self.y.spec_add(rhs.y) }
    }

    /// Componentwise difference.
    pub open spec fn spec_sub(self, rhs: Vec2) -> Vec2 {
        Vec2 { x: self.x.spec_sub(rhs.x), y: self.y.spec_sub(rhs.y) }
    }

    /// Both components scaled by `m`.
    pub open spec fn spec_mul(self, m: Fp) -> Vec2 {
        Vec2 { x: self.x.spec_mul(m), y: self.y.spec_mul(m) }
    }

    /// Both components divided by `n`.
    pub open spec fn spec_div(self, n: Fp) -> Vec2 {
        Vec2 { x: self.x.spec_div(n), y: self.y.spec_div(n) }
    }

    /// The Euclidean distance: the square root of the sum of the squared
    /// component differences.
    pub open spec fn spec_distance_from(self, other: Vec2) -> Fp {
        let dx = self.x.spec_sub(other.x);
        let dy = self.y.spec_sub(other.y);
        dx.spec_mul(dx).spec_add(dy.spec_mul(dy)).spec_sqrt()
    }

    pub fn new(x: Fp, y: Fp) -> (r: Vec2)
        ensures
            r == (Vec2 { x, y }),
    {
        Vec2 { x, y }
    }

    /// Divides both components by `n` in place.
    pub fn divide(&mut self, n: Fp)
        ensures
            *final(self) == old(self).spec_div(n),
    {
        self.x = self.x.div(n);
        self.y = self.y.div(n);
    }

    /// The Euclidean distance from `other`.
    pub fn distance_from(&self, other: Vec2) -> (r: Fp)
        ensures
            r == self.spec_distance_from(other),
    {
        let dx = self.x.sub(other.x);
        let dy = self.y.sub(other.y);
        dx.mul(dx).add(dy.mul(dy)).sqrt()
    }

    /// Componentwise sum.
    pub fn add(self, rhs: Vec2) -> (r: Vec2)
        ensures
            r == self.spec_add(rhs),
    {
        Vec2 { x: self.x.add(rhs.x), y: self.y.add(rhs.y) }
    }

    /// Componentwise difference.
    pub fn sub(self, rhs: Vec2) -> (r: Vec2)
        ensures
            r == self.spec_sub(rhs),
    {
        Vec2 { x: self.x.sub(rhs.x), y: self.y.sub(rhs.y) }
    }

    /// Adds `other` to `self` in place.
    pub fn add_assign(&mut self, other: Vec2)
        ensures
            *final(self) == old(self).spec_add(other),
    {
        self.x = self.x.add(other.x);
        self.y = self.y.add(other.y);
    }

    /// Divides `self` by `d` in place.
    pub fn div_assign(&mut self, d: Fp)
        ensures
            *final(self) == old(self).spec_div(d),
    {
        self.x = self.x.div(d);
        self.y = self.y.div(d);
    }

    /// Both components scaled by `m`.
    pub fn mul(self, m: Fp) -> (r: Vec2)
        ensures
            r == self.spec_mul(m),
    {
        Vec2::new(self.x.mul(m), self.y.mul(m))
    }

    /// Both components divided by `m`.
    pub fn div(self, m: Fp) -> (r: Vec2)
        ensures
            r == self.spec_div(m),
    {
        Vec2::new(self.x.div(m), self.y.div(m))
    }
}

impl Default for Vec2 {
    /// The origin.
    fn default() -> (r: Vec2)
        ensures
            r == Vec2::spec_origin(),
    {
        Vec2 { x: Fp { bits: 0 }, y: Fp { bits: 0 } }
    }
}

} // verus!
