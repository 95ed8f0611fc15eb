use vstd::prelude::*;
use crate::vector3::{Coord, Vector3, coord_le};

verus! {

/// A half line: every point `position + t * direction` with `t >= 0`.
#[derive(Clone, Copy, Debug, PartialEq, Eq, Structural)]
pub struct Ray {
    pub position: Vector3,
    pub direction: Vector3,
}

/// The value of a finite coordinate.
pub open spec fn fin(c: Coord) -> i64 {
    match c {
        Coord::Finite(v) => v,
        _ => 0,
    }
}

impl Ray {
    /// A ray starts at a finite point and runs along a finite direction.
    pub open spec fn wf(self) -> bool {
        self.position.is_finite() && self.direction.is_finite()
    }

    pub fn new(position: &Vector3, direction: &Vector3) -> (r: Ray)
        requires
            position.is_finite(),
            direction.is_finite(),
        ensures
            r.wf(),
            r.position == *position,
            r.direction == *direction,
    {
        Ray { position: *position, direction: *direction }
    }

    /// Whether the ray starts at a finite point and runs along a finite direction.
    pub fn is_valid(&self) -> (r: bool)
        ensures
            r == self.wf(),
    {
        self.position.x.is_finite_exec() && self.position.y.is_finite_exec()
            && self.position.z.is_finite_exec() && self.direction.x.is_finite_exec()
            && self.direction.y.is_finite_exec() && self.direction.z.is_finite_exec()
    }

    pub fn position(&self) -> (r: &Vector3)
        ensures
            *r == self.position,
    {
        &self.position
    }

    pub fn direction(&self) -> (r: &Vector3)
        ensures
            *r == self.direction,
    {
        &self.direction
    }
}

/// A distance along a ray on the extended rational line: `Ratio(n, d)` is `n / d`.
#[derive(Clone, Copy, Debug, PartialEq, Eq, Structural)]
pub enum Param {
    NegInfinity,
    Ratio(i128, i128),
    Infinity,
}

pub open spec fn param_wf(p: Param) -> bool {
    match p {
        Param::Ratio(n, d) => -0x1_0000_0000_0000_0000 < n < 0x1_0000_0000_0000_0000 && 0 < d
            <= 0x8000_0000_0000_0000,
        _ => true,
    }
}

/// Order of the extended rationals; fractions compare by cross multiplication.
pub open spec fn param_le(a: Param, b: Param) -> bool {
    match (a, b) {
        (Param::NegInfinity, _) => true,
        (_, Param::Infinity) => true,
        (Param::Ratio(n1, d1), Param::Ratio(n2, d2)) => n1 * d2 <= n2 * d1,
        _ => false,
    }
}

pub open spec fn param_min(a: Param, b: Param) -> Param {
    if param_le(a, b) { a } else { b }
}

pub open spec fn param_max(a: Param, b: Param) -> Param {
    if param_le(a, b) { b } else { a }
}

/// The distance at which a ray from `o` along `d != 0` crosses the plane at `c`.
pub open spec fn crossing(c: Coord, o: i64, d: i64) -> Param {
    match c {
        Coord::NegInfinity => if d > 0 { Param::NegInfinity } else { Param::Infinity },
        Coord::Infinity => if d > 0 { Param::Infinity } else { Param::NegInfinity },
        Coord::Finite(v) => if d > 0 {
            Param::Ratio((v - o) as i128, d as i128)
        } else {
            Param::Ratio((o - v) as i128, (-d) as i128)
        },
    }
}

/// The near and far distances at which a ray from `o` along `d` is between the
/// planes at `lo` and `hi` on one axis. A ray parallel to the planes is between them
/// everywhere or nowhere.
pub open spec fn slab(lo: Coord, hi: Coord, o: i64, d: i64) -> (Param, Param) {
    if d == 0 {
        if coord_le(lo, Coord::Finite(o)) && coord_le(Coord::Finite(o), hi) {
            (Param::NegInfinity, Param::Infinity)
        } else {
            (Param::Infinity, Param::NegInfinity)
        }
    } else {
        let t0 = crossing(lo, o, d);
        let t1 = crossing(hi, o, d);
        (param_min(t0, t1), param_max(t0, t1))
    }
}

proof fn lemma_cross_fits(n: int, d: int)
    requires
        -0x1_0000_0000_0000_0000 < n < 0x1_0000_0000_0000_0000,
        0 < d <= 0x8000_0000_0000_0000,
    ensures
        i128::MIN <= n * d <= i128::MAX,
{
    assert(-0x1_0000_0000_0000_0000 * d < n * d < 0x1_0000_0000_0000_0000 * d) by (nonlinear_arith)
        requires
            -0x1_0000_0000_0000_0000 < n < 0x1_0000_0000_0000_0000,
            0 < d,
    ;
}

impl Param {
    pub fn le(&self, other: &Param) -> (r: bool)
        requires
            param_wf(*self),
            param_wf(*other),
        ensures
            r == param_le(*self, *other),
    {
        match (*self, *other) {
            (Param::NegInfinity, _) => true,
            (_, Param::Infinity) => true,
            (Param::Ratio(n1, d1), Param::Ratio(n2, d2)) => {
                proof {
                    lemma_cross_fits(n1 as int, d2 as int);
                    lemma_cross_fits(n2 as int, d1 as int);
                }
                n1 * d2 <= n2 * d1
            },
            _ => false,
        }
    }

    pub fn min(a: &Param, b: &Param) -> (r: Param)
        requires
            param_wf(*a),
            param_wf(*b),
        ensures
            r == param_min(*a, *b),
            param_wf(r),
    {
        if a.le(b) { *a } else { *b }
    }

    pub fn max(a: &Param, b: &Param) -> (r: Param)
        requires
            param_wf(*a),
            param_wf(*b),
        ensures
            r == param_max(*a, *b),
            param_wf(r),
    {
        if a.le(b) { *b } else { *a }
    }
}

fn crossing_exec(c: Coord, o: i64, d: i64) -> (r: Param)
    requires
        d != 0,
    ensures
        r == crossing(c, o, d),
        param_wf(r),
{
    match c {
        Coord::NegInfinity => if d > 0 { Param::NegInfinity } else { Param::Infinity },
        Coord::Infinity => if d > 0 { Param::Infinity } else { Param::NegInfinity },
        Coord::Finite(v) => if d > 0 {
            Param::Ratio(v as i128 - o as i128, d as i128)
        } else {
            Param::Ratio(o as i128 - v as i128, -(d as i128))
        },
    }
}

/// Computes `slab(lo, hi, o, d)`.
pub(crate) fn slab_exec(lo: Coord, hi: Coord, o: i64, d: i64) -> (r: (Param, Param))
    ensures
        r == slab(lo, hi, o, d),
        param_wf(r.0),
        param_wf(r.1),
{
    if d == 0 {
        let p = Coord::Finite(o);
        if lo.le(&p) && p.le(&hi) {
            (Param::NegInfinity, Param::Infinity)
        } else {
            (Param::Infinity, Param::NegInfinity)
        }
    } else {
        let t0 = crossing_exec(lo, o, d);
        let t1 = crossing_exec(hi, o, d);
        (Param::min(&t0, &t1), Param::max(&t0, &t1))
    }
}

pub open spec fn param_nonpos(p: Param) -> bool {
    match p {
        Param::NegInfinity => true,
        Param::Ratio(n, _) => n <= 0,
        Param::Infinity => false,
    }
}

pub open spec fn param_nonneg(p: Param) -> bool {
    match p {
        Param::NegInfinity => false,
        Param::Ratio(n, _) => n >= 0,
        Param::Infinity => true,
    }
}

/// A ray whose origin lies between the planes is between them from distance zero.
pub proof fn lemma_slab_around_origin(lo: Coord, hi: Coord, o: i64, d: i64)
    requires
        coord_le(lo, Coord::Finite(o)),
        coord_le(Coord::Finite(o), hi),
    ensures
        param_nonpos(slab(lo, hi, o, d).0),
        param_nonneg(slab(lo, hi, o, d).1),
{
    if d != 0 {
        let t0 = crossing(lo, o, d);
        let t1 = crossing(hi, o, d);
        lemma_crossing_wf(lo, o, d);
        lemma_crossing_wf(hi, o, d);
        if d > 0 {
            assert(param_nonpos(t0) && param_nonneg(t1));
        } else {
            assert(param_nonneg(t0) && param_nonpos(t1));
        }
        lemma_min_max_straddle(t0, t1);
    }
}

proof fn lemma_crossing_wf(c: Coord, o: i64, d: i64)
    requires
        d != 0,
    ensures
        param_wf(crossing(c, o, d)),
{
}

/// Of two distances on either side of zero, the smaller is at most zero and the
/// larger at least zero.
proof fn lemma_min_max_straddle(a: Param, b: Param)
    requires
        param_wf(a),
        param_wf(b),
        (param_nonpos(a) && param_nonneg(b)) || (param_nonneg(a) && param_nonpos(b)),
    ensures
        param_nonpos(param_min(a, b)),
        param_nonneg(param_max(a, b)),
{
    if param_nonpos(a) && param_nonneg(b) {
        lemma_nonpos_le_nonneg(a, b);
    } else if param_le(a, b) {
        if let (Param::Ratio(na, da), Param::Ratio(nb, db)) = (a, b) {
            assert(na <= 0 && nb >= 0) by (nonlinear_arith)
                requires
                    na * db <= nb * da,
                    na >= 0,
                    nb <= 0,
                    da > 0,
                    db > 0,
            ;
        }
    }
}

/// What is at most zero is at most what is at least zero.
pub proof fn lemma_nonpos_le_nonneg(a: Param, b: Param)
    requires
        param_wf(a),
        param_wf(b),
        param_nonpos(a),
        param_nonneg(b),
    ensures
        param_le(a, b),
{
    if let (Param::Ratio(n1, d1), Param::Ratio(n2, d2)) = (a, b) {
        assert(n1 * d2 <= 0 <= n2 * d1) by (nonlinear_arith)
            requires
                n1 <= 0,
                n2 >= 0,
                d1 > 0,
                d2 > 0,
        ;
    }
}

pub proof fn lemma_slab_wf(lo: Coord, hi: Coord, o: i64, d: i64)
    ensures
        param_wf(slab(lo, hi, o, d).0),
        param_wf(slab(lo, hi, o, d).1),
{
    if d != 0 {
        lemma_crossing_wf(lo, o, d);
        lemma_crossing_wf(hi, o, d);
    }
}

} // verus!
