use vstd::prelude::*;

verus! {

/// A coordinate on the extended integer line: a finite value or a signed infinity.
///
/// The infinities let a bounding box describe all of space, or nothing, and act as
/// the identity elements of componentwise minimum and maximum.
#[derive(Clone, Copy, Debug, PartialEq, Eq, Structural)]
pub enum Coord {
    NegInfinity,
    Finite(i64),
    Infinity,
}

/// Order of the extended line: `-inf <= every value <= +inf`.
pub open spec fn coord_le(a: Coord, b: Coord) -> bool {
    match (a, b) {
        (Coord::NegInfinity, _) => true,
        (_, Coord::Infinity) => true,
        (Coord::Finite(x), Coord::Finite(y)) => x <= y,
        _ => false,
    }
}

pub open spec fn coord_min(a: Coord, b: Coord) -> Coord {
    if coord_le(a, b) { a } else { b }
}

pub open spec fn coord_max(a: Coord, b: Coord) -> Coord {
    if coord_le(a, b) { b } else { a }
}

/// Whether shifting `a` by `delta` stays representable.
pub open spec fn coord_shift_fits(a: Coord, delta: int) -> bool {
    match a {
        Coord::Finite(x) => i64::MIN <= x + delta <= i64::MAX,
        _ => true,
    }
}

/// `a + delta`: infinities absorb a finite shift.
pub open spec fn coord_shift(a: Coord, delta: int) -> Coord {
    match a {
        Coord::Finite(x) => Coord::Finite((x + delta) as i64),
        _ => a,
    }
}

/// The midpoint of `a` and `b`, rounded towards negative infinity. An infinite end
/// pulls the midpoint to that infinity; two opposite infinities meet at zero.
pub open spec fn coord_mid(a: Coord, b: Coord) -> Coord {
    match (a, b) {
        (Coord::Finite(x), Coord::Finite(y)) => Coord::Finite(((x + y) / 2) as i64),
        (Coord::NegInfinity, Coord::NegInfinity) => Coord::NegInfinity,
        (Coord::Infinity, Coord::Infinity) => Coord::Infinity,
        (Coord::NegInfinity, Coord::Finite(_)) => Coord::NegInfinity,
        (Coord::Finite(_), Coord::NegInfinity) => Coord::NegInfinity,
        (Coord::Infinity, Coord::Finite(_)) => Coord::Infinity,
        (Coord::Finite(_), Coord::Infinity) => Coord::Infinity,
        _ => Coord::Finite(0),
    }
}

impl Coord {
    pub open spec fn is_finite(self) -> bool {
        self is Finite
    }

    pub fn is_finite_exec(&self) -> (r: bool)
        ensures
            r == self.is_finite(),
    {
        match self {
            Coord::Finite(_) => true,
            _ => false,
        }
    }

    pub fn le(&self, other: &Coord) -> (r: bool)
        ensures
            r == coord_le(*self, *other),
    {
        match (*self, *other) {
            (Coord::NegInfinity, _) => true,
            (_, Coord::Infinity) => true,
            (Coord::Finite(x), Coord::Finite(y)) => x <= y,
            _ => false,
        }
    }

    pub fn min(a: &Coord, b: &Coord) -> (r: Coord)
        ensures
            r == coord_min(*a, *b),
    {
        if a.le(b) { *a } else { *b }
    }

    pub fn max(a: &Coord, b: &Coord) -> (r: Coord)
        ensures
            r == coord_max(*a, *b),
    {
        if a.le(b) { *b } else { *a }
    }

    pub fn shift(&self, delta: i64) -> (r: Coord)
        requires
            coord_shift_fits(*self, delta as int),
        ensures
            r == coord_shift(*self, delta as int),
    {
        match *self {
            Coord::Finite(x) => Coord::Finite(x + delta),
            other => other,
        }
    }

    /// `self - delta`.
    pub fn shift_down(&self, delta: i64) -> (r: Coord)
        requires
            coord_shift_fits(*self, -delta),
        ensures
            r == coord_shift(*self, -delta),
    {
        match *self {
            Coord::Finite(x) => Coord::Finite(x - delta),
            other => other,
        }
    }

    pub fn mid(a: &Coord, b: &Coord) -> (r: Coord)
        ensures
            r == coord_mid(*a, *b),
    {
        match (*a, *b) {
            (Coord::Finite(x), Coord::Finite(y)) => {
                let s: i128 = x as i128 + y as i128;
                let h: i128 = if s >= 0 {
                    s / 2
                } else {
                    -((1 - s) / 2)
                };
                assert(h == s as int / 2) by (nonlinear_arith)
                    requires
                        h == (if s >= 0 { s as int / 2 } else { -((1 - s) / 2) }),
                ;
                Coord::Finite(h as i64)
            },
            (Coord::NegInfinity, Coord::NegInfinity) => Coord::NegInfinity,
            (Coord::Infinity, Coord::Infinity) => Coord::Infinity,
            (Coord::NegInfinity, Coord::Finite(_)) => Coord::NegInfinity,
            (Coord::Finite(_), Coord::NegInfinity) => Coord::NegInfinity,
            (Coord::Infinity, Coord::Finite(_)) => Coord::Infinity,
            (Coord::Finite(_), Coord::Infinity) => Coord::Infinity,
            _ => Coord::Finite(0),
        }
    }
}

/// A point or offset in three dimensions over the extended integer line.
#[derive(Clone, Copy, Debug, PartialEq, Eq, Structural)]
pub struct Vector3 {
    pub x: Coord,
    pub y: Coord,
    pub z: Coord,
}

pub open spec fn vec_min(a: Vector3, b: Vector3) -> Vector3 {
    Vector3 { x: coord_min(a.x, b.x), y: coord_min(a.y, b.y), z: coord_min(a.z, b.z) }
}

pub open spec fn vec_max(a: Vector3, b: Vector3) -> Vector3 {
    Vector3 { x: coord_max(a.x, b.x), y: coord_max(a.y, b.y), z: coord_max(a.z, b.z) }
}

pub open spec fn neg_infinity_vector() -> Vector3 {
    Vector3 { x: Coord::NegInfinity, y: Coord::NegInfinity, z: Coord::NegInfinity }
}

/// Componentwise `a <= b`.
pub open spec fn vec_le(a: Vector3, b: Vector3) -> bool {
    coord_le(a.x, b.x) && coord_le(a.y, b.y) && coord_le(a.z, b.z)
}

pub open spec fn finite_vector(x: int, y: int, z: int) -> Vector3 {
    Vector3 {
        x: Coord::Finite(x as i64),
        y: Coord::Finite(y as i64),
        z: Coord::Finite(z as i64),
    }
}

pub open spec fn infinity_vector() -> Vector3 {
    Vector3 { x: Coord::Infinity, y: Coord::Infinity, z: Coord::Infinity }
}

impl Vector3 {
    pub open spec fn is_finite(self) -> bool {
        self.x.is_finite() && self.y.is_finite() && self.z.is_finite()
    }

    /// A finite vector.
    pub fn new(x: i64, y: i64, z: i64) -> (r: Vector3)
        ensures
            r == finite_vector(x as int, y as int, z as int),
    {
        Vector3 { x: Coord::Finite(x), y: Coord::Finite(y), z: Coord::Finite(z) }
    }

    /// A finite vector with the same value in every component.
    pub fn from_value(v: i64) -> (r: Vector3)
        ensures
            r == finite_vector(v as int, v as int, v as int),
    {
        Vector3::new(v, v, v)
    }

    /// Positive infinity in every component.
    pub fn new_infinity() -> (r: Vector3)
        ensures
            r == infinity_vector(),
    {
        Vector3 { x: Coord::Infinity, y: Coord::Infinity, z: Coord::Infinity }
    }

    /// Negative infinity in every component.
    pub fn new_neg_infinity() -> (r: Vector3)
        ensures
            r == neg_infinity_vector(),
    {
        Vector3 { x: Coord::NegInfinity, y: Coord::NegInfinity, z: Coord::NegInfinity }
    }

    /// The componentwise minimum.
    pub fn min(a: &Vector3, b: &Vector3) -> (r: Vector3)
        ensures
            r == vec_min(*a, *b),
    {
        Vector3 { x: Coord::min(&a.x, &b.x), y: Coord::min(&a.y, &b.y), z: Coord::min(&a.z, &b.z) }
    }

    /// The componentwise maximum.
    pub fn max(a: &Vector3, b: &Vector3) -> (r: Vector3)
        ensures
            r == vec_max(*a, *b),
    {
        Vector3 { x: Coord::max(&a.x, &b.x), y: Coord::max(&a.y, &b.y), z: Coord::max(&a.z, &b.z) }
    }
}

} // verus!
