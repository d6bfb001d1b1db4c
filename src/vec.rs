use vstd::prelude::*;

verus! {

/// A vector over the integers, the mathematical value of a [`V3`].
pub type IV3 = (int, int, int);

pub open spec fn add3(a: IV3, b: IV3) -> IV3 {
    (a.0 + b.0, a.1 + b.1, a.2 + b.2)
}

pub open spec fn sub3(a: IV3, b: IV3) -> IV3 {
    (a.0 - b.0, a.1 - b.1, a.2 - b.2)
}

pub open spec fn scale3(a: IV3, k: int) -> IV3 {
    (a.0 * k, a.1 * k, a.2 * k)
}

pub open spec fn dot3(a: IV3, b: IV3) -> int {
    a.0 * b.0 + a.1 * b.1 + a.2 * b.2
}

pub open spec fn cross3(a: IV3, b: IV3) -> IV3 {
    (a.1 * b.2 - a.2 * b.1, a.2 * b.0 - a.0 * b.2, a.0 * b.1 - a.1 * b.0)
}

pub open spec fn fits_i64(x: int) -> bool {
    i64::MIN <= x <= i64::MAX
}

pub open spec fn fits3(a: IV3) -> bool {
    fits_i64(a.0) && fits_i64(a.1) && fits_i64(a.2)
}

/// The fixed-point scale: lengths, colours and chances are counted in
/// hundredths.
pub const UNIT: i64 = 100;

/// Largest coordinate magnitude for which the containment tests stay exact
/// in machine integers.
pub const COORD_LIMIT: i64 = 0x1000_0000;

/// Largest coordinate magnitude that [`V3::dot`] accepts.
pub const DOT_LIMIT: i64 = 0x4000_0000_0000_0000;

pub open spec fn bounded3(a: IV3, m: int) -> bool {
    -m <= a.0 <= m && -m <= a.1 <= m && -m <= a.2 <= m
}

pub open spec fn small3(a: IV3) -> bool {
    -COORD_LIMIT <= a.0 <= COORD_LIMIT && -COORD_LIMIT <= a.1 <= COORD_LIMIT && -COORD_LIMIT
        <= a.2 <= COORD_LIMIT
}

/// A point or displacement in scene space, in fixed-point hundredths of a unit.
#[derive(Clone, Copy, Debug, PartialEq, Eq, Structural)]
pub struct V3 {
    pub x: i64,
    pub y: i64,
    pub z: i64,
}

impl View for V3 {
    type V = IV3;

    open spec fn view(&self) -> IV3 {
        (self.x as int, self.y as int, self.z as int)
    }
}

impl V3 {
    pub fn new(x: i64, y: i64, z: i64) -> (r: V3)
        ensures
            r@ == (x as int, y as int, z as int),
    {
        V3 { x, y, z }
    }

    pub fn zero() -> (r: V3)
        ensures
            r@ == (0int, 0int, 0int),
    {
        V3 { x: 0, y: 0, z: 0 }
    }

    pub fn x(&self) -> (r: i64)
        ensures
            r == self.x,
    {
        self.x
    }

    pub fn y(&self) -> (r: i64)
        ensures
            r == self.y,
    {
        self.y
    }

    pub fn z(&self) -> (r: i64)
        ensures
            r == self.z,
    {
        self.z
    }

    pub fn add(self, o: V3) -> (r: V3)
        requires
            fits3(add3(self@, o@)),
        ensures
            r@ == add3(self@, o@),
    {
        V3 { x: self.x + o.x, y: self.y + o.y, z: self.z + o.z }
    }

    pub fn sub(self, o: V3) -> (r: V3)
        requires
            fits3(sub3(self@, o@)),
        ensures
            r@ == sub3(self@, o@),
    {
        V3 { x: self.x - o.x, y: self.y - o.y, z: self.z - o.z }
    }

    pub fn scale(self, k: i64) -> (r: V3)
        requires
            fits3(scale3(self@, k as int)),
        ensures
            r@ == scale3(self@, k as int),
    {
        V3 { x: self.x * k, y: self.y * k, z: self.z * k }
    }

    /// Component-wise product.
    pub fn multiply(self, o: V3) -> (r: V3)
        requires
            fits3((self@.0 * o@.0, self@.1 * o@.1, self@.2 * o@.2)),
        ensures
            r@ == (self@.0 * o@.0, self@.1 * o@.1, self@.2 * o@.2),
    {
        V3 { x: self.x * o.x, y: self.y * o.y, z: self.z * o.z }
    }

    pub fn cross(self, o: V3) -> (r: V3)
        requires
            fits3(cross3(self@, o@)),
        ensures
            r@ == cross3(self@, o@),
    {
        proof {
            let m = 0x8000_0000_0000_0000int;
            lemma_mul_bound(self.y as int, o.z as int, m);
            lemma_mul_bound(self.z as int, o.y as int, m);
            lemma_mul_bound(self.z as int, o.x as int, m);
            lemma_mul_bound(self.x as int, o.z as int, m);
            lemma_mul_bound(self.x as int, o.y as int, m);
            lemma_mul_bound(self.y as int, o.x as int, m);
        }
        let x = self.y as i128 * o.z as i128 - self.z as i128 * o.y as i128;
        let y = self.z as i128 * o.x as i128 - self.x as i128 * o.z as i128;
        let z = self.x as i128 * o.y as i128 - self.y as i128 * o.x as i128;
        V3 { x: x as i64, y: y as i64, z: z as i64 }
    }

    pub fn dot(&self, o: &V3) -> (r: i128)
        requires
            bounded3(self@, DOT_LIMIT as int),
            bounded3(o@, DOT_LIMIT as int),
        ensures
            r == dot3(self@, o@),
    {
        proof {
            lemma_mul_bound(self.x as int, o.x as int, DOT_LIMIT as int);
            lemma_mul_bound(self.y as int, o.y as int, DOT_LIMIT as int);
            lemma_mul_bound(self.z as int, o.z as int, DOT_LIMIT as int);
        }
        let x = self.x as i128 * o.x as i128;
        let y = self.y as i128 * o.y as i128;
        let z = self.z as i128 * o.z as i128;
        x + y + z
    }

    pub fn len_square(&self) -> (r: i128)
        requires
            bounded3(self@, DOT_LIMIT as int),
        ensures
            r == dot3(self@, self@),
            r >= 0,
    {
        proof {
            lemma_dot_self_nonneg(self@);
        }
        self.dot(self)
    }
}

pub proof fn lemma_mul_bound(a: int, b: int, m: int)
    requires
        0 <= m,
        -m <= a <= m,
        -m <= b <= m,
    ensures
        -(m * m) <= a * b <= m * m,
{
    assert(-(m * m) <= a * b <= m * m) by (nonlinear_arith)
        requires
            0 <= m,
            -m <= a <= m,
            -m <= b <= m,
    ;
}

pub proof fn lemma_dot_self_nonneg(a: IV3)
    ensures
        dot3(a, a) >= 0,
{
    assert(a.0 * a.0 >= 0) by (nonlinear_arith);
    assert(a.1 * a.1 >= 0) by (nonlinear_arith);
    assert(a.2 * a.2 >= 0) by (nonlinear_arith);
}

/// The cross product of two vectors is perpendicular to both of them.
pub proof fn lemma_cross_perpendicular(a: IV3, b: IV3)
    ensures
        dot3(cross3(a, b), a) == 0,
        dot3(cross3(a, b), b) == 0,
{
    assert(dot3(cross3(a, b), a) == 0) by (nonlinear_arith);
    assert(dot3(cross3(a, b), b) == 0) by (nonlinear_arith);
}

} // verus!
