use vstd::prelude::*;

use crate::vec::{
    add3, bounded3, cross3, dot3, fits3, lemma_mul_bound, scale3, small3, sub3, DOT_LIMIT,
    IV3, V3,
};

verus! {

/// A ball given by its center and radius.
#[derive(Clone, Copy, Debug, PartialEq, Eq, Structural)]
pub struct Sphere {
    pub center: V3,
    pub radius: i64,
}

/// A parallelogram spanned by the edges `a` and `b` from the corner `origin`.
#[derive(Clone, Copy, Debug, PartialEq, Eq, Structural)]
pub struct Rhombus {
    pub a: V3,
    pub b: V3,
    pub origin: V3,
}

/// Whether `p` lies strictly inside the parallelogram spanned by `a` and `b`
/// from `o`: the cross products of each edge with the vector from that edge's
/// start to `p` all point the same way.
pub open spec fn inside(o: IV3, a: IV3, b: IV3, p: IV3) -> bool {
    let d = sub3(p, o);
    let c0 = cross3(a, d);
    let c1 = cross3(b, sub3(d, a));
    let c2 = cross3(sub3(d, b), a);
    let c3 = cross3(d, b);
    dot3(c0, c1) > 0 && dot3(c0, c2) > 0 && dot3(c0, c3) > 0
}

/// Vectors between small points stay within four times the coordinate
/// limit, so their cross products fit a machine integer.
proof fn lemma_cross_of_small(a: IV3, b: IV3)
    requires
        bounded3(a, 0x4000_0000),
        bounded3(b, 0x4000_0000),
    ensures
        fits3(cross3(a, b)),
        bounded3(cross3(a, b), DOT_LIMIT as int),
{
    let m = 0x4000_0000int;
    lemma_mul_bound(a.1, b.2, m);
    lemma_mul_bound(a.2, b.1, m);
    lemma_mul_bound(a.2, b.0, m);
    lemma_mul_bound(a.0, b.2, m);
    lemma_mul_bound(a.0, b.1, m);
    lemma_mul_bound(a.1, b.0, m);
}

impl Rhombus {
    /// All corners and edges are small enough for exact containment tests.
    pub open spec fn is_small(&self) -> bool {
        small3(self.origin@) && small3(self.a@) && small3(self.b@)
    }

    /// The four corners, in the order `origin`, `origin + a`, `origin + b`,
    /// `origin + a + b`.
    pub fn polygon(&self) -> (r: [V3; 4])
        requires
            fits3(add3(self.origin@, self.a@)),
            fits3(add3(self.origin@, self.b@)),
            fits3(add3(add3(self.origin@, self.a@), self.b@)),
        ensures
            r[0]@ == self.origin@,
            r[1]@ == add3(self.origin@, self.a@),
            r[2]@ == add3(self.origin@, self.b@),
            r[3]@ == add3(add3(self.origin@, self.a@), self.b@),
    {
        [self.origin, self.origin.add(self.a), self.origin.add(self.b), self.origin.add(self.a).add(self.b)]
    }

    /// Whether `p`, a point of the parallelogram's plane, lies strictly
    /// inside it.
    pub fn has(&self, p: &V3) -> (r: bool)
        requires
            self.is_small(),
            small3(p@),
        ensures
            r == inside(self.origin@, self.a@, self.b@, p@),
    {
        let d = p.sub(self.origin);
        let da = d.sub(self.a);
        let db = d.sub(self.b);
        proof {
            lemma_cross_of_small(self.a@, d@);
            lemma_cross_of_small(self.b@, da@);
            lemma_cross_of_small(db@, self.a@);
            lemma_cross_of_small(d@, self.b@);
        }
        let c0 = self.a.cross(d);
        let c1 = self.b.cross(da);
        let c2 = db.cross(self.a);
        let c3 = d.cross(self.b);
        c0.dot(&c1) > 0 && c0.dot(&c2) > 0 && c0.dot(&c3) > 0
    }
}

proof fn lemma_comb_cross_term(x: int, y: int, xp: int, yp: int, k: int, s: int, t: int)
    ensures
        (x * k) * (y * s + yp * t) - (y * k) * (x * s + xp * t) == (x * yp - y * xp) * (k * t),
        (xp * k) * (y * s + yp * t) - (yp * k) * (x * s + xp * t) == (x * yp - y * xp) * -(k * s),
{
    assert((x * k) * (y * s + yp * t) == (x * k) * (y * s) + (x * k) * (yp * t)) by (nonlinear_arith);
    assert((y * k) * (x * s + xp * t) == (y * k) * (x * s) + (y * k) * (xp * t)) by (nonlinear_arith);
    assert((x * k) * (y * s) == (y * k) * (x * s)) by (nonlinear_arith);
    assert((x * k) * (yp * t) == (x * yp) * (k * t)) by (nonlinear_arith);
    assert((y * k) * (xp * t) == (y * xp) * (k * t)) by (nonlinear_arith);
    assert((x * yp - y * xp) * (k * t) == (x * yp) * (k * t) - (y * xp) * (k * t)) by (nonlinear_arith);
    assert((xp * k) * (y * s + yp * t) == (xp * k) * (y * s) + (xp * k) * (yp * t)) by (nonlinear_arith);
    assert((yp * k) * (x * s + xp * t) == (yp * k) * (x * s) + (yp * k) * (xp * t)) by (nonlinear_arith);
    assert((xp * k) * (yp * t) == (yp * k) * (xp * t)) by (nonlinear_arith);
    assert((xp * k) * (y * s) == (y * xp) * (k * s)) by (nonlinear_arith);
    assert((yp * k) * (x * s) == (x * yp) * (k * s)) by (nonlinear_arith);
    assert((x * yp - y * xp) * -(k * s) == (y * xp) * (k * s) - (x * yp) * (k * s)) by (nonlinear_arith);
}

proof fn lemma_scaled_cross(a: IV3, b: IV3, k: int, s: int, t: int)
    ensures
        cross3(scale3(a, k), add3(scale3(a, s), scale3(b, t))) == scale3(cross3(a, b), k * t),
        cross3(scale3(b, k), add3(scale3(a, s), scale3(b, t))) == scale3(cross3(a, b), -(k * s)),
{
    lemma_comb_cross_term(a.1, a.2, b.1, b.2, k, s, t);
    lemma_comb_cross_term(a.2, a.0, b.2, b.0, k, s, t);
    lemma_comb_cross_term(a.0, a.1, b.0, b.1, k, s, t);
}

proof fn lemma_cross_swap(p: IV3, q: IV3)
    ensures
        cross3(p, q) == scale3(cross3(q, p), -1),
{
    assert(p.1 * q.2 == q.2 * p.1 && p.2 * q.1 == q.1 * p.2) by (nonlinear_arith);
    assert(p.2 * q.0 == q.0 * p.2 && p.0 * q.2 == q.2 * p.0) by (nonlinear_arith);
    assert(p.0 * q.1 == q.1 * p.0 && p.1 * q.0 == q.0 * p.1) by (nonlinear_arith);
}

proof fn lemma_scale_twice(n: IV3, p: int, q: int)
    ensures
        scale3(scale3(n, p), q) == scale3(n, p * q),
{
    assert((n.0 * p) * q == n.0 * (p * q)) by (nonlinear_arith);
    assert((n.1 * p) * q == n.1 * (p * q)) by (nonlinear_arith);
    assert((n.2 * p) * q == n.2 * (p * q)) by (nonlinear_arith);
}

proof fn lemma_square_term(x: int, p: int, q: int)
    ensures
        (x * p) * (x * q) == (p * q) * (x * x),
{
    assert((x * p) * (x * q) == (p * q) * (x * x)) by (nonlinear_arith);
}

proof fn lemma_dot_of_multiples(n: IV3, p: int, q: int)
    requires
        p > 0,
        q > 0,
        n != (0int, 0int, 0int),
    ensures
        dot3(scale3(n, p), scale3(n, q)) > 0,
{
    lemma_square_term(n.0, p, q);
    lemma_square_term(n.1, p, q);
    lemma_square_term(n.2, p, q);
    let pq = p * q;
    assert(pq > 0) by (nonlinear_arith)
        requires
            p > 0,
            q > 0,
            pq == p * q,
    ;
    let m = n.0 * n.0 + n.1 * n.1 + n.2 * n.2;
    assert(m > 0) by (nonlinear_arith)
        requires
            n != (0int, 0int, 0int),
            m == n.0 * n.0 + n.1 * n.1 + n.2 * n.2,
    ;
    assert(pq * (n.0 * n.0) + pq * (n.1 * n.1) + pq * (n.2 * n.2) > 0) by (nonlinear_arith)
        requires
            pq > 0,
            m > 0,
            m == n.0 * n.0 + n.1 * n.1 + n.2 * n.2,
    ;
}

/// Every point `origin + (u/d)·a + (v/d)·b` with `u` and `v` strictly between
/// zero and `d` lies inside a parallelogram whose edges are not parallel; the
/// statement is made on the figure scaled by `d`, so that it stays within the
/// integers.
pub proof fn lemma_interior_point_inside(o: IV3, a: IV3, b: IV3, u: int, v: int, d: int)
    requires
        0 < u < d,
        0 < v < d,
        cross3(a, b) != (0int, 0int, 0int),
    ensures
        inside(
            scale3(o, d),
            scale3(a, d),
            scale3(b, d),
            add3(add3(scale3(o, d), scale3(a, u)), scale3(b, v)),
        ),
{
    let n = cross3(a, b);
    let p = add3(add3(scale3(o, d), scale3(a, u)), scale3(b, v));
    let dd = sub3(p, scale3(o, d));
    assert(dd == add3(scale3(a, u), scale3(b, v)));
    assert(sub3(dd, scale3(a, d)) == add3(scale3(a, u - d), scale3(b, v))) by (nonlinear_arith)
        requires
            dd == add3(scale3(a, u), scale3(b, v)),
    ;
    assert(sub3(dd, scale3(b, d)) == add3(scale3(a, u), scale3(b, v - d))) by (nonlinear_arith)
        requires
            dd == add3(scale3(a, u), scale3(b, v)),
    ;
    let e = sub3(dd, scale3(b, d));
    lemma_scaled_cross(a, b, d, u, v);
    lemma_scaled_cross(a, b, d, u - d, v);
    lemma_scaled_cross(a, b, d, u, v - d);
    lemma_cross_swap(e, scale3(a, d));
    lemma_cross_swap(dd, scale3(b, d));
    lemma_scale_twice(n, d * (v - d), -1);
    lemma_scale_twice(n, -(d * u), -1);
    let k0 = d * v;
    let k1 = -(d * (u - d));
    let k2 = d * (v - d) * -1;
    let k3 = -(d * u) * -1;
    assert(k0 > 0 && k1 > 0 && k2 > 0 && k3 > 0) by (nonlinear_arith)
        requires
            0 < u < d,
            0 < v < d,
            k0 == d * v,
            k1 == -(d * (u - d)),
            k2 == d * (v - d) * -1,
            k3 == -(d * u) * -1,
    ;
    lemma_dot_of_multiples(n, k0, k1);
    lemma_dot_of_multiples(n, k0, k2);
    lemma_dot_of_multiples(n, k0, k3);
}

/// A shape: a primitive, or a group of shapes treated as one.
#[derive(Debug)]
pub enum Figure {
    Sphere(Sphere),
    Rhombus(Rhombus),
    Figures(Vec<Figure>),
}

impl Figure {
    /// Every group holds at least one part, so that a part can be drawn.
    pub open spec fn well_formed(&self) -> bool
        decreases self,
    {
        match self {
            Figure::Figures(fs) => fs.len() > 0 && forall|i: int|
                0 <= i < fs.len() ==> (#[trigger] fs[i]).well_formed(),
            _ => true,
        }
    }

    pub open spec fn is_primitive(&self) -> bool {
        !(self is Figures)
    }

    /// `l` is a primitive that makes up part of this figure.
    pub open spec fn has_primitive(&self, l: Figure) -> bool
        decreases self,
    {
        match self {
            Figure::Figures(fs) => exists|i: int|
                0 <= i < fs.len() && (#[trigger] fs[i]).has_primitive(l),
            _ => *self == l,
        }
    }

    /// The box with corner `origin` and edges `a`, `b`, `c`, as its six faces.
    pub fn parallelepiped(origin: V3, a: V3, b: V3, c: V3) -> (r: Figure)
        requires
            fits3(add3(origin@, a@)),
            fits3(add3(origin@, b@)),
            fits3(add3(origin@, c@)),
        ensures
            r matches Figure::Figures(fs) && fs@.len() == 6 && fs@[0] == Figure::Rhombus(
                Rhombus { origin, a, b },
            ) && fs@[1] == Figure::Rhombus(Rhombus { origin, a, b: c }) && fs@[2]
                == Figure::Rhombus(Rhombus { origin, a: b, b: c }) && (fs@[3] matches Figure::Rhombus(
                f,
            ) && f.origin@ == add3(origin@, a@) && f.a == b && f.b == c) && (fs@[4] matches Figure::Rhombus(
                f,
            ) && f.origin@ == add3(origin@, b@) && f.a == a && f.b == c) && (fs@[5] matches Figure::Rhombus(
                f,
            ) && f.origin@ == add3(origin@, c@) && f.a == a && f.b == b),
    {
        Figure::Figures(
            vec![
                Figure::Rhombus(Rhombus { origin, a, b }),
                Figure::Rhombus(Rhombus { origin, a, b: c }),
                Figure::Rhombus(Rhombus { origin, a: b, b: c }),
                Figure::Rhombus(Rhombus { origin: origin.add(a), a: b, b: c }),
                Figure::Rhombus(Rhombus { origin: origin.add(b), a, b: c }),
                Figure::Rhombus(Rhombus { origin: origin.add(c), a, b }),
            ],
        )
    }

    /// The part of a group that the draw `draw` selects; each part is
    /// selected by an equal share of all draws, up to one.
    pub fn part_for_draw(parts: &Vec<Figure>, draw: usize) -> (r: &Figure)
        requires
            parts.len() > 0,
        ensures
            *r == parts@[(draw % parts.len()) as int],
    {
        &parts[draw % parts.len()]
    }

    /// A primitive of this figure, drawn at random: a group hands the choice
    /// to one of its parts, each equally likely.
    pub fn choose_primitive(&self) -> (r: &Figure)
        requires
            self.well_formed(),
        ensures
            r.is_primitive(),
            self.has_primitive(*r),
        decreases self,
    {
        match self {
            Figure::Figures(fs) => {
                let draw: usize = rand::random::<usize>();
                let part = Figure::part_for_draw(fs, draw);
                proof {
                    let i = (draw % fs.len()) as int;
                    assert(fs@[i].well_formed());
                    assert(decreases_to!(self => fs@[i])) by {
                        assert(decreases_to!(fs => fs[i]));
                    }
                }
                let r = part.choose_primitive();
                proof {
                    let i = (draw % fs.len()) as int;
                    assert(fs[i].has_primitive(*r));
                }
                r
            },
            _ => self,
        }
    }

    /// Whether every group holds at least one part.
    pub fn check_well_formed(f: &Figure) -> (r: bool)
        ensures
            r == f.well_formed(),
        decreases f,
    {
        match f {
            Figure::Figures(fs) => {
                if fs.len() == 0 {
                    return false;
                }
                let mut i: usize = 0;
                while i < fs.len()
                    invariant
                        *f == Figure::Figures(*fs),
                        i <= fs.len(),
                        forall|j: int| 0 <= j < i ==> (#[trigger] fs@[j]).well_formed(),
                    decreases fs.len() - i,
                {
                    proof {
                        match f {
                            Figure::Figures(g) => {
                                assert(decreases_to!(g => g[i as int]));
                            },
                            _ => {},
                        }
                    }
                    if !Figure::check_well_formed(&fs[i]) {
                        return false;
                    }
                    i = i + 1;
                }
                true
            },
            _ => true,
        }
    }
}

} // verus!
