use vstd::prelude::*;

verus! {

/// `r` is the integer square root of `n`: the largest `r >= 0` with `r * r <= n`.
pub open spec fn is_floor_sqrt(r: int, n: int) -> bool {
    &&& 0 <= r
    &&& r * r <= n
    &&& n < (r + 1) * (r + 1)
}

/// Both coordinate differences `a - b` fit in an `i32`.
pub open spec fn difference_fits(a: Vector, b: Vector) -> bool {
    &&& i32::MIN <= a.x - b.x <= i32::MAX
    &&& i32::MIN <= a.y - b.y <= i32::MAX
}

/// The vector from `b` to `a`, coordinate by coordinate.
pub open spec fn difference(a: Vector, b: Vector) -> Vector {
    Vector { x: (a.x - b.x) as i32, y: (a.y - b.y) as i32 }
}

/// The square of the Euclidean distance between two grid points.
pub open spec fn squared_distance(a: Vector, b: Vector) -> int {
    (a.x - b.x) * (a.x - b.x) + (a.y - b.y) * (a.y - b.y)
}

/// The distance between two points fits the arithmetic of the grid:
/// both coordinate differences and the squared distance fit in an `i32`.
pub open spec fn distance_fits(a: Vector, b: Vector) -> bool {
    &&& difference_fits(a, b)
    &&& squared_distance(a, b) <= i32::MAX
}

/// A point of the game grid.
#[derive(Debug, Clone, Copy, PartialEq, Eq, Structural)]
pub struct Vector {
    pub x: i32,
    pub y: i32,
}

impl Default for Vector {
    fn default() -> (v: Self)
        ensures
            v.x == 0,
            v.y == 0,
    {
        Vector { x: 0, y: 0 }
    }
}

/// The eight points around `c`, clockwise, starting with the one above it.
pub open spec fn spec_all_around(c: Vector) -> Seq<Vector> {
    seq![
        Vector { x: c.x, y: (c.y - 1) as i32 },
        Vector { x: (c.x + 1) as i32, y: (c.y - 1) as i32 },
        Vector { x: (c.x + 1) as i32, y: c.y },
        Vector { x: (c.x + 1) as i32, y: (c.y + 1) as i32 },
        Vector { x: c.x, y: (c.y + 1) as i32 },
        Vector { x: (c.x - 1) as i32, y: (c.y + 1) as i32 },
        Vector { x: (c.x - 1) as i32, y: c.y },
        Vector { x: (c.x - 1) as i32, y: (c.y - 1) as i32 },
    ]
}

/// The point has a neighbour on every side inside the `i32` grid.
pub open spec fn has_all_neighbours(c: Vector) -> bool {
    &&& i32::MIN < c.x < i32::MAX
    &&& i32::MIN < c.y < i32::MAX
}

/// Integer square root of a non-negative `i32`, by bisection.
pub fn isqrt(n: i32) -> (r: i32)
    requires
        n >= 0,
    ensures
        is_floor_sqrt(r as int, n as int),
{
    let mut lo: i64 = 0;
    let mut hi: i64 = 46341;
    assert(46341 * 46341 > i32::MAX) by (nonlinear_arith);
    while hi - lo > 1
        invariant
            0 <= lo < hi <= 46341,
            lo * lo <= n,
            n < hi * hi,
        decreases hi - lo,
    {
        let mid: i64 = lo + (hi - lo) / 2;
        assert(0 <= mid * mid <= 46341 * 46341) by (nonlinear_arith)
            requires
                0 <= mid < 46341,
        ;
        if mid * mid <= n as i64 {
            lo = mid;
        } else {
            hi = mid;
        }
    }
    lo as i32
}

impl Vector {
    pub fn new(x: i32, y: i32) -> (v: Self)
        ensures
            v.x == x,
            v.y == y,
    {
        Self { x, y }
    }

    /// The Euclidean distance to `other`, rounded down.
    pub fn distance_to(&self, other: &Self) -> (d: i32)
        requires
            distance_fits(*self, *other),
        ensures
            is_floor_sqrt(d as int, squared_distance(*self, *other)),
    {
        let difference = core::ops::Sub::sub(self, other);
        let dx: i32 = difference.x;
        let dy: i32 = difference.y;
        assert(0 <= dx * dx <= i32::MAX && 0 <= dy * dy <= i32::MAX) by (nonlinear_arith)
            requires
                dx * dx + dy * dy <= i32::MAX,
        ;
        let mag: i32 = dx * dx + dy * dy;
        isqrt(mag)
    }

    /// The eight neighbouring points, clockwise from the one above.
    pub fn all_around(&self) -> (around: Vec<Self>)
        requires
            has_all_neighbours(*self),
        ensures
            around@ == spec_all_around(*self),
    {
        let around = vec![
            Self::new(self.x, self.y - 1),
            Self::new(self.x + 1, self.y - 1),
            Self::new(self.x + 1, self.y),
            Self::new(self.x + 1, self.y + 1),
            Self::new(self.x, self.y + 1),
            Self::new(self.x - 1, self.y + 1),
            Self::new(self.x - 1, self.y),
            Self::new(self.x - 1, self.y - 1),
        ];
        assert(around@ =~= spec_all_around(*self));
        around
    }
}

impl Vector {
    /// The point as the toolkit's local canvas position: each coordinate cut to 16 bits,
    /// as an `as u16` cast does.
    pub fn to_local_pos(&self) -> (pos: (u16, u16))
        ensures
            pos.0 == self.x as u16,
            pos.1 == self.y as u16,
    {
        (self.x as u16, self.y as u16)
    }
}

impl<'a> core::ops::Sub for &'a Vector {
    type Output = Vector;

    fn sub(self, rhs: Self) -> (diff: Vector) {
        Vector { x: self.x - rhs.x, y: self.y - rhs.y }
    }
}

impl<'a> vstd::std_specs::ops::SubSpecImpl for &'a Vector {
    open spec fn obeys_sub_spec() -> bool {
        true
    }

    open spec fn sub_req(self, rhs: Self) -> bool {
        difference_fits(*self, *rhs)
    }

    open spec fn sub_spec(self, rhs: Self) -> Vector {
        difference(*self, *rhs)
    }
}

/// `p` touches `c`: a different point at most one step away on each axis.
pub open spec fn is_neighbour(c: Vector, p: Vector) -> bool {
    &&& p != c
    &&& -1 <= p.x - c.x <= 1
    &&& -1 <= p.y - c.y <= 1
}

/// The integer square root is unique.
pub proof fn floor_sqrt_is_unique(r1: int, r2: int, n: int)
    requires
        is_floor_sqrt(r1, n),
        is_floor_sqrt(r2, n),
    ensures
        r1 == r2,
{
    if r1 < r2 {
        assert((r1 + 1) * (r1 + 1) <= r2 * r2) by (nonlinear_arith)
            requires
                0 <= r1 < r2,
        ;
    } else if r2 < r1 {
        assert((r2 + 1) * (r2 + 1) <= r1 * r1) by (nonlinear_arith)
            requires
                0 <= r2 < r1,
        ;
    }
}

/// The distance from `a` to `b` is the distance from `b` to `a`.
pub proof fn distance_is_symmetric(a: Vector, b: Vector, d_ab: int, d_ba: int)
    requires
        is_floor_sqrt(d_ab, squared_distance(a, b)),
        is_floor_sqrt(d_ba, squared_distance(b, a)),
    ensures
        d_ab == d_ba,
{
    assert((a.x - b.x) * (a.x - b.x) == (b.x - a.x) * (b.x - a.x)) by (nonlinear_arith);
    assert((a.y - b.y) * (a.y - b.y) == (b.y - a.y) * (b.y - a.y)) by (nonlinear_arith);
    floor_sqrt_is_unique(d_ab, d_ba, squared_distance(a, b));
}

/// A point is at distance zero from itself, and at a positive distance from any other point.
pub proof fn distance_is_zero_exactly_to_itself(a: Vector, b: Vector, d: int)
    requires
        is_floor_sqrt(d, squared_distance(a, b)),
    ensures
        d == 0 <==> a == b,
{
    let dx = a.x - b.x;
    let dy = a.y - b.y;
    assert(dx * dx >= 0 && dy * dy >= 0) by (nonlinear_arith);
    if a != b {
        assert(dx * dx >= 1 || dy * dy >= 1) by (nonlinear_arith)
            requires
                dx != 0 || dy != 0,
        ;
        assert(d != 0);
    } else {
        assert(dx * dx + dy * dy == 0) by (nonlinear_arith)
            requires
                dx == 0,
                dy == 0,
        ;
        assert(d == 0) by (nonlinear_arith)
            requires
                d >= 0,
                d * d <= 0,
        ;
    }
}

/// The points around `c` are exactly its eight neighbours, each listed once.
pub proof fn all_around_is_the_neighbourhood(c: Vector)
    requires
        has_all_neighbours(c),
    ensures
        spec_all_around(c).len() == 8,
        forall|p: Vector| spec_all_around(c).contains(p) <==> is_neighbour(c, p),
        forall|i: int, j: int|
            0 <= i < j < 8 ==> spec_all_around(c)[i] != spec_all_around(c)[j],
{
    let s = spec_all_around(c);
    assert forall|p: Vector| s.contains(p) <==> is_neighbour(c, p) by {
        if is_neighbour(c, p) {
            let k: int = if p.x == c.x {
                if p.y < c.y { 0 } else { 4 }
            } else if p.x > c.x {
                if p.y < c.y { 1 } else if p.y == c.y { 2 } else { 3 }
            } else {
                if p.y > c.y { 5 } else if p.y == c.y { 6 } else { 7 }
            };
            assert(s[k] == p);
        }
        if s.contains(p) {
            let k = choose|k: int| 0 <= k < s.len() && s[k] == p;
            assert(is_neighbour(c, s[k]));
        }
    }
}

/// Taking `b` from `a` gives the opposite of taking `a` from `b`.
pub proof fn difference_is_antisymmetric(a: Vector, b: Vector)
    requires
        difference_fits(a, b),
        difference_fits(b, a),
    ensures
        difference(a, b).x == -difference(b, a).x,
        difference(a, b).y == -difference(b, a).y,
{
}

} // verus!
