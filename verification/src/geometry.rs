//! Two-dimensional points.

use vstd::prelude::*;

verus! {

/// A point in 2D space.
#[derive(Debug, Clone, Copy, PartialEq, Eq, Default, Structural)]
pub struct Point2<T> {
    /// The x coordinate.
    pub x: T,
    /// The y coordinate.
    pub y: T,
}

impl<T> Point2<T> {
    /// Creates a point from its coordinates.
    pub fn new(x: T, y: T) -> (r: Point2<T>)
        ensures
            r == (Point2 { x, y }),
    {
        Point2 { x, y }
    }

    /// Sets the x coordinate.
    pub fn set_x(&mut self, x: T)
        ensures
            final(self).x == x,
            final(self).y == old(self).y,
    {
        self.x = x;
    }

    /// Sets the y coordinate.
    pub fn set_y(&mut self, y: T)
        ensures
            final(self).x == old(self).x,
            final(self).y == y,
    {
        self.y = y;
    }
}

impl<T: Copy> Point2<T> {
    /// The x coordinate.
    pub fn x(&self) -> (r: T)
        ensures
            r == self.x,
    {
        self.x
    }

    /// The y coordinate.
    pub fn y(&self) -> (r: T)
        ensures
            r == self.y,
    {
        self.y
    }
}

/// Whether `v` fits an `i16`.
pub open spec fn fits_i16(v: int) -> bool {
    i16::MIN <= v <= i16::MAX
}

impl core::ops::Add for Point2<i16> {
    type Output = Point2<i16>;

    fn add(self, rhs: Point2<i16>) -> (r: Point2<i16>) {
        Point2 { x: self.x + rhs.x, y: self.y + rhs.y }
    }
}

impl vstd::std_specs::ops::AddSpecImpl for Point2<i16> {
    open spec fn obeys_add_spec() -> bool {
        true
    }

    open spec fn add_req(self, rhs: Point2<i16>) -> bool {
        fits_i16(self.x + rhs.x) && fits_i16(self.y + rhs.y)
    }

    open spec fn add_spec(self, rhs: Point2<i16>) -> Point2<i16> {
        Point2 { x: (self.x + rhs.x) as i16, y: (self.y + rhs.y) as i16 }
    }
}

impl core::ops::Sub for Point2<i16> {
    type Output = Point2<i16>;

    fn sub(self, rhs: Point2<i16>) -> (r: Point2<i16>) {
        Point2 { x: self.x - rhs.x, y: self.y - rhs.y }
    }
}

impl vstd::std_specs::ops::SubSpecImpl for Point2<i16> {
    open spec fn obeys_sub_spec() -> bool {
        true
    }

    open spec fn sub_req(self, rhs: Point2<i16>) -> bool {
        fits_i16(self.x - rhs.x) && fits_i16(self.y - rhs.y)
    }

    open spec fn sub_spec(self, rhs: Point2<i16>) -> Point2<i16> {
        Point2 { x: (self.x - rhs.x) as i16, y: (self.y - rhs.y) as i16 }
    }
}

impl core::ops::Mul<i16> for Point2<i16> {
    type Output = Point2<i16>;

    fn mul(self, rhs: i16) -> (r: Point2<i16>) {
        Point2 { x: self.x * rhs, y: self.y * rhs }
    }
}

impl vstd::std_specs::ops::MulSpecImpl<i16> for Point2<i16> {
    open spec fn obeys_mul_spec() -> bool {
        true
    }

    open spec fn mul_req(self, rhs: i16) -> bool {
        fits_i16(self.x * rhs) && fits_i16(self.y * rhs)
    }

    open spec fn mul_spec(self, rhs: i16) -> Point2<i16> {
        Point2 { x: (self.x * rhs) as i16, y: (self.y * rhs) as i16 }
    }
}

impl core::ops::Neg for Point2<i16> {
    type Output = Point2<i16>;

    fn neg(self) -> (r: Point2<i16>) {
        Point2 { x: -self.x, y: -self.y }
    }
}

impl vstd::std_specs::ops::NegSpecImpl for Point2<i16> {
    open spec fn obeys_neg_spec() -> bool {
        true
    }

    open spec fn neg_req(self) -> bool {
        self.x != i16::MIN && self.y != i16::MIN
    }

    open spec fn neg_spec(self) -> Point2<i16> {
        Point2 { x: (-self.x) as i16, y: (-self.y) as i16 }
    }
}

impl<T> From<(T, T)> for Point2<T> {
    fn from(t: (T, T)) -> (r: Point2<T>)
        ensures
            r == (Point2 { x: t.0, y: t.1 }),
    {
        Point2 { x: t.0, y: t.1 }
    }
}

impl<T> vstd::std_specs::convert::FromSpecImpl<(T, T)> for Point2<T> {
    open spec fn obeys_from_spec() -> bool {
        true
    }

    open spec fn from_spec(t: (T, T)) -> Point2<T> {
        Point2 { x: t.0, y: t.1 }
    }
}

impl<T: Copy> From<[T; 2]> for Point2<T> {
    fn from(a: [T; 2]) -> (r: Point2<T>)
        ensures
            r == (Point2 { x: a@[0], y: a@[1] }),
    {
        Point2 { x: a[0], y: a[1] }
    }
}

impl<T: Copy> vstd::std_specs::convert::FromSpecImpl<[T; 2]> for Point2<T> {
    open spec fn obeys_from_spec() -> bool {
        true
    }

    open spec fn from_spec(a: [T; 2]) -> Point2<T> {
        Point2 { x: a@[0], y: a@[1] }
    }
}

/// Adding a point and then subtracting it gives back the first point, when
/// nothing overflows.
pub proof fn lemma_add_sub_inverse(p: Point2<i16>, q: Point2<i16>)
    requires
        fits_i16(p.x + q.x),
        fits_i16(p.y + q.y),
    ensures
        ({
            let s = Point2 { x: (p.x + q.x) as i16, y: (p.y + q.y) as i16 };
            fits_i16(s.x - q.x) && fits_i16(s.y - q.y) && (Point2 {
                x: (s.x - q.x) as i16,
                y: (s.y - q.y) as i16,
            }) == p
        }),
{
}

} // verus!
