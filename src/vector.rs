use std::ops::{Add, AddAssign, Mul, MulAssign, Sub, SubAssign};
use vstd::prelude::*;

verus! {

/// A 2 element vector (in the vector v scalar sense).
#[derive(Debug, Clone, Copy, PartialEq, Eq, Structural)]
pub struct Vector2<T> {
    pub x: T,
    pub y: T,
}

/// A 3 element vector (in the vector v scalar sense).
#[derive(Debug, Clone, Copy, PartialEq, Eq, Structural)]
pub struct Vector3<T> {
    pub x: T,
    pub y: T,
    pub z: T,
}

/// Whether `v` fits in an `i32`.
pub open spec fn fits_i32(v: int) -> bool {
    i32::MIN <= v <= i32::MAX
}

impl Vector2<i32> {
    /// Coordinate-wise sum.
    pub open spec fn plus(self, rhs: Self) -> Self {
        Vector2 { x: (self.x + rhs.x) as i32, y: (self.y + rhs.y) as i32 }
    }

}

impl Default for Vector2<i32> {
    fn default() -> (r: Self)
        ensures
            r.x == 0,
            r.y == 0,
    {
        Vector2 { x: 0, y: 0 }
    }
}

impl vstd::std_specs::ops::AddSpecImpl for Vector2<i32> {
    open spec fn obeys_add_spec() -> bool {
        true
    }

    open spec fn add_req(self, rhs: Self) -> bool {
        fits_i32(self.x + rhs.x) && fits_i32(self.y + rhs.y)
    }

    open spec fn add_spec(self, rhs: Self) -> Self {
        Vector2 { x: (self.x + rhs.x) as i32, y: (self.y + rhs.y) as i32 }
    }
}

impl Add for Vector2<i32> {
    type Output = Vector2<i32>;

    fn add(self, rhs: Self) -> (r: Self::Output) {
        Vector2 { x: self.x + rhs.x, y: self.y + rhs.y }
    }
}

impl AddAssign for Vector2<i32> {
    /// Applies `+` coordinate-wise, wrapping on overflow.
    fn add_assign(&mut self, rhs: Self)
        ensures
            final(self).x == old(self).x.wrapping_add(rhs.x),
            final(self).y == old(self).y.wrapping_add(rhs.y),
    {
        self.x = self.x.wrapping_add(rhs.x);
        self.y = self.y.wrapping_add(rhs.y);
    }
}

impl vstd::std_specs::ops::SubSpecImpl for Vector2<i32> {
    open spec fn obeys_sub_spec() -> bool {
        true
    }

    open spec fn sub_req(self, rhs: Self) -> bool {
        fits_i32(self.x - rhs.x) && fits_i32(self.y - rhs.y)
    }

    open spec fn sub_spec(self, rhs: Self) -> Self {
        Vector2 { x: (self.x - rhs.x) as i32, y: (self.y - rhs.y) as i32 }
    }
}

impl Sub for Vector2<i32> {
    type Output = Vector2<i32>;

    fn sub(self, rhs: Self) -> (r: Self::Output) {
        Vector2 { x: self.x - rhs.x, y: self.y - rhs.y }
    }
}

impl SubAssign for Vector2<i32> {
    /// Applies `-` coordinate-wise, wrapping on overflow.
    fn sub_assign(&mut self, rhs: Self)
        ensures
            final(self).x == old(self).x.wrapping_sub(rhs.x),
            final(self).y == old(self).y.wrapping_sub(rhs.y),
    {
        self.x = self.x.wrapping_sub(rhs.x);
        self.y = self.y.wrapping_sub(rhs.y);
    }
}

impl vstd::std_specs::ops::MulSpecImpl<i32> for Vector2<i32> {
    open spec fn obeys_mul_spec() -> bool {
        true
    }

    open spec fn mul_req(self, rhs: i32) -> bool {
        fits_i32(self.x * rhs) && fits_i32(self.y * rhs)
    }

    open spec fn mul_spec(self, rhs: i32) -> Self {
        Vector2 { x: (self.x * rhs) as i32, y: (self.y * rhs) as i32 }
    }
}

impl Mul<i32> for Vector2<i32> {
    type Output = Vector2<i32>;

    fn mul(self, rhs: i32) -> (r: Self::Output) {
        Vector2 { x: self.x * rhs, y: self.y * rhs }
    }
}

impl MulAssign<i32> for Vector2<i32> {
    /// Applies `*` coordinate-wise, wrapping on overflow.
    fn mul_assign(&mut self, rhs: i32)
        ensures
            final(self).x == old(self).x.wrapping_mul(rhs),
            final(self).y == old(self).y.wrapping_mul(rhs),
    {
        self.x = self.x.wrapping_mul(rhs);
        self.y = self.y.wrapping_mul(rhs);
    }
}

impl Vector3<i32> {
    /// Coordinate-wise sum.
    pub open spec fn plus(self, rhs: Self) -> Self {
        Vector3 { x: (self.x + rhs.x) as i32, y: (self.y + rhs.y) as i32, z: (self.z + rhs.z) as i32 }
    }

}

impl Default for Vector3<i32> {
    fn default() -> (r: Self)
        ensures
            r.x == 0,
            r.y == 0,
            r.z == 0,
    {
        Vector3 { x: 0, y: 0, z: 0 }
    }
}

impl vstd::std_specs::ops::AddSpecImpl for Vector3<i32> {
    open spec fn obeys_add_spec() -> bool {
        true
    }

    open spec fn add_req(self, rhs: Self) -> bool {
        fits_i32(self.x + rhs.x) && fits_i32(self.y + rhs.y) && fits_i32(self.z + rhs.z)
    }

    open spec fn add_spec(self, rhs: Self) -> Self {
        Vector3 { x: (self.x + rhs.x) as i32, y: (self.y + rhs.y) as i32, z: (self.z + rhs.z) as i32 }
    }
}

impl Add for Vector3<i32> {
    type Output = Vector3<i32>;

    fn add(self, rhs: Self) -> (r: Self::Output) {
        Vector3 { x: self.x + rhs.x, y: self.y + rhs.y, z: self.z + rhs.z }
    }
}

impl AddAssign for Vector3<i32> {
    /// Applies `+` coordinate-wise, wrapping on overflow.
    fn add_assign(&mut self, rhs: Self)
        ensures
            final(self).x == old(self).x.wrapping_add(rhs.x),
            final(self).y == old(self).y.wrapping_add(rhs.y),
            final(self).z == old(self).z.wrapping_add(rhs.z),
    {
        self.x = self.x.wrapping_add(rhs.x);
        self.y = self.y.wrapping_add(rhs.y);
        self.z = self.z.wrapping_add(rhs.z);
    }
}

impl vstd::std_specs::ops::SubSpecImpl for Vector3<i32> {
    open spec fn obeys_sub_spec() -> bool {
        true
    }

    open spec fn sub_req(self, rhs: Self) -> bool {
        fits_i32(self.x - rhs.x) && fits_i32(self.y - rhs.y) && fits_i32(self.z - rhs.z)
    }

    open spec fn sub_spec(self, rhs: Self) -> Self {
        Vector3 { x: (self.x - rhs.x) as i32, y: (self.y - rhs.y) as i32, z: (self.z - rhs.z) as i32 }
    }
}

impl Sub for Vector3<i32> {
    type Output = Vector3<i32>;

    fn sub(self, rhs: Self) -> (r: Self::Output) {
        Vector3 { x: self.x - rhs.x, y: self.y - rhs.y, z: self.z - rhs.z }
    }
}

impl SubAssign for Vector3<i32> {
    /// Applies `-` coordinate-wise, wrapping on overflow.
    fn sub_assign(&mut self, rhs: Self)
        ensures
            final(self).x == old(self).x.wrapping_sub(rhs.x),
            final(self).y == old(self).y.wrapping_sub(rhs.y),
            final(self).z == old(self).z.wrapping_sub(rhs.z),
    {
        self.x = self.x.wrapping_sub(rhs.x);
        self.y = self.y.wrapping_sub(rhs.y);
        self.z = self.z.wrapping_sub(rhs.z);
    }
}

impl vstd::std_specs::ops::MulSpecImpl<i32> for Vector3<i32> {
    open spec fn obeys_mul_spec() -> bool {
        true
    }

    open spec fn mul_req(self, rhs: i32) -> bool {
        fits_i32(self.x * rhs) && fits_i32(self.y * rhs) && fits_i32(self.z * rhs)
    }

    open spec fn mul_spec(self, rhs: i32) -> Self {
        Vector3 { x: (self.x * rhs) as i32, y: (self.y * rhs) as i32, z: (self.z * rhs) as i32 }
    }
}

impl Mul<i32> for Vector3<i32> {
    type Output = Vector3<i32>;

    fn mul(self, rhs: i32) -> (r: Self::Output) {
        Vector3 { x: self.x * rhs, y: self.y * rhs, z: self.z * rhs }
    }
}

impl MulAssign<i32> for Vector3<i32> {
    /// Applies `*` coordinate-wise, wrapping on overflow.
    fn mul_assign(&mut self, rhs: i32)
        ensures
            final(self).x == old(self).x.wrapping_mul(rhs),
            final(self).y == old(self).y.wrapping_mul(rhs),
            final(self).z == old(self).z.wrapping_mul(rhs),
    {
        self.x = self.x.wrapping_mul(rhs);
        self.y = self.y.wrapping_mul(rhs);
        self.z = self.z.wrapping_mul(rhs);
    }
}

} // verus!
