//! Quantized font sizes.
//!
//! A point size is stored as a signed 16-bit count of half points (the point
//! size scaled by two). Storing an integer keeps sizes hashable and
//! comparable without floating-point instability; conversion from points is
//! lossy by design, with half-point granularity. Addition saturates at the
//! bounds of the stored integer so that cumulative size arithmetic can never
//! wrap into a nonsensical size; multiplication deliberately does not
//! saturate, a documented asymmetry of this data model that is kept as it is.

use vstd::prelude::*;

verus! {

/// Font size stored as an integer count of half points.
#[derive(Debug, Copy, Clone, Hash, PartialEq, Eq, PartialOrd, Ord, Structural)]
pub struct Size(i16);

/// Clamp a mathematical value to the range of the stored 16-bit integer.
pub open spec fn saturate(v: int) -> int {
    if v > i16::MAX as int {
        i16::MAX as int
    } else if v < i16::MIN as int {
        i16::MIN as int
    } else {
        v
    }
}

impl Size {
    /// The stored count of half points.
    pub closed spec fn spec_half_points(self) -> int {
        self.0 as int
    }

    /// Create a `Size` from a count of half points (the point size times two).
    pub fn from_half_points(half_points: i16) -> (r: Size)
        ensures
            r.spec_half_points() == half_points as int,
    {
        Size(half_points)
    }

    /// The stored count of half points; the point size is half of this.
    pub fn half_points(self) -> (r: i16)
        ensures
            r as int == self.spec_half_points(),
    {
        self.0
    }

    /// Add two sizes, saturating at the bounds of the stored integer.
    pub fn add(self, other: Size) -> (r: Size)
        ensures
            r.spec_half_points() == saturate(
                self.spec_half_points() + other.spec_half_points(),
            ),
    {
        let sum: i32 = self.0 as i32 + other.0 as i32;
        if sum > i16::MAX as i32 {
            Size(i16::MAX)
        } else if sum < i16::MIN as i32 {
            Size(i16::MIN)
        } else {
            Size(sum as i16)
        }
    }

    /// Multiply two sizes. Unlike `add`, multiplication does not saturate:
    /// the product must fit in the stored integer.
    pub fn mul(self, other: Size) -> (r: Size)
        requires
            i16::MIN as int <= self.spec_half_points() * other.spec_half_points(),
            self.spec_half_points() * other.spec_half_points() <= i16::MAX as int,
        ensures
            r.spec_half_points() == self.spec_half_points() * other.spec_half_points(),
    {
        Size(self.0 * other.0)
    }
}

/// Two sizes are equal exactly when they store the same count of half points.
pub proof fn lemma_size_eq(a: Size, b: Size)
    ensures
        (a == b) <==> (a.spec_half_points() == b.spec_half_points()),
{
}

/// Saturating addition pins the top of the range: a size already holding the
/// maximum representable value plus any positive size yields the maximum
/// again, never a wrapped (negative) size.
pub proof fn lemma_add_saturates_at_max(a: Size, b: Size)
    requires
        a.spec_half_points() == i16::MAX as int,
        b.spec_half_points() > 0,
    ensures
        saturate(a.spec_half_points() + b.spec_half_points()) == i16::MAX as int,
{
}

} // verus!
