//! The settings of a cubic Bezier curve item.

use vstd::prelude::*;

verus! {

/// The bit pattern of zero in double precision.
pub const ZERO: u64 = 0;

/// The bit pattern of one in double precision.
pub const ONE: u64 = 0x3FF0_0000_0000_0000;

/// A point of the unit square's plane. Each coordinate is an IEEE-754
/// binary64 number, held by its bit pattern.
#[derive(Clone, Copy, Debug, PartialEq, Eq, Structural)]
pub struct PointF {
    pub x: u64,
    pub y: u64,
}

impl PointF {
    /// The point with the given coordinates.
    pub fn new(x: u64, y: u64) -> (point: PointF)
        ensures
            point == (PointF { x, y }),
    {
        PointF { x, y }
    }
}

/// The state of a curve item: the four control points, relative to the
/// item's size, and the number of segments that the curve is drawn with.
#[derive(Clone, Copy, Debug, PartialEq, Eq, Structural)]
pub struct BezierCurveRust {
    pub p1: PointF,
    pub p2: PointF,
    pub p3: PointF,
    pub p4: PointF,
    pub segment_count: i32,
}

impl Default for BezierCurveRust {
    /// The curve through the corners of the unit square, from the origin to
    /// the opposite corner, in 32 segments.
    fn default() -> (curve: Self)
        ensures
            curve == (BezierCurveRust {
                p1: PointF { x: ZERO, y: ZERO },
                p2: PointF { x: ONE, y: ZERO },
                p3: PointF { x: ZERO, y: ONE },
                p4: PointF { x: ONE, y: ONE },
                segment_count: 32,
            }),
    {
        BezierCurveRust {
            p1: PointF::new(ZERO, ZERO),
            p2: PointF::new(ONE, ZERO),
            p3: PointF::new(ZERO, ONE),
            p4: PointF::new(ONE, ONE),
            segment_count: 32,
        }
    }
}

} // verus!
