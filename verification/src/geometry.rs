//! The plain values that the host and the engine exchange: vectors, points,
//! rectangles and colours. Every number in them is a bit pattern.

use vstd::prelude::*;
use crate::scalar::Scalar;

verus! {

/// A point or a direction in space; also a scale, one factor per axis.
#[derive(Clone, Copy, Debug, PartialEq, Eq, Structural)]
pub struct Vector3 {
    pub x: Scalar,
    pub y: Scalar,
    pub z: Scalar,
}

/// A rotation as a quaternion: the vector part in `x`, `y`, `z`, the scalar
/// part in `w`.
#[derive(Clone, Copy, Debug, PartialEq, Eq, Structural)]
pub struct Vector4 {
    pub x: Scalar,
    pub y: Scalar,
    pub z: Scalar,
    pub w: Scalar,
}

/// A position in the viewport, in points.
#[derive(Clone, Copy, Debug, PartialEq, Eq, Structural)]
pub struct Pos2 {
    pub x: Scalar,
    pub y: Scalar,
}

/// A rectangle in the viewport, by two opposite corners.
#[derive(Clone, Copy, Debug, PartialEq, Eq, Structural)]
pub struct Rect {
    pub min: Pos2,
    pub max: Pos2,
}

/// An opaque colour with eight bits for each of red, green and blue.
#[derive(Clone, Copy, Debug, PartialEq, Eq, Structural)]
pub struct Rgb {
    pub r: u8,
    pub g: u8,
    pub b: u8,
}

/// A colour with transparency, its four channels as numbers from zero to
/// one.
#[derive(Clone, Copy, Debug, PartialEq, Eq, Structural)]
pub struct Rgba {
    pub r: Scalar,
    pub g: Scalar,
    pub b: Scalar,
    pub a: Scalar,
}

impl Vector3 {
    /// The vector with the given components.
    pub fn new(x: Scalar, y: Scalar, z: Scalar) -> (v: Vector3)
        ensures
            v == (Vector3 { x, y, z }),
    {
        Vector3 { x, y, z }
    }

    /// The vector whose components are all positive zero.
    pub fn zero() -> (v: Vector3)
        ensures
            v.x.bits == 0,
            v.y.bits == 0,
            v.z.bits == 0,
    {
        Vector3 { x: Scalar::zero(), y: Scalar::zero(), z: Scalar::zero() }
    }
}

impl Vector4 {
    /// The vector with the given components.
    pub fn new(x: Scalar, y: Scalar, z: Scalar, w: Scalar) -> (v: Vector4)
        ensures
            v == (Vector4 { x, y, z, w }),
    {
        Vector4 { x, y, z, w }
    }

    /// The vector whose components are all positive zero.
    pub fn zero() -> (v: Vector4)
        ensures
            v.x.bits == 0,
            v.y.bits == 0,
            v.z.bits == 0,
            v.w.bits == 0,
    {
        Vector4 { x: Scalar::zero(), y: Scalar::zero(), z: Scalar::zero(), w: Scalar::zero() }
    }
}

impl Rect {
    /// The rectangle from the origin to the point `(width, height)`.
    pub open spec fn from_size_spec(width: Scalar, height: Scalar) -> Rect {
        Rect {
            min: Pos2 { x: Scalar { bits: 0 }, y: Scalar { bits: 0 } },
            max: Pos2 { x: width, y: height },
        }
    }

    /// The rectangle from the origin to the point `(width, height)`.
    pub fn from_size(width: Scalar, height: Scalar) -> (rect: Rect)
        ensures
            rect == Rect::from_size_spec(width, height),
    {
        Rect {
            min: Pos2 { x: Scalar::zero(), y: Scalar::zero() },
            max: Pos2 { x: width, y: height },
        }
    }
}

/// The low eight bits of a channel that the host reports as an integer.
pub open spec fn channel_of(value: int) -> int {
    value % 256
}

impl Rgb {
    /// The colour with the given channels.
    pub fn new(r: u8, g: u8, b: u8) -> (colour: Rgb)
        ensures
            colour == (Rgb { r, g, b }),
    {
        Rgb { r, g, b }
    }

    /// The colour whose channels are the low eight bits of the three
    /// integers; a channel within `0..=255` is kept as it is.
    pub fn from_channels(red: i32, green: i32, blue: i32) -> (colour: Rgb)
        ensures
            colour.r == channel_of(red as int),
            colour.g == channel_of(green as int),
            colour.b == channel_of(blue as int),
            0 <= red <= 255 ==> colour.r == red,
            0 <= green <= 255 ==> colour.g == green,
            0 <= blue <= 255 ==> colour.b == blue,
    {
        Rgb { r: low_byte(red), g: low_byte(green), b: low_byte(blue) }
    }
}

/// The low eight bits of an integer in two's complement.
fn low_byte(value: i32) -> (byte: u8)
    ensures
        byte == channel_of(value as int),
{
    let byte: u8 = #[verifier::truncate]
    (value as u8);
    assert(value as u8 == (value as int) % 256) by (bit_vector);
    byte
}

} // verus!
