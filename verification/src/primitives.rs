//! Plain payload types: numbers held by their bit patterns, and identifiers.
//!
//! A 64-bit floating-point number is kept as its IEEE 754 bit pattern. Two
//! numbers are the same value here exactly when their bit patterns agree, so a
//! not-a-number payload equals itself and positive and negative zero differ.

use vstd::prelude::*;

verus! {

/// Bit pattern of the number one.
pub const ONE_BITS: u64 = 0x3FF0_0000_0000_0000;

/// A 64-bit floating-point number, held as its bit pattern.
#[derive(Clone, Copy, Debug, PartialEq, Eq, Structural)]
pub struct FloatBits {
    pub bits: u64,
}

impl FloatBits {
    /// The number zero.
    pub open spec fn zero() -> FloatBits {
        FloatBits { bits: 0 }
    }

    /// The number one.
    pub open spec fn one() -> FloatBits {
        FloatBits { bits: ONE_BITS }
    }

    /// Wraps a bit pattern.
    pub fn new(bits: u64) -> (r: FloatBits)
        ensures
            r.bits == bits,
    {
        FloatBits { bits }
    }
}

impl Default for FloatBits {
    fn default() -> (r: FloatBits)
        ensures
            r == FloatBits::zero(),
    {
        FloatBits { bits: 0 }
    }
}

/// A vector of two numbers.
#[derive(Clone, Copy, Debug, PartialEq, Eq, Structural)]
pub struct Vector2 {
    pub x: FloatBits,
    pub y: FloatBits,
}

impl Vector2 {
    /// The vector whose components are both zero.
    pub open spec fn zero() -> Vector2 {
        Vector2 { x: FloatBits::zero(), y: FloatBits::zero() }
    }

    /// The vector with the given components.
    pub fn new(x: FloatBits, y: FloatBits) -> (r: Vector2)
        ensures
            r == (Vector2 { x, y }),
    {
        Vector2 { x, y }
    }
}

impl Default for Vector2 {
    fn default() -> (r: Vector2)
        ensures
            r == Vector2::zero(),
    {
        Vector2 { x: FloatBits { bits: 0 }, y: FloatBits { bits: 0 } }
    }
}

/// A 2x3 affine transform, column by column: the two axes, then the
/// translation.
#[derive(Clone, Copy, Debug, PartialEq, Eq, Structural)]
pub struct Affine2 {
    pub x_axis: Vector2,
    pub y_axis: Vector2,
    pub translation: Vector2,
}

impl Affine2 {
    /// The transform that leaves every point where it is.
    pub open spec fn identity() -> Affine2 {
        Affine2 {
            x_axis: Vector2 { x: FloatBits::one(), y: FloatBits::zero() },
            y_axis: Vector2 { x: FloatBits::zero(), y: FloatBits::one() },
            translation: Vector2::zero(),
        }
    }

    /// The six numbers of the transform in column order.
    pub open spec fn columns(self) -> Seq<FloatBits> {
        seq![
            self.x_axis.x,
            self.x_axis.y,
            self.y_axis.x,
            self.y_axis.y,
            self.translation.x,
            self.translation.y,
        ]
    }

    /// The six numbers of the transform in column order.
    pub fn to_cols_array(&self) -> (r: [FloatBits; 6])
        ensures
            r@ == self.columns(),
    {
        let r = [
            self.x_axis.x,
            self.x_axis.y,
            self.y_axis.x,
            self.y_axis.y,
            self.translation.x,
            self.translation.y,
        ];
        assert(r@ =~= self.columns());
        r
    }
}

impl Default for Affine2 {
    fn default() -> (r: Affine2)
        ensures
            r == Affine2::identity(),
    {
        let zero = FloatBits { bits: 0 };
        let one = FloatBits { bits: ONE_BITS };
        Affine2 {
            x_axis: Vector2 { x: one, y: zero },
            y_axis: Vector2 { x: zero, y: one },
            translation: Vector2 { x: zero, y: zero },
        }
    }
}

/// Identifier of a node of the graph.
#[derive(Clone, Copy, Debug, PartialEq, Eq, Structural)]
pub struct NodeId {
    pub id: u64,
}

/// Identifier of a point of a piece of vector geometry.
#[derive(Clone, Copy, Debug, PartialEq, Eq, Structural)]
pub struct PointId {
    pub id: u64,
}

/// Identifier of a platform surface.
#[derive(Clone, Copy, Debug, PartialEq, Eq, Structural)]
pub struct SurfaceId {
    pub id: u64,
}

/// Handle of the execution environment shared by all evaluations.
#[derive(Clone, Copy, Debug, PartialEq, Eq, Structural)]
pub struct EnvironmentHandle {
    pub id: u64,
}

/// Handle of a texture that lives on the graphics device.
#[derive(Clone, Copy, Debug, PartialEq, Eq, Structural)]
pub struct TextureHandle {
    pub id: u64,
}

/// A value of this type is its own model.
impl View for FloatBits {
    type V = FloatBits;

    open spec fn view(&self) -> FloatBits {
        *self
    }
}

/// A value of this type is its own model.
impl View for Vector2 {
    type V = Vector2;

    open spec fn view(&self) -> Vector2 {
        *self
    }
}

/// A value of this type is its own model.
impl View for Affine2 {
    type V = Affine2;

    open spec fn view(&self) -> Affine2 {
        *self
    }
}

/// A value of this type is its own model.
impl View for NodeId {
    type V = NodeId;

    open spec fn view(&self) -> NodeId {
        *self
    }
}

/// A value of this type is its own model.
impl View for PointId {
    type V = PointId;

    open spec fn view(&self) -> PointId {
        *self
    }
}

} // verus!
