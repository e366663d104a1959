//! Plain value types shared by the scene state: layout geometry and colors.
//!
//! The scene core never performs arithmetic on these values. It stores them,
//! compares whole update sets for structural equality, and hands them back
//! out to the frame builder. Each 32-bit float entry is therefore kept as the
//! raw bit pattern of its encoding, which makes storage and comparison exact.

use vstd::prelude::*;

verus! {

/// The raw bit pattern of one 32-bit float scalar, for example an animated
/// opacity value. Callers convert with `f32::to_bits` / `f32::from_bits` at
/// the boundary.
pub type FloatBits = u32;

/// A 4x4 homogeneous transform in layout space, row-major. Every entry is the
/// bit pattern of its 32-bit float value.
#[derive(Clone, Copy, Debug, PartialEq, Eq, Structural)]
pub struct LayoutTransform {
    pub m11: FloatBits,
    pub m12: FloatBits,
    pub m13: FloatBits,
    pub m14: FloatBits,
    pub m21: FloatBits,
    pub m22: FloatBits,
    pub m23: FloatBits,
    pub m24: FloatBits,
    pub m31: FloatBits,
    pub m32: FloatBits,
    pub m33: FloatBits,
    pub m34: FloatBits,
    pub m41: FloatBits,
    pub m42: FloatBits,
    pub m43: FloatBits,
    pub m44: FloatBits,
}

/// A size in layout space; width and height are bit patterns of 32-bit float
/// values.
#[derive(Clone, Copy, Debug, PartialEq, Eq, Structural)]
pub struct LayoutSize {
    pub width: FloatBits,
    pub height: FloatBits,
}

/// An RGBA color whose four 32-bit float channels are kept as bit patterns.
#[derive(Clone, Copy, Debug, PartialEq, Eq, Structural)]
pub struct ColorF {
    pub r: FloatBits,
    pub g: FloatBits,
    pub b: FloatBits,
    pub a: FloatBits,
}

} // verus!
