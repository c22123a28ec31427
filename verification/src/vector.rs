//! Small fixed-size vectors, laid out as the shader expects them.

use vstd::prelude::*;
use crate::utils::{i32_bits, i32_from_bits};

verus! {

/// A 4D vector of 32-bit signed integers.
#[derive(Debug, Copy, Clone, PartialEq, Eq, Structural)]
pub struct IntVector4 {
    pub x: i32,
    pub y: i32,
    pub z: i32,
    pub w: i32,
}

/// A 3D vector of 32-bit signed integers.
#[derive(Debug, Copy, Clone, PartialEq, Eq, Structural)]
pub struct IntVector3 {
    pub x: i32,
    pub y: i32,
    pub z: i32,
}

/// A 2D vector of 32-bit signed integers.
#[derive(Debug, Copy, Clone, PartialEq, Eq, Structural)]
pub struct IntVector2 {
    pub x: i32,
    pub y: i32,
}

/// A 2D vector of 32-bit unsigned integers, used for resolutions in pixels.
#[derive(Debug, Copy, Clone, PartialEq, Eq, Structural)]
pub struct UIntVector2 {
    pub x: u32,
    pub y: u32,
}

/// A 2D vector of single-precision numbers, each held as its IEEE-754 bit
/// pattern.
#[derive(Debug, Copy, Clone, PartialEq, Eq, Structural)]
pub struct BitsVector2 {
    pub x: u32,
    pub y: u32,
}

/// A 4D vector of single-precision numbers, each held as its IEEE-754 bit
/// pattern.
#[derive(Debug, Copy, Clone, PartialEq, Eq, Structural)]
pub struct BitsVector4 {
    pub x: u32,
    pub y: u32,
    pub z: u32,
    pub w: u32,
}

impl IntVector4 {
    pub fn new(x: i32, y: i32, z: i32, w: i32) -> (v: IntVector4)
        ensures
            v == (IntVector4 { x, y, z, w }),
    {
        IntVector4 { x, y, z, w }
    }

    pub fn zero() -> (v: IntVector4)
        ensures
            v == (IntVector4 { x: 0, y: 0, z: 0, w: 0 }),
    {
        IntVector4 { x: 0, y: 0, z: 0, w: 0 }
    }
}

impl IntVector3 {
    pub fn new(x: i32, y: i32, z: i32) -> (v: IntVector3)
        ensures
            v == (IntVector3 { x, y, z }),
    {
        IntVector3 { x, y, z }
    }

    pub fn zero() -> (v: IntVector3)
        ensures
            v == (IntVector3 { x: 0, y: 0, z: 0 }),
    {
        IntVector3 { x: 0, y: 0, z: 0 }
    }
}

impl IntVector2 {
    pub fn new(x: i32, y: i32) -> (v: IntVector2)
        ensures
            v == (IntVector2 { x, y }),
    {
        IntVector2 { x, y }
    }

    pub fn zero() -> (v: IntVector2)
        ensures
            v == (IntVector2 { x: 0, y: 0 }),
    {
        IntVector2 { x: 0, y: 0 }
    }
}

impl IntVector2 {
    /// The vector with each component read as an unsigned number of the
    /// same bit pattern.
    pub open spec fn spec_to_unsigned(self) -> UIntVector2 {
        UIntVector2 { x: i32_bits(self.x), y: i32_bits(self.y) }
    }

    /// The vector with each component read as an unsigned number of the
    /// same bit pattern: a negative component comes out above `i32::MAX`.
    pub fn to_unsigned(self) -> (v: UIntVector2)
        ensures
            v == self.spec_to_unsigned(),
    {
        UIntVector2 {
            x: crate::utils::bits_of_signed(self.x),
            y: crate::utils::bits_of_signed(self.y),
        }
    }
}

impl UIntVector2 {
    pub fn new(x: u32, y: u32) -> (v: UIntVector2)
        ensures
            v == (UIntVector2 { x, y }),
    {
        UIntVector2 { x, y }
    }

    pub fn zero() -> (v: UIntVector2)
        ensures
            v == (UIntVector2 { x: 0, y: 0 }),
    {
        UIntVector2 { x: 0, y: 0 }
    }

    /// The vector with each component read as a signed number of the same
    /// bit pattern.
    pub open spec fn spec_to_signed(self) -> IntVector2 {
        IntVector2 { x: i32_from_bits(self.x), y: i32_from_bits(self.y) }
    }

    /// The vector with each component read as a signed number of the same
    /// bit pattern: a component above `i32::MAX` comes out negative.
    pub fn to_signed(self) -> (v: IntVector2)
        ensures
            v == self.spec_to_signed(),
    {
        IntVector2 {
            x: crate::utils::signed_from_bits(self.x),
            y: crate::utils::signed_from_bits(self.y),
        }
    }
}

impl BitsVector2 {
    pub fn new(x: u32, y: u32) -> (v: BitsVector2)
        ensures
            v == (BitsVector2 { x, y }),
    {
        BitsVector2 { x, y }
    }

    /// Both components positive zero, whose bit pattern is zero.
    pub fn zero() -> (v: BitsVector2)
        ensures
            v == (BitsVector2 { x: 0, y: 0 }),
    {
        BitsVector2 { x: 0, y: 0 }
    }
}

impl BitsVector4 {
    pub fn new(x: u32, y: u32, z: u32, w: u32) -> (v: BitsVector4)
        ensures
            v == (BitsVector4 { x, y, z, w }),
    {
        BitsVector4 { x, y, z, w }
    }

    /// All components positive zero, whose bit pattern is zero.
    pub fn zero() -> (v: BitsVector4)
        ensures
            v == (BitsVector4 { x: 0, y: 0, z: 0, w: 0 }),
    {
        BitsVector4 { x: 0, y: 0, z: 0, w: 0 }
    }
}

} // verus!
