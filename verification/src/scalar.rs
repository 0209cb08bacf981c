//! Plain carriers for single-precision values.
//!
//! Verified code stores and moves numbers but never does arithmetic on them,
//! so every number is held as its IEEE-754 binary32 bit pattern. Callers
//! convert at the boundary and supply the arithmetic themselves.

use vstd::prelude::*;

verus! {

/// A single-precision number, carried as its IEEE-754 bit pattern.
#[derive(Clone, Copy, Debug, PartialEq, Eq, Structural)]
pub struct Scalar {
    pub bits: u32,
}

/// Bit pattern of `0.0`.
pub const ZERO_BITS: u32 = 0x0000_0000;

/// Bit pattern of `0.5`.
pub const HALF_BITS: u32 = 0x3F00_0000;

/// Bit pattern of `-0.5`.
pub const NEG_HALF_BITS: u32 = 0xBF00_0000;

/// Bit pattern of `1.0`.
pub const ONE_BITS: u32 = 0x3F80_0000;

/// Bit pattern of `2.0`.
pub const TWO_BITS: u32 = 0x4000_0000;

/// The sign bit of a binary32 pattern.
pub const SIGN_BIT: u32 = 0x8000_0000;

impl Scalar {
    /// The pattern with the sign bit cleared.
    pub open spec fn magnitude_bits(self) -> int {
        if self.bits >= SIGN_BIT {
            self.bits - SIGN_BIT
        } else {
            self.bits as int
        }
    }

    /// `-1` when the sign bit is set, `1` otherwise.
    pub open spec fn sign(self) -> int {
        if self.bits >= SIGN_BIT {
            -1
        } else {
            1
        }
    }

    /// Wraps a raw bit pattern.
    pub fn from_bits(bits: u32) -> (s: Scalar)
        ensures
            s.bits == bits,
    {
        Scalar { bits }
    }

    /// The raw bit pattern.
    pub fn to_bits(self) -> (bits: u32)
        ensures
            bits == self.bits,
    {
        self.bits
    }
}

/// Three scalars: a point, a direction or a per-axis factor.
#[derive(Clone, Copy, Debug, PartialEq, Eq, Structural)]
pub struct Vec3 {
    pub x: Scalar,
    pub y: Scalar,
    pub z: Scalar,
}

/// A rotation quaternion, `w` being the real part.
#[derive(Clone, Copy, Debug, PartialEq, Eq, Structural)]
pub struct Quat {
    pub x: Scalar,
    pub y: Scalar,
    pub z: Scalar,
    pub w: Scalar,
}

impl Vec3 {
    /// The vector with every component equal to `value`.
    pub fn splat(value: Scalar) -> (v: Vec3)
        ensures
            v == (Vec3 { x: value, y: value, z: value }),
    {
        Vec3 { x: value, y: value, z: value }
    }
}

impl Quat {
    /// The rotation that turns nothing: `(0, 0, 0, 1)`.
    pub open spec fn spec_identity() -> Quat {
        Quat {
            x: Scalar { bits: ZERO_BITS },
            y: Scalar { bits: ZERO_BITS },
            z: Scalar { bits: ZERO_BITS },
            w: Scalar { bits: ONE_BITS },
        }
    }

    /// The rotation that turns nothing: `(0, 0, 0, 1)`.
    #[verifier::when_used_as_spec(spec_identity)]
    pub fn identity() -> (q: Quat)
        ensures
            q == Quat::spec_identity(),
    {
        Quat {
            x: Scalar { bits: ZERO_BITS },
            y: Scalar { bits: ZERO_BITS },
            z: Scalar { bits: ZERO_BITS },
            w: Scalar { bits: ONE_BITS },
        }
    }
}

/// A 4x4 matrix as sixteen bit patterns in column-major order.
#[derive(Clone, Copy, Debug, PartialEq, Eq)]
pub struct Mat4 {
    pub cols: [u32; 16],
}

/// The sixteen words of the identity matrix: ones on the diagonal.
pub open spec fn identity_words() -> Seq<u32> {
    Seq::new(
        16,
        |i: int|
            if i % 5 == 0 {
                ONE_BITS
            } else {
                ZERO_BITS
            },
    )
}

impl Mat4 {
    /// The matrix that maps every point to itself.
    pub fn identity() -> (m: Mat4)
        ensures
            m.cols@ == identity_words(),
    {
        let o = ONE_BITS;
        let z = ZERO_BITS;
        let m = Mat4 { cols: [o, z, z, z, z, o, z, z, z, z, o, z, z, z, z, o] };
        assert(m.cols@ =~= identity_words());
        m
    }
}

} // verus!
