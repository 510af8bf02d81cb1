//! Fixed-point units shared by the whole scene model.
//!
//! Every length, coordinate and magnification is an integer count of
//! `1 / ONE` parts, so that the model is exact and the same on every machine.

use vstd::prelude::*;

verus! {

/// The raw value that stands for `1.0`.
pub const ONE: u32 = 65536;

/// A non-negative magnification: the camera zoom, or the visual scale of an
/// element. `raw / ONE` is the factor.
#[derive(Clone, Copy, Debug, PartialEq, Eq, Structural)]
pub struct Factor {
    pub raw: u32,
}

impl Factor {
    /// The factor `1.0`.
    pub fn identity() -> (f: Factor)
        ensures
            f.raw == ONE,
    {
        Factor { raw: ONE }
    }
}

/// A point or extent in the plane, in fixed-point units.
#[derive(Clone, Copy, Debug, PartialEq, Eq, Structural)]
pub struct Vec2 {
    pub x: i64,
    pub y: i64,
}

/// A point or offset in space, in fixed-point units; `z` orders the layers.
#[derive(Clone, Copy, Debug, PartialEq, Eq, Structural)]
pub struct Vec3 {
    pub x: i64,
    pub y: i64,
    pub z: i64,
}

/// The fixed-point value of a whole number of units.
pub open spec fn spec_whole(units: i32) -> int {
    units as int * ONE as int
}

/// The fixed-point value of a whole number of units.
pub fn whole(units: i32) -> (raw: i64)
    ensures
        raw as int == spec_whole(units),
{
    let one: i64 = ONE as i64;
    assert(one == 65536);
    (units as i64) * one
}

} // verus!
