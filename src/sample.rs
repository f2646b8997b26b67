use vstd::prelude::*;

verus! {

/// An angle of `num / den` of a full turn.
#[derive(Clone, Copy, Debug, PartialEq, Eq, Structural)]
pub struct Turn {
    pub num: i32,
    pub den: u32,
}

impl Turn {
    /// The angle `num / den` of a full turn.
    pub fn new(num: i32, den: u32) -> (r: Turn)
        ensures
            r == (Turn { num, den }),
    {
        Turn { num, den }
    }
}

/// Where a vertex lies, given the shape's `center` and per-axis `scale`.
#[derive(Clone, Copy, Debug, PartialEq, Eq, Structural)]
pub enum Place {
    /// `center + scale ⊙ (sin θ cos φ, sin θ sin φ, cos θ)` with
    /// inclination `θ` and azimuth `φ`.
    Polar { inclination: Turn, azimuth: Turn },
    /// The polar point at inclination `θ = acos(-1/3)` and the given azimuth:
    /// a base corner of a regular tetrahedron.
    TetraBase { azimuth: Turn },
    /// The polar point at a quarter turn of inclination (on the equator),
    /// raised along z by `lift * scale.z / 2`.
    Rim { azimuth: Turn, lift: i8 },
    /// `center + (0, 0, lift * scale.z / 2)`.
    Hub { lift: i8 },
    /// `(0, 0, scale.z)`, the tip of a tetrahedron; it is not offset by `center`.
    Apex,
    /// `center + (x * scale.x, y * scale.y, z * scale.z)` with signs in
    /// `{-1, 1}`: the corner of the unit cube shifted by `-1/2` on each axis and
    /// stretched by twice the scale.
    Corner { x: i8, y: i8, z: i8 },
}

/// Which way a vertex's normal points.
#[derive(Clone, Copy, Debug, PartialEq, Eq, Structural)]
pub enum Facing {
    /// `(scale / |scale|) ⊙ (sin θ cos φ, sin θ sin φ, cos θ)`: the polar
    /// direction stretched per axis and divided by the length of the whole
    /// scale vector.
    Polar { inclination: Turn, azimuth: Turn },
    /// The constant direction `(x, y, z)`.
    Axis { x: i8, y: i8, z: i8 },
    /// The unit normal `(apex - b1) × (b2 - apex)` of the tetrahedron side
    /// through the base corners `b1` and `b2` at the two azimuths.
    TetraSide { first: Turn, second: Turn },
    /// The unit vector along the midpoint of the two un-raised rim points at
    /// the two azimuths.
    Chord { first: Turn, second: Turn },
}

/// One vertex of a generated solid: where it lies and where its normal points.
#[derive(Clone, Copy, Debug, PartialEq, Eq, Structural)]
pub struct Sample {
    pub place: Place,
    pub facing: Facing,
}

impl Sample {
    pub fn new(place: Place, facing: Facing) -> (r: Sample)
        ensures
            r == (Sample { place, facing }),
    {
        Sample { place, facing }
    }
}

} // verus!
