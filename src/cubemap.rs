//! Cube map face definitions: the six faces, their neighbours along the local
//! U and V axes, their normals, and the opposite/axis relations.
use vstd::prelude::*;

verus! {

/// One of the six faces of a cube map, named by its outward axis and sign.
/// The ordinal of a face is `2 * axis + sign`, so the lowest bit is the sign.
#[derive(Debug, Clone, Copy, PartialEq, Eq, Hash, Structural)]
pub enum CubeFace {
    PositiveX,
    NegativeX,
    PositiveY,
    NegativeY,
    PositiveZ,
    NegativeZ,
}

/// A vector with integer components; used for face normals and axes.
#[derive(Debug, Clone, Copy, PartialEq, Eq, Hash, Structural)]
pub struct IntVector3 {
    pub x: i32,
    pub y: i32,
    pub z: i32,
}

/// The face with the given ordinal (`0..6`).
pub open spec fn face_of(i: nat) -> CubeFace
    recommends
        i < 6,
{
    if i == 0 {
        CubeFace::PositiveX
    } else if i == 1 {
        CubeFace::NegativeX
    } else if i == 2 {
        CubeFace::PositiveY
    } else if i == 3 {
        CubeFace::NegativeY
    } else if i == 4 {
        CubeFace::PositiveZ
    } else {
        CubeFace::NegativeZ
    }
}

impl CubeFace {
    pub open spec fn ord(self) -> nat {
        match self {
            CubeFace::PositiveX => 0,
            CubeFace::NegativeX => 1,
            CubeFace::PositiveY => 2,
            CubeFace::NegativeY => 3,
            CubeFace::PositiveZ => 4,
            CubeFace::NegativeZ => 5,
        }
    }

    /// The face bordering this one across its edge in the +U direction.
    pub open spec fn spec_u_face(self) -> CubeFace {
        match self {
            CubeFace::PositiveX => CubeFace::NegativeZ,
            CubeFace::NegativeX => CubeFace::PositiveZ,
            CubeFace::PositiveY => CubeFace::PositiveX,
            CubeFace::NegativeY => CubeFace::PositiveX,
            CubeFace::PositiveZ => CubeFace::PositiveX,
            CubeFace::NegativeZ => CubeFace::NegativeX,
        }
    }

    /// The face bordering this one across its edge in the +V direction.
    pub open spec fn spec_v_face(self) -> CubeFace {
        match self {
            CubeFace::PositiveX => CubeFace::NegativeY,
            CubeFace::NegativeX => CubeFace::NegativeY,
            CubeFace::PositiveY => CubeFace::PositiveZ,
            CubeFace::NegativeY => CubeFace::NegativeZ,
            CubeFace::PositiveZ => CubeFace::NegativeY,
            CubeFace::NegativeZ => CubeFace::NegativeY,
        }
    }

    /// The face with the sign cleared: the positive face of the same axis.
    pub open spec fn spec_abs(self) -> CubeFace {
        face_of((self.ord() - self.ord() % 2) as nat)
    }

    /// The opposite face: the sign bit toggled.
    pub open spec fn spec_neg(self) -> CubeFace {
        face_of(if self.ord() % 2 == 0 { self.ord() + 1 } else { (self.ord() - 1) as nat })
    }

    /// The outward unit normal, as `(x, y, z)`.
    pub open spec fn spec_normal(self) -> (int, int, int) {
        match self {
            CubeFace::PositiveX => (1, 0, 0),
            CubeFace::NegativeX => (-1, 0, 0),
            CubeFace::PositiveY => (0, 1, 0),
            CubeFace::NegativeY => (0, -1, 0),
            CubeFace::PositiveZ => (0, 0, 1),
            CubeFace::NegativeZ => (0, 0, -1),
        }
    }

    /// Same as `from_ordinal`, for an ordinal known to be valid.
    pub fn from_ordinal_unchecked(i: usize) -> (r: CubeFace)
        requires
            i < 6,
        ensures
            r == face_of(i as nat),
            r.ord() == i,
    {
        if i == 0 {
            CubeFace::PositiveX
        } else if i == 1 {
            CubeFace::NegativeX
        } else if i == 2 {
            CubeFace::PositiveY
        } else if i == 3 {
            CubeFace::NegativeY
        } else if i == 4 {
            CubeFace::PositiveZ
        } else {
            CubeFace::NegativeZ
        }
    }

    /// The face with ordinal `i`, or `None` when `i >= 6`.
    pub fn from_ordinal(i: usize) -> (r: Option<CubeFace>)
        ensures
            r.is_some() <==> i < 6,
            r.is_some() ==> r.unwrap() == face_of(i as nat) && r.unwrap().ord() == i,
    {
        if i < 6 {
            Some(Self::from_ordinal_unchecked(i))
        } else {
            None
        }
    }

    pub fn as_ordinal(&self) -> (r: usize)
        ensures
            r == self.ord(),
            r < 6,
    {
        match self {
            CubeFace::PositiveX => 0,
            CubeFace::NegativeX => 1,
            CubeFace::PositiveY => 2,
            CubeFace::NegativeY => 3,
            CubeFace::PositiveZ => 4,
            CubeFace::NegativeZ => 5,
        }
    }

    pub fn u_face(&self) -> (r: CubeFace)
        ensures
            r == self.spec_u_face(),
    {
        match self {
            CubeFace::PositiveX => CubeFace::NegativeZ,
            CubeFace::NegativeX => CubeFace::PositiveZ,
            CubeFace::PositiveY => CubeFace::PositiveX,
            CubeFace::NegativeY => CubeFace::PositiveX,
            CubeFace::PositiveZ => CubeFace::PositiveX,
            CubeFace::NegativeZ => CubeFace::NegativeX,
        }
    }

    pub fn v_face(&self) -> (r: CubeFace)
        ensures
            r == self.spec_v_face(),
    {
        match self {
            CubeFace::PositiveX => CubeFace::NegativeY,
            CubeFace::NegativeX => CubeFace::NegativeY,
            CubeFace::PositiveY => CubeFace::PositiveZ,
            CubeFace::NegativeY => CubeFace::NegativeZ,
            CubeFace::PositiveZ => CubeFace::NegativeY,
            CubeFace::NegativeZ => CubeFace::NegativeY,
        }
    }

    pub fn normal(&self) -> (r: IntVector3)
        ensures
            (r.x as int, r.y as int, r.z as int) == self.spec_normal(),
    {
        match self {
            CubeFace::PositiveX => IntVector3 { x: 1, y: 0, z: 0 },
            CubeFace::NegativeX => IntVector3 { x: -1, y: 0, z: 0 },
            CubeFace::PositiveY => IntVector3 { x: 0, y: 1, z: 0 },
            CubeFace::NegativeY => IntVector3 { x: 0, y: -1, z: 0 },
            CubeFace::PositiveZ => IntVector3 { x: 0, y: 0, z: 1 },
            CubeFace::NegativeZ => IntVector3 { x: 0, y: 0, z: -1 },
        }
    }

    /// The direction of the local U axis: the normal of the +U neighbour.
    pub fn u_vec(&self) -> (r: IntVector3)
        ensures
            (r.x as int, r.y as int, r.z as int) == self.spec_u_face().spec_normal(),
    {
        self.u_face().normal()
    }

    /// The direction of the local V axis: the normal of the +V neighbour.
    pub fn v_vec(&self) -> (r: IntVector3)
        ensures
            (r.x as int, r.y as int, r.z as int) == self.spec_v_face().spec_normal(),
    {
        self.v_face().normal()
    }

    /// Clears the sign bit of the ordinal.
    pub fn abs(&self) -> (r: CubeFace)
        ensures
            r == self.spec_abs(),
            r.ord() as int == (self.ord() as int) / 2 * 2,
    {
        let o = self.as_ordinal();
        Self::from_ordinal_unchecked(o - o % 2)
    }

    /// Toggles the sign bit of the ordinal.
    pub fn neg(self) -> (r: CubeFace)
        ensures
            r == self.spec_neg(),
    {
        let o = self.as_ordinal();
        if o % 2 == 0 {
            Self::from_ordinal_unchecked(o + 1)
        } else {
            Self::from_ordinal_unchecked(o - 1)
        }
    }
}

/// Topology of the cube is self-consistent: negation is an involution that
/// keeps the axis, and a face, its U neighbour and its V neighbour lie on
/// three different axes (so in particular are three different faces).
pub proof fn lemma_topology(f: CubeFace)
    ensures
        f.spec_neg().spec_neg() == f,
        f.spec_neg().spec_abs() == f.spec_abs(),
        f.spec_neg() != f,
        f.spec_abs().spec_abs() == f.spec_abs(),
        f.spec_u_face().spec_abs() != f.spec_v_face().spec_abs(),
        f.spec_u_face().spec_abs() != f.spec_abs(),
        f.spec_v_face().spec_abs() != f.spec_abs(),
        f.spec_u_face() != f.spec_v_face(),
        f.spec_u_face() != f,
        f.spec_v_face() != f,
{
}

} // verus!
