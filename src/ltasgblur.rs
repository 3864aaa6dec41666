//! The fixed-point core of a single pass of the linear-time approximate
//! spherical Gaussian blur.
//!
//! A pass blurs every face of a cube map along one of the three axes (its
//! *phase*).  For each output pixel the caller derives, in floating point,
//! where the kernel footprint starts and how far it moves per tap, and
//! converts both to 16.16 fixed point; `directional` and `radial` then
//! decide, tap by tap, which input pixel is sampled: on the face itself, or
//! past its border on the neighbouring face, addressed through `edge_index`.
//! This module holds what both cases share: the border conventions, the
//! check of a pass's parameters and the choice of case for each face.
use vstd::prelude::*;
use crate::cubemap::CubeFace;
use crate::edge::{borders, spec_edge_index};
use crate::directional::{directional_layout, DirectionalLayout};
use crate::radial::{radial_layout, RadialLayout};
use crate::fixed::FIXED_ONE;

verus! {

/// How pixels are placed on a face: decides the border of the face in pixel
/// coordinates.
pub trait CubeMapTrait {
    /// Whether pixel centres lie exactly on the face's edges.
    spec fn spec_edge_stretch(&self) -> bool;

    fn edge_stretch_fixup(&self) -> (r: bool)
        ensures
            r == self.spec_edge_stretch(),
    ;
}

/// Pixel centres at half-integer offsets: the border lies half a pixel
/// outside the outermost pixel centres.
#[derive(Debug, Clone, Copy)]
pub struct StandardCubeMapTrait;

impl CubeMapTrait for StandardCubeMapTrait {
    open spec fn spec_edge_stretch(&self) -> bool {
        false
    }

    fn edge_stretch_fixup(&self) -> (r: bool) {
        false
    }
}

/// Meant for pixel centres lying on the edges themselves; until that layout
/// is told apart it behaves as `StandardCubeMapTrait`.
#[derive(Debug, Clone, Copy)]
pub struct StretchedCubeMapTrait;

impl CubeMapTrait for StretchedCubeMapTrait {
    open spec fn spec_edge_stretch(&self) -> bool {
        false
    }

    fn edge_stretch_fixup(&self) -> (r: bool) {
        false
    }
}

/// `(border_min, border_max)` of a face in 16.16 pixel coordinates.
pub open spec fn spec_border(size: int, stretch: bool) -> (int, int) {
    if stretch {
        (0, (size - 1) * 65536)
    } else {
        (-32768, size * 65536 - 32768)
    }
}

pub fn border_fixed(size: usize, stretch: bool) -> (r: (i32, i32))
    requires
        1 <= size <= 32768,
    ensures
        (r.0 as int, r.1 as int) == spec_border(size as int, stretch),
{
    let s = size as i32;
    proof {
        assert(0 <= (s - 1) * 65536 <= s * 65536 <= 32768 * 65536) by (nonlinear_arith)
            requires
                1 <= s <= 32768,
        ;
    }
    if stretch {
        (0, (s - 1) * FIXED_ONE)
    } else {
        (-32768, (s - 1) * FIXED_ONE + 32768)
    }
}

/// The positive face of the axis that pass `phase` (`0`, `1`, `2`) blurs
/// along, or `None` for any other phase.
pub fn phase_axis(phase: usize) -> (r: Option<CubeFace>)
    ensures
        r.is_some() <==> phase < 3,
        r.is_some() ==> r.unwrap().ord() == 2 * phase,
{
    if phase == 0 {
        Some(CubeFace::PositiveX)
    } else if phase == 1 {
        Some(CubeFace::PositiveY)
    } else if phase == 2 {
        Some(CubeFace::PositiveZ)
    } else {
        None
    }
}

/// One sample of the kernel footprint: which input face, at which index of
/// its `size`×`size` buffer.
#[derive(Debug, Clone, Copy, PartialEq, Eq, Structural)]
pub struct Tap {
    pub face: CubeFace,
    pub index: usize,
}

/// The tap on `face` at `idx`, if `idx` lies inside its buffer.
pub open spec fn tap_at(face: CubeFace, size: int, idx: int) -> Option<Tap> {
    if 0 <= idx < size * size {
        Some(Tap { face, index: idx as usize })
    } else {
        None
    }
}

pub open spec fn edge_of(t: (isize, isize, isize)) -> (int, int, int) {
    (t.0 as int, t.1 as int, t.2 as int)
}

/// Magnitude bounds that every edge addressing triple of a face of side
/// `size` meets.
pub open spec fn edge_bounded(edge: (int, int, int), size: int) -> bool {
    &&& -(size * size) <= edge.0 <= size * size
    &&& -size <= edge.1 <= size
    &&& -size <= edge.2 <= size
}

pub proof fn lemma_edge_bounded(face: CubeFace, edge: CubeFace, size: int)
    requires
        borders(face, edge),
        1 <= size <= 32768,
    ensures
        edge_bounded(spec_edge_index(face, edge, size), size),
{
    assert(0 <= (size - 1) * size && (size - 1) * size + size - 1 <= size * size) by (nonlinear_arith)
        requires
            1 <= size,
    ;
}

/// The one kind of failure: a parameter outside what a pass accepts.
#[derive(Debug, Clone, Copy, PartialEq, Eq, Structural)]
pub enum BlurError {
    InvalidParameter,
}

/// Checks the integer parameters of a pass: the phase is `0`, `1` or `2`,
/// the kernel has odd length, and the face side is between 1 and 32768 (the
/// range of the 16.16 coordinates).  Gives the axis of the pass.
pub fn validate_pass(size: usize, kernel_len: usize, phase: usize) -> (r: Result<CubeFace, BlurError>)
    ensures
        r.is_ok() <==> (phase < 3 && kernel_len % 2 == 1 && 1 <= size <= 32768),
        r.is_ok() ==> r.unwrap().ord() == 2 * phase && r.unwrap() == r.unwrap().spec_abs(),
        r.is_err() ==> r == Err::<CubeFace, BlurError>(BlurError::InvalidParameter),
{
    if kernel_len % 2 != 1 || size < 1 || size > 32768 {
        return Err(BlurError::InvalidParameter);
    }
    match phase_axis(phase) {
        Some(axis) => Ok(axis),
        None => Err(BlurError::InvalidParameter),
    }
}

/// How one output face is blurred in a pass.
#[derive(Debug, Clone, Copy)]
pub enum FaceLayout {
    /// The face looks along the blur axis.
    Radial(RadialLayout),
    /// The blur axis runs across the face.
    Directional(DirectionalLayout),
}

/// Picks the radial case for the two faces on the pass's axis and the
/// directional case for the four others.
pub fn face_layout<C: CubeMapTrait>(face: CubeFace, axis: CubeFace, size: usize, conv: &C) -> (r:
    FaceLayout)
    requires
        1 <= size <= 32768,
        axis == axis.spec_abs(),
    ensures
        match r {
            FaceLayout::Radial(l) => face.spec_abs() == axis && l.wf() && l.face == face && l.size
                == size && (l.brd_min as int, l.brd_max as int) == spec_border(
                size as int,
                conv.spec_edge_stretch(),
            ),
            FaceLayout::Directional(l) => face.spec_abs() != axis && l.wf() && l.face == face
                && l.size == size && (l.brd_min as int, l.brd_max as int) == spec_border(
                size as int,
                conv.spec_edge_stretch(),
            ) && l.pos_face == (if face.spec_u_face().spec_abs() == axis {
                face.spec_u_face()
            } else {
                face.spec_v_face()
            }) && (l.offs_x, l.offs_y) == (if face.spec_v_face().spec_abs() == axis {
                (size, 1usize)
            } else {
                (1usize, size)
            }),
        },
{
    if face.abs() == axis {
        FaceLayout::Radial(radial_layout(face, size, conv))
    } else {
        FaceLayout::Directional(directional_layout(face, axis, size, conv))
    }
}

} // verus!
