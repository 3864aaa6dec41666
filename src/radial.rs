//! The radial case of a pass: the output face looks along the blur axis, so
//! each output pixel samples along the line from the face centre through it,
//! continuing onto the neighbour across whichever edge that line reaches.
use vstd::prelude::*;
use crate::cubemap::CubeFace;
use crate::edge::{edge_index, lemma_edge_index_in_buffer, spec_edge_index};
use crate::fixed::{round_fixed, xp_round};
use crate::ltasgblur::{
    border_fixed, edge_bounded, edge_of, lemma_edge_bounded, spec_border, tap_at, CubeMapTrait,
    Tap,
};

verus! {

/// The tap on `face` at column `col` and row `row` (buffer strides `ox`,
/// `oy`), if both lie on the face.
pub open spec fn tap_xy(face: CubeFace, size: int, col: int, row: int, ox: int, oy: int) -> Option<
    Tap,
> {
    if 0 <= col < size && 0 <= row < size {
        Some(Tap { face, index: (col * ox + row * oy) as usize })
    } else {
        None
    }
}

/// The kernel footprint of one output pixel in the radial case, prepared by
/// the caller from the pixel's position: 16.16 start and per-tap step along
/// the major axis (`x`) and the minor axis (`y`); whether the major axis is
/// the face's V axis; whether the footprint may leave the face; the sign of
/// the major step; and the pixel, along the crossed edge, where the footprint
/// crosses it.
#[derive(Debug, Clone, Copy)]
pub struct RadialFootprint {
    pub start_x: i32,
    pub start_y: i32,
    pub step_x: i32,
    pub step_y: i32,
    pub major_y: bool,
    pub crosses: bool,
    pub toward_positive: bool,
    pub minor: isize,
}

/// Everything the radial case needs for one output face: the face, its four
/// neighbours with their edge addressing, and the border.
#[derive(Debug, Clone, Copy)]
pub struct RadialLayout {
    pub face: CubeFace,
    pub size: usize,
    pub brd_min: i32,
    pub brd_max: i32,
    pub pos_u_face: CubeFace,
    pub neg_u_face: CubeFace,
    pub pos_v_face: CubeFace,
    pub neg_v_face: CubeFace,
    pub pos_u_edge: (isize, isize, isize),
    pub neg_u_edge: (isize, isize, isize),
    pub pos_v_edge: (isize, isize, isize),
    pub neg_v_edge: (isize, isize, isize),
}

impl RadialLayout {
    /// The layout that `radial_layout` builds.
    pub open spec fn wf(self) -> bool {
        let size = self.size as int;
        &&& 1 <= size <= 32768
        &&& self.pos_u_face == self.face.spec_u_face()
        &&& self.neg_u_face == self.pos_u_face.spec_neg()
        &&& self.pos_v_face == self.face.spec_v_face()
        &&& self.neg_v_face == self.pos_v_face.spec_neg()
        &&& edge_of(self.pos_u_edge) == spec_edge_index(self.pos_u_face, self.face, size)
        &&& edge_of(self.neg_u_edge) == spec_edge_index(self.neg_u_face, self.face, size)
        &&& edge_of(self.pos_v_edge) == spec_edge_index(self.pos_v_face, self.face, size)
        &&& edge_of(self.neg_v_edge) == spec_edge_index(self.neg_v_face, self.face, size)
        &&& (self.brd_min as int, self.brd_max as int) == spec_border(size, false) || (
        self.brd_min as int, self.brd_max as int) == spec_border(size, true)
    }

    /// The neighbour that the footprint `f` runs onto, with its edge
    /// addressing.
    pub open spec fn overflow_face(self, f: RadialFootprint) -> (CubeFace, (int, int, int)) {
        if f.major_y {
            if f.toward_positive {
                (self.pos_v_face, edge_of(self.pos_v_edge))
            } else {
                (self.neg_v_face, edge_of(self.neg_v_edge))
            }
        } else {
            if f.toward_positive {
                (self.pos_u_face, edge_of(self.pos_u_edge))
            } else {
                (self.neg_u_face, edge_of(self.neg_u_edge))
            }
        }
    }

    /// Tap `t` on the face itself: the rounded footprint position, with the
    /// axes swapped back when the major axis is V.
    pub open spec fn spec_face_tap(self, f: RadialFootprint, t: int) -> Option<Tap> {
        let size = self.size as int;
        let cx = f.start_x + t * f.step_x;
        let cy = f.start_y + t * f.step_y;
        if f.major_y {
            tap_xy(self.face, size, xp_round(cx), xp_round(cy), size, 1)
        } else {
            tap_xy(self.face, size, xp_round(cx), xp_round(cy), 1, size)
        }
    }

    /// Whether tap `t` of a crossing footprint is still before the border.
    pub open spec fn before_border(self, f: RadialFootprint, t: int) -> bool {
        let cx = f.start_x + t * f.step_x;
        if f.step_x >= 0 {
            cx < self.brd_max
        } else {
            cx > self.brd_min
        }
    }

    /// Tap `t` of footprint `f`, or `None` if it falls outside every buffer.
    /// Once a crossing footprint has passed the border, its taps lie on the
    /// neighbour: at pixel `minor` along the shared edge, and as many pixels
    /// inward as the rounded distance past the border plus half a pixel.
    pub open spec fn spec_tap(self, f: RadialFootprint, t: int) -> Option<Tap> {
        if !f.crosses || self.before_border(f, t) {
            self.spec_face_tap(f, t)
        } else {
            let (oface, edge) = self.overflow_face(f);
            let cx = f.start_x + t * f.step_x;
            let dist = if f.step_x >= 0 {
                cx - self.brd_max
            } else {
                self.brd_min - cx
            };
            tap_at(
                oface,
                self.size as int,
                edge.0 + edge.1 * f.minor + xp_round(dist - self.brd_min) * edge.2,
            )
        }
    }
}

/// The layout of output face `face` in a pass along its own axis.
pub fn radial_layout<C: CubeMapTrait>(face: CubeFace, size: usize, conv: &C) -> (r: RadialLayout)
    requires
        1 <= size <= 32768,
    ensures
        r.wf(),
        r.face == face,
        r.size == size,
        (r.brd_min as int, r.brd_max as int) == spec_border(size as int, conv.spec_edge_stretch()),
{
    proof {
        crate::cubemap::lemma_topology(face);
        crate::cubemap::lemma_topology(face.spec_u_face());
        crate::cubemap::lemma_topology(face.spec_v_face());
    }
    let pos_u_face = face.u_face();
    let neg_u_face = pos_u_face.neg();
    let pos_v_face = face.v_face();
    let neg_v_face = pos_v_face.neg();
    let (brd_min, brd_max) = border_fixed(size, conv.edge_stretch_fixup());
    RadialLayout {
        face,
        size,
        brd_min,
        brd_max,
        pos_u_face,
        neg_u_face,
        pos_v_face,
        neg_v_face,
        pos_u_edge: edge_index(pos_u_face, face, size),
        neg_u_edge: edge_index(neg_u_face, face, size),
        pos_v_edge: edge_index(pos_v_face, face, size),
        neg_v_edge: edge_index(neg_v_face, face, size),
    }
}

impl RadialLayout {
    fn face_tap(&self, f: &RadialFootprint, t: usize) -> (r: Option<Tap>)
        requires
            self.wf(),
        ensures
            r == self.spec_face_tap(*f, t as int),
    {
        let size = self.size;
        proof {
            assert(-0x8000_0000 * 0x1_0000_0000_0000_0000 <= t * f.step_x <= 0x8000_0000
                * 0x1_0000_0000_0000_0000) by (nonlinear_arith)
                requires
                    -0x8000_0000 <= f.step_x < 0x8000_0000,
                    0 <= t < 0x1_0000_0000_0000_0000,
            ;
            assert(-0x8000_0000 * 0x1_0000_0000_0000_0000 <= t * f.step_y <= 0x8000_0000
                * 0x1_0000_0000_0000_0000) by (nonlinear_arith)
                requires
                    -0x8000_0000 <= f.step_y < 0x8000_0000,
                    0 <= t < 0x1_0000_0000_0000_0000,
            ;
        }
        let cx = round_fixed(f.start_x as i128 + (t as i128) * (f.step_x as i128));
        let cy = round_fixed(f.start_y as i128 + (t as i128) * (f.step_y as i128));
        if 0 <= cx && cx < size as i128 && 0 <= cy && cy < size as i128 {
            let col = cx as usize;
            let row = cy as usize;
            proof {
                assert(0 <= col * size && col * size + row < size * size && size * size <= 32768
                    * 32768 && 0 <= row * size && row * size + col < size * size) by (nonlinear_arith)
                    requires
                        0 <= col < size,
                        0 <= row < size,
                        size <= 32768,
                ;
            }
            if f.major_y {
                Some(Tap { face: self.face, index: col * size + row })
            } else {
                Some(Tap { face: self.face, index: col + row * size })
            }
        } else {
            None
        }
    }

    /// Tap `t` of footprint `f`; see `spec_tap`.
    pub fn tap(&self, f: &RadialFootprint, t: usize) -> (r: Option<Tap>)
        requires
            self.wf(),
        ensures
            r == self.spec_tap(*f, t as int),
    {
        let size = self.size;
        proof {
            assert(-0x8000_0000 * 0x1_0000_0000_0000_0000 <= t * f.step_x <= 0x8000_0000
                * 0x1_0000_0000_0000_0000) by (nonlinear_arith)
                requires
                    -0x8000_0000 <= f.step_x < 0x8000_0000,
                    0 <= t < 0x1_0000_0000_0000_0000,
            ;
        }
        let cx: i128 = f.start_x as i128 + (t as i128) * (f.step_x as i128);
        let before = if f.step_x >= 0 {
            cx < self.brd_max as i128
        } else {
            cx > self.brd_min as i128
        };
        if !f.crosses || before {
            return self.face_tap(f, t);
        }
        let (oface, edge) = if f.major_y {
            if f.toward_positive {
                (self.pos_v_face, self.pos_v_edge)
            } else {
                (self.neg_v_face, self.neg_v_edge)
            }
        } else {
            if f.toward_positive {
                (self.pos_u_face, self.pos_u_edge)
            } else {
                (self.neg_u_face, self.neg_u_edge)
            }
        };
        proof {
            lemma_radial_edges_bounded(*self);
        }
        let dist: i128 = if f.step_x >= 0 {
            cx - self.brd_max as i128
        } else {
            self.brd_min as i128 - cx
        };
        let cross = round_fixed(dist - self.brd_min as i128);
        proof {
            assert(-0x100_0000_0000_0000_0000_0000_0000_0000 <= cross * edge.2
                <= 0x100_0000_0000_0000_0000_0000_0000_0000) by (nonlinear_arith)
                requires
                    -0x1_0000_0000_0000_0000_0000_0000 <= cross <= 0x1_0000_0000_0000_0000_0000_0000,
                    -32768 <= edge.2 <= 32768,
            ;
            assert(-0x100_0000_0000_0000_0000_0000_0000_0000 <= edge.1 * f.minor
                <= 0x100_0000_0000_0000_0000_0000_0000_0000) by (nonlinear_arith)
                requires
                    -0x8000_0000_0000_0000 <= f.minor < 0x8000_0000_0000_0000,
                    -32768 <= edge.1 <= 32768,
            ;
            assert(size * size <= 32768 * 32768) by (nonlinear_arith)
                requires
                    1 <= size <= 32768,
            ;
        }
        let idx: i128 = edge.0 as i128 + (edge.1 as i128) * (f.minor as i128) + cross * (
        edge.2 as i128);
        if 0 <= idx && idx < (size * size) as i128 {
            Some(Tap { face: oface, index: idx as usize })
        } else {
            None
        }
    }

    /// Every tap of footprint `f` for a kernel of length `len`, in kernel
    /// order, or `None` if one of them falls outside every buffer.
    pub fn taps(&self, f: &RadialFootprint, len: usize) -> (r: Option<Vec<Tap>>)
        requires
            self.wf(),
        ensures
            r.is_some() <==> forall|t: int| 0 <= t < len ==> #[trigger] self.spec_tap(*f, t).is_some(),
            r.is_some() ==> r.unwrap()@.len() == len && forall|t: int|
                0 <= t < len ==> self.spec_tap(*f, t) == Some(#[trigger] r.unwrap()@[t]),
    {
        let mut out: Vec<Tap> = Vec::new();
        let mut t: usize = 0;
        while t < len
            invariant
                self.wf(),
                t <= len,
                out@.len() == t,
                forall|j: int| 0 <= j < t ==> self.spec_tap(*f, j) == Some(#[trigger] out@[j]),
            decreases len - t,
        {
            match self.tap(f, t) {
                Some(tap) => out.push(tap),
                None => {
                    proof {
                        assert(self.spec_tap(*f, t as int).is_none());
                    }
                    return None;
                },
            }
            t = t + 1;
        }
        assert forall|j: int| 0 <= j < len implies #[trigger] self.spec_tap(*f, j).is_some() by {
            assert(self.spec_tap(*f, j) == Some(out@[j]));
        }
        Some(out)
    }
}

proof fn lemma_radial_edges_bounded(l: RadialLayout)
    requires
        l.wf(),
    ensures
        edge_bounded(edge_of(l.pos_u_edge), l.size as int),
        edge_bounded(edge_of(l.neg_u_edge), l.size as int),
        edge_bounded(edge_of(l.pos_v_edge), l.size as int),
        edge_bounded(edge_of(l.neg_v_edge), l.size as int),
{
    crate::cubemap::lemma_topology(l.face);
    crate::cubemap::lemma_topology(l.face.spec_u_face());
    crate::cubemap::lemma_topology(l.face.spec_v_face());
    lemma_edge_bounded(l.pos_u_face, l.face, l.size as int);
    lemma_edge_bounded(l.neg_u_face, l.face, l.size as int);
    lemma_edge_bounded(l.pos_v_face, l.face, l.size as int);
    lemma_edge_bounded(l.neg_v_face, l.face, l.size as int);
}

/// With a one-tap kernel whose footprint starts on pixel `(x, y)` (given
/// major axis first), the radial case samples exactly that pixel, which is
/// where the output pixel is written (standard border convention).
pub proof fn lemma_radial_identity(l: RadialLayout, f: RadialFootprint, x: int, y: int)
    requires
        l.wf(),
        (l.brd_min as int, l.brd_max as int) == spec_border(l.size as int, false),
        0 <= x < l.size,
        0 <= y < l.size,
        f.major_y ==> f.start_x == y * 65536 && f.start_y == x * 65536,
        !f.major_y ==> f.start_x == x * 65536 && f.start_y == y * 65536,
    ensures
        l.spec_tap(f, 0) == Some(Tap { face: l.face, index: (x + y * l.size) as usize }),
{
    assert(xp_round(x * 65536) == x) by (nonlinear_arith);
    assert(xp_round(y * 65536) == y) by (nonlinear_arith);
    assert(-32768 < x * 65536 < l.size * 65536 - 32768) by (nonlinear_arith)
        requires
            0 <= x < l.size,
    ;
    assert(-32768 < y * 65536 < l.size * 65536 - 32768) by (nonlinear_arith)
        requires
            0 <= y < l.size,
    ;
}

/// A tap that a crossing footprint takes past the border lands inside the
/// neighbour's buffer when the crossing pixel `minor` lies on the shared edge
/// and the tap is less than the face's width, minus one pixel, past the
/// border (standard border convention).
pub proof fn lemma_radial_overflow_in_range(l: RadialLayout, f: RadialFootprint, t: int)
    requires
        l.wf(),
        (l.brd_min as int, l.brd_max as int) == spec_border(l.size as int, false),
        f.crosses,
        !l.before_border(f, t),
        0 <= f.minor < l.size,
        ({
            let cx = f.start_x + t * f.step_x;
            if f.step_x >= 0 {
                cx - l.brd_max
            } else {
                l.brd_min - cx
            }
        }) < (l.size - 1) * 65536,
    ensures
        l.spec_tap(f, t).is_some(),
{
    let size = l.size as int;
    crate::cubemap::lemma_topology(l.face);
    crate::cubemap::lemma_topology(l.face.spec_u_face());
    crate::cubemap::lemma_topology(l.face.spec_v_face());
    let (oface, edge) = l.overflow_face(f);
    let cx = f.start_x + t * f.step_x;
    let dist = if f.step_x >= 0 {
        cx - l.brd_max
    } else {
        l.brd_min - cx
    };
    let cross = xp_round(dist - l.brd_min);
    assert(0 <= cross < size);
    lemma_edge_index_in_buffer(oface, l.face, size, f.minor as int, cross);
    assert(edge.0 + edge.1 * f.minor + cross * edge.2 == edge.0 + f.minor * edge.1 + cross * edge.2)
        by (nonlinear_arith);
}

} // verus!
