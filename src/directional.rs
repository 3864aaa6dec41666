//! The directional case of a pass: the blur axis runs across the output
//! face, so each output pixel samples along a straight line, continuing onto
//! the neighbours across the two edges that the axis crosses.
use vstd::prelude::*;
use crate::cubemap::CubeFace;
use crate::edge::{borders, edge_index, lemma_edge_index_in_buffer, spec_edge_index};
use vstd::arithmetic::div_mod::lemma_fundamental_div_mod;
use crate::fixed::{round_fixed, round_fixed_wide, round_xp2i, xp_round, xp_round_wide};
use crate::ltasgblur::{
    border_fixed, edge_bounded, edge_of, lemma_edge_bounded, spec_border, tap_at, CubeMapTrait,
    Tap,
};

verus! {

/// Everything the directional case needs for one output face: the face, the
/// two neighbours along the blur axis, their edge addressing, the border and
/// the buffer strides (`offs_x` steps along the blur axis).
#[derive(Debug, Clone, Copy)]
pub struct DirectionalLayout {
    pub face: CubeFace,
    pub size: usize,
    pub brd_min: i32,
    pub brd_max: i32,
    pub offs_x: usize,
    pub offs_y: usize,
    pub pos_face: CubeFace,
    pub neg_face: CubeFace,
    pub pos_edge: (isize, isize, isize),
    pub neg_edge: (isize, isize, isize),
}

impl DirectionalLayout {
    /// The layout that `directional_layout` builds.
    pub open spec fn wf(self) -> bool {
        let size = self.size as int;
        &&& 1 <= size <= 32768
        &&& borders(self.pos_face, self.face)
        &&& self.neg_face == self.pos_face.spec_neg()
        &&& edge_of(self.pos_edge) == spec_edge_index(self.pos_face, self.face, size)
        &&& edge_of(self.neg_edge) == spec_edge_index(self.neg_face, self.face, size)
        &&& ((self.offs_x == 1 && self.offs_y == size) || (self.offs_x == size && self.offs_y
            == 1))
        &&& (self.brd_min as int, self.brd_max as int) == spec_border(size, false) || (
        self.brd_min as int, self.brd_max as int) == spec_border(size, true)
    }

    /// Fixed-point position of tap `t` of a kernel of length `len` centred on
    /// pixel `x`, `step` apart.
    pub open spec fn tap_coord(x: int, step: int, len: int, t: int) -> int {
        x * 65536 - step * (len / 2) + t * step
    }

    /// Index on a neighbour, `dist` (16.16) past the border: one pixel
    /// inward per unit of distance, and along the edge from row `y` toward
    /// the centre in proportion to the row's coordinate `v` (16.16).
    pub open spec fn overflow_index(edge: (int, int, int), y: int, v: int, dist: int) -> int {
        edge.0 + (y + xp_round_wide(dist * (-v))) * edge.1 + xp_round(dist) * edge.2
    }

    /// Tap `t` of output pixel `(x, y)`, or `None` if it falls outside every
    /// buffer.
    pub open spec fn spec_tap(self, x: int, y: int, step: int, v: int, len: int, t: int) -> Option<
        Tap,
    > {
        let size = self.size as int;
        let c = Self::tap_coord(x, step, len, t);
        if c <= self.brd_min {
            tap_at(
                self.neg_face,
                size,
                Self::overflow_index(edge_of(self.neg_edge), y, v, self.brd_min - c),
            )
        } else if c < self.brd_max {
            tap_at(self.face, size, xp_round(c) * self.offs_x + y * self.offs_y)
        } else {
            tap_at(
                self.pos_face,
                size,
                Self::overflow_index(edge_of(self.pos_edge), y, v, c - self.brd_max),
            )
        }
    }
}

/// The tap `dist` (16.16) past a border, on `face` whose edge addressing is
/// `edge`: see `DirectionalLayout::overflow_index`.
fn overflow_tap(
    face: CubeFace,
    size: usize,
    edge: (isize, isize, isize),
    y: usize,
    v: i32,
    dist: i128,
) -> (r: Option<Tap>)
    requires
        1 <= size <= 32768,
        y < size,
        -65536 <= v <= 65536,
        0 <= dist <= 0x4_0000_0000_0000_0000_0000_0000,
        edge_bounded(edge_of(edge), size as int),
    ensures
        r == tap_at(
            face,
            size as int,
            DirectionalLayout::overflow_index(edge_of(edge), y as int, v as int, dist as int),
        ),
{
    proof {
        assert(-0x4_0000_0000_0000_0000_0000_0000_0000 <= dist * (-(v as int))
            <= 0x4_0000_0000_0000_0000_0000_0000_0000) by (nonlinear_arith)
            requires
                -65536 <= v <= 65536,
                0 <= dist <= 0x4_0000_0000_0000_0000_0000_0000,
        ;
    }
    let prod: i128 = dist * (-(v as i128));
    let w = round_fixed_wide(prod);
    let cross = round_fixed(dist);
    let main = y as i128 + w;
    proof {
        assert(-0x1_0000_0000_0000_0000_0000_0000 <= w <= 0x1_0000_0000_0000_0000_0000_0000);
        assert(0 <= cross <= 0x1_0000_0000_0000_0000_0000_0000);
        assert(-0x100_0000_0000_0000_0000_0000_0000_0000 <= main * edge.1
            <= 0x100_0000_0000_0000_0000_0000_0000_0000) by (nonlinear_arith)
            requires
                -0x2_0000_0000_0000_0000_0000_0000 <= main <= 0x2_0000_0000_0000_0000_0000_0000,
                -32768 <= edge.1 <= 32768,
        ;
        assert(-0x100_0000_0000_0000_0000_0000_0000_0000 <= cross * edge.2
            <= 0x100_0000_0000_0000_0000_0000_0000_0000) by (nonlinear_arith)
            requires
                0 <= cross <= 0x1_0000_0000_0000_0000_0000_0000,
                -32768 <= edge.2 <= 32768,
        ;
        assert(size * size <= 32768 * 32768) by (nonlinear_arith)
            requires
                1 <= size <= 32768,
        ;
    }
    let idx: i128 = edge.0 as i128 + main * (edge.1 as i128) + cross * (edge.2 as i128);
    let n: i128 = (size * size) as i128;
    if 0 <= idx && idx < n {
        Some(Tap { face, index: idx as usize })
    } else {
        None
    }
}

/// A face off the blur axis has that axis as its U or its V axis.
proof fn lemma_axis_neighbour(face: CubeFace, axis: CubeFace)
    requires
        axis == axis.spec_abs(),
        face.spec_abs() != axis,
    ensures
        face.spec_u_face().spec_abs() == axis || face.spec_v_face().spec_abs() == axis,
{
    match axis {
        CubeFace::PositiveX => {},
        CubeFace::NegativeX => {},
        CubeFace::PositiveY => {},
        CubeFace::NegativeY => {},
        CubeFace::PositiveZ => {},
        CubeFace::NegativeZ => {},
    }
}

/// The layout of output face `face` in a pass along `axis`, a face off that
/// axis.
pub fn directional_layout<C: CubeMapTrait>(face: CubeFace, axis: CubeFace, size: usize, conv: &C) -> (r:
    DirectionalLayout)
    requires
        1 <= size <= 32768,
        axis == axis.spec_abs(),
        face.spec_abs() != axis,
    ensures
        r.wf(),
        r.face == face,
        r.size == size,
        r.pos_face == (if face.spec_u_face().spec_abs() == axis {
            face.spec_u_face()
        } else {
            face.spec_v_face()
        }),
        (r.offs_x, r.offs_y) == (if face.spec_v_face().spec_abs() == axis {
            (size, 1usize)
        } else {
            (1usize, size)
        }),
        (r.brd_min as int, r.brd_max as int) == spec_border(size as int, conv.spec_edge_stretch()),
{
    proof {
        lemma_axis_neighbour(face, axis);
    }
    let pos_face = if face.u_face().abs() == axis {
        face.u_face()
    } else {
        face.v_face()
    };
    let neg_face = pos_face.neg();
    proof {
        crate::cubemap::lemma_topology(pos_face);
    }
    let (offs_x, offs_y) = if face.v_face().abs() == axis {
        (size, 1usize)
    } else {
        (1usize, size)
    };
    let (brd_min, brd_max) = border_fixed(size, conv.edge_stretch_fixup());
    DirectionalLayout {
        face,
        size,
        brd_min,
        brd_max,
        offs_x,
        offs_y,
        pos_face,
        neg_face,
        pos_edge: edge_index(pos_face, face, size),
        neg_edge: edge_index(neg_face, face, size),
    }
}

impl DirectionalLayout {
    /// Tap `t` of output pixel `(x, y)`; see `spec_tap`.
    pub fn tap(&self, x: usize, y: usize, step: i32, v: i32, len: usize, t: usize) -> (r: Option<Tap>)
        requires
            self.wf(),
            x < self.size,
            y < self.size,
            step >= 0,
            -65536 <= v <= 65536,
            t < len,
        ensures
            r == self.spec_tap(x as int, y as int, step as int, v as int, len as int, t as int),
    {
        let size = self.size;
        proof {
            lemma_edge_bounded(self.pos_face, self.face, size as int);
            crate::cubemap::lemma_topology(self.pos_face);
            lemma_edge_bounded(self.neg_face, self.face, size as int);
            assert(0 <= step * (len / 2) <= 0x8000_0000 * 0x1_0000_0000_0000_0000) by (nonlinear_arith)
                requires
                    0 <= step < 0x8000_0000,
                    len < 0x1_0000_0000_0000_0000,
            ;
            assert(0 <= t * step <= 0x8000_0000 * 0x1_0000_0000_0000_0000) by (nonlinear_arith)
                requires
                    0 <= step < 0x8000_0000,
                    0 <= t < 0x1_0000_0000_0000_0000,
            ;
        }
        let c: i128 = (x as i128) * 65536 - (step as i128) * ((len / 2) as i128) + (t as i128) * (
        step as i128);
        if c <= self.brd_min as i128 {
            overflow_tap(self.neg_face, size, self.neg_edge, y, v, self.brd_min as i128 - c)
        } else if c < self.brd_max as i128 {
            let col = round_xp2i(c as i32);
            proof {
                assert(0 <= col < size);
                assert(0 <= col * self.offs_x && 0 <= y * self.offs_y && col * self.offs_x + y
                    * self.offs_y < size * size && size * size <= 32768 * 32768) by (nonlinear_arith)
                    requires
                        0 <= col < size,
                        0 <= y < size,
                        size <= 32768,
                        (self.offs_x == 1 && self.offs_y == size) || (self.offs_x == size
                            && self.offs_y == 1),
                ;
            }
            let idx = col as usize * self.offs_x + y * self.offs_y;
            Some(Tap { face: self.face, index: idx })
        } else {
            overflow_tap(self.pos_face, size, self.pos_edge, y, v, c - self.brd_max as i128)
        }
    }

    /// Every tap of output pixel `(x, y)` for a kernel of length `len`, in
    /// kernel order, or `None` if one of them falls outside every buffer.
    pub fn taps(&self, x: usize, y: usize, step: i32, v: i32, len: usize) -> (r: Option<Vec<Tap>>)
        requires
            self.wf(),
            x < self.size,
            y < self.size,
            step >= 0,
            -65536 <= v <= 65536,
        ensures
            r.is_some() <==> forall|t: int|
                0 <= t < len ==> #[trigger] self.spec_tap(
                    x as int,
                    y as int,
                    step as int,
                    v as int,
                    len as int,
                    t,
                ).is_some(),
            r.is_some() ==> r.unwrap()@.len() == len && forall|t: int|
                0 <= t < len ==> self.spec_tap(x as int, y as int, step as int, v as int, len as int, t)
                    == Some(#[trigger] r.unwrap()@[t]),
    {
        let mut out: Vec<Tap> = Vec::new();
        let mut t: usize = 0;
        while t < len
            invariant
                self.wf(),
                x < self.size,
                y < self.size,
                step >= 0,
                -65536 <= v <= 65536,
                t <= len,
                out@.len() == t,
                forall|j: int|
                    0 <= j < t ==> self.spec_tap(x as int, y as int, step as int, v as int, len as int, j)
                        == Some(#[trigger] out@[j]),
            decreases len - t,
        {
            match self.tap(x, y, step, v, len, t) {
                Some(tap) => out.push(tap),
                None => {
                    proof {
                        assert(self.spec_tap(
                            x as int,
                            y as int,
                            step as int,
                            v as int,
                            len as int,
                            t as int,
                        ).is_none());
                    }
                    return None;
                },
            }
            t = t + 1;
        }
        assert forall|j: int| 0 <= j < len implies #[trigger] self.spec_tap(
            x as int,
            y as int,
            step as int,
            v as int,
            len as int,
            j,
        ).is_some() by {
            assert(self.spec_tap(x as int, y as int, step as int, v as int, len as int, j) == Some(
                out@[j],
            ));
        }
        Some(out)
    }
}

impl DirectionalLayout {
    /// Where output pixel `(x, y)` of the pass is stored in the face's buffer.
    pub open spec fn spec_output_index(self, x: int, y: int) -> int {
        x * self.offs_x + y * self.offs_y
    }

    pub fn output_index(&self, x: usize, y: usize) -> (r: usize)
        requires
            self.wf(),
            x < self.size,
            y < self.size,
        ensures
            r == self.spec_output_index(x as int, y as int),
            r < self.size * self.size,
    {
        proof {
            assert(0 <= x * self.offs_x && 0 <= y * self.offs_y && x * self.offs_x + y * self.offs_y
                < self.size * self.size && self.size * self.size <= 32768 * 32768) by (nonlinear_arith)
                requires
                    x < self.size,
                    y < self.size,
                    self.size <= 32768,
                    (self.offs_x == 1 && self.offs_y == self.size) || (self.offs_x == self.size
                        && self.offs_y == 1),
            ;
        }
        x * self.offs_x + y * self.offs_y
    }
}

/// With a one-tap kernel, the directional case samples exactly the input
/// pixel that the output pixel is written to, whatever the step (standard
/// border convention).
pub proof fn lemma_directional_identity(l: DirectionalLayout, x: int, y: int, step: int, v: int)
    requires
        l.wf(),
        (l.brd_min as int, l.brd_max as int) == spec_border(l.size as int, false),
        0 <= x < l.size,
        0 <= y < l.size,
    ensures
        l.spec_tap(x, y, step, v, 1, 0) == Some(
            Tap { face: l.face, index: l.spec_output_index(x, y) as usize },
        ),
{
    assert(xp_round(x * 65536) == x) by (nonlinear_arith);
    assert(-32768 < x * 65536 < l.size * 65536 - 32768) by (nonlinear_arith)
        requires
            0 <= x < l.size,
    ;
    assert(DirectionalLayout::tap_coord(x, step, 1, 0) == x * 65536) by (nonlinear_arith);
    assert(0 <= x * l.offs_x + y * l.offs_y < l.size * l.size) by (nonlinear_arith)
        requires
            0 <= x < l.size,
            0 <= y < l.size,
            (l.offs_x == 1 && l.offs_y == l.size) || (l.offs_x == l.size && l.offs_y == 1),
    ;
}

/// A sample `dist` (16.16, less than one face) past the border, seen from
/// row `y` whose coordinate `v` lies between the rows' edges, drifts to a row
/// that is still on the face.
proof fn lemma_drift_in_range(size: int, y: int, v: int, dist: int)
    requires
        1 <= size,
        0 <= y < size,
        0 <= dist < size * 65536,
        v * size <= (2 * y + 1) * 32768,
        -v * size <= (2 * size - 2 * y - 1) * 32768,
    ensures
        0 <= y + xp_round_wide(dist * (-v)) < size,
{
    let p = dist * (-v);
    assert(p < 0x8000_0000 * (2 * size - 2 * y - 1)) by (nonlinear_arith)
        requires
            p == dist * (-v),
            0 <= dist < size * 65536,
            -v * size <= (2 * size - 2 * y - 1) * 32768,
            1 <= size,
            0 <= y < size,
    ;
    assert(-p < 0x8000_0000 * (2 * y + 1)) by (nonlinear_arith)
        requires
            p == dist * (-v),
            0 <= dist < size * 65536,
            v * size <= (2 * y + 1) * 32768,
            1 <= size,
            0 <= y,
    ;
    lemma_fundamental_div_mod(p + 0x8000_0000, 0x1_0000_0000);
}

/// Every tap stays inside a buffer when the footprint reaches less than one
/// face past the pixel on either side and `v` is the coordinate of row `y`
/// (within the row's own extent), with the standard border convention.
pub proof fn lemma_directional_taps_in_range(
    l: DirectionalLayout,
    x: int,
    y: int,
    step: int,
    v: int,
    len: int,
    t: int,
)
    requires
        l.wf(),
        (l.brd_min as int, l.brd_max as int) == spec_border(l.size as int, false),
        0 <= x < l.size,
        0 <= y < l.size,
        0 <= step,
        0 <= t < len,
        step * (len / 2) < l.size * 65536,
        v * l.size <= (2 * y + 1) * 32768,
        -v * l.size <= (2 * l.size - 2 * y - 1) * 32768,
    ensures
        l.spec_tap(x, y, step, v, len, t).is_some(),
{
    let size = l.size as int;
    let r = len / 2;
    let c = DirectionalLayout::tap_coord(x, step, len, t);
    assert(-(r * step) <= (t - r) * step <= r * step) by (nonlinear_arith)
        requires
            0 <= step,
            0 <= t < len,
            r == len / 2,
    ;
    assert(c == x * 65536 + (t - r) * step) by (nonlinear_arith)
        requires
            c == DirectionalLayout::tap_coord(x, step, len, t),
            r == len / 2,
    ;
    crate::cubemap::lemma_topology(l.pos_face);
    if c <= l.brd_min {
        let dist = l.brd_min - c;
        lemma_drift_in_range(size, y, v, dist);
        let main = y + xp_round_wide(dist * (-v));
        let cross = xp_round(dist);
        lemma_edge_index_in_buffer(l.neg_face, l.face, size, main, cross);
    } else if c < l.brd_max {
        let col = xp_round(c);
        assert(0 <= col * l.offs_x + y * l.offs_y < size * size) by (nonlinear_arith)
            requires
                0 <= col < size,
                0 <= y < size,
                (l.offs_x == 1 && l.offs_y == size) || (l.offs_x == size && l.offs_y == 1),
        ;
    } else {
        let dist = c - l.brd_max;
        lemma_drift_in_range(size, y, v, dist);
        let main = y + xp_round_wide(dist * (-v));
        let cross = xp_round(dist);
        lemma_edge_index_in_buffer(l.pos_face, l.face, size, main, cross);
    }
}

} // verus!
