//! Addressing along the edge that two neighbouring faces share, so that a
//! 1-D convolution can continue from one face onto the other.
use vstd::prelude::*;
use crate::cubemap::CubeFace;
use vstd::arithmetic::div_mod::lemma_fundamental_div_mod_converse;

verus! {

/// Two faces meet along an edge exactly when they lie on different axes.
pub open spec fn borders(face: CubeFace, edge: CubeFace) -> bool {
    face.spec_abs() != edge.spec_abs()
}

/// `(base_index, main_step, cross_step)` into `face`'s `size`×`size` buffer,
/// for the edge that `face` shares with `edge`.  Stepping by `main_step`
/// follows the shared edge in the direction of increasing transverse
/// coordinate on `edge`; stepping by `cross_step` moves one pixel away from the
/// shared edge into `face`.
pub open spec fn spec_edge_index(face: CubeFace, edge: CubeFace, size: int) -> (int, int, int) {
    if face.spec_u_face().spec_abs() == edge.spec_abs() {
        let x = if face.spec_u_face() == edge { size - 1 } else { 0 };
        let cross = if face.spec_u_face() == edge { -1 } else { 1 };
        if face.spec_v_face() == edge.spec_u_face() || face.spec_v_face() == edge.spec_v_face() {
            (x, size, cross)
        } else {
            (x + (size - 1) * size, -size, cross)
        }
    } else {
        let y = if face.spec_v_face() == edge { size - 1 } else { 0 };
        let cross = if face.spec_v_face() == edge { -size } else { size };
        if face.spec_u_face() == edge.spec_u_face() || face.spec_u_face() == edge.spec_v_face() {
            (y * size, 1, cross)
        } else {
            (size - 1 + y * size, -1, cross)
        }
    }
}

/// Computes the addressing triple of `spec_edge_index`.
pub fn edge_index(face: CubeFace, edge: CubeFace, size: usize) -> (r: (isize, isize, isize))
    requires
        borders(face, edge),
        1 <= size <= 32768,
    ensures
        (r.0 as int, r.1 as int, r.2 as int) == spec_edge_index(face, edge, size as int),
{
    let size = size as isize;
    proof {
        assert(0 <= (size - 1) * size <= 32768 * 32768) by (nonlinear_arith)
            requires
                1 <= size <= 32768,
        ;
    }
    if face.u_face().abs() == edge.abs() {
        let (x, cross_offs): (isize, isize) = if face.u_face() == edge {
            (size - 1, -1)
        } else {
            (0, 1)
        };
        if face.v_face() == edge.u_face() || face.v_face() == edge.v_face() {
            (x, size, cross_offs)
        } else {
            (x + (size - 1) * size, -size, cross_offs)
        }
    } else {
        let (y, cross_offs): (isize, isize) = if face.v_face() == edge {
            (size - 1, -size)
        } else {
            (0, size)
        };
        if face.u_face() == edge.u_face() || face.u_face() == edge.v_face() {
            (y * size, 1, cross_offs)
        } else {
            (size - 1 + y * size, -1, cross_offs)
        }
    }
}

/// `c` times the outward normal of `face`.
pub open spec fn along(face: CubeFace, c: int) -> (int, int, int) {
    match face {
        CubeFace::PositiveX => (c, 0, 0),
        CubeFace::NegativeX => (-c, 0, 0),
        CubeFace::PositiveY => (0, c, 0),
        CubeFace::NegativeY => (0, -c, 0),
        CubeFace::PositiveZ => (0, 0, c),
        CubeFace::NegativeZ => (0, 0, -c),
    }
}

/// The coordinate of `p` along the outward normal of `face`.
pub open spec fn coord(p: (int, int, int), face: CubeFace) -> int {
    match face {
        CubeFace::PositiveX => p.0,
        CubeFace::NegativeX => -p.0,
        CubeFace::PositiveY => p.1,
        CubeFace::NegativeY => -p.1,
        CubeFace::PositiveZ => p.2,
        CubeFace::NegativeZ => -p.2,
    }
}

/// The centre of pixel `(x, y)` of `face` on a cube of half-width `size`, in
/// units of half a pixel: `size * normal + (2x+1-size) * u + (2y+1-size) * v`.
pub open spec fn pixel_point(face: CubeFace, x: int, y: int, size: int) -> (int, int, int) {
    let n = along(face, size);
    let u = along(face.spec_u_face(), 2 * x + 1 - size);
    let v = along(face.spec_v_face(), 2 * y + 1 - size);
    (n.0 + u.0 + v.0, n.1 + u.1 + v.1, n.2 + u.2 + v.2)
}

/// The neighbour of `edge` whose normal runs along the edge that `edge`
/// shares with `face` (its transverse axis).
pub open spec fn transverse_face(edge: CubeFace, face: CubeFace) -> CubeFace {
    if edge.spec_u_face().spec_abs() == face.spec_abs() {
        edge.spec_v_face()
    } else {
        edge.spec_u_face()
    }
}

/// The buffer index reached from `base_index` after `k` steps of `main_step`.
pub open spec fn walk_index(face: CubeFace, edge: CubeFace, size: int, k: int) -> int {
    let t = spec_edge_index(face, edge, size);
    t.0 + k * t.1
}

/// Pixel `(x, y)` of `face` reached after `k` steps along the shared edge.
spec fn walk_pixel(face: CubeFace, edge: CubeFace, size: int, k: int) -> (int, int) {
    let t = spec_edge_index(face, edge, size);
    if face.spec_u_face().spec_abs() == edge.spec_abs() {
        let x = if face.spec_u_face() == edge { size - 1 } else { 0 };
        if t.1 > 0 { (x, k) } else { (x, size - 1 - k) }
    } else {
        let y = if face.spec_v_face() == edge { size - 1 } else { 0 };
        if t.1 > 0 { (k, y) } else { (size - 1 - k, y) }
    }
}

/// The pixel one `cross_step` inward from `walk_pixel`.
spec fn cross_pixel(face: CubeFace, edge: CubeFace, size: int, k: int) -> (int, int) {
    let (x, y) = walk_pixel(face, edge, size, k);
    if face.spec_u_face().spec_abs() == edge.spec_abs() {
        if face.spec_u_face() == edge { (x - 1, y) } else { (x + 1, y) }
    } else {
        if face.spec_v_face() == edge { (x, y - 1) } else { (x, y + 1) }
    }
}

proof fn lemma_walk_geometry(face: CubeFace, edge: CubeFace, size: int, k: int)
    requires
        borders(face, edge),
        1 <= size,
        0 <= k < size,
    ensures
        ({
            let (x, y) = walk_pixel(face, edge, size, k);
            let (x2, y2) = cross_pixel(face, edge, size, k);
            &&& coord(pixel_point(face, x, y, size), edge) == size - 1
            &&& coord(pixel_point(face, x, y, size), transverse_face(edge, face)) == 2 * k + 1 - size
            &&& coord(pixel_point(face, x2, y2, size), edge) == size - 3
            &&& coord(pixel_point(face, x2, y2, size), transverse_face(edge, face)) == 2 * k + 1
                - size
        }),
{
    match face {
        CubeFace::PositiveX => match edge {
            CubeFace::PositiveX => {},
            CubeFace::NegativeX => {},
            CubeFace::PositiveY => {},
            CubeFace::NegativeY => {},
            CubeFace::PositiveZ => {},
            CubeFace::NegativeZ => {},
        },
        CubeFace::NegativeX => match edge {
            CubeFace::PositiveX => {},
            CubeFace::NegativeX => {},
            CubeFace::PositiveY => {},
            CubeFace::NegativeY => {},
            CubeFace::PositiveZ => {},
            CubeFace::NegativeZ => {},
        },
        CubeFace::PositiveY => match edge {
            CubeFace::PositiveX => {},
            CubeFace::NegativeX => {},
            CubeFace::PositiveY => {},
            CubeFace::NegativeY => {},
            CubeFace::PositiveZ => {},
            CubeFace::NegativeZ => {},
        },
        CubeFace::NegativeY => match edge {
            CubeFace::PositiveX => {},
            CubeFace::NegativeX => {},
            CubeFace::PositiveY => {},
            CubeFace::NegativeY => {},
            CubeFace::PositiveZ => {},
            CubeFace::NegativeZ => {},
        },
        CubeFace::PositiveZ => match edge {
            CubeFace::PositiveX => {},
            CubeFace::NegativeX => {},
            CubeFace::PositiveY => {},
            CubeFace::NegativeY => {},
            CubeFace::PositiveZ => {},
            CubeFace::NegativeZ => {},
        },
        CubeFace::NegativeZ => match edge {
            CubeFace::PositiveX => {},
            CubeFace::NegativeX => {},
            CubeFace::PositiveY => {},
            CubeFace::NegativeY => {},
            CubeFace::PositiveZ => {},
            CubeFace::NegativeZ => {},
        },
    }
}

/// Walking the shared edge: from `base_index`, step `k` (for `0 <= k < size`)
/// lands inside `face`'s buffer, on the row of pixels of `face` that touches
/// `edge`, at the same position along the edge as pixel `k` of `edge`'s
/// transverse axis; distinct steps reach distinct pixels; and one
/// `cross_step` further lands on the next row inward, at the same position.
pub proof fn lemma_edge_index_walk(face: CubeFace, edge: CubeFace, size: int, k: int)
    requires
        borders(face, edge),
        1 <= size,
        0 <= k < size,
    ensures
        ({
            let (b, m, c) = spec_edge_index(face, edge, size);
            let p = walk_index(face, edge, size, k);
            &&& 0 <= p < size * size
            &&& coord(pixel_point(face, p % size, p / size, size), edge) == size - 1
            &&& coord(pixel_point(face, p % size, p / size, size), transverse_face(edge, face)) == 2 * k
                + 1 - size
            &&& forall|j: int| 0 <= j < size && j != k ==> #[trigger] walk_index(face, edge, size, j) != p
            &&& size >= 2 ==> {
                let q = p + c;
                &&& 0 <= q < size * size
                &&& coord(pixel_point(face, q % size, q / size, size), edge) == size - 3
                &&& coord(pixel_point(face, q % size, q / size, size), transverse_face(edge, face))
                    == 2 * k + 1 - size
            }
        }),
{
    let (b, m, c) = spec_edge_index(face, edge, size);
    let p = b + k * m;
    let (x, y) = walk_pixel(face, edge, size, k);
    assert(p == y * size + x && 0 <= x < size && 0 <= y < size) by (nonlinear_arith)
        requires
            b + k * m == p,
            (b, m, c) == spec_edge_index(face, edge, size),
            (x, y) == walk_pixel(face, edge, size, k),
            1 <= size,
            0 <= k < size,
    ;
    assert(0 <= p < size * size) by (nonlinear_arith)
        requires
            p == y * size + x,
            0 <= x < size,
            0 <= y < size,
    ;
    lemma_fundamental_div_mod_converse(p, size, y, x);
    assert forall|j: int| 0 <= j < size && j != k implies #[trigger] walk_index(face, edge, size, j) != p by {
        assert(m != 0);
        assert(j * m != k * m) by (nonlinear_arith)
            requires
                m != 0,
                j != k,
        ;
    }
    lemma_walk_geometry(face, edge, size, k);
    if size >= 2 {
        let q = p + c;
        if face.spec_u_face().spec_abs() == edge.spec_abs() {
            let x2 = x + c;
            assert(q == y * size + x2 && 0 <= x2 < size);
            lemma_fundamental_div_mod_converse(q, size, y, x2);
            assert(0 <= q < size * size) by (nonlinear_arith)
                requires
                    q == y * size + x2,
                    0 <= x2 < size,
                    0 <= y < size,
            ;
        } else {
            let y2 = if c > 0 { y + 1 } else { y - 1 };
            assert(q == y2 * size + x && 0 <= y2 < size) by (nonlinear_arith)
                requires
                    q == p + c,
                    p == y * size + x,
                    c == size || c == -size,
                    c == size ==> y == 0,
                    c == -size ==> y == size - 1,
                    y2 == if c > 0 { y + 1 } else { y - 1 },
                    2 <= size,
            ;
            lemma_fundamental_div_mod_converse(q, size, y2, x);
            assert(0 <= q < size * size) by (nonlinear_arith)
                requires
                    q == y2 * size + x,
                    0 <= x < size,
                    0 <= y2 < size,
            ;
        }
    }
}

/// Every pixel reachable from the shared edge, `k` steps along it and `j`
/// steps inward (both below `size`), lies inside `face`'s buffer.
pub proof fn lemma_edge_index_in_buffer(face: CubeFace, edge: CubeFace, size: int, k: int, j: int)
    requires
        borders(face, edge),
        1 <= size,
        0 <= k < size,
        0 <= j < size,
    ensures
        ({
            let (b, m, c) = spec_edge_index(face, edge, size);
            0 <= b + k * m + j * c < size * size
        }),
{
    let (b, m, c) = spec_edge_index(face, edge, size);
    if face.spec_u_face().spec_abs() == edge.spec_abs() {
        let col = if c == 1 { j } else { size - 1 - j };
        let row = if m == size { k } else { size - 1 - k };
        assert(b + k * m + j * c == col + row * size) by (nonlinear_arith)
            requires
                (b, m, c) == spec_edge_index(face, edge, size),
                face.spec_u_face().spec_abs() == edge.spec_abs(),
                col == if c == 1 { j } else { size - 1 - j },
                row == if m == size { k } else { size - 1 - k },
                1 <= size,
        ;
        assert(0 <= col + row * size < size * size) by (nonlinear_arith)
            requires
                0 <= col < size,
                0 <= row < size,
        ;
    } else {
        let col = if m == 1 { k } else { size - 1 - k };
        let row = if c == size { j } else { size - 1 - j };
        assert(b + k * m + j * c == col + row * size) by (nonlinear_arith)
            requires
                (b, m, c) == spec_edge_index(face, edge, size),
                face.spec_u_face().spec_abs() != edge.spec_abs(),
                col == if m == 1 { k } else { size - 1 - k },
                row == if c == size { j } else { size - 1 - j },
                1 <= size,
        ;
        assert(0 <= col + row * size < size * size) by (nonlinear_arith)
            requires
                0 <= col < size,
                0 <= row < size,
        ;
    }
}

} // verus!
