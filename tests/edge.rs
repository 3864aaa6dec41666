use hyperenvmap::cubemap::CubeFace;
use hyperenvmap::edge::edge_index;

const ALL: [CubeFace; 6] = [
    CubeFace::PositiveX,
    CubeFace::NegativeX,
    CubeFace::PositiveY,
    CubeFace::NegativeY,
    CubeFace::PositiveZ,
    CubeFace::NegativeZ,
];

#[test]
fn edge_index_values() {
    assert_eq!(edge_index(CubeFace::PositiveX, CubeFace::PositiveZ, 4), (0, 4, 1));
    assert_eq!(edge_index(CubeFace::NegativeY, CubeFace::PositiveZ, 4), (0, 1, 4));
    assert_eq!(edge_index(CubeFace::PositiveY, CubeFace::PositiveX, 4), (15, -4, -1));
    assert_eq!(edge_index(CubeFace::NegativeZ, CubeFace::NegativeY, 4), (15, -1, -4));
}

#[test]
fn edge_walk_visits_whole_edge_once() {
    for size in [1usize, 2, 4, 7] {
        for face in ALL {
            for edge in ALL {
                if face.abs() == edge.abs() {
                    continue;
                }
                let (base, main, cross) = edge_index(face, edge, size);
                let s = size as isize;
                let mut seen = vec![false; size * size];
                for k in 0..s {
                    let p = base + k * main;
                    assert!(p >= 0 && p < s * s);
                    assert!(!seen[p as usize]);
                    seen[p as usize] = true;
                    // on the outermost row or column of `face`
                    let (x, y) = (p % s, p / s);
                    assert!(x == 0 || x == s - 1 || y == 0 || y == s - 1);
                    if size >= 2 {
                        let q = p + cross;
                        assert!(q >= 0 && q < s * s);
                    }
                }
                assert_eq!(seen.iter().filter(|b| **b).count(), size);
            }
        }
    }
}
