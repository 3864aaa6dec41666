use hyperenvmap::cubemap::{CubeFace, IntVector3};

const ALL: [CubeFace; 6] = [
    CubeFace::PositiveX,
    CubeFace::NegativeX,
    CubeFace::PositiveY,
    CubeFace::NegativeY,
    CubeFace::PositiveZ,
    CubeFace::NegativeZ,
];

#[test]
fn ordinals_round_trip() {
    for i in 0..6 {
        let f = CubeFace::from_ordinal(i).unwrap();
        assert_eq!(f.as_ordinal(), i);
        assert_eq!(CubeFace::from_ordinal_unchecked(i), f);
    }
    assert_eq!(CubeFace::from_ordinal(6), None);
    assert_eq!(CubeFace::from_ordinal(usize::MAX), None);
}

#[test]
fn negation_and_abs() {
    assert_eq!(CubeFace::PositiveX.neg(), CubeFace::NegativeX);
    assert_eq!(CubeFace::NegativeZ.neg(), CubeFace::PositiveZ);
    assert_eq!(CubeFace::NegativeY.abs(), CubeFace::PositiveY);
    assert_eq!(CubeFace::PositiveZ.abs(), CubeFace::PositiveZ);
    for f in ALL {
        assert_eq!(f.neg().neg(), f);
        assert_ne!(f.neg(), f);
        assert_eq!(f.neg().abs(), f.abs());
    }
}

#[test]
fn neighbours_are_distinct() {
    for f in ALL {
        assert_ne!(f.u_face(), f.v_face());
        assert_ne!(f.u_face(), f);
        assert_ne!(f.v_face(), f);
        assert_ne!(f.u_face().abs(), f.abs());
        assert_ne!(f.v_face().abs(), f.abs());
        assert_ne!(f.u_face().abs(), f.v_face().abs());
    }
}

#[test]
fn neighbour_table() {
    assert_eq!(CubeFace::PositiveX.u_face(), CubeFace::NegativeZ);
    assert_eq!(CubeFace::PositiveX.v_face(), CubeFace::NegativeY);
    assert_eq!(CubeFace::NegativeX.u_face(), CubeFace::PositiveZ);
    assert_eq!(CubeFace::PositiveY.v_face(), CubeFace::PositiveZ);
    assert_eq!(CubeFace::NegativeY.v_face(), CubeFace::NegativeZ);
    assert_eq!(CubeFace::NegativeZ.u_face(), CubeFace::NegativeX);
}

#[test]
fn normals_and_axes() {
    assert_eq!(CubeFace::NegativeY.normal(), IntVector3 { x: 0, y: -1, z: 0 });
    assert_eq!(CubeFace::PositiveZ.normal(), IntVector3 { x: 0, y: 0, z: 1 });
    assert_eq!(CubeFace::PositiveX.u_vec(), IntVector3 { x: 0, y: 0, z: -1 });
    assert_eq!(CubeFace::PositiveX.v_vec(), IntVector3 { x: 0, y: -1, z: 0 });
    for f in ALL {
        let (n, u, v) = (f.normal(), f.u_vec(), f.v_vec());
        assert_eq!(n.x * u.x + n.y * u.y + n.z * u.z, 0);
        assert_eq!(n.x * v.x + n.y * v.y + n.z * v.z, 0);
        assert_eq!(u.x * v.x + u.y * v.y + u.z * v.z, 0);
    }
}
