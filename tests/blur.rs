use hyperenvmap::cubemap::CubeFace;
use hyperenvmap::edge::edge_index;
use hyperenvmap::directional::directional_layout;
use hyperenvmap::fixed::round_xp2i;
use hyperenvmap::ltasgblur::{
    border_fixed, face_layout, phase_axis, validate_pass, BlurError, CubeMapTrait, FaceLayout,
    StandardCubeMapTrait, StretchedCubeMapTrait, Tap,
};
use hyperenvmap::radial::{radial_layout, RadialFootprint};

fn gaussian_kernel(radius: usize, sigma: f32) -> Vec<f32> {
    let mut v: Vec<f32> = (-(radius as isize)..(radius as isize) + 1)
        .map(|i| (-0.5 * (i as f32 * (1.0 / sigma)).powi(2)).exp())
        .collect();
    let sum: f32 = v.iter().sum();
    for x in v.iter_mut() {
        *x *= 1.0 / sum;
    }
    v
}

fn accumulate(in_faces: &[Vec<f32>], taps: &[Tap], kernel: &[f32]) -> f32 {
    let mut sum = 0.0f32;
    for (tap, w) in taps.iter().zip(kernel.iter()) {
        sum += in_faces[tap.face.as_ordinal()][tap.index] * *w;
    }
    sum
}

/// One blur pass over six `size`×`size` faces of `f32` samples, with the
/// floating-point footprint preparation done here and the sampling decided by
/// the library.
fn pass(
    out_faces: &mut [Vec<f32>],
    in_faces: &[Vec<f32>],
    size: usize,
    kernel: &[f32],
    kernel_scale: f32,
    phase: usize,
) {
    let axis = validate_pass(size, kernel.len(), phase).unwrap();
    let conv = StandardCubeMapTrait;
    let kernel_radius = kernel.len() / 2;
    assert!(kernel_scale >= 0.0);
    assert!(size as f32 > kernel_radius as f32 * kernel_scale * 3.0f32.sqrt());
    let (corner_uv, duv_dxy, brd_min, brd_max) =
        (1.0 / size as f32 - 1.0, 2.0 / size as f32, -0.5f32, size as f32 - 0.5);
    for face_i in 0..6 {
        let face = CubeFace::from_ordinal(face_i).unwrap();
        match face_layout(face, axis, size, &conv) {
            FaceLayout::Radial(layout) => {
                let mut i = 0;
                let mut cur_v = corner_uv;
                for y in 0..size {
                    let mut cur_u = corner_uv;
                    for x in 0..size {
                        let local_scale =
                            kernel_scale * (1.0 + cur_u * cur_u + cur_v * cur_v).sqrt();
                        let (mut cx, mut cy) = (x as f32, y as f32);
                        let (mut dx, mut dy) = (cur_u * local_scale, cur_v * local_scale);
                        cx -= dx * kernel_radius as f32;
                        cy -= dy * kernel_radius as f32;
                        let major_y = cur_v.abs() > cur_u.abs();
                        if major_y {
                            std::mem::swap(&mut cx, &mut cy);
                            std::mem::swap(&mut dx, &mut dy);
                        }
                        let end_x = cx + dx * kernel.len() as f32;
                        let crosses = end_x <= brd_min || end_x >= brd_max;
                        let mut minor = 0isize;
                        if crosses {
                            let mut minor_pos = if dx >= 0.0 {
                                (brd_max - cx) / dx
                            } else {
                                (brd_min - cx) / dx
                            } * dy
                                + cy;
                            if minor_pos <= brd_min {
                                minor_pos = brd_min + 0.00001;
                            } else if minor_pos >= brd_max {
                                minor_pos = brd_max - 0.00001;
                            }
                            minor = (minor_pos + 0.5).floor() as isize;
                        }
                        let f = RadialFootprint {
                            start_x: (cx * 65536.0) as i32,
                            start_y: (cy * 65536.0) as i32,
                            step_x: (dx * 65536.0) as i32,
                            step_y: (dy * 65536.0) as i32,
                            major_y,
                            crosses,
                            toward_positive: dx >= 0.0,
                            minor,
                        };
                        let taps = layout.taps(&f, kernel.len()).expect("tap out of range");
                        out_faces[face_i][i] = accumulate(in_faces, &taps, kernel);
                        i += 1;
                        cur_u += duv_dxy;
                    }
                    cur_v += duv_dxy;
                }
            }
            FaceLayout::Directional(layout) => {
                let mut cur_v = corner_uv;
                for y in 0..size {
                    let mut cur_u = corner_uv;
                    for x in 0..size {
                        let local_scale =
                            kernel_scale * (1.0 + cur_u * cur_u + cur_v * cur_v).sqrt();
                        let step = (local_scale * 65536.0) as i32;
                        let v = (cur_v * 65536.0) as i32;
                        assert!(v.abs() <= 65536);
                        let taps = layout
                            .taps(x, y, step, v, kernel.len())
                            .expect("tap out of range");
                        out_faces[face_i][layout.output_index(x, y)] =
                            accumulate(in_faces, &taps, kernel);
                        cur_u += duv_dxy;
                    }
                    cur_v += duv_dxy;
                }
            }
        }
    }
}

fn cube(size: usize, value: f32) -> Vec<Vec<f32>> {
    vec![vec![value; size * size]; 6]
}

#[test]
fn doesnt_panic() {
    let kernel = gaussian_kernel(8, 4.0);
    for &size in [15usize, 16, 32, 64, 100, 127, 128, 256].iter() {
        println!("Trying size {}", size);
        let mut out = cube(size, 0.0);
        pass(&mut out, &cube(size, 0.0), size, &kernel, 0.5, 0);
    }
}

#[test]
fn all_phases_stay_in_range() {
    let kernel = gaussian_kernel(8, 4.0);
    for &size in [16usize, 32, 64, 128].iter() {
        for phase in 0..3 {
            let mut out = cube(size, 0.0);
            pass(&mut out, &cube(size, 0.0), size, &kernel, 0.5, phase);
        }
    }
}

#[test]
fn constant_map_stays_constant() {
    let kernel = gaussian_kernel(8, 4.0);
    let size = 16;
    for phase in 0..3 {
        let mut out = cube(size, 0.0);
        pass(&mut out, &cube(size, 2.5), size, &kernel, 0.5, phase);
        for face in out.iter() {
            for &s in face.iter() {
                assert!((s - 2.5).abs() < 1e-4, "phase {} gave {}", phase, s);
            }
        }
    }
}

#[test]
fn one_tap_kernel_is_identity() {
    let size = 8;
    let mut input = cube(size, 0.0);
    for f in 0..6 {
        for i in 0..size * size {
            input[f][i] = (f * 100 + i) as f32;
        }
    }
    for phase in 0..3 {
        let mut out = cube(size, -1.0);
        pass(&mut out, &input, size, &[1.0], 0.3, phase);
        assert_eq!(out, input);
    }
}

#[test]
fn impulse_spreads_across_the_edge() {
    let size = 16;
    let kernel = gaussian_kernel(4, 2.0);
    let pz = CubeFace::PositiveZ.as_ordinal();
    let px = CubeFace::PositiveX.as_ordinal();
    let (row, col) = (8usize, size - 3);
    let mut input = cube(size, 0.0);
    input[pz][row * size + col] = 1.0;
    // +Z lies across the X axis: a directional pass
    let mut mid = cube(size, 0.0);
    pass(&mut mid, &input, size, &kernel, 0.5, 0);
    let sums: Vec<f32> = mid.iter().map(|f| f.iter().sum::<f32>()).collect();
    let total: f32 = sums.iter().sum();
    // the footprints of +X (radial in this pass) reach the impulse through
    // the shared edge, on the row that `edge_index` names for row `row`
    let (base, main, cross) = edge_index(CubeFace::PositiveX, CubeFace::PositiveZ, size);
    let at_edge = base + row as isize * main;
    let near: f32 = (0..3).map(|c| mid[px][(at_edge + c * cross) as usize]).sum();
    assert!(near > 0.0, "sums {:?}", sums);
    assert!(sums[px] > 0.01 && sums[px] < 0.2, "sums {:?}", sums);
    assert!((total - 1.0).abs() < 0.05, "sums {:?}", sums);
    for f in [1usize, 2, 3, 5] {
        assert!(mid[f].iter().all(|s| *s == 0.0));
    }
    // then the radial pass of +Z
    let mut out = cube(size, 0.0);
    pass(&mut out, &mid, size, &kernel, 0.5, 2);
    let sums2: Vec<f32> = out.iter().map(|f| f.iter().sum::<f32>()).collect();
    let total2: f32 = sums2.iter().sum();
    assert!((total2 - 1.0).abs() < 0.05, "sums {:?} then {:?}", sums, sums2);
    assert!(out.iter().flatten().all(|s| *s >= 0.0));
}

#[test]
fn rounding_of_fixed_point() {
    assert_eq!(round_xp2i(0), 0);
    assert_eq!(round_xp2i(32767), 0);
    assert_eq!(round_xp2i(32768), 1);
    assert_eq!(round_xp2i(3 * 65536), 3);
    assert_eq!(round_xp2i(-32768), 0);
    assert_eq!(round_xp2i(-32769), -1);
    assert_eq!(round_xp2i(-2 * 65536), -2);
}

#[test]
fn pass_parameters() {
    assert_eq!(validate_pass(16, 17, 0), Ok(CubeFace::PositiveX));
    assert_eq!(validate_pass(16, 17, 1), Ok(CubeFace::PositiveY));
    assert_eq!(validate_pass(32768, 1, 2), Ok(CubeFace::PositiveZ));
    assert_eq!(validate_pass(16, 17, 3), Err(BlurError::InvalidParameter));
    assert_eq!(validate_pass(16, 16, 0), Err(BlurError::InvalidParameter));
    assert_eq!(validate_pass(0, 1, 0), Err(BlurError::InvalidParameter));
    assert_eq!(validate_pass(32769, 1, 0), Err(BlurError::InvalidParameter));
    assert_eq!(phase_axis(5), None);
}

#[test]
fn border_conventions() {
    assert_eq!(border_fixed(4, false), (-32768, 4 * 65536 - 32768));
    assert_eq!(border_fixed(4, true), (0, 3 * 65536));
    assert!(!StandardCubeMapTrait.edge_stretch_fixup());
    assert!(!StretchedCubeMapTrait.edge_stretch_fixup());
}

#[test]
fn directional_taps_cross_onto_neighbour() {
    // +Z in a pass along X: its +U neighbour is +X
    let l = directional_layout(CubeFace::PositiveZ, CubeFace::PositiveX, 4, &StandardCubeMapTrait);
    assert_eq!(l.pos_face, CubeFace::PositiveX);
    assert_eq!(l.neg_face, CubeFace::NegativeX);
    assert_eq!(l.pos_edge, (0, 4, 1));
    let taps = l.taps(3, 1, 65536, 0, 3).unwrap();
    assert_eq!(
        taps,
        vec![
            Tap { face: CubeFace::PositiveZ, index: 6 },
            Tap { face: CubeFace::PositiveZ, index: 7 },
            Tap { face: CubeFace::PositiveX, index: 5 },
        ]
    );
    assert_eq!(l.output_index(3, 1), 7);
    // a footprint far past the neighbour's far side has no sample
    assert_eq!(l.taps(3, 1, 20 * 65536, 0, 3), None);
}

#[test]
fn radial_taps() {
    let l = radial_layout(CubeFace::PositiveX, 4, &StandardCubeMapTrait);
    assert_eq!(l.pos_u_face, CubeFace::NegativeZ);
    assert_eq!(l.neg_v_face, CubeFace::PositiveY);
    let f = RadialFootprint {
        start_x: 65536,
        start_y: 2 * 65536,
        step_x: 65536,
        step_y: 0,
        major_y: false,
        crosses: true,
        toward_positive: true,
        minor: 2,
    };
    let taps = l.taps(&f, 4).unwrap();
    let (base, main, cross) = edge_index(CubeFace::NegativeZ, CubeFace::PositiveX, 4);
    let over = (base + main * 2 + cross) as usize;
    assert_eq!(
        taps,
        vec![
            Tap { face: CubeFace::PositiveX, index: 9 },
            Tap { face: CubeFace::PositiveX, index: 10 },
            Tap { face: CubeFace::PositiveX, index: 11 },
            Tap { face: CubeFace::NegativeZ, index: over },
        ]
    );
    let swapped = RadialFootprint { major_y: true, crosses: false, ..f };
    assert_eq!(
        l.taps(&swapped, 1).unwrap(),
        vec![Tap { face: CubeFace::PositiveX, index: 4 + 2 }]
    );
    match face_layout(CubeFace::NegativeX, CubeFace::PositiveX, 4, &StandardCubeMapTrait) {
        FaceLayout::Radial(r) => assert_eq!(r.face, CubeFace::NegativeX),
        FaceLayout::Directional(_) => panic!("expected the radial case"),
    }
}
