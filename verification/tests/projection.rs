use eq2c::math::{face_basis, face_pixel_direction, CubeFace, FaceBasis, FaceCoeff};

const ALL_FACES: [CubeFace; 6] = [
    CubeFace::Right,
    CubeFace::Left,
    CubeFace::Top,
    CubeFace::Bottom,
    CubeFace::Front,
    CubeFace::Back,
];

#[test]
fn test_face_basis_table() {
    assert_eq!(
        face_basis(CubeFace::Right),
        FaceBasis { x: FaceCoeff::One, y: FaceCoeff::NegV, z: FaceCoeff::NegU }
    );
    assert_eq!(
        face_basis(CubeFace::Left),
        FaceBasis { x: FaceCoeff::NegOne, y: FaceCoeff::NegV, z: FaceCoeff::U }
    );
    assert_eq!(
        face_basis(CubeFace::Top),
        FaceBasis { x: FaceCoeff::U, y: FaceCoeff::One, z: FaceCoeff::V }
    );
    assert_eq!(
        face_basis(CubeFace::Bottom),
        FaceBasis { x: FaceCoeff::U, y: FaceCoeff::NegOne, z: FaceCoeff::NegV }
    );
    assert_eq!(
        face_basis(CubeFace::Front),
        FaceBasis { x: FaceCoeff::U, y: FaceCoeff::NegV, z: FaceCoeff::One }
    );
    assert_eq!(
        face_basis(CubeFace::Back),
        FaceBasis { x: FaceCoeff::NegU, y: FaceCoeff::NegV, z: FaceCoeff::NegOne }
    );
}

#[test]
fn test_center_pixel_direction_front() {
    // a one-pixel face samples straight down the face axis
    assert_eq!(face_pixel_direction(CubeFace::Front, 0, 0, 1), (0, 0, 1));
    // odd sizes have an exact center pixel
    assert_eq!(face_pixel_direction(CubeFace::Front, 2, 2, 5), (0, 0, 5));
}

#[test]
fn test_center_pixel_direction_right() {
    assert_eq!(face_pixel_direction(CubeFace::Right, 0, 0, 1), (1, 0, 0));
    assert_eq!(face_pixel_direction(CubeFace::Right, 2, 2, 5), (5, 0, 0));
}

#[test]
fn test_corner_pixel_directions() {
    // top-left pixel of a 2x2 front face: uc scaled = -1, vc scaled = -1
    assert_eq!(face_pixel_direction(CubeFace::Front, 0, 0, 2), (-1, 1, 2));
    // bottom-right pixel of the same face
    assert_eq!(face_pixel_direction(CubeFace::Front, 1, 1, 2), (1, -1, 2));
    // the back face mirrors u so the panorama seam lines up
    assert_eq!(face_pixel_direction(CubeFace::Back, 0, 0, 2), (1, 1, -2));
}

#[test]
fn test_pixel_direction_on_cube_surface() {
    // every pixel direction lies on the cube: largest component magnitude
    // equals the face size, the others stay strictly inside
    let n: usize = 4;
    for &face in ALL_FACES.iter() {
        for y in 0..n {
            for x in 0..n {
                let (dx, dy, dz) = face_pixel_direction(face, x, y, n);
                let m = dx.abs().max(dy.abs()).max(dz.abs());
                assert_eq!(m, n as i64);
                assert!(dx.abs() <= n as i64);
                assert!(dy.abs() <= n as i64);
                assert!(dz.abs() <= n as i64);
            }
        }
    }
}
