use vstd::prelude::*;

verus! {

/// One of the six faces of the cubemap, in a right-handed coordinate system
/// where Right/Left/Top/Bottom/Front/Back correspond to +X/-X/+Y/-Y/+Z/-Z.
#[derive(Clone, Copy, Debug, PartialEq, Eq, Structural)]
pub enum CubeFace {
    Right,
    Left,
    Top,
    Bottom,
    Front,
    Back,
}

/// The value one component of a face's un-normalized direction takes, as a
/// function of the remapped face-local coordinates `uc = 2u - 1` and
/// `vc = 2v - 1`: the fixed axis is `+1` or `-1`, and each of the other two
/// axes carries `uc` or `vc` with a sign.
#[derive(Clone, Copy, Debug, PartialEq, Eq, Structural)]
pub enum FaceCoeff {
    One,
    NegOne,
    U,
    NegU,
    V,
    NegV,
}

/// The orientation of one cube face: which coefficient each of the X, Y and Z
/// components of the un-normalized direction takes.
#[derive(Clone, Copy, Debug, PartialEq, Eq, Structural)]
pub struct FaceBasis {
    pub x: FaceCoeff,
    pub y: FaceCoeff,
    pub z: FaceCoeff,
}

/// The six-face orientation table. This table alone defines how each face is
/// oriented; any deviation mirrors or rotates a face.
pub open spec fn spec_face_basis(face: CubeFace) -> FaceBasis {
    match face {
        CubeFace::Right => (FaceBasis { x: FaceCoeff::One, y: FaceCoeff::NegV, z: FaceCoeff::NegU }),
        CubeFace::Left => (FaceBasis { x: FaceCoeff::NegOne, y: FaceCoeff::NegV, z: FaceCoeff::U }),
        CubeFace::Top => (FaceBasis { x: FaceCoeff::U, y: FaceCoeff::One, z: FaceCoeff::V }),
        CubeFace::Bottom => (FaceBasis { x: FaceCoeff::U, y: FaceCoeff::NegOne, z: FaceCoeff::NegV }),
        CubeFace::Front => (FaceBasis { x: FaceCoeff::U, y: FaceCoeff::NegV, z: FaceCoeff::One }),
        CubeFace::Back => (FaceBasis { x: FaceCoeff::NegU, y: FaceCoeff::NegV, z: FaceCoeff::NegOne }),
    }
}

/// The orientation of `face`, per the six-face table.
#[verifier::when_used_as_spec(spec_face_basis)]
pub fn face_basis(face: CubeFace) -> (b: FaceBasis)
    ensures
        b == spec_face_basis(face),
{
    match face {
        CubeFace::Right => FaceBasis { x: FaceCoeff::One, y: FaceCoeff::NegV, z: FaceCoeff::NegU },
        CubeFace::Left => FaceBasis { x: FaceCoeff::NegOne, y: FaceCoeff::NegV, z: FaceCoeff::U },
        CubeFace::Top => FaceBasis { x: FaceCoeff::U, y: FaceCoeff::One, z: FaceCoeff::V },
        CubeFace::Bottom => FaceBasis { x: FaceCoeff::U, y: FaceCoeff::NegOne, z: FaceCoeff::NegV },
        CubeFace::Front => FaceBasis { x: FaceCoeff::U, y: FaceCoeff::NegV, z: FaceCoeff::One },
        CubeFace::Back => FaceBasis { x: FaceCoeff::NegU, y: FaceCoeff::NegV, z: FaceCoeff::NegOne },
    }
}

/// The value of one coefficient, given the values `u` and `v` stand for and
/// the value `one` that the fixed axis takes.
pub open spec fn coeff_value(c: FaceCoeff, u: int, v: int, one: int) -> int {
    match c {
        FaceCoeff::One => one,
        FaceCoeff::NegOne => -one,
        FaceCoeff::U => u,
        FaceCoeff::NegU => -u,
        FaceCoeff::V => v,
        FaceCoeff::NegV => -v,
    }
}

/// The un-normalized direction through the center of destination pixel
/// `(x, y)` of an `n`-by-`n` face, scaled by `n` so that it is exact.
///
/// The face-local coordinates of the pixel center are `u = (x + 0.5) / n` and
/// `v = (y + 0.5) / n`, so `uc = 2u - 1 = (2x + 1 - n) / n` and likewise for
/// `vc`; scaling the direction by `n` clears the denominators without changing
/// the direction.
pub open spec fn pixel_direction(face: CubeFace, x: int, y: int, n: int) -> (int, int, int) {
    let b = spec_face_basis(face);
    let u = 2 * x + 1 - n;
    let v = 2 * y + 1 - n;
    (coeff_value(b.x, u, v, n), coeff_value(b.y, u, v, n), coeff_value(b.z, u, v, n))
}

/// One coefficient of the orientation table, evaluated on concrete values.
fn coeff_apply(c: FaceCoeff, u: i64, v: i64, one: i64) -> (r: i64)
    requires
        i64::MIN < u,
        i64::MIN < v,
        i64::MIN < one,
    ensures
        r == coeff_value(c, u as int, v as int, one as int),
{
    match c {
        FaceCoeff::One => one,
        FaceCoeff::NegOne => -one,
        FaceCoeff::U => u,
        FaceCoeff::NegU => -u,
        FaceCoeff::V => v,
        FaceCoeff::NegV => -v,
    }
}

/// The scaled un-normalized direction through the center of destination pixel
/// `(x, y)` of an `n`-by-`n` face: `n` times the direction the face-UV
/// mapping assigns to that pixel. Dividing each component by `n` and
/// normalizing to unit length yields the 3D direction to sample.
pub fn face_pixel_direction(face: CubeFace, x: usize, y: usize, n: usize) -> (d: (i64, i64, i64))
    requires
        x < n,
        y < n,
        n <= 0x4000_0000_0000_0000,
    ensures
        d.0 == pixel_direction(face, x as int, y as int, n as int).0,
        d.1 == pixel_direction(face, x as int, y as int, n as int).1,
        d.2 == pixel_direction(face, x as int, y as int, n as int).2,
{
    let b = face_basis(face);
    let u: i64 = 2 * (x as i64) + 1 - (n as i64);
    let v: i64 = 2 * (y as i64) + 1 - (n as i64);
    let one: i64 = n as i64;
    (coeff_apply(b.x, u, v, one), coeff_apply(b.y, u, v, one), coeff_apply(b.z, u, v, one))
}

/// The direction straight down the axis of `face`, scaled by `n`.
pub open spec fn axis_direction(face: CubeFace, n: int) -> (int, int, int) {
    match face {
        CubeFace::Right => (n, 0int, 0int),
        CubeFace::Left => (-n, 0int, 0int),
        CubeFace::Top => (0int, n, 0int),
        CubeFace::Bottom => (0int, -n, 0int),
        CubeFace::Front => (0int, 0int, n),
        CubeFace::Back => (0int, 0int, -n),
    }
}

/// Law: the center pixel of an odd-sized face looks straight down the
/// face's axis — the remapped coordinates vanish there and only the fixed
/// axis remains.
pub proof fn lemma_center_pixel_direction(face: CubeFace, k: int, n: int)
    requires
        0 <= k,
        n == 2 * k + 1,
    ensures
        pixel_direction(face, k, k, n) == axis_direction(face, n),
{
}

/// Law: the scaled pixel-center direction always lies on the surface of the
/// cube of half-width `n`: every component has absolute value at most `n`,
/// and at least one component (the face's fixed axis) has absolute value
/// exactly `n`. In particular the direction is never the zero vector, so
/// normalizing it to unit length is well defined for every face and pixel.
pub proof fn lemma_pixel_direction_on_cube(face: CubeFace, x: int, y: int, n: int)
    requires
        0 <= x < n,
        0 <= y < n,
    ensures
        ({
            let (dx, dy, dz) = pixel_direction(face, x, y, n);
            &&& -n <= dx <= n
            &&& -n <= dy <= n
            &&& -n <= dz <= n
            &&& dx == n || dx == -n || dy == n || dy == -n || dz == n || dz == -n
        }),
{
}

} // verus!
