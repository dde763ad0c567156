use eq2c::error::Eq2cError;
use eq2c::image_utils::{Image, Texel};
use eq2c::layouts::cross::CrossLayout;
use eq2c::layouts::separate::SeparateLayout;
use eq2c::layouts::strip::{StripDirection, StripLayout};
use eq2c::layouts::{generate_layout, FaceSet, LayoutOutput, LayoutType};
use eq2c::math::CubeFace;

fn tex(v: u32) -> Texel {
    Texel { r: v, g: v, b: v }
}

fn uniform_image(n: usize, t: Texel) -> Image {
    Image::from_texels(n, n, vec![t; n * n]).unwrap()
}

/// One face set with a distinct uniform texel per face:
/// Right 1, Left 2, Top 3, Bottom 4, Front 5, Back 6.
fn tagged_faces(n: usize) -> FaceSet {
    FaceSet::new(
        uniform_image(n, tex(1)),
        uniform_image(n, tex(2)),
        uniform_image(n, tex(3)),
        uniform_image(n, tex(4)),
        uniform_image(n, tex(5)),
        uniform_image(n, tex(6)),
    )
    .unwrap()
}

fn single(r: Result<LayoutOutput, Eq2cError>) -> Image {
    match r {
        Ok(LayoutOutput::Single(img)) => img,
        _ => panic!("expected one composite image"),
    }
}

#[test]
fn test_cross_layout_n2() {
    // 4x3 cells of side 2: Top at (N, 0), Bottom at (N, 2N), size (4N, 3N)
    let n = 2;
    let img = single(CrossLayout {}.generate(&tagged_faces(n)));
    assert_eq!(img.width(), 4 * n);
    assert_eq!(img.height(), 3 * n);
    for dy in 0..n {
        for dx in 0..n {
            assert_eq!(img.get_texel(n + dx, dy), tex(3)); // Top
            assert_eq!(img.get_texel(n + dx, 2 * n + dy), tex(4)); // Bottom
            assert_eq!(img.get_texel(dx, n + dy), tex(2)); // Left
            assert_eq!(img.get_texel(n + dx, n + dy), tex(5)); // Front
            assert_eq!(img.get_texel(2 * n + dx, n + dy), tex(1)); // Right
            assert_eq!(img.get_texel(3 * n + dx, n + dy), tex(6)); // Back
        }
    }
    // cells no face covers stay zero-initialized
    assert_eq!(img.get_texel(0, 0), Texel::black());
    assert_eq!(img.get_texel(4 * n - 1, 3 * n - 1), Texel::black());
    assert_eq!(img.get_texel(0, 2 * n), Texel::black());
}

#[test]
fn test_strip_horizontal_n4() {
    // (24, 4) composite, faces at x-offsets 0, 4, 8, 12, 16, 20
    let n = 4;
    let layout = StripLayout { direction: StripDirection::Horizontal };
    let img = single(layout.generate(&tagged_faces(n)));
    assert_eq!(img.width(), 24);
    assert_eq!(img.height(), 4);
    let order = [tex(1), tex(2), tex(3), tex(4), tex(5), tex(6)];
    for (i, want) in order.iter().enumerate() {
        for dy in 0..n {
            for dx in 0..n {
                assert_eq!(img.get_texel(i * n + dx, dy), *want);
            }
        }
    }
}

#[test]
fn test_strip_vertical_n3() {
    let n = 3;
    let layout = StripLayout { direction: StripDirection::Vertical };
    let img = single(layout.generate(&tagged_faces(n)));
    assert_eq!(img.width(), 3);
    assert_eq!(img.height(), 18);
    let order = [tex(1), tex(2), tex(3), tex(4), tex(5), tex(6)];
    for (i, want) in order.iter().enumerate() {
        for dy in 0..n {
            for dx in 0..n {
                assert_eq!(img.get_texel(dx, i * n + dy), *want);
            }
        }
    }
}

#[test]
fn test_separate_layout_order() {
    let n = 2;
    let layout = SeparateLayout {};
    let frames = match layout.generate(&tagged_faces(n)) {
        Ok(LayoutOutput::Frames(frames)) => frames,
        _ => panic!("expected six frames"),
    };
    let want = [
        (CubeFace::Right, tex(1), "px"),
        (CubeFace::Left, tex(2), "nx"),
        (CubeFace::Top, tex(3), "py"),
        (CubeFace::Bottom, tex(4), "ny"),
        (CubeFace::Front, tex(5), "pz"),
        (CubeFace::Back, tex(6), "nz"),
    ];
    assert_eq!(frames.len(), 6);
    for (frame, (face, t, suffix)) in frames.iter().zip(want.iter()) {
        assert_eq!(frame.0, *face);
        assert_eq!(frame.1.width(), n);
        assert_eq!(frame.1.height(), n);
        assert_eq!(frame.1.get_texel(0, 0), *t);
        assert_eq!(frame.1.get_texel(n - 1, n - 1), *t);
        assert_eq!(eq2c::paths::face_suffix(frame.0), *suffix);
    }
}

#[test]
fn test_generate_layout_dispatch() {
    let n = 2;
    let faces = tagged_faces(n);
    let img = single(generate_layout(LayoutType::Cross, &faces));
    assert_eq!((img.width(), img.height()), (8, 6));
    let img = single(generate_layout(LayoutType::StripHorizontal, &faces));
    assert_eq!((img.width(), img.height()), (12, 2));
    let img = single(generate_layout(LayoutType::StripVertical, &faces));
    assert_eq!((img.width(), img.height()), (2, 12));
    assert!(matches!(
        generate_layout(LayoutType::Separate, &faces),
        Ok(LayoutOutput::Frames(_))
    ));
}

#[test]
fn test_uniform_faces_give_uniform_strip() {
    // six identical uniform faces compose to a composite with every texel
    // equal, whatever the size
    let gray = Texel { r: 0x3f000000, g: 0x3f000000, b: 0x3f000000 };
    for n in [1usize, 3, 5] {
        let faces = FaceSet::new(
            uniform_image(n, gray),
            uniform_image(n, gray),
            uniform_image(n, gray),
            uniform_image(n, gray),
            uniform_image(n, gray),
            uniform_image(n, gray),
        )
        .unwrap();
        let img = single(StripLayout { direction: StripDirection::Horizontal }.generate(&faces));
        for y in 0..img.height() {
            for x in 0..img.width() {
                assert_eq!(img.get_texel(x, y), gray);
            }
        }
    }
}

#[test]
fn test_face_set_rejects_mismatched_sizes() {
    let r = FaceSet::new(
        uniform_image(2, tex(1)),
        uniform_image(2, tex(2)),
        uniform_image(3, tex(3)),
        uniform_image(2, tex(4)),
        uniform_image(2, tex(5)),
        uniform_image(2, tex(6)),
    );
    assert!(matches!(r, Err(Eq2cError::InvalidDimensions)));
}
