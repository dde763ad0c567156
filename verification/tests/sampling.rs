use eq2c::error::Eq2cError;
use eq2c::image_utils::{clamp_index, sample_neighbors, wrap_index, Image, Texel};

fn tex(v: u32) -> Texel {
    Texel { r: v, g: v + 1, b: v + 2 }
}

/// A 2x2 image with a distinct texel in every cell.
fn two_by_two() -> Image {
    let texels = vec![tex(0), tex(10), tex(20), tex(30)];
    Image::from_texels(2, 2, texels).unwrap()
}

#[test]
fn test_wrap_index_wraps_both_ways() {
    assert_eq!(wrap_index(0, 8), 0);
    assert_eq!(wrap_index(7, 8), 7);
    assert_eq!(wrap_index(8, 8), 0);
    assert_eq!(wrap_index(-1, 8), 7);
    assert_eq!(wrap_index(-9, 8), 7);
    assert_eq!(wrap_index(17, 8), 1);
    assert_eq!(wrap_index(-3, 1), 0);
}

#[test]
fn test_clamp_index_clamps() {
    assert_eq!(clamp_index(-3, 4), 0);
    assert_eq!(clamp_index(0, 4), 0);
    assert_eq!(clamp_index(2, 4), 2);
    assert_eq!(clamp_index(3, 4), 3);
    assert_eq!(clamp_index(4, 4), 3);
    assert_eq!(clamp_index(99, 4), 3);
}

#[test]
fn test_sample_neighbors_interior() {
    // fetching at the top-left cell returns the four stored texels unchanged
    let img = two_by_two();
    let (c00, c10, c01, c11) = sample_neighbors(&img, 0, 0);
    assert_eq!(c00, tex(0));
    assert_eq!(c10, tex(10));
    assert_eq!(c01, tex(20));
    assert_eq!(c11, tex(30));
}

#[test]
fn test_sample_neighbors_wraps_horizontally() {
    // one column to the left of the image wraps to the rightmost column
    let img = two_by_two();
    let (c00, c10, c01, c11) = sample_neighbors(&img, -1, 0);
    assert_eq!(c00, tex(10));
    assert_eq!(c10, tex(0));
    assert_eq!(c01, tex(30));
    assert_eq!(c11, tex(20));
}

#[test]
fn test_sample_neighbors_clamps_vertically() {
    // below the last row the fetch clamps to the last row instead of wrapping
    let img = two_by_two();
    let (c00, c10, c01, c11) = sample_neighbors(&img, 1, 1);
    assert_eq!(c00, tex(30));
    assert_eq!(c10, tex(20));
    assert_eq!(c01, tex(30));
    assert_eq!(c11, tex(20));
}

#[test]
fn test_image_get_put() {
    let mut img = Image::new(3, 2).unwrap();
    assert_eq!(img.width(), 3);
    assert_eq!(img.height(), 2);
    assert_eq!(img.get_texel(2, 1), Texel::black());
    img.put_texel(2, 1, tex(7));
    assert_eq!(img.get_texel(2, 1), tex(7));
    assert_eq!(img.get_texel(1, 1), Texel::black());
    let copy = img.duplicate();
    assert_eq!(copy.texels(), img.texels());
}

#[test]
fn test_image_rejects_overflowing_dimensions() {
    let r = Image::new(usize::MAX, 2);
    assert!(matches!(r, Err(Eq2cError::SizeOverflow)));
}

#[test]
fn test_from_texels_rejects_wrong_length() {
    let r = Image::from_texels(2, 2, vec![tex(0); 3]);
    assert!(matches!(r, Err(Eq2cError::InvalidDimensions)));
}
