use eq2c::codecs::ldr_buffer_len;
use eq2c::error::Eq2cError;
use eq2c::paths::{append_suffix, face_suffix};
use eq2c::math::CubeFace;

#[test]
fn test_face_suffix_table() {
    assert_eq!(face_suffix(CubeFace::Right), "px");
    assert_eq!(face_suffix(CubeFace::Left), "nx");
    assert_eq!(face_suffix(CubeFace::Top), "py");
    assert_eq!(face_suffix(CubeFace::Bottom), "ny");
    assert_eq!(face_suffix(CubeFace::Front), "pz");
    assert_eq!(face_suffix(CubeFace::Back), "nz");
}

#[test]
fn test_append_suffix_with_extension() {
    assert_eq!(append_suffix("skybox.png", "px"), "skybox_px.png");
    assert_eq!(append_suffix("out/skybox.exr", "ny"), "out/skybox_ny.exr");
    // only the last dot starts the extension
    assert_eq!(append_suffix("a/b.tar.gz", "px"), "a/b.tar_px.gz");
}

#[test]
fn test_append_suffix_without_extension() {
    assert_eq!(append_suffix("image", "py"), "image_py");
    // a dot in a directory is not an extension
    assert_eq!(append_suffix("dir.v1/file", "nx"), "dir.v1/file_nx");
    // a leading dot hides the file, it does not start an extension
    assert_eq!(append_suffix(".hidden", "nz"), ".hidden_nz");
    assert_eq!(append_suffix("out/.hidden", "nz"), "out/.hidden_nz");
}

#[test]
fn test_append_suffix_edge_shapes() {
    // a trailing dot is an empty extension and keeps its place
    assert_eq!(append_suffix("a.", "px"), "a_px.");
    assert_eq!(append_suffix("", "px"), "_px");
    assert_eq!(append_suffix("x", "py"), "x_py");
}

#[test]
fn test_ldr_buffer_len() {
    assert_eq!(ldr_buffer_len(10, 20), Ok(600));
    assert_eq!(ldr_buffer_len(0, 5), Ok(0));
    assert!(matches!(ldr_buffer_len(usize::MAX, 2), Err(Eq2cError::SizeOverflow)));
    assert!(matches!(
        ldr_buffer_len(usize::MAX / 2, 1),
        Err(Eq2cError::SizeOverflow)
    ));
}

#[test]
fn test_error_messages() {
    assert_eq!(Eq2cError::InvalidDimensions.message(), "invalid layout dimensions");
    assert_eq!(Eq2cError::SizeOverflow.message(), "image dimensions too large");
}
