use vstd::prelude::*;
use super::{face_order, FaceSet, LayoutOutput};
use crate::error::Eq2cError;
use crate::image_utils::Image;
use crate::math::CubeFace;

verus! {

/// The layout that does no compositing: the six rendered faces are handed
/// out unchanged, each tagged with its face, in the fixed enumeration order.
/// The external path-naming collaborator derives one file name per frame
/// from the face's suffix.
pub struct SeparateLayout;

/// `frames` holds the six faces of `faces` in the fixed enumeration order,
/// each tagged with its face and each an exact copy of the rendered buffer.
pub open spec fn is_separate_frames(faces: FaceSet, frames: Seq<(CubeFace, Image)>) -> bool {
    &&& frames.len() == 6
    &&& forall|i: int|
        0 <= i < 6 ==> {
            &&& (#[trigger] frames[i]).0 == face_order()[i]
            &&& frames[i].1.wf()
            &&& frames[i].1@ == faces.spec_face(face_order()[i])
        }
}

impl SeparateLayout {
    /// Forward the six faces unchanged, in the fixed enumeration order.
    pub fn generate(&self, faces: &FaceSet) -> (r: Result<LayoutOutput, Eq2cError>)
        requires
            faces.wf(),
        ensures
            r matches Ok(out) && out matches LayoutOutput::Frames(frames) && is_separate_frames(
                *faces,
                frames@,
            ),
    {
        let mut frames: Vec<(CubeFace, Image)> = Vec::new();
        frames.push((CubeFace::Right, faces.face_image(CubeFace::Right).duplicate()));
        frames.push((CubeFace::Left, faces.face_image(CubeFace::Left).duplicate()));
        frames.push((CubeFace::Top, faces.face_image(CubeFace::Top).duplicate()));
        frames.push((CubeFace::Bottom, faces.face_image(CubeFace::Bottom).duplicate()));
        frames.push((CubeFace::Front, faces.face_image(CubeFace::Front).duplicate()));
        frames.push((CubeFace::Back, faces.face_image(CubeFace::Back).duplicate()));
        Ok(LayoutOutput::Frames(frames))
    }
}

} // verus!
