use vstd::prelude::*;
use crate::error::Eq2cError;
use crate::image_utils::{GridView, Image, Texel};
use crate::math::CubeFace;

pub mod cross;
pub mod separate;
pub mod strip;

use cross::CrossLayout;
use separate::SeparateLayout;
use strip::StripLayout;

verus! {

/// The output arrangements for the six rendered faces.
#[derive(Clone, Copy, Debug, PartialEq, Eq, Structural)]
pub enum LayoutType {
    Cross,
    StripHorizontal,
    StripVertical,
    Separate,
}

/// What composing produces: either one composite image, or the six rendered
/// faces forwarded unchanged, each tagged with its face.
pub enum LayoutOutput {
    Single(Image),
    Frames(Vec<(CubeFace, Image)>),
}

/// The order in which faces are enumerated whenever they are handed out as a
/// sequence: Right, Left, Top, Bottom, Front, Back. The order carries no
/// meaning of its own but is fixed, so concatenated output is deterministic.
pub open spec fn face_order() -> Seq<CubeFace> {
    seq![
        CubeFace::Right,
        CubeFace::Left,
        CubeFace::Top,
        CubeFace::Bottom,
        CubeFace::Front,
        CubeFace::Back,
    ]
}

/// The six rendered faces of one cubemap, all square and of equal size.
pub struct FaceSet {
    right: Image,
    left: Image,
    top: Image,
    bottom: Image,
    front: Image,
    back: Image,
}

/// Six grids make a consistent face set when each is square with side equal
/// to the side of the first.
pub open spec fn faces_consistent(
    right: GridView,
    left: GridView,
    top: GridView,
    bottom: GridView,
    front: GridView,
    back: GridView,
) -> bool {
    &&& right.height == right.width
    &&& left.width == right.width && left.height == right.width
    &&& top.width == right.width && top.height == right.width
    &&& bottom.width == right.width && bottom.height == right.width
    &&& front.width == right.width && front.height == right.width
    &&& back.width == right.width && back.height == right.width
}

impl FaceSet {
    /// The rendered buffer of `f`.
    pub closed spec fn spec_face(self, f: CubeFace) -> GridView {
        match f {
            CubeFace::Right => self.right@,
            CubeFace::Left => self.left@,
            CubeFace::Top => self.top@,
            CubeFace::Bottom => self.bottom@,
            CubeFace::Front => self.front@,
            CubeFace::Back => self.back@,
        }
    }

    /// The common side length of the six square faces.
    pub open spec fn spec_size(self) -> nat {
        self.spec_face(CubeFace::Right).width
    }

    /// Every face buffer is well formed, square, and of the common size.
    pub open spec fn wf(self) -> bool {
        forall|f: CubeFace|
            (#[trigger] self.spec_face(f)).wf() && self.spec_face(f).width == self.spec_size()
                && self.spec_face(f).height == self.spec_size()
    }

    /// Every cell of every face holds `t`.
    pub open spec fn uniform(self, t: Texel) -> bool {
        forall|f: CubeFace| (#[trigger] self.spec_face(f)).uniform(t)
    }

    /// Gather six rendered faces, refusing buffers that are not all square
    /// and of one common size.
    pub fn new(
        right: Image,
        left: Image,
        top: Image,
        bottom: Image,
        front: Image,
        back: Image,
    ) -> (r: Result<FaceSet, Eq2cError>)
        requires
            right.wf(),
            left.wf(),
            top.wf(),
            bottom.wf(),
            front.wf(),
            back.wf(),
        ensures
            faces_consistent(right@, left@, top@, bottom@, front@, back@) ==> (r matches Ok(fs)
                && fs.wf() && fs.spec_size() == right@.width && fs.spec_face(CubeFace::Right)
                == right@ && fs.spec_face(CubeFace::Left) == left@ && fs.spec_face(CubeFace::Top)
                == top@ && fs.spec_face(CubeFace::Bottom) == bottom@ && fs.spec_face(
                CubeFace::Front,
            ) == front@ && fs.spec_face(CubeFace::Back) == back@),
            !faces_consistent(right@, left@, top@, bottom@, front@, back@) ==> (r matches Err(e)
                && e == Eq2cError::InvalidDimensions),
    {
        let s = right.width();
        if right.height() == s && left.width() == s && left.height() == s && top.width() == s
            && top.height() == s && bottom.width() == s && bottom.height() == s && front.width()
            == s && front.height() == s && back.width() == s && back.height() == s {
            Ok(FaceSet { right, left, top, bottom, front, back })
        } else {
            Err(Eq2cError::InvalidDimensions)
        }
    }

    /// The common side length of the six square faces.
    pub fn size(&self) -> (n: usize)
        ensures
            n == self.spec_size(),
    {
        self.right.width()
    }

    /// Borrow the rendered buffer of `f`.
    pub fn face_image(&self, f: CubeFace) -> (img: &Image)
        ensures
            img@ == self.spec_face(f),
    {
        match f {
            CubeFace::Right => &self.right,
            CubeFace::Left => &self.left,
            CubeFace::Top => &self.top,
            CubeFace::Bottom => &self.bottom,
            CubeFace::Front => &self.front,
            CubeFace::Back => &self.back,
        }
    }
}

/// Compose the six rendered faces according to the selected layout: the
/// cross or a strip yields one composite image, the separate layout the six
/// frames unchanged. Composites are refused, with a size-limit failure,
/// exactly when their texel count would overflow `usize`.
pub fn generate_layout(layout: LayoutType, faces: &FaceSet) -> (r: Result<
    LayoutOutput,
    Eq2cError,
>)
    requires
        faces.wf(),
    ensures
        layout is Cross ==> {
            &&& 12 * faces.spec_size() * faces.spec_size() <= usize::MAX ==> (r matches Ok(out)
                && out matches LayoutOutput::Single(img) && img.wf() && cross::is_cross_composite(
                *faces,
                img@,
            ))
            &&& 12 * faces.spec_size() * faces.spec_size() > usize::MAX ==> (r matches Err(e)
                && e == Eq2cError::SizeOverflow)
        },
        layout is StripHorizontal ==> {
            &&& 6 * faces.spec_size() * faces.spec_size() <= usize::MAX ==> (r matches Ok(out)
                && out matches LayoutOutput::Single(img) && img.wf() && strip::is_strip_composite(
                *faces,
                strip::StripDirection::Horizontal,
                img@,
            ))
            &&& 6 * faces.spec_size() * faces.spec_size() > usize::MAX ==> (r matches Err(e)
                && e == Eq2cError::SizeOverflow)
        },
        layout is StripVertical ==> {
            &&& 6 * faces.spec_size() * faces.spec_size() <= usize::MAX ==> (r matches Ok(out)
                && out matches LayoutOutput::Single(img) && img.wf() && strip::is_strip_composite(
                *faces,
                strip::StripDirection::Vertical,
                img@,
            ))
            &&& 6 * faces.spec_size() * faces.spec_size() > usize::MAX ==> (r matches Err(e)
                && e == Eq2cError::SizeOverflow)
        },
        layout is Separate ==> (r matches Ok(out) && out matches LayoutOutput::Frames(frames)
            && separate::is_separate_frames(*faces, frames@)),
{
    match layout {
        LayoutType::Cross => (CrossLayout {}).generate(faces),
        LayoutType::StripHorizontal => (StripLayout {
            direction: strip::StripDirection::Horizontal,
        }).generate(faces),
        LayoutType::StripVertical => (StripLayout {
            direction: strip::StripDirection::Vertical,
        }).generate(faces),
        LayoutType::Separate => (SeparateLayout {}).generate(faces),
    }
}

} // verus!
