use vstd::prelude::*;
use super::{FaceSet, LayoutOutput};
use crate::error::Eq2cError;
use crate::image_utils::{lemma_copy_preserved, GridView, Image, Texel, rect_contains};
use crate::math::CubeFace;

verus! {

/// The layout that unfolds the cube onto a 4-by-3 grid of square cells:
/// Left, Front, Right and Back across the middle row, Top above Front and
/// Bottom below it. Cells no face covers stay zero-initialized background.
pub struct CrossLayout;

/// The `(column, row)` grid cell of each face in the 4-by-3 cross.
pub open spec fn cross_cell(f: CubeFace) -> (int, int) {
    match f {
        CubeFace::Left => (0int, 1int),
        CubeFace::Front => (1int, 1int),
        CubeFace::Right => (2int, 1int),
        CubeFace::Back => (3int, 1int),
        CubeFace::Top => (1int, 0int),
        CubeFace::Bottom => (1int, 2int),
    }
}

/// The cell `(px, py)` lies in the square of side `s` that face `f` covers.
pub open spec fn cross_cell_contains(f: CubeFace, s: int, px: int, py: int) -> bool {
    rect_contains(cross_cell(f).0 * s, cross_cell(f).1 * s, s, s, px, py)
}

/// Some face of the cross covers the cell `(px, py)`.
pub open spec fn cross_covered(px: int, py: int, s: int) -> bool {
    ||| cross_cell_contains(CubeFace::Right, s, px, py)
    ||| cross_cell_contains(CubeFace::Left, s, px, py)
    ||| cross_cell_contains(CubeFace::Top, s, px, py)
    ||| cross_cell_contains(CubeFace::Bottom, s, px, py)
    ||| cross_cell_contains(CubeFace::Front, s, px, py)
    ||| cross_cell_contains(CubeFace::Back, s, px, py)
}

/// `g` is the cross composite of `faces`: a 4-by-3 grid of cells of side
/// `faces.spec_size()`, where each face sits texel for texel in its cell and
/// every cell no face covers is linear black.
pub open spec fn is_cross_composite(faces: FaceSet, g: GridView) -> bool {
    let s = faces.spec_size() as int;
    &&& g.wf()
    &&& g.width == 4 * s
    &&& g.height == 3 * s
    &&& forall|f: CubeFace, x: int, y: int|
        0 <= x < s && 0 <= y < s ==> g.at(
            cross_cell(f).0 * s + x,
            cross_cell(f).1 * s + y,
        ) == #[trigger] faces.spec_face(f).at(x, y)
    &&& forall|px: int, py: int|
        0 <= px < g.width && 0 <= py < g.height && !cross_covered(px, py, s) ==> #[trigger] g.at(
            px,
            py,
        ) == Texel::spec_black()
}

impl CrossLayout {
    /// Compose the six faces into the 4-by-3 cross: a `(4n, 3n)` image with
    /// each face in its cell and black background elsewhere. Refuses a face
    /// size whose composite texel count would overflow `usize`.
    pub fn generate(&self, faces: &FaceSet) -> (r: Result<LayoutOutput, Eq2cError>)
        requires
            faces.wf(),
        ensures
            12 * faces.spec_size() * faces.spec_size() <= usize::MAX ==> (r matches Ok(out)
                && out matches LayoutOutput::Single(img) && img.wf() && is_cross_composite(
                *faces,
                img@,
            )),
            12 * faces.spec_size() * faces.spec_size() > usize::MAX ==> (r matches Err(e) && e
                == Eq2cError::SizeOverflow),
    {
        let s = faces.size();
        let w = match s.checked_mul(4) {
            Some(w) => w,
            None => {
                proof {
                    assert(12 * faces.spec_size() * faces.spec_size() > usize::MAX)
                        by (nonlinear_arith)
                        requires
                            4 * (faces.spec_size() as int) > usize::MAX,
                            faces.spec_size() >= 1,
                    ;
                }
                return Err(Eq2cError::SizeOverflow);
            },
        };
        let h = match s.checked_mul(3) {
            Some(h) => h,
            None => {
                proof {
                    assert(12 * faces.spec_size() * faces.spec_size() > usize::MAX)
                        by (nonlinear_arith)
                        requires
                            3 * (faces.spec_size() as int) > usize::MAX,
                            faces.spec_size() >= 1,
                    ;
                }
                return Err(Eq2cError::SizeOverflow);
            },
        };
        proof {
            let sz = faces.spec_size() as int;
            assert((4 * sz) * (3 * sz) == 12 * sz * sz) by (nonlinear_arith);
        }
        let mut img = match Image::new(w, h) {
            Ok(i) => i,
            Err(e) => {
                return Err(e);
            },
        };
        let ghost g0 = img@;
        let two_s = s + s;
        let three_s = two_s + s;

        let ghost sz = s as int;
        img.blit(faces.face_image(CubeFace::Left), 0, s);
        let ghost g1 = img@;
        img.blit(faces.face_image(CubeFace::Front), s, s);
        let ghost g2 = img@;
        img.blit(faces.face_image(CubeFace::Right), two_s, s);
        let ghost g3 = img@;
        img.blit(faces.face_image(CubeFace::Back), three_s, s);
        let ghost g4 = img@;
        img.blit(faces.face_image(CubeFace::Top), s, 0);
        let ghost g5 = img@;
        img.blit(faces.face_image(CubeFace::Bottom), s, two_s);

        proof {
            // Each face's copy survives the later blits: all six cells are
            // pairwise disjoint squares.
            lemma_copy_preserved(faces.spec_face(CubeFace::Left), g1, g2, 0, sz, sz, sz, sz, sz);
            lemma_copy_preserved(
                faces.spec_face(CubeFace::Left),
                g2,
                g3,
                0,
                sz,
                2 * sz,
                sz,
                sz,
                sz,
            );
            lemma_copy_preserved(
                faces.spec_face(CubeFace::Left),
                g3,
                g4,
                0,
                sz,
                3 * sz,
                sz,
                sz,
                sz,
            );
            lemma_copy_preserved(faces.spec_face(CubeFace::Left), g4, g5, 0, sz, sz, 0, sz, sz);
            lemma_copy_preserved(
                faces.spec_face(CubeFace::Left),
                g5,
                img@,
                0,
                sz,
                sz,
                2 * sz,
                sz,
                sz,
            );
            lemma_copy_preserved(
                faces.spec_face(CubeFace::Front),
                g2,
                g3,
                sz,
                sz,
                2 * sz,
                sz,
                sz,
                sz,
            );
            lemma_copy_preserved(
                faces.spec_face(CubeFace::Front),
                g3,
                g4,
                sz,
                sz,
                3 * sz,
                sz,
                sz,
                sz,
            );
            lemma_copy_preserved(faces.spec_face(CubeFace::Front), g4, g5, sz, sz, sz, 0, sz, sz);
            lemma_copy_preserved(
                faces.spec_face(CubeFace::Front),
                g5,
                img@,
                sz,
                sz,
                sz,
                2 * sz,
                sz,
                sz,
            );
            lemma_copy_preserved(
                faces.spec_face(CubeFace::Right),
                g3,
                g4,
                2 * sz,
                sz,
                3 * sz,
                sz,
                sz,
                sz,
            );
            lemma_copy_preserved(
                faces.spec_face(CubeFace::Right),
                g4,
                g5,
                2 * sz,
                sz,
                sz,
                0,
                sz,
                sz,
            );
            lemma_copy_preserved(
                faces.spec_face(CubeFace::Right),
                g5,
                img@,
                2 * sz,
                sz,
                sz,
                2 * sz,
                sz,
                sz,
            );
            lemma_copy_preserved(
                faces.spec_face(CubeFace::Back),
                g4,
                g5,
                3 * sz,
                sz,
                sz,
                0,
                sz,
                sz,
            );
            lemma_copy_preserved(
                faces.spec_face(CubeFace::Back),
                g5,
                img@,
                3 * sz,
                sz,
                sz,
                2 * sz,
                sz,
                sz,
            );
            lemma_copy_preserved(
                faces.spec_face(CubeFace::Top),
                g5,
                img@,
                sz,
                0,
                sz,
                2 * sz,
                sz,
                sz,
            );

            assert forall|f: CubeFace, x: int, y: int| 0 <= x < sz && 0 <= y < sz implies img@.at(
                cross_cell(f).0 * sz + x,
                cross_cell(f).1 * sz + y,
            ) == #[trigger] faces.spec_face(f).at(x, y) by {
                assert(cross_cell(f).0 * sz == 0 || cross_cell(f).0 * sz == sz || cross_cell(f).0
                    * sz == 2 * sz || cross_cell(f).0 * sz == 3 * sz);
                assert(cross_cell(f).1 * sz == 0 || cross_cell(f).1 * sz == sz || cross_cell(f).1
                    * sz == 2 * sz);
            }

            // Background: a cell no face covers is untouched by every blit,
            // so it keeps the zero fill.
            assert forall|px: int, py: int|
                0 <= px < img@.width && 0 <= py < img@.height && !cross_covered(px, py, sz)
                implies #[trigger] img@.at(px, py) == Texel::spec_black() by {
                let lv = faces.spec_face(CubeFace::Left);
                let tv = faces.spec_face(CubeFace::Top);
                assert(lv.width == sz && lv.height == sz && tv.width == sz && tv.height == sz);
                assert(cross_cell(CubeFace::Left).0 * sz == 0 && cross_cell(CubeFace::Left).1 * sz
                    == sz);
                assert(cross_cell(CubeFace::Top).0 * sz == sz && cross_cell(CubeFace::Top).1 * sz
                    == 0);
                assert(!rect_contains(0, sz, lv.width as int, lv.height as int, px, py));
                assert(!rect_contains(sz, 0, tv.width as int, tv.height as int, px, py));
                assert(g0.at(px, py) == Texel::spec_black());
                assert(g1.at(px, py) == g0.at(px, py));
                assert(g2.at(px, py) == g1.at(px, py));
                assert(g3.at(px, py) == g2.at(px, py));
                assert(g4.at(px, py) == g3.at(px, py));
                assert(g5.at(px, py) == g4.at(px, py));
                assert(img@.at(px, py) == g5.at(px, py));
            }
        }
        Ok(LayoutOutput::Single(img))
    }
}

} // verus!
