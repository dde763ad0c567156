use vstd::prelude::*;
use super::{FaceSet, LayoutOutput};
use crate::error::Eq2cError;
use crate::image_utils::{lemma_copy_preserved, GridView, Image, Texel};
use crate::math::CubeFace;

verus! {

/// Whether the six cells of a strip run left to right or top to bottom.
#[derive(Clone, Copy, Debug, PartialEq, Eq, Structural)]
pub enum StripDirection {
    Horizontal,
    Vertical,
}

/// The layout that lines the six faces up in one strip of six square cells,
/// in the fixed order Right, Left, Top, Bottom, Front, Back.
pub struct StripLayout {
    pub direction: StripDirection,
}

/// The strip cell of each face: Right, Left, Top, Bottom, Front, Back sit at
/// cell indices 0 through 5.
pub open spec fn strip_index(f: CubeFace) -> int {
    match f {
        CubeFace::Right => 0,
        CubeFace::Left => 1,
        CubeFace::Top => 2,
        CubeFace::Bottom => 3,
        CubeFace::Front => 4,
        CubeFace::Back => 5,
    }
}

/// `g` is the strip composite of `faces` in direction `dir`: a six-cell-long,
/// one-cell-wide grid of cells of side `faces.spec_size()`, where the cell at
/// index `strip_index(f)` holds face `f` texel for texel.
pub open spec fn is_strip_composite(faces: FaceSet, dir: StripDirection, g: GridView) -> bool {
    let s = faces.spec_size() as int;
    &&& g.wf()
    &&& g.width == if dir is Horizontal { 6 * s } else { s }
    &&& g.height == if dir is Horizontal { s } else { 6 * s }
    &&& forall|f: CubeFace, x: int, y: int|
        0 <= x < s && 0 <= y < s ==> {
            if dir is Horizontal {
                g.at(strip_index(f) * s + x, y) == #[trigger] faces.spec_face(f).at(x, y)
            } else {
                g.at(x, strip_index(f) * s + y) == faces.spec_face(f).at(x, y)
            }
        }
}

/// Law: a strip composed from six uniform faces of one texel is uniform in
/// that texel — every cell of the composite holds it. (The cross layout has
/// no such law: its composite keeps black background cells that no face
/// covers.)
pub proof fn lemma_uniform_strip_composite(
    faces: FaceSet,
    dir: StripDirection,
    g: GridView,
    t: Texel,
)
    requires
        faces.wf(),
        faces.uniform(t),
        is_strip_composite(faces, dir, g),
    ensures
        g.uniform(t),
{
    let s = faces.spec_size() as int;
    assert forall|px: int, py: int| g.in_bounds(px, py) implies g.at(px, py) == t by {
        let along = if dir is Horizontal {
            px
        } else {
            py
        };
        if s <= 0 {
            assert(g.width <= 0 || g.height <= 0);
            assert(false);
        }
        let c = along / s;
        let off = along % s;
        vstd::arithmetic::div_mod::lemma_fundamental_div_mod(along, s);
        vstd::arithmetic::div_mod::lemma_mod_bound(along, s);
        assert(0 <= c < 6) by (nonlinear_arith)
            requires
                along == s * c + off,
                0 <= off < s,
                0 <= along < 6 * s,
                s > 0,
        ;
        let f = if c == 0 {
            CubeFace::Right
        } else if c == 1 {
            CubeFace::Left
        } else if c == 2 {
            CubeFace::Top
        } else if c == 3 {
            CubeFace::Bottom
        } else if c == 4 {
            CubeFace::Front
        } else {
            CubeFace::Back
        };
        assert(strip_index(f) == c);
        assert(c * s == s * c) by (nonlinear_arith);
        if dir is Horizontal {
            assert(px == strip_index(f) * s + off);
            assert(g.at(strip_index(f) * s + off, py) == faces.spec_face(f).at(off, py));
            assert(faces.spec_face(f).at(off, py) == t);
        } else {
            assert(py == strip_index(f) * s + off);
            assert(g.at(px, strip_index(f) * s + off) == faces.spec_face(f).at(px, off));
            assert(faces.spec_face(f).at(px, off) == t);
        }
    }
}

impl StripLayout {
    /// Compose the six faces into one strip: a `(6n, n)` image for the
    /// horizontal direction, `(n, 6n)` for the vertical, with the faces'
    /// cells in the fixed order. Refuses a face size whose composite texel
    /// count would overflow `usize`.
    pub fn generate(&self, faces: &FaceSet) -> (r: Result<LayoutOutput, Eq2cError>)
        requires
            faces.wf(),
        ensures
            6 * faces.spec_size() * faces.spec_size() <= usize::MAX ==> (r matches Ok(out)
                && out matches LayoutOutput::Single(img) && img.wf() && is_strip_composite(
                *faces,
                self.direction,
                img@,
            )),
            6 * faces.spec_size() * faces.spec_size() > usize::MAX ==> (r matches Err(e) && e
                == Eq2cError::SizeOverflow),
    {
        let s = faces.size();
        let long = match s.checked_mul(6) {
            Some(l) => l,
            None => {
                proof {
                    assert(6 * faces.spec_size() * faces.spec_size() > usize::MAX)
                        by (nonlinear_arith)
                        requires
                            6 * (faces.spec_size() as int) > usize::MAX,
                            faces.spec_size() >= 1,
                    ;
                }
                return Err(Eq2cError::SizeOverflow);
            },
        };
        let (w, h) = match self.direction {
            StripDirection::Horizontal => (long, s),
            StripDirection::Vertical => (s, long),
        };
        proof {
            let sz = faces.spec_size() as int;
            assert(sz * (6 * sz) == 6 * sz * sz && (6 * sz) * sz == 6 * sz * sz)
                by (nonlinear_arith);
        }
        let mut img = match Image::new(w, h) {
            Ok(i) => i,
            Err(e) => {
                return Err(e);
            },
        };
        let horizontal = match self.direction {
            StripDirection::Horizontal => true,
            StripDirection::Vertical => false,
        };
        let mut idx: usize = 0;
        let ghost order = super::face_order();
        while idx < 6
            invariant
                idx <= 6,
                6 * s <= usize::MAX,
                s == faces.spec_size(),
                faces.wf(),
                img.wf(),
                img@.width == if horizontal { 6 * s as int } else { s as int },
                img@.height == if horizontal { s as int } else { 6 * s as int },
                horizontal == (self.direction is Horizontal),
                order == super::face_order(),
                forall|i: int, x: int, y: int|
                    0 <= i < idx && 0 <= x < s && 0 <= y < s ==> {
                        if horizontal {
                            img@.at(i * s + x, y) == #[trigger] faces.spec_face(order[i]).at(x, y)
                        } else {
                            img@.at(x, i * s + y) == faces.spec_face(order[i]).at(x, y)
                        }
                    },
            decreases 6 - idx,
        {
            let face = match idx {
                0 => CubeFace::Right,
                1 => CubeFace::Left,
                2 => CubeFace::Top,
                3 => CubeFace::Bottom,
                4 => CubeFace::Front,
                _ => CubeFace::Back,
            };
            proof {
                assert(0 <= idx * s && idx * s + s <= 6 * s) by (nonlinear_arith)
                    requires
                        0 <= idx < 6,
                        s >= 0,
                ;
            }
            let off = idx * s;
            let (ox, oy) = if horizontal {
                (off, 0)
            } else {
                (0, off)
            };
            let ghost pre = img@;
            img.blit(faces.face_image(face), ox, oy);
            proof {
                assert(order[idx as int] == face);
                assert forall|i: int, x: int, y: int|
                    #![trigger faces.spec_face(order[i]).at(x, y)]
                    0 <= i < idx + 1 && 0 <= x < s && 0 <= y < s implies {
                    if horizontal {
                        img@.at(i * s + x, y) == faces.spec_face(order[i]).at(x, y)
                    } else {
                        img@.at(x, i * s + y) == faces.spec_face(order[i]).at(x, y)
                    }
                } by {
                    if i < idx {
                        assert(0 <= i * s && i * s + s <= idx * s && idx * s + s <= 6 * s)
                            by (nonlinear_arith)
                            requires
                                0 <= i < idx,
                                idx < 6,
                                s >= 0,
                        ;
                        if horizontal {
                            lemma_copy_preserved(
                                faces.spec_face(order[i]),
                                pre,
                                img@,
                                i * s,
                                0,
                                ox as int,
                                oy as int,
                                s as int,
                                s as int,
                            );
                        } else {
                            lemma_copy_preserved(
                                faces.spec_face(order[i]),
                                pre,
                                img@,
                                0,
                                i * s,
                                ox as int,
                                oy as int,
                                s as int,
                                s as int,
                            );
                        }
                    }
                }
            }
            idx = idx + 1;
        }
        proof {
            assert forall|f: CubeFace, x: int, y: int| 0 <= x < s && 0 <= y < s implies {
                if self.direction is Horizontal {
                    img@.at(strip_index(f) * s + x, y) == #[trigger] faces.spec_face(f).at(x, y)
                } else {
                    img@.at(x, strip_index(f) * s + y) == faces.spec_face(f).at(x, y)
                }
            } by {
                assert(order[strip_index(f)] == f);
            }
        }
        Ok(LayoutOutput::Single(img))
    }
}

} // verus!
