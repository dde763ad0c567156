use vstd::prelude::*;
use crate::error::Eq2cError;

verus! {

/// One linear-RGB texel: three channel words, row-major in an [`Image`].
///
/// Each channel holds the bit pattern of a 32-bit binary floating-point
/// radiance value. The core moves, stores and compares these words exactly
/// and never interprets them numerically; the numeric work (filtering, tone
/// mapping, quantization) happens in the surrounding application.
#[derive(Clone, Copy, Debug, PartialEq, Eq, Structural)]
pub struct Texel {
    pub r: u32,
    pub g: u32,
    pub b: u32,
}

impl Texel {
    /// The all-zero texel: linear black, the value `Image::new` fills a
    /// fresh buffer with and the background of composite cells no face
    /// covers.
    pub open spec fn spec_black() -> Texel {
        Texel { r: 0, g: 0, b: 0 }
    }

    /// The all-zero texel.
    #[verifier::when_used_as_spec(spec_black)]
    pub fn black() -> (t: Texel)
        ensures
            t == Texel::spec_black(),
    {
        Texel { r: 0, g: 0, b: 0 }
    }
}

/// The mathematical model of an image: a width-by-height grid of texels,
/// stored row-major with the origin at the top left.
pub struct GridView {
    pub width: nat,
    pub height: nat,
    pub texels: Seq<Texel>,
}

impl GridView {
    /// The texel store holds exactly one texel per grid cell.
    pub open spec fn wf(self) -> bool {
        self.texels.len() == self.width * self.height
    }

    pub open spec fn in_bounds(self, x: int, y: int) -> bool {
        0 <= x < self.width && 0 <= y < self.height
    }

    /// The texel of the cell in column `x` of row `y`.
    pub open spec fn at(self, x: int, y: int) -> Texel {
        self.texels[y * self.width as int + x]
    }

    /// Every cell holds `t`.
    pub open spec fn uniform(self, t: Texel) -> bool {
        forall|x: int, y: int| self.in_bounds(x, y) ==> self.at(x, y) == t
    }
}

/// A cell `(px, py)` lies in the axis-aligned rectangle with top-left corner
/// `(ox, oy)`, width `w` and height `h`.
pub open spec fn rect_contains(ox: int, oy: int, w: int, h: int, px: int, py: int) -> bool {
    ox <= px < ox + w && oy <= py < oy + h
}

/// Every cell of `src` appears in `dst` displaced by `(ox, oy)`.
pub open spec fn copied_into(src: GridView, dst: GridView, ox: int, oy: int) -> bool {
    forall|x: int, y: int|
        src.in_bounds(x, y) ==> dst.at(ox + x, oy + y) == #[trigger] src.at(x, y)
}

/// `post` has the dimensions of `pre`, and every cell outside the rectangle
/// at `(ox, oy)` of width `w` and height `h` keeps its texel.
pub open spec fn frame_outside(pre: GridView, post: GridView, ox: int, oy: int, w: int, h: int) -> bool {
    &&& post.width == pre.width
    &&& post.height == pre.height
    &&& forall|px: int, py: int|
        pre.in_bounds(px, py) && !rect_contains(ox, oy, w, h, px, py) ==> #[trigger] post.at(
            px,
            py,
        ) == pre.at(px, py)
}

/// A copy of `src` placed at `(ox, oy)` survives a later write that touches
/// only a rectangle disjoint from it.
pub proof fn lemma_copy_preserved(
    src: GridView,
    pre: GridView,
    post: GridView,
    ox: int,
    oy: int,
    ox2: int,
    oy2: int,
    w2: int,
    h2: int,
)
    requires
        copied_into(src, pre, ox, oy),
        frame_outside(pre, post, ox2, oy2, w2, h2),
        0 <= ox && 0 <= oy,
        ox + src.width <= pre.width,
        oy + src.height <= pre.height,
        ox + src.width <= ox2 || ox2 + w2 <= ox || oy + src.height <= oy2 || oy2 + h2 <= oy,
    ensures
        copied_into(src, post, ox, oy),
{
    assert forall|x: int, y: int| src.in_bounds(x, y) implies post.at(ox + x, oy + y)
        == #[trigger] src.at(x, y) by {
        assert(pre.in_bounds(ox + x, oy + y));
        assert(!rect_contains(ox2, oy2, w2, h2, ox + x, oy + y));
        assert(post.at(ox + x, oy + y) == pre.at(ox + x, oy + y));
    }
}

/// Row-major index arithmetic: a cell inside the grid indexes inside the
/// texel store.
pub proof fn lemma_row_major_bound(x: int, y: int, w: int, h: int)
    requires
        0 <= x < w,
        0 <= y < h,
    ensures
        0 <= y * w + x < w * h,
{
    assert(y * w + x < w * h) by (nonlinear_arith)
        requires
            0 <= x < w,
            0 <= y < h,
    ;
    assert(y * w + x >= 0) by (nonlinear_arith)
        requires
            0 <= x,
            0 <= y,
            0 <= w,
    ;
}

/// Row-major index arithmetic: distinct cells index distinct texels.
pub proof fn lemma_row_major_injective(x1: int, y1: int, x2: int, y2: int, w: int)
    requires
        0 <= x1 < w,
        0 <= x2 < w,
        0 <= y1,
        0 <= y2,
        !(x1 == x2 && y1 == y2),
    ensures
        y1 * w + x1 != y2 * w + x2,
{
    assert(y1 * w + x1 != y2 * w + x2) by (nonlinear_arith)
        requires
            0 <= x1 < w,
            0 <= x2 < w,
            0 <= y1,
            0 <= y2,
            !(x1 == x2 && y1 == y2),
    ;
}

/// An immutable-sized 2D grid of linear-RGB texels, row-major, origin at the
/// top left. This is the buffer type every stage of the core works on: the
/// source panorama, a rendered face, and the composite output.
pub struct Image {
    width: usize,
    height: usize,
    texels: Vec<Texel>,
}

impl View for Image {
    type V = GridView;

    closed spec fn view(&self) -> GridView {
        GridView { width: self.width as nat, height: self.height as nat, texels: self.texels@ }
    }
}

impl Image {
    /// The texel store matches the dimensions.
    pub open spec fn wf(self) -> bool {
        self@.wf()
    }

    /// A zero-filled (linear black) image. Refuses dimensions whose texel
    /// count would overflow `usize` rather than wrapping or truncating.
    pub fn new(width: usize, height: usize) -> (r: Result<Image, Eq2cError>)
        ensures
            width * height <= usize::MAX ==> (r matches Ok(img) && img.wf() && img@.width
                == width && img@.height == height && img@.uniform(Texel::spec_black())),
            width * height > usize::MAX ==> (r matches Err(e) && e == Eq2cError::SizeOverflow),
    {
        let count = match width.checked_mul(height) {
            Some(c) => c,
            None => {
                return Err(Eq2cError::SizeOverflow);
            },
        };
        let mut texels: Vec<Texel> = Vec::new();
        let mut i: usize = 0;
        while i < count
            invariant
                i <= count,
                texels@.len() == i,
                forall|j: int| 0 <= j < i ==> texels@[j] == Texel::spec_black(),
            decreases count - i,
        {
            texels.push(Texel::black());
            i = i + 1;
        }
        let img = Image { width, height, texels };
        proof {
            assert forall|x: int, y: int| img@.in_bounds(x, y) implies img@.at(x, y)
                == Texel::spec_black() by {
                lemma_row_major_bound(x, y, width as int, height as int);
            }
        }
        Ok(img)
    }

    /// An image over a caller-supplied texel store, which must hold exactly
    /// one texel per cell.
    pub fn from_texels(width: usize, height: usize, texels: Vec<Texel>) -> (r: Result<
        Image,
        Eq2cError,
    >)
        ensures
            width * height == texels@.len() ==> (r matches Ok(img) && img.wf() && img@ == (
            GridView { width: width as nat, height: height as nat, texels: texels@ })),
            width * height != texels@.len() ==> (r matches Err(e) && e
                == Eq2cError::InvalidDimensions),
    {
        let len = texels.len();
        match width.checked_mul(height) {
            Some(c) => {
                if c == len {
                    Ok(Image { width, height, texels })
                } else {
                    Err(Eq2cError::InvalidDimensions)
                }
            },
            None => Err(Eq2cError::InvalidDimensions),
        }
    }

    pub fn width(&self) -> (w: usize)
        ensures
            w == self@.width,
    {
        self.width
    }

    pub fn height(&self) -> (h: usize)
        ensures
            h == self@.height,
    {
        self.height
    }

    /// Borrow the row-major texel store.
    pub fn texels(&self) -> (r: &Vec<Texel>)
        ensures
            r@ == self@.texels,
    {
        &self.texels
    }

    /// The texel of the cell in column `x` of row `y`.
    pub fn get_texel(&self, x: usize, y: usize) -> (t: Texel)
        requires
            self.wf(),
            x < self@.width,
            y < self@.height,
        ensures
            t == self@.at(x as int, y as int),
    {
        proof {
            vstd::std_specs::vec::axiom_spec_len(&self.texels);
            lemma_row_major_bound(x as int, y as int, self@.width as int, self@.height as int);
        }
        self.texels[y * self.width + x]
    }

    /// Store `t` in the cell in column `x` of row `y`; every other cell
    /// keeps its texel.
    pub fn put_texel(&mut self, x: usize, y: usize, t: Texel)
        requires
            old(self).wf(),
            x < old(self)@.width,
            y < old(self)@.height,
        ensures
            final(self).wf(),
            final(self)@.width == old(self)@.width,
            final(self)@.height == old(self)@.height,
            final(self)@.at(x as int, y as int) == t,
            forall|px: int, py: int|
                old(self)@.in_bounds(px, py) && !(px == x && py == y) ==> final(self)@.at(px, py)
                    == old(self)@.at(px, py),
    {
        proof {
            vstd::std_specs::vec::axiom_spec_len(&self.texels);
            lemma_row_major_bound(x as int, y as int, self@.width as int, self@.height as int);
        }
        let i = y * self.width + x;
        self.texels.set(i, t);
        proof {
            assert forall|px: int, py: int|
                old(self)@.in_bounds(px, py) && !(px == x && py == y) implies self@.at(px, py)
                == old(self)@.at(px, py) by {
                lemma_row_major_bound(px, py, self@.width as int, self@.height as int);
                lemma_row_major_injective(px, py, x as int, y as int, self@.width as int);
            }
        }
    }

    /// An image with the same dimensions and the same texel in every cell.
    pub fn duplicate(&self) -> (r: Image)
        ensures
            r@ == self@,
    {
        let mut texels: Vec<Texel> = Vec::new();
        let mut i: usize = 0;
        while i < self.texels.len()
            invariant
                i <= self.texels.len(),
                texels@.len() == i,
                forall|j: int| 0 <= j < i ==> texels@[j] == self.texels@[j],
            decreases self.texels.len() - i,
        {
            texels.push(self.texels[i]);
            i = i + 1;
        }
        proof {
            assert(texels@ =~= self.texels@);
        }
        Image { width: self.width, height: self.height, texels }
    }

    /// Copy `src` into `self` with its top-left corner at `(ox, oy)`: a pure
    /// memory-layout move with no resampling. Cells outside the written
    /// rectangle keep their texels.
    pub fn blit(&mut self, src: &Image, ox: usize, oy: usize)
        requires
            old(self).wf(),
            src.wf(),
            ox + src@.width <= old(self)@.width,
            oy + src@.height <= old(self)@.height,
        ensures
            final(self).wf(),
            copied_into(src@, final(self)@, ox as int, oy as int),
            frame_outside(
                old(self)@,
                final(self)@,
                ox as int,
                oy as int,
                src@.width as int,
                src@.height as int,
            ),
    {
        let sw = src.width();
        let sh = src.height();
        let mut y: usize = 0;
        while y < sh
            invariant
                y <= sh,
                sw == src@.width,
                sh == src@.height,
                src.wf(),
                self.wf(),
                self@.width == old(self)@.width,
                self@.height == old(self)@.height,
                ox + sw <= self@.width,
                oy + sh <= self@.height,
                forall|xx: int, yy: int|
                    0 <= xx < sw && 0 <= yy < y ==> self@.at(ox + xx, oy + yy) == #[trigger] src@.at(
                        xx,
                        yy,
                    ),
                forall|px: int, py: int|
                    old(self)@.in_bounds(px, py) && !rect_contains(
                        ox as int,
                        oy as int,
                        sw as int,
                        y as int,
                        px,
                        py,
                    ) ==> self@.at(px, py) == old(self)@.at(px, py),
            decreases sh - y,
        {
            let mut x: usize = 0;
            while x < sw
                invariant
                    x <= sw,
                    y < sh,
                    sw == src@.width,
                    sh == src@.height,
                    src.wf(),
                    self.wf(),
                    self@.width == old(self)@.width,
                    self@.height == old(self)@.height,
                    ox + sw <= self@.width,
                    oy + sh <= self@.height,
                    forall|xx: int, yy: int|
                        0 <= xx < sw && 0 <= yy < y ==> self@.at(ox + xx, oy + yy)
                            == #[trigger] src@.at(xx, yy),
                    forall|xx: int| 0 <= xx < x ==> self@.at(ox + xx, oy + y) == #[trigger] src@.at(
                        xx,
                        y as int,
                    ),
                    forall|px: int, py: int|
                        old(self)@.in_bounds(px, py) && !rect_contains(
                            ox as int,
                            oy as int,
                            sw as int,
                            y as int,
                            px,
                            py,
                        ) && !(oy + y == py && ox <= px < ox + x) ==> self@.at(px, py) == old(
                            self,
                        )@.at(px, py),
                decreases sw - x,
            {
                let t = src.get_texel(x, y);
                self.put_texel(ox + x, oy + y, t);
                x = x + 1;
            }
            y = y + 1;
        }
    }
}

/// The horizontal fetch index of the bilinear sampler: the panorama is
/// horizontally cyclic, so a column index is reduced modulo the width
/// (Euclidean: the result is in `[0, w)` even for negative `i`).
pub fn wrap_index(i: i64, w: usize) -> (r: usize)
    requires
        1 <= w,
        w <= i64::MAX,
    ensures
        r == i as int % w as int,
        r < w,
{
    if i >= 0 {
        let r = (i as u64) % (w as u64);
        r as usize
    } else {
        let j = (-(i + 1)) as u64;
        let s = j % (w as u64);
        let r = w - 1 - (s as usize);
        proof {
            let ji = j as int;
            let wi = w as int;
            let q = ji / wi;
            let s0 = ji % wi;
            vstd::arithmetic::div_mod::lemma_fundamental_div_mod(ji, wi);
            vstd::arithmetic::div_mod::lemma_mod_bound(ji, wi);
            assert(i as int == (-(q + 1)) * wi + (wi - 1 - s0)) by (nonlinear_arith)
                requires
                    ji == wi * q + s0,
                    i as int == -(ji + 1),
            ;
            vstd::arithmetic::div_mod::lemma_fundamental_div_mod_converse(
                i as int,
                wi,
                -(q + 1),
                wi - 1 - s0,
            );
        }
        r
    }
}

/// Where the clamped vertical fetch index of the bilinear sampler lands:
/// row indices clamp to `[0, h - 1]` (no pole wraparound).
pub open spec fn clamped(i: int, h: int) -> int {
    if i < 0 {
        0
    } else if i >= h {
        h - 1
    } else {
        i
    }
}

/// The vertical fetch index of the bilinear sampler: clamped to the valid
/// row range rather than wrapped, avoiding a seam-order ambiguity at the
/// poles.
pub fn clamp_index(i: i64, h: usize) -> (r: usize)
    requires
        1 <= h,
    ensures
        r == clamped(i as int, h as int),
        r < h,
{
    if i < 0 {
        0
    } else {
        let iu = i as u64;
        if iu >= h as u64 {
            h - 1
        } else {
            iu as usize
        }
    }
}

/// Law: the wrap and the clamp leave an in-range fetch cell alone, so a
/// fetch at a cell inside the grid returns exactly that cell's texel. This
/// is the exact half of the center-sampling identity: blending at a source
/// pixel's center makes the fractional weights vanish, and the one texel the
/// blend then keeps is the stored one, unchanged.
pub proof fn lemma_in_range_fetch_identity(g: GridView, x0: int, y0: int)
    requires
        0 <= x0 < g.width,
        0 <= y0 < g.height,
    ensures
        g.at(x0 % g.width as int, clamped(y0, g.height as int)) == g.at(x0, y0),
{
    assert(x0 % g.width as int == x0) by (nonlinear_arith)
        requires
            0 <= x0 < g.width,
    ;
}

/// The four texels bilinear filtering blends around the fetch cell
/// `(x0, y0)`: the cell itself, its right neighbor, its lower neighbor, and
/// its lower-right neighbor, with column indices wrapping modulo the width
/// and row indices clamping to the valid range. The caller blends them by
/// the fractional parts; the fetch itself is exact.
pub fn sample_neighbors(img: &Image, x0: i64, y0: i64) -> (r: (Texel, Texel, Texel, Texel))
    requires
        img.wf(),
        1 <= img@.width <= i64::MAX,
        1 <= img@.height,
    ensures
        r.0 == img@.at(x0 as int % img@.width as int, clamped(y0 as int, img@.height as int)),
        r.1 == img@.at((x0 + 1) as int % img@.width as int, clamped(y0 as int, img@.height as int)),
        r.2 == img@.at(x0 as int % img@.width as int, clamped(y0 + 1, img@.height as int)),
        r.3 == img@.at((x0 + 1) as int % img@.width as int, clamped(y0 + 1, img@.height as int)),
{
    let w = img.width();
    let h = img.height();
    let xa = wrap_index(x0, w);
    let xb = if xa + 1 == w {
        0
    } else {
        xa + 1
    };
    proof {
        let wi = w as int;
        let q = (x0 as int) / wi;
        vstd::arithmetic::div_mod::lemma_fundamental_div_mod(x0 as int, wi);
        if xa + 1 == w {
            assert(x0 as int + 1 == (q + 1) * wi + 0) by (nonlinear_arith)
                requires
                    x0 as int == wi * q + (xa as int),
                    xa as int + 1 == wi,
            ;
            vstd::arithmetic::div_mod::lemma_fundamental_div_mod_converse(x0 as int + 1, wi, q + 1, 0);
        } else {
            vstd::arithmetic::div_mod::lemma_fundamental_div_mod_converse(
                x0 as int + 1,
                wi,
                q,
                xa as int + 1,
            );
        }
    }
    let ya = clamp_index(y0, h);
    let yb = if y0 < 0 {
        0
    } else {
        let yn = (y0 as u64) + 1;
        if yn >= h as u64 {
            h - 1
        } else {
            yn as usize
        }
    };
    (img.get_texel(xa, ya), img.get_texel(xb, ya), img.get_texel(xa, yb), img.get_texel(xb, yb))
}

} // verus!
