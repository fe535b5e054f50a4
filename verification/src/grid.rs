//! The pixel grid shared by heightmaps and colormaps.
//!
//! A `PixelGrid` is a fixed-size rectangle of RGBA pixels stored in
//! row-major order.  Heightmaps keep their intensity in the first three
//! channels (R = G = B); colormaps hold arbitrary RGBA classification
//! colors.  Every mutating pass in the engine works on such grids and
//! preserves their dimensions.

use vstd::prelude::*;
use crate::Rgba8;

verus! {

/// A width x height rectangle of RGBA pixels in row-major order.
///
/// Well-formedness (`wf`) ties the backing vector's length to the
/// dimensions; every constructor establishes it and every method
/// preserves it.
#[derive(Debug)]
pub struct PixelGrid {
    width: usize,
    height: usize,
    pixels: Vec<Rgba8>,
}

impl View for PixelGrid {
    type V = Seq<Rgba8>;

    closed spec fn view(&self) -> Seq<Rgba8> {
        self.pixels@
    }
}

/// Position `(x, y)` maps to index `y * w + x`; this lemma gives the
/// bounds and the inverse of that mapping.
pub proof fn lemma_grid_index(x: int, y: int, w: int, h: int)
    requires
        0 <= x < w,
        0 <= y < h,
    ensures
        0 <= y * w + x < h * w,
        (y * w + x) % w == x,
        (y * w + x) / w == y,
{
    assert(0 <= y * w + x && y * w + x < h * w) by (nonlinear_arith)
        requires
            0 <= x < w,
            0 <= y < h,
    ;
    vstd::arithmetic::div_mod::lemma_fundamental_div_mod_converse_mod(y * w + x, w, y, x);
    vstd::arithmetic::div_mod::lemma_fundamental_div_mod_converse_div(y * w + x, w, y, x);
}

/// Any row-major index below `w * h` decomposes into the column
/// `i % w` and the row `i / w` of a position inside the grid.
pub proof fn lemma_index_decompose(i: int, w: int, h: int)
    requires
        0 <= i < w * h,
        0 <= w,
        0 <= h,
    ensures
        0 < w,
        0 <= i % w < w,
        0 <= i / w < h,
        i == (i / w) * w + (i % w),
{
    if w == 0 {
        assert(w * h == 0);
    }
    vstd::arithmetic::div_mod::lemma_mod_bound(i, w);
    vstd::arithmetic::div_mod::lemma_fundamental_div_mod(i, w);
    vstd::arithmetic::div_mod::lemma_fundamental_div_mod_converse_div(0, w, 0, 0);
    vstd::arithmetic::div_mod::lemma_div_is_ordered(0, i, w);
    assert(w * h - 1 == (h - 1) * w + (w - 1)) by (nonlinear_arith);
    vstd::arithmetic::div_mod::lemma_fundamental_div_mod_converse_div(w * h - 1, w, h - 1, w - 1);
    vstd::arithmetic::div_mod::lemma_div_is_ordered(i, w * h - 1, w);
    assert(w * (i / w) == (i / w) * w) by (nonlinear_arith);
}

/// A pixel sequence as raw RGBA bytes in row-major order.
pub open spec fn flat_bytes(s: Seq<Rgba8>) -> Seq<u8> {
    Seq::new(
        4 * s.len(),
        |j: int|
            {
                let p = s[j / 4];
                if j % 4 == 0 {
                    p.r
                } else if j % 4 == 1 {
                    p.g
                } else if j % 4 == 2 {
                    p.b
                } else {
                    p.a
                }
            },
    )
}

/// Two pixel sequences with the same raw bytes are the same sequence.
pub proof fn lemma_flat_bytes_injective(s1: Seq<Rgba8>, s2: Seq<Rgba8>)
    requires
        s1.len() == s2.len(),
        flat_bytes(s1) == flat_bytes(s2),
    ensures
        s1 == s2,
{
    assert forall|i: int| 0 <= i < s1.len() implies s1[i] == s2[i] by {
        vstd::arithmetic::div_mod::lemma_fundamental_div_mod_converse_div(4 * i, 4, i, 0);
        vstd::arithmetic::div_mod::lemma_fundamental_div_mod_converse_mod(4 * i, 4, i, 0);
        vstd::arithmetic::div_mod::lemma_fundamental_div_mod_converse_div(4 * i + 1, 4, i, 1);
        vstd::arithmetic::div_mod::lemma_fundamental_div_mod_converse_mod(4 * i + 1, 4, i, 1);
        vstd::arithmetic::div_mod::lemma_fundamental_div_mod_converse_div(4 * i + 2, 4, i, 2);
        vstd::arithmetic::div_mod::lemma_fundamental_div_mod_converse_mod(4 * i + 2, 4, i, 2);
        vstd::arithmetic::div_mod::lemma_fundamental_div_mod_converse_div(4 * i + 3, 4, i, 3);
        vstd::arithmetic::div_mod::lemma_fundamental_div_mod_converse_mod(4 * i + 3, 4, i, 3);
        assert(flat_bytes(s1)[4 * i] == s1[i].r && flat_bytes(s2)[4 * i] == s2[i].r);
        assert(flat_bytes(s1)[4 * i + 1] == s1[i].g && flat_bytes(s2)[4 * i + 1] == s2[i].g);
        assert(flat_bytes(s1)[4 * i + 2] == s1[i].b && flat_bytes(s2)[4 * i + 2] == s2[i].b);
        assert(flat_bytes(s1)[4 * i + 3] == s1[i].a && flat_bytes(s2)[4 * i + 3] == s2[i].a);
        assert(s1[i].r == s2[i].r && s1[i].g == s2[i].g && s1[i].b == s2[i].b && s1[i].a
            == s2[i].a);
    }
    assert(s1 =~= s2);
}

impl PixelGrid {
    /// The grid's width, for specifications.
    pub closed spec fn spec_width(self) -> int {
        self.width as int
    }

    /// The grid's height, for specifications.
    pub closed spec fn spec_height(self) -> int {
        self.height as int
    }

    /// The backing vector holds exactly one pixel per position.
    pub open spec fn wf(self) -> bool {
        self@.len() == self.spec_width() * self.spec_height()
    }

    /// The pixel at column `x`, row `y`.
    pub open spec fn at(self, x: int, y: int) -> Rgba8 {
        self@[y * self.spec_width() + x]
    }

    /// `(x, y)` lies inside the grid.
    pub open spec fn in_bounds(self, x: int, y: int) -> bool {
        0 <= x < self.spec_width() && 0 <= y < self.spec_height()
    }

    /// Both grids have the same dimensions.
    pub open spec fn same_shape(self, other: PixelGrid) -> bool {
        self.spec_width() == other.spec_width() && self.spec_height() == other.spec_height()
    }

    /// A fresh grid with every pixel set to `fill`.
    pub fn new(width: usize, height: usize, fill: Rgba8) -> (g: PixelGrid)
        requires
            width * height <= usize::MAX,
        ensures
            g.wf(),
            g.spec_width() == width,
            g.spec_height() == height,
            g@ == Seq::new((width * height) as nat, |i: int| fill),
    {
        let n: usize = width * height;
        let mut pixels: Vec<Rgba8> = Vec::new();
        let mut i: usize = 0;
        while i < n
            invariant
                i <= n,
                pixels@.len() == i,
                forall|j: int| 0 <= j < i ==> pixels@[j] == fill,
            decreases n - i,
        {
            pixels.push(fill);
            i = i + 1;
        }
        proof {
            assert(pixels@ =~= Seq::new((width * height) as nat, |i: int| fill));
        }
        PixelGrid { width, height, pixels }
    }

    /// The grid's width.
    pub fn width(&self) -> (w: usize)
        ensures
            w == self.spec_width(),
    {
        self.width
    }

    /// The grid's height.
    pub fn height(&self) -> (h: usize)
        ensures
            h == self.spec_height(),
    {
        self.height
    }

    /// The number of pixels.
    pub fn len(&self) -> (n: usize)
        ensures
            n == self@.len(),
    {
        self.pixels.len()
    }

    /// The pixel at row-major index `i`.
    pub fn get_lin(&self, i: usize) -> (p: Rgba8)
        requires
            i < self@.len(),
        ensures
            p == self@[i as int],
    {
        self.pixels[i]
    }

    /// Replaces the pixel at row-major index `i`.
    pub fn set_lin(&mut self, i: usize, p: Rgba8)
        requires
            i < old(self)@.len(),
        ensures
            final(self)@ == old(self)@.update(i as int, p),
            final(self).spec_width() == old(self).spec_width(),
            final(self).spec_height() == old(self).spec_height(),
    {
        self.pixels[i] = p;
    }

    /// The pixel at column `x`, row `y`.
    pub fn get(&self, x: usize, y: usize) -> (p: Rgba8)
        requires
            self.wf(),
            self.in_bounds(x as int, y as int),
        ensures
            p == self.at(x as int, y as int),
    {
        let _n: usize = self.pixels.len();
        proof {
            lemma_grid_index(x as int, y as int, self.spec_width(), self.spec_height());
        }
        self.pixels[y * self.width + x]
    }

    /// Replaces the pixel at column `x`, row `y`.
    pub fn set(&mut self, x: usize, y: usize, p: Rgba8)
        requires
            old(self).wf(),
            old(self).in_bounds(x as int, y as int),
        ensures
            final(self).wf(),
            final(self).spec_width() == old(self).spec_width(),
            final(self).spec_height() == old(self).spec_height(),
            final(self)@ == old(self)@.update(y * old(self).spec_width() + x, p),
    {
        let _n: usize = self.pixels.len();
        proof {
            lemma_grid_index(x as int, y as int, self.spec_width(), self.spec_height());
        }
        self.pixels[y * self.width + x] = p;
    }

    /// An independent copy of the grid.
    pub fn dup(&self) -> (g: PixelGrid)
        ensures
            g.spec_width() == self.spec_width(),
            g.spec_height() == self.spec_height(),
            g@ == self@,
    {
        let pixels: Vec<Rgba8> = self.pixels.clone();
        proof {
            assert(pixels@ =~= self.pixels@);
        }
        PixelGrid { width: self.width, height: self.height, pixels }
    }

    /// The grid's pixels as raw RGBA bytes in row-major order.
    pub fn to_bytes(&self) -> (r: Vec<u8>)
        ensures
            r@ == flat_bytes(self@),
    {
        let n: usize = self.pixels.len();
        let mut bytes: Vec<u8> = Vec::new();
        let mut i: usize = 0;
        while i < n
            invariant
                i <= n,
                n == self@.len(),
                bytes@.len() == 4 * i,
                forall|p: int|
                    0 <= p < i ==> bytes@[4 * p] == self@[p].r && bytes@[4 * p + 1] == self@[p].g
                        && bytes@[4 * p + 2] == self@[p].b && bytes@[4 * p + 3] == self@[p].a,
            decreases n - i,
        {
            let px: Rgba8 = self.pixels[i];
            bytes.push(px.r);
            bytes.push(px.g);
            bytes.push(px.b);
            bytes.push(px.a);
            i = i + 1;
        }
        proof {
            assert forall|j: int| 0 <= j < 4 * self@.len() implies bytes@[j] == flat_bytes(
                self@,
            )[j] by {
                lemma_index_decompose(j, 4, self@.len() as int);
                let p = j / 4;
                assert(bytes@[4 * p] == self@[p].r && bytes@[4 * p + 1] == self@[p].g && bytes@[4
                    * p + 2] == self@[p].b && bytes@[4 * p + 3] == self@[p].a);
            }
            assert(bytes@ =~= flat_bytes(self@));
        }
        bytes
    }

    /// Rebuilds a grid from raw RGBA bytes in row-major order.
    pub fn from_bytes(width: usize, height: usize, bytes: &Vec<u8>) -> (g: PixelGrid)
        requires
            bytes@.len() == 4 * (width * height),
        ensures
            g.wf(),
            g.spec_width() == width,
            g.spec_height() == height,
            flat_bytes(g@) == bytes@,
    {
        let bl: usize = bytes.len();
        let n: usize = bl / 4;
        proof {
            vstd::arithmetic::div_mod::lemma_fundamental_div_mod_converse_div(
                bl as int,
                4,
                (width * height) as int,
                0,
            );
        }
        let mut pixels: Vec<Rgba8> = Vec::new();
        let mut i: usize = 0;
        while i < n
            invariant
                i <= n,
                n == width * height,
                bl == bytes@.len(),
                bl == 4 * n,
                pixels@.len() == i,
                forall|p: int|
                    0 <= p < i ==> #[trigger] pixels@[p] == (Rgba8 {
                        r: bytes@[4 * p],
                        g: bytes@[4 * p + 1],
                        b: bytes@[4 * p + 2],
                        a: bytes@[4 * p + 3],
                    }),
            decreases n - i,
        {
            let px: Rgba8 = Rgba8 {
                r: bytes[4 * i],
                g: bytes[4 * i + 1],
                b: bytes[4 * i + 2],
                a: bytes[4 * i + 3],
            };
            pixels.push(px);
            i = i + 1;
        }
        let g = PixelGrid { width, height, pixels };
        proof {
            assert forall|j: int| 0 <= j < 4 * g@.len() implies flat_bytes(g@)[j] == bytes@[j] by {
                lemma_index_decompose(j, 4, g@.len() as int);
                let p = j / 4;
                assert(g@[p] == (Rgba8 {
                    r: bytes@[4 * p],
                    g: bytes@[4 * p + 1],
                    b: bytes@[4 * p + 2],
                    a: bytes@[4 * p + 3],
                }));
            }
            assert(flat_bytes(g@) =~= bytes@);
        }
        g
    }

    /// Compares two grids for identical dimensions and pixels.
    pub fn same_as(&self, other: &PixelGrid) -> (r: bool)
        ensures
            r == (self.same_shape(*other) && self@ == other@),
    {
        if self.width != other.width || self.height != other.height {
            return false;
        }
        if self.pixels.len() != other.pixels.len() {
            return false;
        }
        let n: usize = self.pixels.len();
        let mut i: usize = 0;
        while i < n
            invariant
                i <= n,
                n == self@.len(),
                n == other@.len(),
                forall|j: int| 0 <= j < i ==> self@[j] == other@[j],
            decreases n - i,
        {
            if self.pixels[i] != other.pixels[i] {
                return false;
            }
            i = i + 1;
        }
        proof {
            assert(self@ =~= other@);
        }
        true
    }
}

} // verus!
