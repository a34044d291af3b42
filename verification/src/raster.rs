//! Rendering of a square module matrix into a monochrome raster image.
//!
//! Every module of the matrix maps to an exact `scale`×`scale` block of
//! uniform pixels, surrounded by a light border of `border` modules; a dark
//! module renders as pixel value 0 and a light one as 255.

use vstd::prelude::*;
use vstd::arithmetic::div_mod::{lemma_fundamental_div_mod, lemma_fundamental_div_mod_converse};

verus! {

/// A square grid of dark (`true`) / light (`false`) modules.
pub struct SymbolMatrix {
    pub modules: Vec<Vec<bool>>,
}

impl View for SymbolMatrix {
    type V = Seq<Seq<bool>>;

    open spec fn view(&self) -> Seq<Seq<bool>> {
        self.modules@.map_values(|row: Vec<bool>| row@)
    }
}

impl SymbolMatrix {
    /// The matrix is square: every row is as long as the grid is high.
    pub open spec fn wf(&self) -> bool {
        forall|i: int| 0 <= i < self@.len() ==> (#[trigger] self@[i]).len() == self@.len()
    }

    pub open spec fn size(&self) -> nat {
        self@.len()
    }
}

/// A square single-channel image; pixel (x, y) is `pixels[y * width + x]`,
/// 0 for dark and 255 for light.
pub struct RasterImage {
    pub width: usize,
    pub pixels: Vec<u8>,
}

impl RasterImage {
    pub open spec fn wf(&self) -> bool {
        self.pixels@.len() == self.width * self.width
    }
}

/// The value of the output pixel at (x, y): dark exactly when the pixel
/// falls inside the scaled block of a dark module.
pub open spec fn spec_pixel(m: Seq<Seq<bool>>, scale: int, border: int, x: int, y: int) -> u8 {
    let mx = x / scale - border;
    let my = y / scale - border;
    if 0 <= mx && mx < m.len() && 0 <= my && my < m.len() && m[my][mx] {
        0u8
    } else {
        255u8
    }
}

/// The side length of the rendered image.
pub open spec fn spec_width(n: int, scale: int, border: int) -> int {
    (n + 2 * border) * scale
}

/// The full pixel sequence of the rendered image, in row-major order.
pub open spec fn spec_raster(m: Seq<Seq<bool>>, scale: int, border: int) -> Seq<u8> {
    let w = spec_width(m.len() as int, scale, border);
    Seq::new((w * w) as nat, |i: int| spec_pixel(m, scale, border, i % w, i / w))
}

/// Renders the matrix at the given scale and border. The result is a
/// square image of side `(N + 2*border) * scale` whose every pixel equals
/// `spec_pixel`; rendering is a pure function of its arguments.
pub fn render(matrix: &SymbolMatrix, scale: usize, border: usize) -> (r: RasterImage)
    requires
        matrix.wf(),
        scale >= 1,
        spec_width(matrix@.len() as int, scale as int, border as int)
            * spec_width(matrix@.len() as int, scale as int, border as int) <= usize::MAX,
    ensures
        r.wf(),
        r.width == spec_width(matrix@.len() as int, scale as int, border as int),
        r.pixels@ == spec_raster(matrix@, scale as int, border as int),
{
    let n = matrix.modules.len();
    proof {
        assert(matrix@.len() == n);
        let side = (n + 2 * border) as int;
        assert(side <= side * scale) by (nonlinear_arith)
            requires side >= 0, scale >= 1 {};
        assert(side * scale <= (side * scale) * (side * scale)) by (nonlinear_arith)
            requires side >= 0, scale >= 1 {};
    }
    let side = n + 2 * border;
    let w = side * scale;
    let ghost gw = w as int;
    let mut pixels: Vec<u8> = Vec::new();
    let mut y: usize = 0;
    while y < w
        invariant
            matrix.wf(),
            matrix@.len() == n,
            scale >= 1,
            gw == spec_width(n as int, scale as int, border as int),
            w == gw,
            gw * gw <= usize::MAX,
            y <= w,
            pixels@.len() == y * gw,
            forall|i: int| 0 <= i < pixels@.len()
                ==> pixels@[i] == spec_pixel(matrix@, scale as int, border as int, i % gw, i / gw),
        decreases w - y,
    {
        let mut x: usize = 0;
        proof {
            assert(y * gw + gw <= gw * gw) by (nonlinear_arith)
                requires 0 <= y < gw {};
        }
        while x < w
            invariant
                matrix.wf(),
                matrix@.len() == n,
                scale >= 1,
                gw == spec_width(n as int, scale as int, border as int),
                w == gw,
                gw * gw <= usize::MAX,
                y < w,
                x <= w,
                y * gw + gw <= gw * gw,
                pixels@.len() == y * gw + x,
                forall|i: int| 0 <= i < pixels@.len()
                    ==> pixels@[i] == spec_pixel(matrix@, scale as int, border as int, i % gw, i / gw),
            decreases w - x,
        {
            let qx = x / scale;
            let qy = y / scale;
            let mut dark: bool = false;
            if qx >= border && qy >= border {
                let mx = qx - border;
                let my = qy - border;
                if my < n && mx < n {
                    proof {
                        assert(matrix.modules@[my as int]@ == matrix@[my as int]);
                        assert(matrix@[my as int].len() == matrix@.len());
                    }
                    dark = matrix.modules[my][mx];
                }
            }
            let pix: u8 = if dark { 0 } else { 255 };
            proof {
                assert(pix == spec_pixel(matrix@, scale as int, border as int, x as int, y as int));
                lemma_fundamental_div_mod_converse(y as int * gw + x as int, gw, y as int, x as int);
                assert((y * gw + x) % gw == x as int);
                assert((y * gw + x) / gw == y as int);
            }
            pixels.push(pix);
            x += 1;
        }
        proof {
            assert((y + 1) * gw == y * gw + gw) by (nonlinear_arith);
        }
        y += 1;
    }
    proof {
        assert(pixels@ =~= spec_raster(matrix@, scale as int, border as int));
    }
    RasterImage { width: w, pixels }
}

/// Every pixel whose coordinates fall in the border region — outside the
/// scaled matrix area on any side — renders light, whatever the matrix holds.
pub proof fn lemma_border_pixel_light(
    m: Seq<Seq<bool>>,
    scale: int,
    border: int,
    x: int,
    y: int,
)
    requires
        scale >= 1,
        border >= 0,
        0 <= x,
        0 <= y,
        x < border * scale || y < border * scale
            || x >= (border + m.len()) * scale || y >= (border + m.len()) * scale,
    ensures
        spec_pixel(m, scale, border, x, y) == 255u8,
{
    lemma_fundamental_div_mod(x, scale);
    lemma_fundamental_div_mod(y, scale);
    let n = m.len() as int;
    if x < border * scale {
        assert(x / scale < border) by (nonlinear_arith)
            requires scale >= 1, 0 <= x, x < border * scale,
                x == scale * (x / scale) + x % scale, 0 <= x % scale < scale {};
    } else if y < border * scale {
        assert(y / scale < border) by (nonlinear_arith)
            requires scale >= 1, 0 <= y, y < border * scale,
                y == scale * (y / scale) + y % scale, 0 <= y % scale < scale {};
    } else if x >= (border + n) * scale {
        assert(x / scale >= border + n) by (nonlinear_arith)
            requires scale >= 1, x >= (border + n) * scale,
                x == scale * (x / scale) + x % scale, 0 <= x % scale < scale {};
    } else {
        assert(y / scale >= border + n) by (nonlinear_arith)
            requires scale >= 1, y >= (border + n) * scale,
                y == scale * (y / scale) + y % scale, 0 <= y % scale < scale {};
    }
}

/// Every pixel inside the `scale`×`scale` block of module (mx, my) equals
/// that module's value: no partial blocks, no blending.
pub proof fn lemma_module_block_uniform(
    m: Seq<Seq<bool>>,
    scale: int,
    border: int,
    mx: int,
    my: int,
    dx: int,
    dy: int,
)
    requires
        scale >= 1,
        border >= 0,
        0 <= mx < m.len(),
        0 <= my < m.len(),
        0 <= dx < scale,
        0 <= dy < scale,
    ensures
        spec_pixel(m, scale, border, (border + mx) * scale + dx, (border + my) * scale + dy)
            == (if m[my][mx] { 0u8 } else { 255u8 }),
{
    let x = (border + mx) * scale + dx;
    let y = (border + my) * scale + dy;
    lemma_fundamental_div_mod_converse(x, scale, border + mx, dx);
    lemma_fundamental_div_mod_converse(y, scale, border + my, dy);
    assert(x / scale == border + mx);
    assert(y / scale == border + my);
}

/// Rendering is deterministic and idempotent: two rasters produced from the
/// same matrix, scale and border are identical, pixel for pixel.
pub proof fn lemma_render_deterministic(
    a: RasterImage,
    b: RasterImage,
    m: Seq<Seq<bool>>,
    scale: int,
    border: int,
)
    requires
        a.width == spec_width(m.len() as int, scale, border),
        a.pixels@ == spec_raster(m, scale, border),
        b.width == spec_width(m.len() as int, scale, border),
        b.pixels@ == spec_raster(m, scale, border),
    ensures
        a.width == b.width,
        a.pixels@ == b.pixels@,
{
}

} // verus!
