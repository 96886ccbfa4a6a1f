//! Turning a symbol into pixels: every module becomes a block of one shade.

use crate::symbol::{QrMatrix, Symbol};
use image::Luma;
use qrcode::render::Renderer;
use qrcode::types::Color;
use vstd::prelude::*;

verus! {

/// The widest quiet zone, in modules, that [`render`] draws.
pub const MAX_QUIET_ZONE: u32 = 16;

/// The largest minimum, in pixels, that [`render`] may be asked for.
pub const MAX_MIN_DIMENSION: u32 = 4096;

/// The shade of a dark module.
pub const DARK: u8 = 0;

/// The shade of a light module, and of the quiet zone.
pub const LIGHT: u8 = 255;

/// An 8-bit greyscale image, one byte per pixel, row by row from the top
/// left.
#[derive(Debug)]
pub struct Raster {
    pub width: u32,
    pub height: u32,
    pub pixels: Vec<u8>,
}

/// The mathematical value of a [`Raster`].
pub ghost struct RasterView {
    pub width: nat,
    pub height: nat,
    pub pixels: Seq<u8>,
}

impl RasterView {
    /// There is one byte for every pixel.
    pub open spec fn well_formed(self) -> bool {
        self.pixels.len() == self.width * self.height
    }

    /// The shade of the pixel in column `x` of row `y`.
    pub open spec fn pixel_at(self, x: int, y: int) -> u8
        recommends
            0 <= x < self.width,
            0 <= y < self.height,
    {
        self.pixels[y * self.width + x]
    }
}

impl View for Raster {
    type V = RasterView;

    open spec fn view(&self) -> RasterView {
        RasterView {
            width: self.width as nat,
            height: self.height as nat,
            pixels: self.pixels@,
        }
    }
}

impl Raster {
    /// See [`RasterView::well_formed`].
    pub open spec fn wf(&self) -> bool {
        self@.well_formed()
    }
}

/// The edge of one module in pixels: the least whole number, and at least
/// one, with which `side` modules span `min` pixels or more.
pub open spec fn module_pixels(side: nat, min: nat) -> nat
    recommends
        side > 0,
{
    let fit = (min + side - 1) / (side as int);
    if fit < 1 {
        1
    } else {
        fit as nat
    }
}

/// Whether the cell in column `col` of row `row`, counted in modules from
/// the top left of the image, quiet zone included, is a dark module.
pub open spec fn dark_cell(symbol: Symbol, quiet_zone: nat, col: int, row: int) -> bool {
    &&& quiet_zone <= col < quiet_zone + symbol.width
    &&& quiet_zone <= row < quiet_zone + symbol.width
    &&& symbol.dark_at(col - quiet_zone, row - quiet_zone)
}

/// The image of `symbol` with `quiet_zone` light modules on every side, in
/// which all modules have one size and which is the smallest such image of
/// at least `min_width` by `min_height` pixels.
pub open spec fn rendered(
    symbol: Symbol,
    quiet_zone: nat,
    min_width: nat,
    min_height: nat,
) -> RasterView {
    let side = symbol.width + 2 * quiet_zone;
    let unit_width = module_pixels(side, min_width);
    let unit_height = module_pixels(side, min_height);
    let width = side * unit_width;
    let height = side * unit_height;
    RasterView {
        width,
        height,
        pixels: Seq::new(
            width * height,
            |i: int|
                if dark_cell(
                    symbol,
                    quiet_zone,
                    (i % (width as int)) / (unit_width as int),
                    (i / (width as int)) / (unit_height as int),
                ) {
                    DARK
                } else {
                    LIGHT
                },
        ),
    }
}

/// Hands the modules to `qrcode::render::Renderer::<image::Luma<u8>>::new`
/// with `quiet_zone` as the renderer's quiet zone, sets `min_dimensions`,
/// calls `build`, and copies the dimensions and the raw buffer out of the
/// image that comes back.
///
/// Nothing is proved of this function. Its contract claims what the
/// renderer's source shows: the image has `width + 2 * quiet_zone` cells a
/// side; a cell is `(min + side - 1) / side` pixels wide or high, and never
/// less than one; the buffer is filled with 255 and every dark module's
/// block is then set to 0. The bounds keep the renderer's 32-bit arithmetic
/// and the buffer's length in range.
#[verifier::external_body]
fn render_luma(matrix: &QrMatrix, quiet_zone: u32, min_width: u32, min_height: u32) -> (r: Raster)
    requires
        matrix.wf(),
        quiet_zone <= MAX_QUIET_ZONE,
        min_width <= MAX_MIN_DIMENSION,
        min_height <= MAX_MIN_DIMENSION,
    ensures
        r@ == rendered(matrix@, quiet_zone as nat, min_width as nat, min_height as nat),
{
    let colors: Vec<Color> =
        matrix.modules.iter().map(|dark| if *dark { Color::Dark } else { Color::Light }).collect();
    let image = Renderer::<Luma<u8>>::new(&colors, matrix.width, quiet_zone)
        .min_dimensions(min_width, min_height)
        .build();
    let (width, height) = image.dimensions();
    Raster { width, height, pixels: image.into_raw() }
}

/// With `side` modules of [`module_pixels`] each, the image is at least
/// `min` pixels wide and less than `side` pixels wider than it has to be.
pub proof fn lemma_module_pixels_span(side: nat, min: nat)
    requires
        side > 0,
    ensures
        side * module_pixels(side, min) >= min,
        min > 0 ==> side * module_pixels(side, min) < min + side,
        min == 0 ==> module_pixels(side, min) == 1,
{
    let s = side as int;
    let n = (min + side - 1) as int;
    let q = n / s;
    assert(n == s * q + n % s && 0 <= n % s < s) by {
        vstd::arithmetic::div_mod::lemma_fundamental_div_mod(n, s);
        vstd::arithmetic::div_mod::lemma_mod_bound(n, s);
    }
    if min == 0 {
        assert(q == 0) by {
            vstd::arithmetic::div_mod::lemma_basic_div(n, s);
        }
    } else {
        assert(q >= 1) by (nonlinear_arith)
            requires
                n == s * q + n % s,
                0 <= n % s < s,
                n >= s,
                s > 0,
        ;
        assert(module_pixels(side, min) == q);
    }
}

/// Every pixel of [`rendered`] has the shade of the cell that it lies in:
/// the pixel in column `x` of row `y` belongs to the cell in column
/// `x / unit_width` of row `y / unit_height`.
pub proof fn lemma_rendered_pixel(
    symbol: Symbol,
    quiet_zone: nat,
    min_width: nat,
    min_height: nat,
    x: int,
    y: int,
)
    requires
        symbol.width + 2 * quiet_zone > 0,
        0 <= x < rendered(symbol, quiet_zone, min_width, min_height).width,
        0 <= y < rendered(symbol, quiet_zone, min_width, min_height).height,
    ensures
        rendered(symbol, quiet_zone, min_width, min_height).pixel_at(x, y) == if dark_cell(
            symbol,
            quiet_zone,
            x / (module_pixels(symbol.width + 2 * quiet_zone, min_width) as int),
            y / (module_pixels(symbol.width + 2 * quiet_zone, min_height) as int),
        ) {
            DARK
        } else {
            LIGHT
        },
{
    let raster = rendered(symbol, quiet_zone, min_width, min_height);
    let width = raster.width as int;
    let height = raster.height as int;
    let i = y * width + x;
    assert(0 <= i < width * height) by (nonlinear_arith)
        requires
            i == y * width + x,
            0 <= x < width,
            0 <= y < height,
    ;
    vstd::arithmetic::div_mod::lemma_fundamental_div_mod_converse(i, width, y, x);
}

/// Draws `matrix` as a greyscale image.
///
/// The image has `quiet_zone` light modules on every side of the symbol.
/// Every module is a block of one shade, [`DARK`] or [`LIGHT`], and all
/// blocks have the same size: the smallest with which the image is at least
/// `min_width` pixels wide and `min_height` pixels high.
pub fn render(matrix: &QrMatrix, quiet_zone: u32, min_width: u32, min_height: u32) -> (r: Raster)
    requires
        matrix.wf(),
        quiet_zone <= MAX_QUIET_ZONE,
        min_width <= MAX_MIN_DIMENSION,
        min_height <= MAX_MIN_DIMENSION,
    ensures
        r@ == rendered(matrix@, quiet_zone as nat, min_width as nat, min_height as nat),
        r.wf(),
        r.width >= min_width,
        r.height >= min_height,
        r.width > 0,
        r.height > 0,
        min_width == min_height ==> r.width == r.height,
        forall|i: int| 0 <= i < r.pixels.len() ==> r.pixels[i] == DARK || r.pixels[i] == LIGHT,
{
    let r = render_luma(matrix, quiet_zone, min_width, min_height);
    proof {
        let side = matrix@.width + 2 * (quiet_zone as nat);
        lemma_module_pixels_span(side, min_width as nat);
        lemma_module_pixels_span(side, min_height as nat);
        assert(side * module_pixels(side, min_width as nat) > 0) by (nonlinear_arith)
            requires
                side > 0,
                module_pixels(side, min_width as nat) >= 1,
        ;
        assert(side * module_pixels(side, min_height as nat) > 0) by (nonlinear_arith)
            requires
                side > 0,
                module_pixels(side, min_height as nat) >= 1,
        ;
    }
    r
}

} // verus!
