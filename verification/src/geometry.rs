//! Sizes, pans and the arithmetic that relates a pan in pixels to a pan
//! normalized to the extent by which the image can move.

use vstd::prelude::*;

verus! {

/// The zoom factor 1:1. A zoom factor is a number of thousandths.
pub const ZOOM_UNIT: u32 = 1000;

/// The smallest zoom factor the controls offer.
pub const MIN_ZOOM: u32 = 125;

/// The largest zoom factor the controls offer.
pub const MAX_ZOOM: u32 = 64000;

/// The normalized pan 1.0: the image moved by its whole extent.
/// A normalized pan has 32 fractional bits.
pub const NORM_UNIT: i64 = 0x1_0000_0000;

/// A width and a height in pixels.
#[derive(Clone, Copy, Debug, PartialEq, Eq, Structural)]
pub struct Size {
    pub x: u32,
    pub y: u32,
}

/// A pan, or the largest valid pan, in pixels.
#[derive(Clone, Copy, Debug, PartialEq, Eq, Structural)]
pub struct Translate {
    pub x: i64,
    pub y: i64,
}

/// A pan as a fraction of the largest valid pan, in units of `1 / NORM_UNIT`.
#[derive(Clone, Copy, Debug, PartialEq, Eq, Structural)]
pub struct TranslateNorm {
    pub x: i64,
    pub y: i64,
}

/// `n / d` rounded to the nearest integer, halves away from zero.
pub open spec fn round_div(n: int, d: int) -> int
    recommends
        d > 0,
{
    if n >= 0 {
        (2 * n + d) / (2 * d)
    } else {
        -((d - 2 * n) / (2 * d))
    }
}

/// The lesser of two numbers.
pub open spec fn min_int(a: int, b: int) -> int {
    if a <= b {
        a
    } else {
        b
    }
}

/// The number `v` brought into `[lo, hi]`.
pub open spec fn clamp_int(v: int, lo: int, hi: int) -> int {
    if v < lo {
        lo
    } else if v > hi {
        hi
    } else {
        v
    }
}

/// The largest valid pan along one axis, for an image of `size` pixels in a
/// window of `win` pixels at zoom factor `zoom`.
///
/// Zoomed in, it is the image size less the slice of the image that the
/// window shows at that zoom. Zoomed out, it is the size of the shrunk image
/// less the window size. At 1:1 it is the image size less the window size.
/// A result that is not positive means that the image is not clipped.
pub open spec fn max_translate(size: int, win: int, zoom: int) -> int {
    if zoom > ZOOM_UNIT {
        size - round_div(min_int(win, size) * ZOOM_UNIT, zoom)
    } else if zoom < ZOOM_UNIT {
        round_div(size * zoom, ZOOM_UNIT as int) - win
    } else {
        size - win
    }
}

/// The pan in pixels that the normalized pan `norm` stands for when the
/// largest valid pan is `coeff`.
pub open spec fn norm_to_pixels(norm: int, coeff: int) -> int {
    round_div(norm * coeff, NORM_UNIT as int)
}

/// The pan `pixel` clamped to `[0, coeff]`; zero where the image is not clipped.
pub open spec fn clamp_translate(pixel: int, coeff: int) -> int {
    if coeff <= 0 {
        0
    } else {
        clamp_int(pixel, 0, coeff)
    }
}

/// The pan `pixel`, clamped, as a fraction of `coeff`; zero where the image
/// is not clipped.
pub open spec fn pixels_to_norm(pixel: int, coeff: int) -> int {
    if coeff <= 0 {
        0
    } else {
        round_div(clamp_int(pixel, 0, coeff) * NORM_UNIT, coeff)
    }
}

/// The largest valid pan in both axes.
pub open spec fn translate_coeffs(size: Size, win_size: Size, zoom_factor: u32) -> Translate {
    Translate {
        x: max_translate(size.x as int, win_size.x as int, zoom_factor as int) as i64,
        y: max_translate(size.y as int, win_size.y as int, zoom_factor as int) as i64,
    }
}

/// A size scaled to fit a window along one axis: `win * other / own`, rounded.
pub open spec fn fit_axis(win: int, other: int, own: int) -> int {
    round_div(win * other, own)
}

/// The size `orig_size` scaled, keeping its proportions, to the largest size
/// that fits the window: to the window's height where the image is
/// proportionally taller than the window, else to the window's width.
/// A size without area is returned as it is.
pub open spec fn fit_to_window(win_size: Size, orig_size: Size) -> Size {
    if orig_size.x == 0 || orig_size.y == 0 {
        orig_size
    } else if win_size.x * orig_size.y > win_size.y * orig_size.x {
        Size {
            x: fit_axis(win_size.y as int, orig_size.x as int, orig_size.y as int) as u32,
            y: win_size.y,
        }
    } else if orig_size.x != win_size.x {
        Size {
            x: win_size.x,
            y: fit_axis(win_size.x as int, orig_size.y as int, orig_size.x as int) as u32,
        }
    } else {
        orig_size
    }
}

/// The pan in pixels, in both axes, that `translate_norm` stands for.
pub open spec fn translate_pixels(
    translate_norm: TranslateNorm,
    size: Size,
    win_size: Size,
    zoom_factor: u32,
) -> Translate {
    Translate {
        x: norm_to_pixels(
            translate_norm.x as int,
            max_translate(size.x as int, win_size.x as int, zoom_factor as int),
        ) as i64,
        y: norm_to_pixels(
            translate_norm.y as int,
            max_translate(size.y as int, win_size.y as int, zoom_factor as int),
        ) as i64,
    }
}

/// A rounded quotient of a number that is not negative lies between 0 and
/// the number, and differs from the exact quotient by half at most.
pub proof fn lemma_round_div_bounds(n: int, d: int)
    by (nonlinear_arith)
    requires
        n >= 0,
        d > 0,
    ensures
        0 <= round_div(n, d) <= n,
        2 * d * round_div(n, d) <= 2 * n + d,
        2 * n - d < 2 * d * round_div(n, d),
{
}

/// Rounding a quotient keeps the order of the numerators.
pub proof fn lemma_round_div_monotonic(a: int, b: int, d: int)
    by (nonlinear_arith)
    requires
        0 <= a <= b,
        d > 0,
    ensures
        round_div(a, d) <= round_div(b, d),
{
}

/// A whole multiple divides without rounding.
pub proof fn lemma_round_div_exact(q: int, d: int)
    by (nonlinear_arith)
    requires
        q >= 0,
        d > 0,
    ensures
        round_div(q * d, d) == q,
{
}

pub(crate) fn round_div_u64(n: u64, d: u64) -> (r: u64)
    requires
        d > 0,
        2 * n + d <= u64::MAX,
        2 * d <= u64::MAX,
    ensures
        r == round_div(n as int, d as int),
{
    (2 * n + d) / (2 * d)
}

pub(crate) fn round_div_u128(n: u128, d: u128) -> (r: u128)
    requires
        d > 0,
        2 * n + d <= u128::MAX,
        2 * d <= u128::MAX,
    ensures
        r == round_div(n as int, d as int),
{
    (2 * n + d) / (2 * d)
}

/// The length `len` at a zoom factor of at most 1:1: `len * zoom / 1000`,
/// rounded.
pub(crate) fn shrink_by_zoom(len: u32, zoom: u32) -> (r: u32)
    requires
        zoom <= ZOOM_UNIT,
    ensures
        r == round_div(len * zoom, 1000),
        r <= len,
{
    assert(len as u64 * zoom as u64 <= 0xffff_ffff * 1000) by (nonlinear_arith)
        requires
            len <= 0xffff_ffff,
            zoom <= 1000,
    ;
    let scaled: u64 = len as u64 * zoom as u64;
    let shrunk: u64 = round_div_u64(scaled, 1000);
    proof {
        assert(len as int * zoom as int <= len as int * 1000) by (nonlinear_arith)
            requires
                len >= 0,
                zoom <= 1000,
        ;
        lemma_round_div_monotonic(scaled as int, len as int * 1000, 1000);
        lemma_round_div_exact(len as int, 1000);
        lemma_round_div_bounds(scaled as int, 1000);
    }
    shrunk as u32
}

/// The part of the length `len` that is visible at a zoom factor of at
/// least 1:1: `len * 1000 / zoom`, rounded.
pub(crate) fn visible_at_zoom(len: u32, zoom: u32) -> (r: u32)
    requires
        zoom >= ZOOM_UNIT,
    ensures
        r == round_div(len * 1000, zoom as int),
        r <= len,
{
    let scaled: u64 = len as u64 * 1000;
    let slice: u64 = round_div_u64(scaled, zoom as u64);
    proof {
        assert(len as int * 1000 <= len as int * zoom as int) by (nonlinear_arith)
            requires
                len >= 0,
                zoom >= 1000,
        ;
        lemma_round_div_monotonic(scaled as int, len as int * zoom as int, zoom as int);
        lemma_round_div_exact(len as int, zoom as int);
        lemma_round_div_bounds(scaled as int, zoom as int);
    }
    slice as u32
}

/// The largest valid pan along one axis.
pub fn axis_max_translate(size: u32, win: u32, zoom: u32) -> (r: i64)
    ensures
        r == max_translate(size as int, win as int, zoom as int),
        -NORM_UNIT < r < NORM_UNIT,
{
    if zoom > ZOOM_UNIT {
        let visible: u32 = if win <= size { win } else { size };
        size as i64 - visible_at_zoom(visible, zoom) as i64
    } else if zoom < ZOOM_UNIT {
        shrink_by_zoom(size, zoom) as i64 - win as i64
    } else {
        size as i64 - win as i64
    }
}

/// The largest valid pan in each axis, for an image of `size` in a window of
/// `win_size` at `zoom_factor`.
pub fn translate_norm_coeffs(size: &Size, win_size: &Size, zoom_factor: u32) -> (r: Translate)
    ensures
        r == translate_coeffs(*size, *win_size, zoom_factor),
        r.x == max_translate(size.x as int, win_size.x as int, zoom_factor as int),
        r.y == max_translate(size.y as int, win_size.y as int, zoom_factor as int),
        -NORM_UNIT < r.x < NORM_UNIT,
        -NORM_UNIT < r.y < NORM_UNIT,
{
    Translate {
        x: axis_max_translate(size.x, win_size.x, zoom_factor),
        y: axis_max_translate(size.y, win_size.y, zoom_factor),
    }
}

/// The size scaled to fit the window, keeping its proportions.
pub fn dimensions_for_window(win_size: &Size, orig_size: &Size) -> (r: Size)
    ensures
        r == fit_to_window(*win_size, *orig_size),
        orig_size.x > 0 && orig_size.y > 0 ==> r.x <= win_size.x && r.y <= win_size.y,
{
    if orig_size.x == 0 || orig_size.y == 0 {
        return *orig_size;
    }
    let (wx, wy): (u128, u128) = (win_size.x as u128, win_size.y as u128);
    let (ox, oy): (u128, u128) = (orig_size.x as u128, orig_size.y as u128);
    assert(wx * oy <= 0xffff_ffff * 0xffff_ffff && wy * ox <= 0xffff_ffff * 0xffff_ffff)
        by (nonlinear_arith)
        requires
            wx <= 0xffff_ffff,
            wy <= 0xffff_ffff,
            ox <= 0xffff_ffff,
            oy <= 0xffff_ffff,
    ;
    if wx * oy > wy * ox {
        let x: u128 = round_div_u128(wy * ox, oy);
        proof {
            lemma_round_div_monotonic((wy * ox) as int, (wx * oy) as int, oy as int);
            lemma_round_div_exact(wx as int, oy as int);
        }
        Size { x: x as u32, y: win_size.y }
    } else if orig_size.x != win_size.x {
        let y: u128 = round_div_u128(wx * oy, ox);
        proof {
            lemma_round_div_monotonic((wx * oy) as int, (wy * ox) as int, ox as int);
            lemma_round_div_exact(wy as int, ox as int);
        }
        Size { x: win_size.x, y: y as u32 }
    } else {
        assert(oy <= wy) by (nonlinear_arith)
            requires
                wx * oy <= wy * ox,
                ox == wx,
                ox > 0,
        ;
        *orig_size
    }
}

/// The magnitude of a signed number.
fn magnitude(v: i64) -> (r: u128)
    ensures
        r == if v < 0 {
            -(v as int)
        } else {
            v as int
        },
{
    if v < 0 {
        (-(v as i128)) as u128
    } else {
        v as u128
    }
}

/// The pan in pixels along one axis that the normalized pan `norm` stands
/// for when the largest valid pan is `coeff`.
pub(crate) fn axis_norm_to_pixels(norm: i64, coeff: i64) -> (r: i64)
    requires
        -NORM_UNIT < coeff < NORM_UNIT,
    ensures
        r == norm_to_pixels(norm as int, coeff as int),
{
    let negative: bool = (norm < 0) != (coeff < 0);
    let n: u128 = magnitude(norm);
    let c: u128 = magnitude(coeff);
    assert(n * c <= 0x8000_0000_0000_0000 * 0xffff_ffff) by (nonlinear_arith)
        requires
            n <= 0x8000_0000_0000_0000,
            c <= 0xffff_ffff,
    ;
    let product: u128 = n * c;
    let rounded: u128 = round_div_u128(product, 0x1_0000_0000);
    proof {
        let p: int = norm as int * coeff as int;
        assert(negative ==> p == -(n as int * c as int)) by (nonlinear_arith)
            requires
                p == norm as int * coeff as int,
                negative == ((norm < 0) != (coeff < 0)),
                n == if norm < 0 {
                    -(norm as int)
                } else {
                    norm as int
                },
                c == if coeff < 0 {
                    -(coeff as int)
                } else {
                    coeff as int
                },
        ;
        assert(!negative ==> p == n as int * c as int) by (nonlinear_arith)
            requires
                p == norm as int * coeff as int,
                negative == ((norm < 0) != (coeff < 0)),
                n == if norm < 0 {
                    -(norm as int)
                } else {
                    norm as int
                },
                c == if coeff < 0 {
                    -(coeff as int)
                } else {
                    coeff as int
                },
        ;
    }
    if negative {
        -(rounded as i64)
    } else {
        rounded as i64
    }
}

/// The pan in pixels that the normalized pan `translate_norm` stands for, for
/// an image of `size` in a window of `win_size` at `zoom_factor`.
pub fn translate_norm_to_pixels(
    translate_norm: &TranslateNorm,
    size: &Size,
    win_size: &Size,
    zoom_factor: u32,
) -> (r: Translate)
    ensures
        r == translate_pixels(*translate_norm, *size, *win_size, zoom_factor),
        r.x == norm_to_pixels(
            translate_norm.x as int,
            max_translate(size.x as int, win_size.x as int, zoom_factor as int),
        ),
        r.y == norm_to_pixels(
            translate_norm.y as int,
            max_translate(size.y as int, win_size.y as int, zoom_factor as int),
        ),
{
    let coeffs = translate_norm_coeffs(size, win_size, zoom_factor);
    Translate {
        x: axis_norm_to_pixels(translate_norm.x, coeffs.x),
        y: axis_norm_to_pixels(translate_norm.y, coeffs.y),
    }
}

/// The pan `pixel` along one axis clamped to the valid pans, and that pan
/// normalized, where the largest valid pan is `coeff`.
pub fn axis_fix_translate(pixel: i64, coeff: i64) -> (r: (i64, i64))
    ensures
        r.0 == clamp_translate(pixel as int, coeff as int),
        r.1 == pixels_to_norm(pixel as int, coeff as int),
        0 <= r.0,
        0 <= r.1 <= NORM_UNIT,
{
    if coeff <= 0 {
        (0, 0)
    } else {
        let fixed: i64 = if pixel < 0 {
            0
        } else if pixel > coeff {
            coeff
        } else {
            pixel
        };
        let scaled: u128 = fixed as u128 * 0x1_0000_0000;
        let norm: u128 = round_div_u128(scaled, coeff as u128);
        proof {
            lemma_round_div_monotonic(
                scaled as int,
                coeff as int * 0x1_0000_0000,
                coeff as int,
            );
            assert(coeff as int * 0x1_0000_0000 == 0x1_0000_0000 * coeff as int);
            lemma_round_div_exact(0x1_0000_0000, coeff as int);
            lemma_round_div_bounds(scaled as int, coeff as int);
        }
        (fixed, norm as i64)
    }
}

/// The largest valid pan of an image whose sides fit 32 bits lies strictly
/// between `-NORM_UNIT` and `NORM_UNIT`.
pub proof fn lemma_max_translate_bounds(size: u32, win: u32, zoom: u32)
    ensures
        -NORM_UNIT < max_translate(size as int, win as int, zoom as int) < NORM_UNIT,
{
    if zoom > ZOOM_UNIT {
        let visible = min_int(win as int, size as int);
        assert(visible * 1000 <= visible * zoom) by (nonlinear_arith)
            requires
                visible >= 0,
                zoom > 1000,
        ;
        lemma_round_div_monotonic(visible * 1000, visible * zoom, zoom as int);
        lemma_round_div_exact(visible, zoom as int);
        lemma_round_div_bounds(visible * 1000, zoom as int);
    } else if zoom < ZOOM_UNIT {
        assert(0 <= size * zoom <= size * 1000) by (nonlinear_arith)
            requires
                size >= 0,
                0 <= zoom < 1000,
        ;
        lemma_round_div_monotonic(size * zoom, size * 1000, 1000);
        lemma_round_div_exact(size as int, 1000);
        lemma_round_div_bounds(size * zoom, 1000);
    }
}

/// A clamped pan lies between 0 and the largest valid pan, and its
/// normalized form between 0 and `NORM_UNIT`.
pub proof fn lemma_fixed_bounds(pixel: int, coeff: int)
    requires
        coeff < NORM_UNIT,
    ensures
        0 <= clamp_translate(pixel, coeff) < NORM_UNIT,
        clamp_translate(pixel, coeff) <= if coeff > 0 {
            coeff
        } else {
            0
        },
        0 <= pixels_to_norm(pixel, coeff) <= NORM_UNIT,
{
    if coeff > 0 {
        let p = clamp_int(pixel, 0, coeff);
        assert(0 <= p * NORM_UNIT <= coeff * NORM_UNIT) by (nonlinear_arith)
            requires
                0 <= p <= coeff,
        ;
        lemma_round_div_monotonic(p * NORM_UNIT, coeff * NORM_UNIT, coeff);
        assert(coeff * NORM_UNIT == NORM_UNIT * coeff) by (nonlinear_arith);
        lemma_round_div_exact(NORM_UNIT as int, coeff);
        lemma_round_div_bounds(p * NORM_UNIT, coeff);
    }
}

/// A normalized pan of a clamped pixel pan gives the pixel pan back.
///
/// For every largest valid pan below `NORM_UNIT`, which every image whose
/// sides fit 32 bits has, converting a pan in pixels to its normalized form
/// and back loses nothing.
pub proof fn lemma_norm_round_trip(pixel: int, coeff: int)
    requires
        coeff < NORM_UNIT,
    ensures
        norm_to_pixels(pixels_to_norm(pixel, coeff), coeff) == clamp_translate(pixel, coeff),
{
    if coeff > 0 {
        let p = clamp_int(pixel, 0, coeff);
        let n = pixels_to_norm(pixel, coeff);
        lemma_round_div_bounds(p * NORM_UNIT, coeff);
        assert(p * NORM_UNIT >= 0) by (nonlinear_arith)
            requires
                p >= 0,
        ;
        lemma_round_trip_core(p, coeff, n, NORM_UNIT as int);
    } else {
        let n = pixels_to_norm(pixel, coeff);
        assert(n * coeff == 0) by (nonlinear_arith)
            requires
                n == 0,
        ;
        lemma_round_div_bounds(0, NORM_UNIT as int);
    }
}

proof fn lemma_round_trip_core(p: int, c: int, n: int, u: int)
    by (nonlinear_arith)
    requires
        0 <= p <= c,
        0 < c < u,
        n >= 0,
        2 * c * n <= 2 * (p * u) + c,
        2 * (p * u) - c < 2 * c * n,
    ensures
        round_div(n * c, u) == p,
{
}

/// Clamping a pan that is already clamped changes nothing, and neither does
/// normalizing it again.
pub proof fn lemma_clamp_idempotent(pixel: int, coeff: int)
    ensures
        clamp_translate(clamp_translate(pixel, coeff), coeff) == clamp_translate(pixel, coeff),
        pixels_to_norm(clamp_translate(pixel, coeff), coeff) == pixels_to_norm(pixel, coeff),
{
}

} // verus!
