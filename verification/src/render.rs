//! Rendering: a symbol as a vector image.

use vstd::prelude::*;
use crate::encoder::{best_mask, encode, lemma_best_mask_is_unique, symbol_modules};
use crate::error::QrError;
use crate::symbol::Symbol;
use crate::tables::{side_of, EccLevel};
use crate::version::{largest_capacity, lemma_smallest_fit_is_unique, smallest_version};
use qrcode::render::{svg, Renderer};
use qrcode::Color;

verus! {

/// The largest width or height that can be asked of an image as its
/// minimum.
pub const MAX_DIMENSION: u32 = 4_294_967_110;

/// The width and height in pixels that `generate_qr_code` asks for at
/// least.
pub const DEFAULT_DIMENSION: u32 = 200;

/// The width of the quiet zone around a symbol, in modules.
pub const QUIET_ZONE: u32 = 4;

/// The SVG text that shows the grid `modules` of `side` modules a side with
/// a quiet zone of `quiet_zone` modules around it, each module a rectangle
/// of whole pixels, the smallest such that the image is at least
/// `min_width` pixels wide and `min_height` pixels high. This is what
/// `qrcode::render::Renderer::build` returns for `svg::Color`.
pub uninterp spec fn svg_image(
    modules: Seq<bool>,
    side: int,
    quiet_zone: int,
    min_width: int,
    min_height: int,
) -> Seq<char>;

/// Draws a grid of modules as SVG.
///
/// Calls `Renderer::new`, `min_dimensions` and `build` of
/// `qrcode::render::Renderer` for `svg::Color`. The contract names the
/// result and claims that it is not empty: the source writes a header
/// before the modules and closes it after them. `requires` keeps to what
/// the source needs: `new` asserts that the grid is square, and
/// `min_dimensions` adds the minimum and the width in modules, the quiet
/// zone on both sides included, in `u32`, and divides by that width.
#[verifier::external_body]
fn draw_svg(
    modules: &Vec<bool>,
    side: usize,
    quiet_zone: u32,
    min_width: u32,
    min_height: u32,
) -> (image: String)
    requires
        modules.len() == side * side,
        side + 2 * quiet_zone > 0,
        side + 2 * quiet_zone + min_width <= u32::MAX,
        side + 2 * quiet_zone + min_height <= u32::MAX,
    ensures
        image@ == svg_image(
            modules@,
            side as int,
            quiet_zone as int,
            min_width as int,
            min_height as int,
        ),
        image@.len() > 0,
{
    let colors: Vec<Color> =
        modules.iter().map(|dark| if *dark { Color::Dark } else { Color::Light }).collect();
    Renderer::<svg::Color>::new(&colors, side, quiet_zone)
        .min_dimensions(min_width, min_height)
        .build()
}

/// The image of a symbol as SVG text: the modules with a quiet zone of four
/// modules, at least `min_width` by `min_height` pixels.
pub fn render_svg(symbol: &Symbol, min_width: u32, min_height: u32) -> (image: String)
    requires
        min_width <= MAX_DIMENSION,
        min_height <= MAX_DIMENSION,
    ensures
        image@ == svg_image(
            symbol@.modules,
            side_of(symbol@.version),
            QUIET_ZONE as int,
            min_width as int,
            min_height as int,
        ),
        image@.len() > 0,
{
    let side = symbol.side();
    draw_svg(symbol.modules(), side, QUIET_ZONE, min_width, min_height)
}

/// The image that `generate` gives for a payload that fits: that of its
/// symbol of the smallest version under the best mask.
pub open spec fn generated_image(
    payload: Seq<u8>,
    level: EccLevel,
    min_width: int,
    min_height: int,
) -> Seq<char> {
    let version = smallest_version(payload.len() as int, level);
    let mask = best_mask(payload, version, level);
    svg_image(
        symbol_modules(payload, version, level, mask),
        side_of(version),
        QUIET_ZONE as int,
        min_width,
        min_height,
    )
}

/// Encodes `payload` at `level` and renders the symbol as SVG text of at
/// least `min_width` by `min_height` pixels. Fails with `CapacityExceeded`
/// exactly when the payload is longer than version 40 holds at that level.
pub fn generate(
    payload: &[u8],
    level: EccLevel,
    min_width: u32,
    min_height: u32,
) -> (image: Result<String, QrError>)
    requires
        min_width <= MAX_DIMENSION,
        min_height <= MAX_DIMENSION,
    ensures
        image is Ok <==> payload@.len() <= largest_capacity(level),
        image matches Ok(text) ==> text@ == generated_image(
            payload@,
            level,
            min_width as int,
            min_height as int,
        ),
        image matches Ok(text) ==> text@.len() > 0,
        image matches Err(error) ==> error == QrError::CapacityExceeded,
{
    match encode(payload, level) {
        Ok(symbol) => {
            proof {
                lemma_smallest_fit_is_unique(
                    payload@.len() as int,
                    level,
                    symbol@.version,
                    symbol@.version,
                );
                lemma_best_mask_is_unique(
                    payload@,
                    symbol@.version,
                    level,
                    symbol@.mask,
                    symbol@.mask,
                );
            }
            Ok(render_svg(&symbol, min_width, min_height))
        },
        Err(error) => Err(error),
    }
}

/// Generates the code for `data` as SVG text: level M, the smallest version
/// that holds the data, at least 200 by 200 pixels. Fails with
/// `CapacityExceeded` exactly when the data is longer than 2331 bytes.
pub fn generate_qr_code(data: &[u8]) -> (image: Result<String, QrError>)
    ensures
        image is Ok <==> data@.len() <= 2331,
        image matches Ok(text) ==> text@ == generated_image(data@, EccLevel::M, 200, 200),
        image matches Ok(text) ==> text@.len() > 0,
        image matches Err(error) ==> error == QrError::CapacityExceeded,
{
    generate(data, EccLevel::M, DEFAULT_DIMENSION, DEFAULT_DIMENSION)
}

} // verus!
