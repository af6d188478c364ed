//! The encoder: from a payload to the symbol that carries it.
//!
//! The version is chosen and the data codewords are put together here. The
//! crate `qrcode` adds the error correction and draws the grid under each of
//! the eight mask patterns. Which of the eight becomes the symbol is decided
//! here again, by the penalty of each: `qrcode` can choose for itself, but
//! it adds the penalties up in sixteen bits, which large symbols overflow.

use vstd::prelude::*;
use crate::bitstream::{assemble_data_codewords, data_codewords_of};
use crate::error::QrError;
use crate::penalty::{penalty, penalty_score};
use crate::symbol::{Symbol, SymbolView};
use crate::tables::{data_codeword_count, is_version, side_of, symbol_side, EccLevel};
use crate::version::{
    is_smallest_fit, largest_capacity, lemma_fit_reaches_largest, lemma_smallest_fit_is_unique,
    select_version,
};
use qrcode::canvas::{Canvas, MaskPattern};
use qrcode::{Color, EcLevel, Version};

verus! {

/// The number of mask patterns.
pub const MASKS: u8 = 8;

/// The codewords that protect and carry `data` in a symbol of the given
/// version and level (the level by its rank): first the data codewords of
/// all blocks interleaved, then their error correction codewords
/// interleaved. This is what `qrcode::ec::construct_codewords` returns.
pub uninterp spec fn protected_codewords(
    data: Seq<u8>,
    version: int,
    level: int,
) -> (Seq<u8>, Seq<u8>);

/// The modules of the symbol of the given version and level (by its rank)
/// that carries the codewords `data` and `ecc` under the mask pattern
/// `mask`: what a `qrcode::canvas::Canvas` holds after the function
/// patterns and the codewords were drawn and the mask was applied.
pub uninterp spec fn masked_modules(
    version: int,
    level: int,
    data: Seq<u8>,
    ecc: Seq<u8>,
    mask: int,
) -> Seq<bool>;

/// Splits the data codewords into blocks, computes the error correction
/// codewords of each block and interleaves both.
///
/// Calls `qrcode::ec::construct_codewords`. The contract names its result
/// and claims that it does not fail: the source returns an error only for a
/// version that has no table entry, and versions 1 to 40 all have one. The
/// source slices `data` by the block sizes of the version and level, whose
/// sum is the number of data codewords that `requires` asks for.
#[verifier::external_body]
fn protect_codewords(data: &Vec<u8>, version: u8, level: EccLevel) -> (codewords: (Vec<u8>, Vec<u8>))
    requires
        is_version(version as int),
        data.len() == data_codeword_count(version as int, level),
    ensures
        (codewords.0@, codewords.1@) == protected_codewords(data@, version as int, level.rank()),
{
    let ec = [EcLevel::L, EcLevel::M, EcLevel::Q, EcLevel::H][level as usize];
    qrcode::ec::construct_codewords(data, Version::Normal(version as i16), ec).unwrap_or_default()
}

/// Draws the function patterns and the codewords and applies one mask
/// pattern, which also writes the format information.
///
/// Calls `Canvas::new`, `draw_all_functional_patterns`, `draw_data`,
/// `apply_mask` and `into_colors` of `qrcode::canvas::Canvas`. The contract
/// names the result and claims its length: the canvas is made with the
/// square of `4 * version + 17` modules and gives one colour for each.
#[verifier::external_body]
fn draw_masked(
    version: u8,
    level: EccLevel,
    data: &Vec<u8>,
    ecc: &Vec<u8>,
    mask: u8,
) -> (modules: Vec<bool>)
    requires
        is_version(version as int),
        mask < MASKS,
    ensures
        modules@ == masked_modules(version as int, level.rank(), data@, ecc@, mask as int),
        modules.len() == side_of(version as int) * side_of(version as int),
{
    let ec = [EcLevel::L, EcLevel::M, EcLevel::Q, EcLevel::H][level as usize];
    let pattern = [
        MaskPattern::Checkerboard, MaskPattern::HorizontalLines, MaskPattern::VerticalLines,
        MaskPattern::DiagonalLines, MaskPattern::LargeCheckerboard, MaskPattern::Fields,
        MaskPattern::Diamonds, MaskPattern::Meadow,
    ][mask as usize];
    let mut canvas = Canvas::new(Version::Normal(version as i16), ec);
    canvas.draw_all_functional_patterns();
    canvas.draw_data(data, ecc);
    canvas.apply_mask(pattern);
    canvas.into_colors().into_iter().map(|c| c == Color::Dark).collect()
}

/// The modules of the symbol of the given version and level that carries
/// `payload` under the mask pattern `mask`.
pub open spec fn symbol_modules(
    payload: Seq<u8>,
    version: int,
    level: EccLevel,
    mask: int,
) -> Seq<bool> {
    let codewords = protected_codewords(
        data_codewords_of(payload, version, level),
        version,
        level.rank(),
    );
    masked_modules(version, level.rank(), codewords.0, codewords.1, mask)
}

/// The penalty of the symbol of the given version and level that carries
/// `payload` under the mask pattern `mask`.
pub open spec fn mask_penalty(payload: Seq<u8>, version: int, level: EccLevel, mask: int) -> int {
    penalty_score(symbol_modules(payload, version, level, mask), side_of(version))
}

/// Whether `mask` is the mask pattern that the encoder chooses: one of the
/// eight with the lowest penalty, and of these the first.
pub open spec fn is_best_mask(payload: Seq<u8>, version: int, level: EccLevel, mask: int) -> bool {
    &&& 0 <= mask < MASKS
    &&& forall|other: int|
        0 <= other < MASKS ==> mask_penalty(payload, version, level, mask) <= #[trigger] mask_penalty(
            payload,
            version,
            level,
            other,
        )
    &&& forall|earlier: int|
        0 <= earlier < mask ==> mask_penalty(payload, version, level, mask) < #[trigger] mask_penalty(
            payload,
            version,
            level,
            earlier,
        )
}

/// The mask pattern that the encoder chooses.
pub open spec fn best_mask(payload: Seq<u8>, version: int, level: EccLevel) -> int {
    choose|mask: int| is_best_mask(payload, version, level, mask)
}

/// Whether `symbol` is the encoding of `payload` at `level`: it has the
/// level asked for, the smallest version that holds the payload and the
/// best mask, and its modules are those that are drawn for them.
pub open spec fn is_encoding(symbol: SymbolView, payload: Seq<u8>, level: EccLevel) -> bool {
    &&& symbol.is_symbol()
    &&& symbol.level == level
    &&& is_smallest_fit(payload.len() as int, level, symbol.version)
    &&& is_best_mask(payload, symbol.version, level, symbol.mask)
    &&& symbol.modules == symbol_modules(payload, symbol.version, level, symbol.mask)
}

/// At most one mask is the best.
pub proof fn lemma_best_mask_is_unique(
    payload: Seq<u8>,
    version: int,
    level: EccLevel,
    first: int,
    second: int,
)
    requires
        is_best_mask(payload, version, level, first),
        is_best_mask(payload, version, level, second),
    ensures
        first == second,
        best_mask(payload, version, level) == first,
{
    let chosen = best_mask(payload, version, level);
    assert(is_best_mask(payload, version, level, chosen));
    let of_first = mask_penalty(payload, version, level, first);
    let of_second = mask_penalty(payload, version, level, second);
    let of_chosen = mask_penalty(payload, version, level, chosen);
    assert(of_first <= of_second && of_second <= of_first);
    assert(of_first <= of_chosen && of_chosen <= of_first);
}

/// Determinism: a payload and a level have one encoding, so that encoding
/// them twice gives the same symbol, module for module.
pub proof fn lemma_encoding_is_deterministic(
    payload: Seq<u8>,
    level: EccLevel,
    first: SymbolView,
    second: SymbolView,
)
    requires
        is_encoding(first, payload, level),
        is_encoding(second, payload, level),
    ensures
        first == second,
{
    lemma_smallest_fit_is_unique(payload.len() as int, level, first.version, second.version);
    lemma_best_mask_is_unique(payload, first.version, level, first.mask, second.mask);
}

/// Over capacity: a payload that is longer than the longest payload of the
/// level (1273 bytes at level H) has no encoding.
pub proof fn lemma_over_capacity_has_no_encoding(
    symbol: SymbolView,
    payload: Seq<u8>,
    level: EccLevel,
)
    requires
        payload.len() > largest_capacity(level),
    ensures
        !is_encoding(symbol, payload, level),
{
    if is_encoding(symbol, payload, level) {
        lemma_fit_reaches_largest(payload.len() as int, level, symbol.version);
    }
}

/// Mask optimality: the penalty of an encoded symbol is at most the penalty
/// that any of the eight mask patterns gives for its payload.
pub proof fn lemma_mask_is_optimal(
    symbol: SymbolView,
    payload: Seq<u8>,
    level: EccLevel,
    other: int,
)
    requires
        is_encoding(symbol, payload, level),
        0 <= other < MASKS,
    ensures
        penalty_score(symbol.modules, side_of(symbol.version)) <= penalty_score(
            symbol_modules(payload, symbol.version, level, other),
            side_of(symbol.version),
        ),
{
    assert(mask_penalty(payload, symbol.version, level, symbol.mask) <= mask_penalty(
        payload,
        symbol.version,
        level,
        other,
    ));
}

/// Whether `best` is the place of the lowest of the scores, and of the
/// first of them where several are the lowest.
pub open spec fn is_first_lowest(scores: Seq<u32>, best: int) -> bool {
    &&& 0 <= best < scores.len()
    &&& forall|other: int| 0 <= other < scores.len() ==> scores[best] <= #[trigger] scores[other]
    &&& forall|earlier: int| 0 <= earlier < best ==> scores[best] < #[trigger] scores[earlier]
}

/// The place of the lowest of the scores; where several are the lowest,
/// that of the first.
pub fn first_lowest(scores: &Vec<u32>) -> (best: usize)
    requires
        scores.len() > 0,
    ensures
        is_first_lowest(scores@, best as int),
{
    let mut best: usize = 0;
    let mut at: usize = 1;
    while at < scores.len()
        invariant
            1 <= at <= scores.len(),
            best < at,
            forall|other: int| 0 <= other < at ==> scores@[best as int] <= #[trigger] scores@[other],
            forall|earlier: int|
                0 <= earlier < best ==> scores@[best as int] < #[trigger] scores@[earlier],
        decreases scores.len() - at,
    {
        if scores[at] < scores[best] {
            best = at;
        }
        at += 1;
    }
    best
}

/// Encodes `payload` as one byte segment into the smallest symbol that
/// holds it at `level`, under the mask with the lowest penalty. Fails with
/// `CapacityExceeded` exactly when the payload is longer than version 40
/// holds at that level: 2953 bytes at L, 2331 at M, 1663 at Q, 1273 at H.
pub fn encode(payload: &[u8], level: EccLevel) -> (encoded: Result<Symbol, QrError>)
    ensures
        encoded is Ok <==> payload@.len() <= largest_capacity(level),
        encoded matches Ok(symbol) ==> is_encoding(symbol@, payload@, level),
        encoded matches Err(error) ==> error == QrError::CapacityExceeded,
{
    let version = match select_version(payload.len(), level) {
        Some(version) => version,
        None => {
            return Err(QrError::CapacityExceeded);
        },
    };
    let side = symbol_side(version);
    let data = assemble_data_codewords(payload, version, level);
    let codewords = protect_codewords(&data, version, level);
    let mut candidates: Vec<Vec<bool>> = Vec::new();
    let mut scores: Vec<u32> = Vec::new();
    let mut mask: u8 = 0;
    while mask < MASKS
        invariant
            is_version(version as int),
            side == side_of(version as int),
            mask <= MASKS,
            candidates.len() == mask,
            scores.len() == mask,
            (codewords.0@, codewords.1@) == protected_codewords(
                data_codewords_of(payload@, version as int, level),
                version as int,
                level.rank(),
            ),
            forall|drawn: int|
                0 <= drawn < mask ==> (#[trigger] candidates@[drawn])@ == symbol_modules(
                    payload@,
                    version as int,
                    level,
                    drawn,
                ) && candidates@[drawn].len() == side * side,
            forall|drawn: int|
                0 <= drawn < mask ==> #[trigger] scores@[drawn] == mask_penalty(
                    payload@,
                    version as int,
                    level,
                    drawn,
                ),
        decreases MASKS - mask,
    {
        let candidate = draw_masked(version, level, &codewords.0, &codewords.1, mask);
        let score = penalty(&candidate, side);
        candidates.push(candidate);
        scores.push(score);
        mask += 1;
    }
    let best = first_lowest(&scores);
    let modules = candidates.remove(best);
    proof {
        assert forall|other: int| 0 <= other < MASKS implies mask_penalty(
            payload@,
            version as int,
            level,
            best as int,
        ) <= #[trigger] mask_penalty(payload@, version as int, level, other) by {
            assert(scores@[best as int] <= scores@[other]);
        }
        assert forall|earlier: int| 0 <= earlier < best implies mask_penalty(
            payload@,
            version as int,
            level,
            best as int,
        ) < #[trigger] mask_penalty(payload@, version as int, level, earlier) by {
            assert(scores@[best as int] < scores@[earlier]);
        }
    }
    Ok(Symbol::from_parts(version, level, best as u8, modules))
}

} // verus!
