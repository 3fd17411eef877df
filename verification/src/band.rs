//! Quantization of raw light values into brightness bands.

use vstd::prelude::*;

verus! {

/// A raw light value as stored with a sector.
pub type LightLevel = u8;

/// The largest raw light value.
pub const LIGHT_MAX: LightLevel = 255;

/// How far a contrast moves a raw light value before it is quantized.
pub const CONTRAST_STEP: LightLevel = 16;

/// The number of raw light values that share one brightness band.
pub const BAND_WIDTH: LightLevel = 8;

/// The brightest band. A band `b` stands for the brightness `b / BAND_MAX`.
pub const BAND_MAX: u8 = 31;

/// A directional bias applied to a raw light value before quantization.
#[derive(PartialEq, Eq, Structural, Clone, Copy, Debug)]
pub enum Contrast {
    Darken,
    Brighten,
}

/// The raw light value after the contrast has been applied: moved down or up
/// by `CONTRAST_STEP` and held within `0 ..= LIGHT_MAX`.
pub open spec fn with_contrast(level: int, contrast: Option<Contrast>) -> int {
    match contrast {
        Some(Contrast::Darken) => if level - CONTRAST_STEP < 0 {
            0
        } else {
            level - CONTRAST_STEP
        },
        Some(Contrast::Brighten) => if level + CONTRAST_STEP > LIGHT_MAX {
            LIGHT_MAX as int
        } else {
            level + CONTRAST_STEP
        },
        None => level,
    }
}

/// The brightness band of a raw light value under a contrast.
pub open spec fn band_of(level: int, contrast: Option<Contrast>) -> int {
    with_contrast(level, contrast) / (BAND_WIDTH as int)
}

/// Quantizes a raw light value, biased by `contrast`, into its brightness
/// band. The band `b` stands for the brightness `b / BAND_MAX`, which lies
/// between 0 and 1.
pub fn light_to_band(level: LightLevel, contrast: Option<Contrast>) -> (band: u8)
    ensures
        band == band_of(level as int, contrast),
        band <= BAND_MAX,
{
    let adjusted: LightLevel = match contrast {
        Some(Contrast::Darken) => if level <= CONTRAST_STEP {
            0
        } else {
            level - CONTRAST_STEP
        },
        Some(Contrast::Brighten) => if level >= LIGHT_MAX - CONTRAST_STEP {
            LIGHT_MAX
        } else {
            level + CONTRAST_STEP
        },
        None => level,
    };
    assert(adjusted >> 3 == adjusted / 8) by (bit_vector);
    adjusted >> 3
}

/// Every band lies between 0 and `BAND_MAX`, for every raw light value and
/// every contrast: the brightness it stands for lies between 0 and 1.
pub proof fn lemma_band_in_range(level: LightLevel, contrast: Option<Contrast>)
    ensures
        0 <= band_of(level as int, contrast) <= BAND_MAX,
{
}

/// A contrast moves a raw light value by exactly two bands, and the result
/// is held within `0 ..= BAND_MAX`.
pub proof fn lemma_contrast_moves_two_bands(level: LightLevel)
    ensures
        band_of(level as int, None) == level / BAND_WIDTH,
        band_of(level as int, Some(Contrast::Darken)) == if level / BAND_WIDTH < 2 {
            0
        } else {
            level / BAND_WIDTH - 2
        },
        band_of(level as int, Some(Contrast::Brighten)) == if level / BAND_WIDTH + 2 > BAND_MAX {
            BAND_MAX as int
        } else {
            level / BAND_WIDTH + 2
        },
{
}

/// Darkening is held at zero: a raw light value of at most `CONTRAST_STEP`
/// darkens to the band of the raw value 0.
pub proof fn lemma_darken_clamps_at_zero(level: LightLevel)
    requires
        level <= CONTRAST_STEP,
    ensures
        band_of(level as int, Some(Contrast::Darken)) == band_of(0, None),
{
}

/// Brightening is held at the maximum: a raw light value within
/// `CONTRAST_STEP` of `LIGHT_MAX` brightens to the band of `LIGHT_MAX`.
pub proof fn lemma_brighten_clamps_at_max(level: LightLevel)
    requires
        level >= LIGHT_MAX - CONTRAST_STEP,
    ensures
        band_of(level as int, Some(Contrast::Brighten)) == band_of(LIGHT_MAX as int, None),
{
}

/// Two raw light values of the same bucket of `BAND_WIDTH` values quantize
/// to the same band, under every contrast.
pub proof fn lemma_same_bucket_same_band(a: LightLevel, b: LightLevel, contrast: Option<Contrast>)
    requires
        a / BAND_WIDTH == b / BAND_WIDTH,
    ensures
        band_of(a as int, contrast) == band_of(b as int, contrast),
{
    lemma_contrast_moves_two_bands(a);
    lemma_contrast_moves_two_bands(b);
}

} // verus!
