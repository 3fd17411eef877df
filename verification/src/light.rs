//! Classification of a sector's lighting: its steady brightness band and,
//! for the animated sector types, the description of its light effect.

use crate::band::{band_of, lemma_same_bucket_same_band, light_to_band};
use crate::band::{Contrast, LightLevel, BAND_MAX, BAND_WIDTH};
use crate::phase::{id_to_sync, phase_of, SectorId};
use vstd::prelude::*;

verus! {

/// The code of a sector's special behaviour, as stored with the sector.
pub type SectorType = u16;

/// Light flashes at random intervals.
pub const FLASH: SectorType = 1;

/// Fast strobe, each sector with its own phase.
pub const FAST_STROBE_1: SectorType = 2;

/// Slow strobe, each sector with its own phase.
pub const SLOW_STROBE: SectorType = 3;

/// Fast strobe of a damaging sector, each sector with its own phase.
pub const FAST_STROBE_2: SectorType = 4;

/// Light glows smoothly.
pub const GLOW: SectorType = 8;

/// Slow strobe, all sectors in lockstep.
pub const SLOW_STROBE_SYNC: SectorType = 12;

/// Fast strobe, all sectors in lockstep.
pub const FAST_STROBE_SYNC: SectorType = 13;

/// Light flickers at random intervals.
pub const FLICKER: SectorType = 17;

/// A speed or duration `r` stands for `r / RATE_SCALE`.
pub const RATE_SCALE: u16 = 100;

pub const FLASH_SPEED: u16 = 2000;

pub const FLASH_DURATION: u16 = 6;

pub const FLICKER_SPEED: u16 = 800;

pub const FLICKER_DURATION: u16 = 50;

pub const SLOW_STROBE_SPEED: u16 = 100;

pub const SLOW_STROBE_DURATION: u16 = 85;

pub const FAST_STROBE_SPEED: u16 = 200;

pub const FAST_STROBE_DURATION: u16 = 70;

pub const GLOW_SPEED: u16 = 50;

/// The waveform of a light effect.
#[derive(PartialEq, Eq, Structural, Clone, Copy, Debug)]
pub enum LightEffectKind {
    /// A smooth oscillation; it has no duration and no phase.
    Glow,
    /// The level changes at random intervals around `duration`.
    Random,
    /// A hard switch between the two levels, offset by `sync`.
    Alternate,
}

/// An oscillation between a sector's own band and `alt_level`.
#[derive(PartialEq, Eq, Clone, Copy, Debug)]
pub struct LightEffect {
    /// The band the light alternates with.
    pub alt_level: u8,
    /// In units of `1 / RATE_SCALE`.
    pub speed: u16,
    /// In units of `1 / RATE_SCALE`.
    pub duration: u16,
    /// The phase offset, in units of `1 / SYNC_SCALE`.
    pub sync: u16,
    pub kind: LightEffectKind,
}

/// The lighting of a sector: its steady band and its effect, if it has one.
#[derive(PartialEq, Eq, Clone, Copy, Debug)]
pub struct LightInfo {
    /// The steady brightness band.
    pub level: u8,
    pub effect: Option<LightEffect>,
}

/// The waveform, speed and duration that a sector type asks for; `None` for
/// a sector type without a light effect.
pub open spec fn effect_timing(sector_type: SectorType) -> Option<(LightEffectKind, u16, u16)> {
    if sector_type == FLASH {
        Some((LightEffectKind::Random, FLASH_SPEED, FLASH_DURATION))
    } else if sector_type == FLICKER {
        Some((LightEffectKind::Random, FLICKER_SPEED, FLICKER_DURATION))
    } else if sector_type == SLOW_STROBE || sector_type == SLOW_STROBE_SYNC {
        Some((LightEffectKind::Alternate, SLOW_STROBE_SPEED, SLOW_STROBE_DURATION))
    } else if sector_type == FAST_STROBE_1 || sector_type == FAST_STROBE_2 || sector_type
        == FAST_STROBE_SYNC {
        Some((LightEffectKind::Alternate, FAST_STROBE_SPEED, FAST_STROBE_DURATION))
    } else if sector_type == GLOW {
        Some((LightEffectKind::Glow, GLOW_SPEED, 0))
    } else {
        None
    }
}

/// Whether a sector type asks for a light effect.
pub open spec fn is_effect_type(sector_type: SectorType) -> bool {
    effect_timing(sector_type) is Some
}

/// Whether sectors of this type keep the phase offset zero: the
/// synchronized strobes, which pulse in lockstep, and the glow, which has
/// no phase.
pub open spec fn is_phase_locked(sector_type: SectorType) -> bool {
    sector_type == SLOW_STROBE_SYNC || sector_type == FAST_STROBE_SYNC || sector_type == GLOW
}

/// The phase offset of a sector of an animated type.
pub open spec fn sync_of(sector_type: SectorType, id: SectorId) -> int {
    if is_phase_locked(sector_type) {
        0
    } else {
        phase_of(id as int)
    }
}

/// The lighting of a sector with the raw light value `light`, whose darkest
/// adjoining sector has the raw light value `min_light`.
///
/// The sector has an effect exactly when its type asks for one and the two
/// light values fall into different bands.
pub open spec fn light_of(
    light: LightLevel,
    min_light: LightLevel,
    sector_type: SectorType,
    id: SectorId,
    contrast: Option<Contrast>,
) -> LightInfo {
    let level = band_of(light as int, contrast);
    let alt_level = band_of(min_light as int, contrast);
    LightInfo {
        level: level as u8,
        effect: match effect_timing(sector_type) {
            Some((kind, speed, duration)) if alt_level != level => Some(
                LightEffect {
                    alt_level: alt_level as u8,
                    speed,
                    duration,
                    sync: sync_of(sector_type, id) as u16,
                    kind,
                },
            ),
            _ => None,
        },
    }
}

impl LightEffect {
    /// The band is in range, and waveform, speed and duration are those of
    /// one of the animated sector types.
    pub open spec fn well_formed(self) -> bool {
        &&& self.alt_level <= BAND_MAX
        &&& match self.kind {
            LightEffectKind::Random => {
                ||| self.speed == FLASH_SPEED && self.duration == FLASH_DURATION
                ||| self.speed == FLICKER_SPEED && self.duration == FLICKER_DURATION
            },
            LightEffectKind::Alternate => {
                ||| self.speed == SLOW_STROBE_SPEED && self.duration == SLOW_STROBE_DURATION
                ||| self.speed == FAST_STROBE_SPEED && self.duration == FAST_STROBE_DURATION
            },
            LightEffectKind::Glow => {
                &&& self.speed == GLOW_SPEED
                &&& self.duration == 0
                &&& self.sync == 0
            },
        }
    }
}

impl LightInfo {
    /// The band is in range, and an effect is well formed and alternates
    /// with a band other than the steady one.
    pub open spec fn well_formed(self) -> bool {
        &&& self.level <= BAND_MAX
        &&& self.effect matches Some(effect) ==> {
            &&& effect.well_formed()
            &&& effect.alt_level != self.level
        }
    }
}

/// Computes the lighting of a sector from its raw light value, the smallest
/// raw light value among the sectors adjoining it, its type and its
/// identifier. Both light values are biased by `contrast` before they are
/// quantized.
pub fn new_light(
    light: LightLevel,
    min_light: LightLevel,
    sector_type: SectorType,
    id: SectorId,
    contrast: Option<Contrast>,
) -> (info: LightInfo)
    ensures
        info == light_of(light, min_light, sector_type, id, contrast),
        info.well_formed(),
        info.effect is Some <==> is_effect_type(sector_type) && band_of(min_light as int, contrast)
            != band_of(light as int, contrast),
{
    let base_level: u8 = light_to_band(light, contrast);
    let animated: bool = sector_type == FLASH || sector_type == FAST_STROBE_1 || sector_type
        == FAST_STROBE_2 || sector_type == FAST_STROBE_SYNC || sector_type == SLOW_STROBE
        || sector_type == SLOW_STROBE_SYNC || sector_type == GLOW || sector_type == FLICKER;
    if !animated {
        return LightInfo { level: base_level, effect: None };
    }
    let alt_level: u8 = light_to_band(min_light, contrast);
    if alt_level == base_level {
        return LightInfo { level: base_level, effect: None };
    }
    let sync: u16 = if sector_type == SLOW_STROBE_SYNC || sector_type == FAST_STROBE_SYNC
        || sector_type == GLOW {
        0
    } else {
        id_to_sync(id)
    };
    let (kind, speed, duration): (LightEffectKind, u16, u16) = if sector_type == FLASH {
        (LightEffectKind::Random, FLASH_SPEED, FLASH_DURATION)
    } else if sector_type == FLICKER {
        (LightEffectKind::Random, FLICKER_SPEED, FLICKER_DURATION)
    } else if sector_type == SLOW_STROBE || sector_type == SLOW_STROBE_SYNC {
        (LightEffectKind::Alternate, SLOW_STROBE_SPEED, SLOW_STROBE_DURATION)
    } else if sector_type == FAST_STROBE_1 || sector_type == FAST_STROBE_2 || sector_type
        == FAST_STROBE_SYNC {
        (LightEffectKind::Alternate, FAST_STROBE_SPEED, FAST_STROBE_DURATION)
    } else {
        assert(sector_type == GLOW);
        (LightEffectKind::Glow, GLOW_SPEED, 0)
    };
    LightInfo {
        level: base_level,
        effect: Some(LightEffect { alt_level, speed, duration, sync, kind }),
    }
}

/// The animated sector types are exactly the codes 1, 2, 3, 4, 8, 12, 13
/// and 17.
pub proof fn lemma_effect_types(sector_type: SectorType)
    ensures
        is_effect_type(sector_type) <==> {
            ||| sector_type == 1
            ||| sector_type == 2
            ||| sector_type == 3
            ||| sector_type == 4
            ||| sector_type == 8
            ||| sector_type == 12
            ||| sector_type == 13
            ||| sector_type == 17
        },
{
}

/// A sector whose type is none of the animated ones has no effect, whatever
/// its light values, identifier and contrast.
pub proof fn lemma_plain_sector_has_no_effect(
    light: LightLevel,
    min_light: LightLevel,
    sector_type: SectorType,
    id: SectorId,
    contrast: Option<Contrast>,
)
    requires
        sector_type != 1,
        sector_type != 2,
        sector_type != 3,
        sector_type != 4,
        sector_type != 8,
        sector_type != 12,
        sector_type != 13,
        sector_type != 17,
    ensures
        light_of(light, min_light, sector_type, id, contrast).effect is None,
        light_of(light, min_light, sector_type, id, contrast).level == band_of(
            light as int,
            contrast,
        ),
{
}

/// A sector whose light value quantizes to the same band as that of its
/// darkest neighbour has no effect, even if its type is an animated one.
pub proof fn lemma_equal_bands_have_no_effect(
    light: LightLevel,
    min_light: LightLevel,
    sector_type: SectorType,
    id: SectorId,
    contrast: Option<Contrast>,
)
    requires
        band_of(light as int, contrast) == band_of(min_light as int, contrast),
    ensures
        light_of(light, min_light, sector_type, id, contrast).effect is None,
{
}

/// A sector whose raw light value lies in the same bucket of `BAND_WIDTH`
/// values as that of its darkest neighbour has no effect, under every
/// contrast and even if its type is an animated one.
pub proof fn lemma_same_bucket_has_no_effect(
    light: LightLevel,
    min_light: LightLevel,
    sector_type: SectorType,
    id: SectorId,
    contrast: Option<Contrast>,
)
    requires
        light / BAND_WIDTH == min_light / BAND_WIDTH,
    ensures
        light_of(light, min_light, sector_type, id, contrast).effect is None,
{
    lemma_same_bucket_same_band(light, min_light, contrast);
}

/// An animated sector whose light value and darkest neighbour fall into
/// different bands has an effect: it alternates with the neighbour's band,
/// with the timing of its type, and its phase offset is zero for the
/// phase-locked types and derived from its identifier for the others.
pub proof fn lemma_animated_sector_has_effect(
    light: LightLevel,
    min_light: LightLevel,
    sector_type: SectorType,
    id: SectorId,
    contrast: Option<Contrast>,
)
    requires
        is_effect_type(sector_type),
        band_of(light as int, contrast) != band_of(min_light as int, contrast),
    ensures
        light_of(light, min_light, sector_type, id, contrast).effect matches Some(effect) && {
            &&& effect.alt_level == band_of(min_light as int, contrast)
            &&& effect_timing(sector_type) == Some((effect.kind, effect.speed, effect.duration))
            &&& is_phase_locked(sector_type) ==> effect.sync == 0
            &&& !is_phase_locked(sector_type) ==> effect.sync == phase_of(id as int)
        },
{
}

/// Every classification is well formed.
pub proof fn lemma_light_well_formed(
    light: LightLevel,
    min_light: LightLevel,
    sector_type: SectorType,
    id: SectorId,
    contrast: Option<Contrast>,
)
    ensures
        light_of(light, min_light, sector_type, id, contrast).well_formed(),
{
}

} // verus!
