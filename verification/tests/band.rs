use sector_light::band::{light_to_band, Contrast};
use sector_light::band::{BAND_MAX, BAND_WIDTH, CONTRAST_STEP, LIGHT_MAX};

fn brightness(band: u8) -> f32 {
    band as f32 / BAND_MAX as f32
}

#[test]
fn constants_have_their_documented_values() {
    assert_eq!(LIGHT_MAX, 255);
    assert_eq!(CONTRAST_STEP, 16);
    assert_eq!(BAND_WIDTH, 8);
    assert_eq!(BAND_MAX, 31);
}

#[test]
fn brightness_stays_within_unit_range() {
    for level in 0..=LIGHT_MAX {
        for contrast in [None, Some(Contrast::Darken), Some(Contrast::Brighten)] {
            let band = light_to_band(level, contrast);
            assert!(band <= BAND_MAX);
            let value = brightness(band);
            assert!((0.0..=1.0).contains(&value));
        }
    }
    assert_eq!(brightness(light_to_band(0, None)), 0.0);
    assert_eq!(brightness(light_to_band(LIGHT_MAX, None)), 1.0);
}

#[test]
fn darken_is_clamped_at_zero() {
    assert_eq!(light_to_band(5, Some(Contrast::Darken)), light_to_band(0, None));
    assert_eq!(light_to_band(5, Some(Contrast::Darken)), 0);
    assert_eq!(light_to_band(0, Some(Contrast::Darken)), 0);
    assert_eq!(light_to_band(16, Some(Contrast::Darken)), 0);
    for level in 0..=CONTRAST_STEP {
        assert_eq!(light_to_band(level, Some(Contrast::Darken)), light_to_band(0, None));
    }
}

#[test]
fn brighten_is_clamped_at_max() {
    assert_eq!(
        light_to_band(LIGHT_MAX, Some(Contrast::Brighten)),
        light_to_band(LIGHT_MAX, None)
    );
    assert_eq!(light_to_band(255, Some(Contrast::Brighten)), 31);
    assert_eq!(light_to_band(239, Some(Contrast::Brighten)), 31);
    for level in (LIGHT_MAX - CONTRAST_STEP)..=LIGHT_MAX {
        assert_eq!(
            light_to_band(level, Some(Contrast::Brighten)),
            light_to_band(LIGHT_MAX, None)
        );
    }
}

#[test]
fn levels_of_one_bucket_share_a_band() {
    for a in 0..=LIGHT_MAX {
        for b in 0..=LIGHT_MAX {
            if a / BAND_WIDTH == b / BAND_WIDTH {
                for contrast in [None, Some(Contrast::Darken), Some(Contrast::Brighten)] {
                    assert_eq!(light_to_band(a, contrast), light_to_band(b, contrast));
                }
            }
        }
    }
    assert_eq!(light_to_band(160, None), light_to_band(167, None));
    assert_ne!(light_to_band(167, None), light_to_band(168, None));
}

#[test]
fn band_without_contrast_drops_the_low_three_bits() {
    assert_eq!(light_to_band(0, None), 0);
    assert_eq!(light_to_band(7, None), 0);
    assert_eq!(light_to_band(8, None), 1);
    assert_eq!(light_to_band(32, None), 4);
    assert_eq!(light_to_band(160, None), 20);
    assert_eq!(light_to_band(247, None), 30);
    assert_eq!(light_to_band(248, None), 31);
    assert_eq!(light_to_band(255, None), 31);
    for level in 0..=LIGHT_MAX {
        assert_eq!(light_to_band(level, None), level >> 3);
    }
}

#[test]
fn darken_subtracts_before_quantizing() {
    assert_eq!(light_to_band(17, Some(Contrast::Darken)), 0);
    assert_eq!(light_to_band(23, Some(Contrast::Darken)), 0);
    assert_eq!(light_to_band(24, Some(Contrast::Darken)), 1);
    assert_eq!(light_to_band(160, Some(Contrast::Darken)), 18);
    assert_eq!(light_to_band(255, Some(Contrast::Darken)), 29);
}

#[test]
fn brighten_adds_before_quantizing() {
    assert_eq!(light_to_band(0, Some(Contrast::Brighten)), 2);
    assert_eq!(light_to_band(160, Some(Contrast::Brighten)), 22);
    assert_eq!(light_to_band(231, Some(Contrast::Brighten)), 30);
    assert_eq!(light_to_band(232, Some(Contrast::Brighten)), 31);
    assert_eq!(light_to_band(238, Some(Contrast::Brighten)), 31);
}

#[test]
fn contrast_moves_a_level_by_two_bands() {
    for level in 0..=LIGHT_MAX {
        let plain = light_to_band(level, None);
        assert_eq!(light_to_band(level, Some(Contrast::Darken)), plain.saturating_sub(2));
        assert_eq!(
            light_to_band(level, Some(Contrast::Brighten)),
            (plain + 2).min(BAND_MAX)
        );
    }
}

#[test]
fn band_as_a_fraction_of_full_brightness() {
    assert!((brightness(light_to_band(160, None)) - 0.645).abs() < 0.001);
    assert!((brightness(light_to_band(32, None)) - 0.129).abs() < 0.001);
    assert_eq!(brightness(light_to_band(160, None)), 20.0 / 31.0);
}
