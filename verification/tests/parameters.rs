use bounded_integer::BoundedU8;
use cevio::{is_level, Alpha, Speed, Tone, ToneScale, VoicePreset, Volume};

fn levels(preset: VoicePreset) -> (u8, u8, u8, u8, u8) {
    let (volume, speed, tone, tone_scale, alpha) = preset.to_parameters();
    (volume.get(), speed.get(), tone.get(), tone_scale.get(), alpha.get())
}

#[test]
fn volume_accepts_exactly_zero_to_hundred() {
    for raw in 0..=u8::MAX {
        match Volume::new(raw) {
            Some(volume) => {
                assert!(raw <= 100);
                assert_eq!(volume.get(), raw);
            }
            None => assert!(raw > 100),
        }
    }
}

#[test]
fn speed_accepts_exactly_zero_to_hundred() {
    for raw in 0..=u8::MAX {
        assert_eq!(Speed::new(raw).map(Speed::get), if raw <= 100 { Some(raw) } else { None });
    }
}

#[test]
fn tone_accepts_exactly_zero_to_hundred() {
    for raw in 0..=u8::MAX {
        assert_eq!(Tone::new(raw).map(Tone::get), if raw <= 100 { Some(raw) } else { None });
    }
}

#[test]
fn tone_scale_accepts_exactly_zero_to_hundred() {
    for raw in 0..=u8::MAX {
        assert_eq!(
            ToneScale::new(raw).map(ToneScale::get),
            if raw <= 100 { Some(raw) } else { None }
        );
    }
}

#[test]
fn alpha_accepts_exactly_zero_to_hundred() {
    for raw in 0..=u8::MAX {
        assert_eq!(Alpha::new(raw).map(Alpha::get), if raw <= 100 { Some(raw) } else { None });
    }
}

#[test]
fn parameters_agree_with_bounded_integer() {
    for raw in 0..=u8::MAX {
        let reference = BoundedU8::<0, 100>::new(raw).map(|bounded| bounded.get());
        assert_eq!(Volume::new(raw).map(Volume::get), reference);
        assert_eq!(Speed::new(raw).map(Speed::get), reference);
        assert_eq!(Tone::new(raw).map(Tone::get), reference);
        assert_eq!(ToneScale::new(raw).map(ToneScale::get), reference);
        assert_eq!(Alpha::new(raw).map(Alpha::get), reference);
    }
}

#[test]
fn range_edges() {
    assert_eq!(Volume::new(0).unwrap().get(), 0);
    assert_eq!(Volume::new(100).unwrap().get(), 100);
    assert!(Volume::new(101).is_none());
    assert!(Alpha::new(255).is_none());
}

#[test]
fn parameters_compare_by_level() {
    assert_eq!(Tone::new(40), Tone::new(40));
    assert_ne!(Tone::new(40), Tone::new(41));
    assert!(Speed::new(10).unwrap() < Speed::new(11).unwrap());
}

#[test]
fn reported_levels_are_tested_against_the_range() {
    assert!(is_level(0));
    assert!(is_level(100));
    assert!(!is_level(101));
    assert!(!is_level(256));
    assert!(!is_level(u32::MAX));
}

#[test]
fn preset_energetic_is_literal() {
    assert_eq!(levels(VoicePreset::Energetic), (70, 60, 60, 60, 50));
    assert_eq!(levels(VoicePreset::Energetic), levels(VoicePreset::Energetic));
}

#[test]
fn every_preset_has_its_table() {
    assert_eq!(levels(VoicePreset::Normal), (50, 50, 50, 50, 50));
    assert_eq!(levels(VoicePreset::Fast), (50, 75, 50, 50, 50));
    assert_eq!(levels(VoicePreset::Slow), (50, 25, 50, 50, 50));
    assert_eq!(levels(VoicePreset::HighPitch), (50, 50, 75, 50, 50));
    assert_eq!(levels(VoicePreset::LowPitch), (50, 50, 25, 50, 50));
    assert_eq!(levels(VoicePreset::Calm), (40, 40, 40, 40, 50));
}
