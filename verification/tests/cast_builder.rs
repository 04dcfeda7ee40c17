use cevio::{
    Alpha, Cast, CastBuilder, CevioConfig, CevioConfigBuilder, Speed, Tone, ToneScale,
    VoicePreset, Volume,
};
use std::time::Duration;

#[test]
fn empty_builder_builds_empty_cast() {
    let cast = CastBuilder::default().build().unwrap();
    assert_eq!(cast, Cast::default());
    assert_eq!(cast.cast, None);
    assert_eq!(cast.volume, None);
    assert_eq!(cast.speed, None);
    assert_eq!(cast.tone, None);
    assert_eq!(cast.tone_scale, None);
    assert_eq!(cast.alpha, None);
}

#[test]
fn setters_fill_their_own_field() {
    let cast = CastBuilder::default()
        .cast("X")
        .volume(Volume::new(90).unwrap())
        .build()
        .unwrap();
    assert_eq!(cast.cast.as_deref(), Some("X"));
    assert_eq!(cast.volume, Volume::new(90));
    assert_eq!(cast.speed, None);
    assert_eq!(cast.tone, None);
    assert_eq!(cast.tone_scale, None);
    assert_eq!(cast.alpha, None);
}

#[test]
fn every_setter_reaches_the_cast() {
    let cast = CastBuilder::default()
        .alpha(Alpha::new(5).unwrap())
        .tone_scale(ToneScale::new(4).unwrap())
        .tone(Tone::new(3).unwrap())
        .speed(Speed::new(2).unwrap())
        .volume(Volume::new(1).unwrap())
        .cast("voice")
        .build()
        .unwrap();
    assert_eq!(
        cast,
        Cast {
            cast: Some("voice".to_string()),
            volume: Volume::new(1),
            speed: Speed::new(2),
            tone: Tone::new(3),
            tone_scale: ToneScale::new(4),
            alpha: Alpha::new(5),
        }
    );
}

#[test]
fn later_value_wins() {
    let cast = CastBuilder::default()
        .volume(Volume::new(10).unwrap())
        .volume(Volume::new(20).unwrap())
        .build()
        .unwrap();
    assert_eq!(cast.volume, Volume::new(20));
}

#[test]
fn with_defaults_sets_the_middle_of_every_range() {
    let cast = CastBuilder::default().with_defaults().build().unwrap();
    assert_eq!(cast.cast, None);
    assert_eq!(cast.volume, Volume::new(50));
    assert_eq!(cast.speed, Speed::new(50));
    assert_eq!(cast.tone, Tone::new(50));
    assert_eq!(cast.tone_scale, ToneScale::new(50));
    assert_eq!(cast.alpha, Alpha::new(50));
}

#[test]
fn from_preset_copies_the_preset() {
    let cast = CastBuilder::default()
        .cast("X")
        .from_preset(VoicePreset::Energetic)
        .build()
        .unwrap();
    assert_eq!(cast.cast.as_deref(), Some("X"));
    assert_eq!(cast.volume, Volume::new(70));
    assert_eq!(cast.speed, Speed::new(60));
    assert_eq!(cast.tone, Tone::new(60));
    assert_eq!(cast.tone_scale, ToneScale::new(60));
    assert_eq!(cast.alpha, Alpha::new(50));
}

#[test]
fn preset_overwrites_levels_set_before() {
    let cast = CastBuilder::default()
        .speed(Speed::new(1).unwrap())
        .from_preset(VoicePreset::Slow)
        .build()
        .unwrap();
    assert_eq!(cast.speed, Speed::new(25));
}

#[test]
fn builder_can_be_built_twice() {
    let mut builder = CastBuilder::default();
    builder.cast("X");
    let first = builder.build().unwrap();
    builder.volume(Volume::new(7).unwrap());
    let second = builder.build().unwrap();
    assert_eq!(first.volume, None);
    assert_eq!(second.volume, Volume::new(7));
    assert_eq!(second.cast.as_deref(), Some("X"));
}

#[test]
fn empty_config_asks_for_nothing() {
    let config: CevioConfig = CevioConfigBuilder::default().build().unwrap();
    assert!(!config.start_host);
    assert!(!config.no_wait);
    assert_eq!(config.initial_cast, None);
    assert_eq!(config.initial_volume, None);
    assert_eq!(config.initial_speed, None);
    assert_eq!(config.initial_tone, None);
    assert_eq!(config.initial_tone_scale, None);
    assert_eq!(config.initial_alpha, None);
    assert_eq!(config.operation_timeout, None);
}

#[test]
fn config_setters_fill_their_own_field() {
    let config = CevioConfigBuilder::default()
        .start_host(true)
        .no_wait(true)
        .initial_cast("X")
        .initial_volume(Volume::new(80).unwrap())
        .initial_speed(Speed::new(60).unwrap())
        .initial_tone(Tone::new(40).unwrap())
        .initial_tone_scale(ToneScale::new(30).unwrap())
        .initial_alpha(Alpha::new(20).unwrap())
        .operation_timeout(Duration::from_secs(5))
        .build()
        .unwrap();
    assert!(config.start_host);
    assert!(config.no_wait);
    assert_eq!(config.initial_cast.as_deref(), Some("X"));
    assert_eq!(config.initial_volume, Volume::new(80));
    assert_eq!(config.initial_speed, Speed::new(60));
    assert_eq!(config.initial_tone, Tone::new(40));
    assert_eq!(config.initial_tone_scale, ToneScale::new(30));
    assert_eq!(config.initial_alpha, Alpha::new(20));
    assert_eq!(config.operation_timeout, Some(Duration::from_secs(5)));
}
