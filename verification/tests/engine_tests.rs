//! Tests of the engine state machine, the callback plan, and the
//! device-format negotiation.

use contexture_core::audio::decoder;
use contexture_core::audio::engine::{
    calculate_format_compatibility_score, find_compatible_config, get_best_format,
    negotiate_format, supported_formats_from, supports_format, AudioEvent, CallbackAction,
    DeviceConfigRange, EngineState, PlaybackState, SourceKind, UNIT_VOLUME_BITS,
};
use contexture_core::audio::format::{AudioFormat, SampleFormat};

#[test]
fn test_initial_state() {
    let engine = EngineState::new();
    assert_eq!(engine.state, PlaybackState::Stopped);
    assert_eq!(engine.volume_bits, 1.0f32.to_bits());
    assert_eq!(engine.volume_bits, UNIT_VOLUME_BITS);
    assert_eq!(engine.position, 0);
    assert_eq!(engine.duration, None);
    assert!(engine.format.is_none());
    assert!(!engine.is_muted);
    assert_eq!(engine.source, SourceKind::NoSource);
}

#[test]
fn test_play_pause_stop_transitions() {
    let mut engine = EngineState::new();

    let event = engine.apply_play();
    assert_eq!(engine.state, PlaybackState::Playing);
    assert!(matches!(
        event,
        Some(AudioEvent::StateChanged(PlaybackState::Playing))
    ));

    // Play is idempotent: no second event.
    assert!(engine.apply_play().is_none());

    let event = engine.apply_pause();
    assert_eq!(engine.state, PlaybackState::Paused);
    assert!(matches!(
        event,
        Some(AudioEvent::StateChanged(PlaybackState::Paused))
    ));

    // Pause outside of playing is a no-op.
    assert!(engine.apply_pause().is_none());
    assert_eq!(engine.state, PlaybackState::Paused);

    let event = engine.apply_stop();
    assert_eq!(engine.state, PlaybackState::Stopped);
    assert_eq!(engine.position, 0);
    assert!(matches!(
        event,
        Some(AudioEvent::StateChanged(PlaybackState::Stopped))
    ));

    // Stop is idempotent and silent when already stopped.
    assert!(engine.apply_stop().is_none());
}

#[test]
fn test_stop_resets_position() {
    let mut engine = EngineState::new();
    engine.apply_seek(1000);
    assert_eq!(engine.position, 1000);
    engine.apply_play();
    engine.apply_stop();
    assert_eq!(engine.position, 0);
}

#[test]
fn test_seek_events() {
    let mut engine = EngineState::new();

    let event = engine.apply_seek(1000);
    assert_eq!(engine.position, 1000);
    assert!(matches!(event, Some(AudioEvent::PositionChanged(1000))));

    // Seeking to the same position emits nothing.
    assert!(engine.apply_seek(1000).is_none());

    let event = engine.apply_seek(0);
    assert!(matches!(event, Some(AudioEvent::PositionChanged(0))));

    engine.apply_seek(u64::MAX);
    assert_eq!(engine.position, u64::MAX);
}

#[test]
fn test_mute_unmute_preserves_volume() {
    let mut engine = EngineState::new();
    let volume = 0.75f32.to_bits();
    engine.apply_set_volume(volume);
    assert_eq!(engine.volume_bits, volume);
    assert!(!engine.is_muted);

    engine.apply_mute();
    assert!(engine.is_muted);
    assert_eq!(engine.volume_bits, 0);

    // Mute twice: still muted, preserved volume intact.
    engine.apply_mute();
    assert!(engine.is_muted);
    assert_eq!(engine.volume_bits, 0);

    engine.apply_unmute();
    assert!(!engine.is_muted);
    assert_eq!(engine.volume_bits, volume);

    // Unmute twice: unchanged.
    engine.apply_unmute();
    assert!(!engine.is_muted);
    assert_eq!(engine.volume_bits, volume);
}

#[test]
fn test_set_volume_clears_mute() {
    let mut engine = EngineState::new();
    engine.apply_set_volume(0.5f32.to_bits());
    engine.apply_mute();
    assert!(engine.is_muted);

    engine.apply_set_volume(0.8f32.to_bits());
    assert!(!engine.is_muted);
    assert_eq!(engine.volume_bits, 0.8f32.to_bits());
}

#[test]
fn test_validate_state_rejects_error() {
    let mut engine = EngineState::new();
    assert!(engine.validate_state().is_ok());

    let event = engine.apply_failure(String::from("stream failed"));
    assert_eq!(engine.state, PlaybackState::Error);
    assert!(matches!(event, AudioEvent::Error(_)));
    assert!(engine.validate_state().is_err());

    let event = engine.apply_recovered();
    assert_eq!(engine.state, PlaybackState::Stopped);
    assert!(matches!(
        event,
        AudioEvent::StateChanged(PlaybackState::Stopped)
    ));
    assert!(engine.validate_state().is_ok());
}

#[test]
fn test_load_attaches_one_source() {
    let mut engine = EngineState::new();
    engine.apply_seek(500);

    let format = AudioFormat::new(44100, 2, SampleFormat::F64);
    let event = engine.apply_load(format, Some(44100 * 60), SourceKind::RingBuffer);
    assert_eq!(engine.state, PlaybackState::Stopped);
    assert_eq!(engine.position, 0);
    assert_eq!(engine.duration, Some(44100 * 60));
    assert_eq!(engine.source, SourceKind::RingBuffer);
    assert!(engine.format.is_some());
    assert!(matches!(
        event,
        AudioEvent::StateChanged(PlaybackState::Stopped)
    ));

    // Loading a static buffer replaces the ring source.
    let format = AudioFormat::new(48000, 2, SampleFormat::F64);
    engine.apply_load(format, None, SourceKind::StaticBuffer);
    assert_eq!(engine.source, SourceKind::StaticBuffer);
}

#[test]
fn test_callback_plan_states() {
    let mut engine = EngineState::new();

    // Stopped: silence, whatever the source.
    assert_eq!(engine.callback_plan(512), CallbackAction::FillSilence);

    // Playing with no source: silence.
    engine.apply_play();
    assert_eq!(engine.callback_plan(512), CallbackAction::FillSilence);

    // Playing from a ring buffer: read whole frames' worth of samples.
    let format = AudioFormat::new(44100, 2, SampleFormat::F64);
    engine.apply_load(format, None, SourceKind::RingBuffer);
    engine.apply_play();
    assert_eq!(
        engine.callback_plan(512),
        CallbackAction::ReadRing {
            samples_needed: 512
        }
    );
    // An odd buffer length is rounded down to whole frames.
    assert_eq!(
        engine.callback_plan(511),
        CallbackAction::ReadRing {
            samples_needed: 510
        }
    );

    // Playing from a static buffer: copy from the current position.
    let format = AudioFormat::new(44100, 2, SampleFormat::F64);
    engine.apply_load(format, Some(1000), SourceKind::StaticBuffer);
    engine.apply_play();
    engine.apply_seek(10);
    assert_eq!(
        engine.callback_plan(512),
        CallbackAction::CopyStatic {
            start_frame: 10,
            samples_needed: 512
        }
    );
}

#[test]
fn test_advance_position_and_track_end() {
    let mut engine = EngineState::new();
    let format = AudioFormat::new(44100, 2, SampleFormat::F64);
    engine.apply_load(format, Some(1000), SourceKind::StaticBuffer);
    engine.apply_play();

    let ended = engine.advance_position(600);
    assert!(!ended);
    assert_eq!(engine.position, 600);
    assert_eq!(engine.state, PlaybackState::Playing);

    // Reaching the duration stops the engine and rewinds.
    let ended = engine.advance_position(400);
    assert!(ended);
    assert_eq!(engine.position, 0);
    assert_eq!(engine.state, PlaybackState::Stopped);
}

#[test]
fn test_advance_position_ring_source_never_ends() {
    let mut engine = EngineState::new();
    let format = AudioFormat::new(44100, 2, SampleFormat::F64);
    engine.apply_load(format, Some(1000), SourceKind::RingBuffer);
    engine.apply_play();

    let ended = engine.advance_position(5000);
    assert!(!ended);
    assert_eq!(engine.position, 5000);
    assert_eq!(engine.state, PlaybackState::Playing);
}

#[test]
fn test_compatibility_scoring() {
    let target = AudioFormat::new(44100, 2, SampleFormat::F32);

    // Rate covered (100), channels match (100), hi-res bonus for an F32
    // target with a wide range (25 + 25), all four common rates (40),
    // no boundary bonus.
    let wide = DeviceConfigRange {
        min_sample_rate: 8000,
        max_sample_rate: 192000,
        channels: 2,
    };
    assert_eq!(calculate_format_compatibility_score(&wide, &target), 290);

    // Exact boundary match adds 50; only one common rate covered.
    let narrow = DeviceConfigRange {
        min_sample_rate: 44100,
        max_sample_rate: 44100,
        channels: 2,
    };
    assert_eq!(calculate_format_compatibility_score(&narrow, &target), 260);

    // Channel mismatch loses the channel bonus.
    let mono = DeviceConfigRange {
        min_sample_rate: 44100,
        max_sample_rate: 44100,
        channels: 1,
    };
    assert_eq!(calculate_format_compatibility_score(&mono, &target), 160);

    // A 16-bit CD target is not high-resolution: no hi-res bonus.
    let cd_target = AudioFormat::new(44100, 2, SampleFormat::I16);
    assert_eq!(calculate_format_compatibility_score(&wide, &cd_target), 240);
}

#[test]
fn test_find_compatible_config_picks_best() {
    let target = AudioFormat::new(44100, 2, SampleFormat::F32);
    let configs = vec![
        DeviceConfigRange {
            min_sample_rate: 8000,
            max_sample_rate: 48000,
            channels: 1,
        },
        DeviceConfigRange {
            min_sample_rate: 44100,
            max_sample_rate: 44100,
            channels: 2,
        },
        DeviceConfigRange {
            min_sample_rate: 8000,
            max_sample_rate: 192000,
            channels: 2,
        },
    ];

    // Index 2 scores 290 against index 1's 260; index 0 has the wrong
    // channel count.
    assert_eq!(find_compatible_config(&configs, &target), Some(2));

    // Without any compatible configuration there is no pick.
    let surround = AudioFormat::new(44100, 6, SampleFormat::F32);
    assert_eq!(find_compatible_config(&configs, &surround), None);
}

#[test]
fn test_negotiate_format() {
    let configs = vec![DeviceConfigRange {
        min_sample_rate: 8000,
        max_sample_rate: 48000,
        channels: 2,
    }];
    let preferred = AudioFormat::new(44100, 2, SampleFormat::F32);
    let negotiated = negotiate_format(&configs, &preferred).unwrap();
    assert_eq!(negotiated.sample_rate, 44100);
    assert_eq!(negotiated.channels, 2);

    let unsupported = AudioFormat::new(96000, 2, SampleFormat::F32);
    assert!(negotiate_format(&configs, &unsupported).is_err());
    assert!(supports_format(&configs, &preferred));
    assert!(!supports_format(&configs, &unsupported));
}

#[test]
fn test_get_best_format() {
    let empty: Vec<DeviceConfigRange> = vec![];
    assert!(get_best_format(&empty).is_err());

    let configs = vec![
        DeviceConfigRange {
            min_sample_rate: 8000,
            max_sample_rate: 48000,
            channels: 2,
        },
        DeviceConfigRange {
            min_sample_rate: 8000,
            max_sample_rate: 192000,
            channels: 2,
        },
        DeviceConfigRange {
            min_sample_rate: 8000,
            max_sample_rate: 192000,
            channels: 6,
        },
    ];
    let best = get_best_format(&configs).unwrap();
    assert_eq!(best.sample_rate, 192000);
    assert_eq!(best.channels, 6);
    assert_eq!(best.sample_format, SampleFormat::F32);
}

#[test]
fn test_supported_formats_enumeration() {
    let configs = vec![
        DeviceConfigRange {
            min_sample_rate: 44100,
            max_sample_rate: 48000,
            channels: 2,
        },
        DeviceConfigRange {
            min_sample_rate: 48000,
            max_sample_rate: 48000,
            channels: 2,
        },
    ];
    let formats = supported_formats_from(&configs);

    // The first configuration covers 44100 and 48000; the second only
    // 48000, already listed.  No duplicates, all 32-bit float.
    assert_eq!(formats.len(), 2);
    assert!(formats
        .iter()
        .any(|f| f.sample_rate == 44100 && f.channels == 2));
    assert!(formats
        .iter()
        .any(|f| f.sample_rate == 48000 && f.channels == 2));
    for f in &formats {
        assert_eq!(f.sample_format, SampleFormat::F32);
    }

    assert!(supported_formats_from(&vec![]).is_empty());
}

#[test]
fn test_decoder_integration() {
    // Test that decoder functions are accessible
    assert!(decoder::is_format_supported("test.mp3"));
    assert!(!decoder::is_format_supported("test.txt"));

    let extensions = decoder::supported_extensions();
    assert!(extensions.contains(&"mp3"));
    assert!(extensions.contains(&"wav"));
}
