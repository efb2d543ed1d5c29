//! Tests of the audio format types and their validation.

use contexture_core::audio::format::{
    validate_format, AudioFormat, ChannelLayout, SampleFormat,
};

#[test]
fn test_sample_format_properties() {
    assert_eq!(SampleFormat::I16.size_bytes(), 2);
    assert_eq!(SampleFormat::I24.size_bytes(), 3);
    assert_eq!(SampleFormat::I32.size_bytes(), 4);
    assert_eq!(SampleFormat::F32.size_bytes(), 4);
    assert_eq!(SampleFormat::F64.size_bytes(), 8);

    assert!(!SampleFormat::I16.is_float());
    assert!(SampleFormat::F32.is_float());
    assert!(SampleFormat::I16.is_integer());
    assert!(!SampleFormat::F32.is_integer());
}

#[test]
fn test_audio_format_creation() {
    let format = AudioFormat::new(44100, 2, SampleFormat::F32);
    assert_eq!(format.sample_rate, 44100);
    assert_eq!(format.channels, 2);
    assert_eq!(format.sample_format, SampleFormat::F32);
}

#[test]
fn test_audio_format_calculations() {
    let format = AudioFormat::new(44100, 2, SampleFormat::F32);
    assert_eq!(format.frame_size(), 8); // 2 channels * 4 bytes
    assert_eq!(format.byte_rate(), 44100 * 8);
}

#[test]
fn test_format_compatibility() {
    let format1 = AudioFormat::new(44100, 2, SampleFormat::F32);
    let format2 = AudioFormat::new(44100, 2, SampleFormat::I16);
    let format3 = AudioFormat::new(48000, 2, SampleFormat::F32);

    assert!(format1.is_compatible_with(&format2));
    assert!(!format1.is_compatible_with(&format3));
}

#[test]
fn test_high_resolution_detection() {
    let cd_quality = AudioFormat::new(44100, 2, SampleFormat::I16);
    let high_res_rate = AudioFormat::new(96000, 2, SampleFormat::I16);
    let high_res_depth = AudioFormat::new(44100, 2, SampleFormat::I24);

    assert!(!cd_quality.is_high_resolution());
    assert!(high_res_rate.is_high_resolution());
    assert!(high_res_depth.is_high_resolution());
}

#[test]
fn test_channel_layout() {
    assert_eq!(ChannelLayout::Mono.channel_count(), 1);
    assert_eq!(ChannelLayout::Stereo.channel_count(), 2);
    assert_eq!(ChannelLayout::Surround51.channel_count(), 6);

    assert_eq!(
        ChannelLayout::from_channel_count(1),
        Some(ChannelLayout::Mono)
    );
    assert_eq!(
        ChannelLayout::from_channel_count(2),
        Some(ChannelLayout::Stereo)
    );
    assert_eq!(ChannelLayout::from_channel_count(5), None);
}

#[test]
fn test_format_validation() {
    let valid_format = AudioFormat::new(44100, 2, SampleFormat::F32);
    assert!(validate_format(&valid_format).is_ok());

    let invalid_rate = AudioFormat::new(0, 2, SampleFormat::F32);
    assert!(validate_format(&invalid_rate).is_err());

    let invalid_channels = AudioFormat::new(44100, 0, SampleFormat::F32);
    assert!(validate_format(&invalid_channels).is_err());
}

#[test]
fn test_format_validation_upper_bounds() {
    let too_fast = AudioFormat::new(192001, 2, SampleFormat::F32);
    assert!(validate_format(&too_fast).is_err());

    let at_limit = AudioFormat::new(192000, 32, SampleFormat::F32);
    assert!(validate_format(&at_limit).is_ok());

    let too_many_channels = AudioFormat::new(44100, 33, SampleFormat::F32);
    assert!(validate_format(&too_many_channels).is_err());
}

#[test]
fn test_channel_layout_channels() {
    let stereo = ChannelLayout::Stereo.channels();
    assert_eq!(stereo.len(), 2);
    let surround = ChannelLayout::Surround71.channels();
    assert_eq!(surround.len(), 8);
    assert_eq!(ChannelLayout::Mono.channels().len(), 1);
}

#[test]
fn test_default_format() {
    let format = AudioFormat::default();
    assert_eq!(format.sample_rate, 44100);
    assert_eq!(format.channels, 2);
    assert_eq!(format.sample_format, SampleFormat::F32);
    assert_eq!(format.channel_layout, Some(ChannelLayout::Stereo));
}
