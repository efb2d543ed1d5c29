//! Tests for AAC and ALAC format support, including the M4A container.

use contexture_core::audio::decoder::{
    detect_format_from_extension, is_format_supported, supported_extensions, AudioFormatInfo,
};

#[test]
fn test_aac_format_support() {
    // Test that AAC format is supported
    assert!(is_format_supported("test.aac"));
    assert!(is_format_supported("test.AAC"));

    // Test M4A container support (which typically contains AAC)
    assert!(is_format_supported("test.m4a"));
    assert!(is_format_supported("test.M4A"));
}

#[test]
fn aac_alac_decoding_test_aac_format_detection() {
    // Test format detection from extension
    assert_eq!(detect_format_from_extension("song.aac"), Some("AAC"));
    assert_eq!(detect_format_from_extension("song.AAC"), Some("AAC"));
    assert_eq!(detect_format_from_extension("song.m4a"), Some("M4A/AAC"));
    assert_eq!(detect_format_from_extension("song.M4A"), Some("M4A/AAC"));
}

#[test]
fn test_alac_format_support() {
    // ALAC is typically contained in M4A files
    assert!(is_format_supported("test.m4a"));
    assert!(is_format_supported("test.M4A"));
}

#[test]
fn test_supported_extensions_include_aac_formats() {
    let extensions = supported_extensions();
    assert!(
        extensions.contains(&"aac"),
        "AAC should be in supported extensions"
    );
    assert!(
        extensions.contains(&"m4a"),
        "M4A should be in supported extensions"
    );
}

#[test]
fn test_m4a_container_format_detection() {
    // M4A is a container that can hold both AAC and ALAC
    // Test that we properly detect M4A as a supported format
    assert!(is_format_supported("album.m4a"));
    assert!(is_format_supported("song.M4A"));

    // Test case insensitivity
    assert!(is_format_supported("track.m4A"));
    assert!(is_format_supported("audio.M4a"));
}

#[test]
fn test_aac_vs_alac_codec_detection() {
    // Test that we can distinguish between AAC and ALAC codecs
    let aac_info = AudioFormatInfo {
        format_name: String::from("AAC"),
        codec_type: String::from("AAC"),
        sample_rate: Some(44100),
        channels: Some(2),
        duration: Some(44100 * 60),
        bit_depth: None,
        is_lossless: false,
    };

    let alac_info = AudioFormatInfo {
        format_name: String::from("ALAC"),
        codec_type: String::from("ALAC"),
        sample_rate: Some(44100),
        channels: Some(2),
        duration: Some(44100 * 60),
        bit_depth: Some(16),
        is_lossless: true,
    };

    // Verify they have different properties
    assert_ne!(aac_info.is_lossless, alac_info.is_lossless);
    assert_ne!(aac_info.codec_type, alac_info.codec_type);
    assert_ne!(aac_info.format_name, alac_info.format_name);
}

#[test]
fn test_high_resolution_aac_support() {
    // Test high-resolution AAC (HE-AAC v2 can support up to 48kHz)
    let hires_aac_info = AudioFormatInfo {
        format_name: String::from("AAC"),
        codec_type: String::from("AAC"),
        sample_rate: Some(48000), // Higher sample rate
        channels: Some(2),
        duration: Some(48000 * 60),
        bit_depth: None,
        is_lossless: false,
    };

    assert!(
        hires_aac_info.is_high_resolution(),
        "48kHz AAC should be considered hi-res"
    );
    assert!(
        !hires_aac_info.is_lossless,
        "AAC should still be lossy even at hi-res"
    );
}

#[test]
fn test_high_resolution_alac_support() {
    // Test high-resolution ALAC (supports up to 192kHz/24bit)
    let hires_alac_info = AudioFormatInfo {
        format_name: String::from("ALAC"),
        codec_type: String::from("ALAC"),
        sample_rate: Some(192000), // Very high sample rate
        channels: Some(2),
        duration: Some(192000 * 60),
        bit_depth: Some(24), // High bit depth
        is_lossless: true,
    };

    assert!(
        hires_alac_info.is_high_resolution(),
        "192kHz/24bit ALAC should be hi-res"
    );
    assert!(hires_alac_info.is_lossless, "ALAC should be lossless");
}

#[test]
fn test_multichannel_aac_support() {
    // Test multichannel AAC support (5.1 surround)
    let multichannel_aac = AudioFormatInfo {
        format_name: String::from("AAC"),
        codec_type: String::from("AAC"),
        sample_rate: Some(48000),
        channels: Some(6), // 5.1 surround
        duration: Some(48000 * 60),
        bit_depth: None,
        is_lossless: false,
    };

    assert_eq!(multichannel_aac.channels, Some(6));
    assert!(!multichannel_aac.is_lossless);
}

#[test]
fn test_multichannel_alac_support() {
    // Test multichannel ALAC support
    let multichannel_alac = AudioFormatInfo {
        format_name: String::from("ALAC"),
        codec_type: String::from("ALAC"),
        sample_rate: Some(48000),
        channels: Some(6), // 5.1 surround
        duration: Some(48000 * 60),
        bit_depth: Some(24),
        is_lossless: true,
    };

    assert_eq!(multichannel_alac.channels, Some(6));
    assert!(multichannel_alac.is_lossless);
}
