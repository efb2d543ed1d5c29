//! Tests of the FFI vocabulary: handle validation by address and the
//! numeric codes that cross the boundary.

use contexture_core::audio::engine::PlaybackState;
use contexture_core::ffi::{
    playback_state_to_ffi, validate_not_null, validate_not_null_mut, FFIAudioEventType,
    FFIPlaybackState, FFIResult,
};

#[test]
fn test_validate_not_null() {
    let valid_address: usize = 0x1000;
    let null_address: usize = 0;

    assert_eq!(validate_not_null(valid_address), FFIResult::Success);
    assert_eq!(validate_not_null(null_address), FFIResult::NullPointer);
}

#[test]
fn test_validate_not_null_mut() {
    let valid_address: usize = 0x2000;
    let null_address: usize = 0;

    assert_eq!(validate_not_null_mut(valid_address), FFIResult::Success);
    assert_eq!(validate_not_null_mut(null_address), FFIResult::NullPointer);
}

#[test]
fn test_pointer_validation() {
    let valid_ptr: usize = 0x4242;
    let null_ptr: usize = 0;

    assert_eq!(validate_not_null(valid_ptr), FFIResult::Success);
    assert_eq!(validate_not_null(null_ptr), FFIResult::NullPointer);

    let valid_mut_ptr: usize = 0x4243;
    let null_mut_ptr: usize = 0;

    assert_eq!(validate_not_null_mut(valid_mut_ptr), FFIResult::Success);
    assert_eq!(validate_not_null_mut(null_mut_ptr), FFIResult::NullPointer);
}

#[test]
fn test_ffi_result_consistency() {
    // Ensure FFI result values are consistent
    assert_eq!(FFIResult::Success.code(), 0);
    assert_eq!(FFIResult::NullPointer.code(), -1);
    assert_eq!(FFIResult::InvalidArgument.code(), -2);
    assert_eq!(FFIResult::OutOfMemory.code(), -3);
    assert_eq!(FFIResult::InternalError.code(), -4);
    assert_eq!(FFIResult::NotFound.code(), -5);
}

#[test]
fn test_ffi_event_type_codes() {
    assert_eq!(FFIAudioEventType::StateChanged.code(), 0);
    assert_eq!(FFIAudioEventType::PositionChanged.code(), 1);
    assert_eq!(FFIAudioEventType::TrackEnded.code(), 2);
    assert_eq!(FFIAudioEventType::Error.code(), 3);
    assert_eq!(FFIAudioEventType::BufferUnderrun.code(), 4);
}

#[test]
fn test_playback_state_conversion() {
    assert_eq!(
        playback_state_to_ffi(PlaybackState::Stopped),
        FFIPlaybackState::Stopped
    );
    assert_eq!(
        playback_state_to_ffi(PlaybackState::Playing),
        FFIPlaybackState::Playing
    );
    assert_eq!(
        playback_state_to_ffi(PlaybackState::Paused),
        FFIPlaybackState::Paused
    );
    assert_eq!(
        playback_state_to_ffi(PlaybackState::Buffering),
        FFIPlaybackState::Buffering
    );
    assert_eq!(
        playback_state_to_ffi(PlaybackState::Error),
        FFIPlaybackState::Error
    );

    assert_eq!(FFIPlaybackState::Stopped.code(), 0);
    assert_eq!(FFIPlaybackState::Playing.code(), 1);
    assert_eq!(FFIPlaybackState::Paused.code(), 2);
    assert_eq!(FFIPlaybackState::Buffering.code(), 3);
    assert_eq!(FFIPlaybackState::Error.code(), 4);
}
