//! Foreign-interface vocabulary: the flat result, state and event
//! codes handed across the language boundary, and the handle checks
//! every boundary call performs first.
//!
//! A foreign pointer is represented here by its address, so that a
//! handle check is a function of a plain value; the boundary itself
//! (C strings, raw pointers, the exported functions) lives outside
//! this library.

use vstd::prelude::*;
use crate::audio::engine::{AudioEvent, PlaybackState};

verus! {

/// FFI-safe result type.
#[derive(Debug, Clone, Copy, PartialEq, Eq, Structural)]
pub enum FFIResult {
    /// Operation completed successfully
    Success,
    /// A null pointer was passed where a valid pointer was expected
    NullPointer,
    /// An invalid argument was provided
    InvalidArgument,
    /// Out of memory error
    OutOfMemory,
    /// Internal error occurred
    InternalError,
    /// Resource not found
    NotFound,
}

impl FFIResult {
    /// The numeric code each result crosses the boundary as: zero for
    /// success, falling negatives for the failures.
    pub fn code(&self) -> (r: i32)
        ensures
            r == match *self {
                FFIResult::Success => 0int,
                FFIResult::NullPointer => -1int,
                FFIResult::InvalidArgument => -2int,
                FFIResult::OutOfMemory => -3int,
                FFIResult::InternalError => -4int,
                FFIResult::NotFound => -5int,
            },
    {
        match self {
            FFIResult::Success => 0,
            FFIResult::NullPointer => -1,
            FFIResult::InvalidArgument => -2,
            FFIResult::OutOfMemory => -3,
            FFIResult::InternalError => -4,
            FFIResult::NotFound => -5,
        }
    }
}

/// FFI-safe audio event type.
#[derive(Debug, Clone, Copy, PartialEq, Eq, Structural)]
pub enum FFIAudioEventType {
    /// Playback state changed
    StateChanged,
    /// Playback position changed
    PositionChanged,
    /// Track ended
    TrackEnded,
    /// Error occurred
    Error,
    /// Buffer underrun occurred
    BufferUnderrun,
}

impl FFIAudioEventType {
    /// The numeric code each event type crosses the boundary as.
    pub fn code(&self) -> (r: i32)
        ensures
            r == match *self {
                FFIAudioEventType::StateChanged => 0int,
                FFIAudioEventType::PositionChanged => 1int,
                FFIAudioEventType::TrackEnded => 2int,
                FFIAudioEventType::Error => 3int,
                FFIAudioEventType::BufferUnderrun => 4int,
            },
    {
        match self {
            FFIAudioEventType::StateChanged => 0,
            FFIAudioEventType::PositionChanged => 1,
            FFIAudioEventType::TrackEnded => 2,
            FFIAudioEventType::Error => 3,
            FFIAudioEventType::BufferUnderrun => 4,
        }
    }
}

/// FFI-safe playback state.
#[derive(Debug, Clone, Copy, PartialEq, Eq, Structural)]
pub enum FFIPlaybackState {
    /// Engine is stopped
    Stopped,
    /// Engine is playing audio
    Playing,
    /// Engine is paused
    Paused,
    /// Engine is buffering
    Buffering,
    /// Engine encountered an error
    Error,
}

impl FFIPlaybackState {
    /// The numeric code each state crosses the boundary as.
    pub fn code(&self) -> (r: i32)
        ensures
            r == match *self {
                FFIPlaybackState::Stopped => 0int,
                FFIPlaybackState::Playing => 1int,
                FFIPlaybackState::Paused => 2int,
                FFIPlaybackState::Buffering => 3int,
                FFIPlaybackState::Error => 4int,
            },
    {
        match self {
            FFIPlaybackState::Stopped => 0,
            FFIPlaybackState::Playing => 1,
            FFIPlaybackState::Paused => 2,
            FFIPlaybackState::Buffering => 3,
            FFIPlaybackState::Error => 4,
        }
    }
}

/// The boundary state for each engine state.
pub open spec fn spec_state_to_ffi(state: PlaybackState) -> FFIPlaybackState {
    match state {
        PlaybackState::Stopped => FFIPlaybackState::Stopped,
        PlaybackState::Playing => FFIPlaybackState::Playing,
        PlaybackState::Paused => FFIPlaybackState::Paused,
        PlaybackState::Buffering => FFIPlaybackState::Buffering,
        PlaybackState::Error => FFIPlaybackState::Error,
    }
}

/// Convert an engine playback state to its FFI twin.
pub fn playback_state_to_ffi(state: PlaybackState) -> (r: FFIPlaybackState)
    ensures
        r == spec_state_to_ffi(state),
{
    match state {
        PlaybackState::Stopped => FFIPlaybackState::Stopped,
        PlaybackState::Playing => FFIPlaybackState::Playing,
        PlaybackState::Paused => FFIPlaybackState::Paused,
        PlaybackState::Buffering => FFIPlaybackState::Buffering,
        PlaybackState::Error => FFIPlaybackState::Error,
    }
}

/// An engine event flattened for the boundary: the type tag, the state
/// and position payloads (meaningful for their event types, zeroed
/// otherwise), and the message of an error event.  The boundary itself
/// turns the message into a C string.
#[derive(Debug)]
pub struct FFIAudioEventData {
    /// Event type
    pub event_type: FFIAudioEventType,
    /// State value (for state-change events)
    pub state: FFIPlaybackState,
    /// Position value (for position-change events, in frames)
    pub position: u64,
    /// Error message (for error events)
    pub error_message: Option<String>,
}

/// Flatten an engine event for the boundary.
pub fn audio_event_to_ffi(event: &AudioEvent) -> (r: FFIAudioEventData)
    ensures
        match *event {
            AudioEvent::StateChanged(s) => {
                &&& r.event_type == FFIAudioEventType::StateChanged
                &&& r.state == spec_state_to_ffi(s)
                &&& r.position == 0
                &&& r.error_message is None
            },
            AudioEvent::PositionChanged(p) => {
                &&& r.event_type == FFIAudioEventType::PositionChanged
                &&& r.state == FFIPlaybackState::Stopped
                &&& r.position == p
                &&& r.error_message is None
            },
            AudioEvent::TrackEnded => {
                &&& r.event_type == FFIAudioEventType::TrackEnded
                &&& r.state == FFIPlaybackState::Stopped
                &&& r.position == 0
                &&& r.error_message is None
            },
            AudioEvent::Error(m) => {
                &&& r.event_type == FFIAudioEventType::Error
                &&& r.state == FFIPlaybackState::Error
                &&& r.position == 0
                &&& (match r.error_message {
                    Some(msg) => msg@ == m@,
                    None => false,
                })
            },
            AudioEvent::BufferUnderrun => {
                &&& r.event_type == FFIAudioEventType::BufferUnderrun
                &&& r.state == FFIPlaybackState::Stopped
                &&& r.position == 0
                &&& r.error_message is None
            },
        },
{
    match event {
        AudioEvent::StateChanged(s) => FFIAudioEventData {
            event_type: FFIAudioEventType::StateChanged,
            state: playback_state_to_ffi(*s),
            position: 0,
            error_message: None,
        },
        AudioEvent::PositionChanged(p) => FFIAudioEventData {
            event_type: FFIAudioEventType::PositionChanged,
            state: FFIPlaybackState::Stopped,
            position: *p,
            error_message: None,
        },
        AudioEvent::TrackEnded => FFIAudioEventData {
            event_type: FFIAudioEventType::TrackEnded,
            state: FFIPlaybackState::Stopped,
            position: 0,
            error_message: None,
        },
        AudioEvent::Error(m) => FFIAudioEventData {
            event_type: FFIAudioEventType::Error,
            state: FFIPlaybackState::Error,
            position: 0,
            error_message: Some(m.clone()),
        },
        AudioEvent::BufferUnderrun => FFIAudioEventData {
            event_type: FFIAudioEventType::BufferUnderrun,
            state: FFIPlaybackState::Stopped,
            position: 0,
            error_message: None,
        },
    }
}

/// Validate a pointer handed across the boundary, by its address: the
/// null address is rejected, everything else accepted.
pub fn validate_not_null(address: usize) -> (r: FFIResult)
    ensures
        r == if address == 0 {
            FFIResult::NullPointer
        } else {
            FFIResult::Success
        },
{
    if address == 0 {
        FFIResult::NullPointer
    } else {
        FFIResult::Success
    }
}

/// Validate a mutable pointer handed across the boundary, by its
/// address: the null address is rejected, everything else accepted.
pub fn validate_not_null_mut(address: usize) -> (r: FFIResult)
    ensures
        r == if address == 0 {
            FFIResult::NullPointer
        } else {
            FFIResult::Success
        },
{
    if address == 0 {
        FFIResult::NullPointer
    } else {
        FFIResult::Success
    }
}

} // verus!
