//! Real-time playback core of a high-fidelity audio player.
//!
//! The library moves decoded audio from a non-real-time producer to a
//! real-time output callback: a fixed-capacity ring buffer is the channel
//! between the two, a sample-processing layer converts between PCM
//! encodings and the canonical normalized domain, and a playback state
//! machine drives the output callback.

use vstd::prelude::*;

pub mod audio;
pub mod error;
pub mod ffi;

verus! {

/// Library name.
pub const NAME: &'static str = "Contexture";

} // verus!
