//! Audio playback core: formats, buffering, processing, and the engine
//! state machine.

pub mod buffer;
pub mod checksum;
pub mod decoder;
pub mod engine;
pub mod format;
pub mod processor;
pub mod ring_buffer;
