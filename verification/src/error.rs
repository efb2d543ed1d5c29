//! Error taxonomy of the playback core.

use vstd::prelude::*;

verus! {

/// Error types for the music player.
#[derive(Debug)]
pub enum Error {
    /// Audio engine error
    AudioEngine(String),
    /// Audio device error
    AudioDevice(String),
    /// Audio format error
    AudioFormat(String),
    /// File I/O error
    Io(String),
    /// Audio decoding error
    Decoding(String),
    /// CUE parsing error
    CueParsing(String),
    /// FFI error
    Ffi(String),
    /// Invalid parameter
    InvalidParameter(String),
    /// Not supported
    NotSupported(String),
    /// Playlist error
    Playlist(String),
    /// Library error
    Library(String),
    /// Database error
    Database(String),
    /// Network error
    Network(String),
    /// AI classification error
    AiClassification(String),
}

impl Clone for Error {
    /// A cloned error equals the original.
    fn clone(&self) -> (res: Error)
        ensures
            res == *self,
    {
        match self {
            Error::AudioEngine(m) => Error::AudioEngine(m.clone()),
            Error::AudioDevice(m) => Error::AudioDevice(m.clone()),
            Error::AudioFormat(m) => Error::AudioFormat(m.clone()),
            Error::Io(m) => Error::Io(m.clone()),
            Error::Decoding(m) => Error::Decoding(m.clone()),
            Error::CueParsing(m) => Error::CueParsing(m.clone()),
            Error::Ffi(m) => Error::Ffi(m.clone()),
            Error::InvalidParameter(m) => Error::InvalidParameter(m.clone()),
            Error::NotSupported(m) => Error::NotSupported(m.clone()),
            Error::Playlist(m) => Error::Playlist(m.clone()),
            Error::Library(m) => Error::Library(m.clone()),
            Error::Database(m) => Error::Database(m.clone()),
            Error::Network(m) => Error::Network(m.clone()),
            Error::AiClassification(m) => Error::AiClassification(m.clone()),
        }
    }
}

impl Error {
    /// The message the error carries.
    pub open spec fn spec_message(&self) -> Seq<char> {
        match *self {
            Error::AudioEngine(m) => m@,
            Error::AudioDevice(m) => m@,
            Error::AudioFormat(m) => m@,
            Error::Io(m) => m@,
            Error::Decoding(m) => m@,
            Error::CueParsing(m) => m@,
            Error::Ffi(m) => m@,
            Error::InvalidParameter(m) => m@,
            Error::NotSupported(m) => m@,
            Error::Playlist(m) => m@,
            Error::Library(m) => m@,
            Error::Database(m) => m@,
            Error::Network(m) => m@,
            Error::AiClassification(m) => m@,
        }
    }

    /// The message carried by the error.
    pub fn message(&self) -> (r: &String)
        ensures
            r@ == self.spec_message(),
    {
        match self {
            Error::AudioEngine(m) => m,
            Error::AudioDevice(m) => m,
            Error::AudioFormat(m) => m,
            Error::Io(m) => m,
            Error::Decoding(m) => m,
            Error::CueParsing(m) => m,
            Error::Ffi(m) => m,
            Error::InvalidParameter(m) => m,
            Error::NotSupported(m) => m,
            Error::Playlist(m) => m,
            Error::Library(m) => m,
            Error::Database(m) => m,
            Error::Network(m) => m,
            Error::AiClassification(m) => m,
        }
    }
}

} // verus!
