//! Playback engine state machine and device-format negotiation.
//!
//! The engine's decisions live here: the playback state machine with its
//! transitions and events, the plan the real-time output callback
//! follows, and the scoring that picks a hardware configuration for a
//! target format.  The device, the stream and the callback itself run
//! outside this library and feed these functions plain values; volume is
//! carried through the state machine as the bit pattern of a 32-bit
//! scale, which the transitions move but never compute with.

use vstd::prelude::*;
use crate::audio::format::{AudioFormat, SampleFormat, opt_layout_equiv};
use crate::error::Error;

verus! {

/// Bit pattern of the unit volume scale 1.0.
pub const UNIT_VOLUME_BITS: u32 = 0x3F80_0000;

/// Audio playback state.
#[derive(Debug, Clone, Copy, PartialEq, Eq, Structural)]
pub enum PlaybackState {
    /// Engine is stopped
    Stopped,
    /// Engine is playing audio
    Playing,
    /// Engine is paused
    Paused,
    /// Engine is buffering
    Buffering,
    /// Engine encountered an error
    Error,
}

/// Audio engine events delivered to the registered observer.
#[derive(Debug)]
pub enum AudioEvent {
    /// Playback state changed
    StateChanged(PlaybackState),
    /// Playback position changed (in frames)
    PositionChanged(u64),
    /// Track ended
    TrackEnded,
    /// Error occurred
    Error(String),
    /// Buffer underrun occurred
    BufferUnderrun,
}

impl Clone for AudioEvent {
    /// A cloned event equals the original.
    fn clone(&self) -> (res: AudioEvent)
        ensures
            res == *self,
    {
        match self {
            AudioEvent::StateChanged(s) => AudioEvent::StateChanged(*s),
            AudioEvent::PositionChanged(p) => AudioEvent::PositionChanged(*p),
            AudioEvent::TrackEnded => AudioEvent::TrackEnded,
            AudioEvent::Error(m) => AudioEvent::Error(m.clone()),
            AudioEvent::BufferUnderrun => AudioEvent::BufferUnderrun,
        }
    }
}

/// Information about an audio output device.
#[derive(Debug)]
pub struct AudioDeviceInfo {
    /// Device name
    pub name: String,
    /// Supported audio formats
    pub supported_formats: Vec<AudioFormat>,
    /// Whether this is the default device
    pub is_default: bool,
}

/// Which source feeds the output callback.
#[derive(Debug, Clone, Copy, PartialEq, Eq, Structural)]
pub enum SourceKind {
    /// Nothing is loaded; the callback emits silence.
    NoSource,
    /// A fully decoded buffer, read at the engine position.
    StaticBuffer,
    /// A ring buffer consumer fed by a streaming decoder.
    RingBuffer,
}

/// The pure state of the playback engine: everything the control calls
/// and the output callback decide on.  The device, stream and sample
/// storage stay outside.
#[derive(Debug)]
pub struct EngineState {
    /// Current playback state
    pub state: PlaybackState,
    /// Volume scale, carried as the bit pattern of a 32-bit float
    pub volume_bits: u32,
    /// Volume before mute (for unmute restoration)
    pub volume_before_mute_bits: u32,
    /// Whether audio is muted
    pub is_muted: bool,
    /// Current position in frames
    pub position: u64,
    /// Total duration in frames, when known
    pub duration: Option<u64>,
    /// Format of the loaded track, when one is loaded
    pub format: Option<AudioFormat>,
    /// The active audio source
    pub source: SourceKind,
}

impl EngineState {
    /// A fresh engine: stopped, unit volume, not muted, nothing loaded.
    pub fn new() -> (r: EngineState)
        ensures
            r.state == PlaybackState::Stopped,
            r.volume_bits == UNIT_VOLUME_BITS,
            r.volume_before_mute_bits == UNIT_VOLUME_BITS,
            !r.is_muted,
            r.position == 0,
            r.duration is None,
            r.format is None,
            r.source == SourceKind::NoSource,
    {
        EngineState {
            state: PlaybackState::Stopped,
            volume_bits: UNIT_VOLUME_BITS,
            volume_before_mute_bits: UNIT_VOLUME_BITS,
            is_muted: false,
            position: 0,
            duration: None,
            format: None,
            source: SourceKind::NoSource,
        }
    }

    /// Operations other than a fresh load are refused while the engine
    /// is in the error state.
    pub fn validate_state(&self) -> (r: Result<(), Error>)
        ensures
            r is Ok <==> self.state != PlaybackState::Error,
            r matches Err(e) ==> e is AudioEngine,
    {
        if self.state == PlaybackState::Error {
            Err(Error::AudioEngine(String::from_str("Audio engine is in error state")))
        } else {
            Ok(())
        }
    }

    /// Move to `Playing`; reports a state change unless the engine was
    /// already playing (play is idempotent).
    pub fn apply_play(&mut self) -> (r: Option<AudioEvent>)
        ensures
            final(self).state == PlaybackState::Playing,
            r == if old(self).state != PlaybackState::Playing {
                Some(AudioEvent::StateChanged(PlaybackState::Playing))
            } else {
                None::<AudioEvent>
            },
            final(self).volume_bits == old(self).volume_bits,
            final(self).volume_before_mute_bits == old(self).volume_before_mute_bits,
            final(self).is_muted == old(self).is_muted,
            final(self).position == old(self).position,
            final(self).duration == old(self).duration,
            final(self).format == old(self).format,
            final(self).source == old(self).source,
    {
        if self.state != PlaybackState::Playing {
            self.state = PlaybackState::Playing;
            Some(AudioEvent::StateChanged(PlaybackState::Playing))
        } else {
            None
        }
    }

    /// Move from `Playing` to `Paused`; anywhere else pause is a no-op.
    pub fn apply_pause(&mut self) -> (r: Option<AudioEvent>)
        ensures
            final(self).state == if old(self).state == PlaybackState::Playing {
                PlaybackState::Paused
            } else {
                old(self).state
            },
            r == if old(self).state == PlaybackState::Playing {
                Some(AudioEvent::StateChanged(PlaybackState::Paused))
            } else {
                None::<AudioEvent>
            },
            final(self).volume_bits == old(self).volume_bits,
            final(self).volume_before_mute_bits == old(self).volume_before_mute_bits,
            final(self).is_muted == old(self).is_muted,
            final(self).position == old(self).position,
            final(self).duration == old(self).duration,
            final(self).format == old(self).format,
            final(self).source == old(self).source,
    {
        if self.state == PlaybackState::Playing {
            self.state = PlaybackState::Paused;
            Some(AudioEvent::StateChanged(PlaybackState::Paused))
        } else {
            None
        }
    }

    /// Stop: always ends in `Stopped` with the position reset to 0, and
    /// is idempotent; reports a state change only when the engine was
    /// playing or paused.
    pub fn apply_stop(&mut self) -> (r: Option<AudioEvent>)
        ensures
            final(self).state == PlaybackState::Stopped,
            final(self).position == 0,
            r == if old(self).state == PlaybackState::Playing || old(self).state
                == PlaybackState::Paused {
                Some(AudioEvent::StateChanged(PlaybackState::Stopped))
            } else {
                None::<AudioEvent>
            },
            final(self).volume_bits == old(self).volume_bits,
            final(self).volume_before_mute_bits == old(self).volume_before_mute_bits,
            final(self).is_muted == old(self).is_muted,
            final(self).duration == old(self).duration,
            final(self).format == old(self).format,
            final(self).source == old(self).source,
    {
        let was_active = self.state == PlaybackState::Playing || self.state
            == PlaybackState::Paused;
        self.state = PlaybackState::Stopped;
        self.position = 0;
        if was_active {
            Some(AudioEvent::StateChanged(PlaybackState::Stopped))
        } else {
            None
        }
    }

    /// Seek: updates the position unconditionally and reports a
    /// position change only when the value actually changes.
    pub fn apply_seek(&mut self, position: u64) -> (r: Option<AudioEvent>)
        ensures
            final(self).position == position,
            r == if old(self).position != position {
                Some(AudioEvent::PositionChanged(position))
            } else {
                None::<AudioEvent>
            },
            final(self).state == old(self).state,
            final(self).volume_bits == old(self).volume_bits,
            final(self).volume_before_mute_bits == old(self).volume_before_mute_bits,
            final(self).is_muted == old(self).is_muted,
            final(self).duration == old(self).duration,
            final(self).format == old(self).format,
            final(self).source == old(self).source,
    {
        let old_position = self.position;
        self.position = position;
        if old_position != position {
            Some(AudioEvent::PositionChanged(position))
        } else {
            None
        }
    }

    /// Set the volume immediately.  The caller hands the already
    /// clamped scale as its bit pattern; the transition stores it and
    /// clears any mute state.
    pub fn apply_set_volume(&mut self, volume_bits: u32)
        ensures
            final(self).volume_bits == volume_bits,
            !final(self).is_muted,
            final(self).state == old(self).state,
            final(self).volume_before_mute_bits == old(self).volume_before_mute_bits,
            final(self).position == old(self).position,
            final(self).duration == old(self).duration,
            final(self).format == old(self).format,
            final(self).source == old(self).source,
    {
        self.volume_bits = volume_bits;
        self.is_muted = false;
    }

    /// Mute: preserves the volume for a later unmute and drops the
    /// scale to zero; idempotent.
    pub fn apply_mute(&mut self)
        ensures
            final(self).is_muted,
            final(self).volume_bits == if old(self).is_muted {
                old(self).volume_bits
            } else {
                0u32
            },
            final(self).volume_before_mute_bits == if old(self).is_muted {
                old(self).volume_before_mute_bits
            } else {
                old(self).volume_bits
            },
            final(self).state == old(self).state,
            final(self).position == old(self).position,
            final(self).duration == old(self).duration,
            final(self).format == old(self).format,
            final(self).source == old(self).source,
    {
        if !self.is_muted {
            self.volume_before_mute_bits = self.volume_bits;
            self.is_muted = true;
            self.volume_bits = 0;
        }
    }

    /// Unmute: restores the volume preserved by mute; idempotent.
    pub fn apply_unmute(&mut self)
        ensures
            !final(self).is_muted,
            final(self).volume_bits == if old(self).is_muted {
                old(self).volume_before_mute_bits
            } else {
                old(self).volume_bits
            },
            final(self).volume_before_mute_bits == old(self).volume_before_mute_bits,
            final(self).state == old(self).state,
            final(self).position == old(self).position,
            final(self).duration == old(self).duration,
            final(self).format == old(self).format,
            final(self).source == old(self).source,
    {
        if self.is_muted {
            self.is_muted = false;
            self.volume_bits = self.volume_before_mute_bits;
        }
    }

    /// A successful load: the track's format and duration are recorded,
    /// the position returns to 0, the given source becomes the only
    /// active one, and the engine stands stopped.
    pub fn apply_load(&mut self, format: AudioFormat, duration: Option<u64>, source: SourceKind)
        -> (r: AudioEvent)
        ensures
            final(self).state == PlaybackState::Stopped,
            final(self).position == 0,
            final(self).duration == duration,
            final(self).format == Some(format),
            final(self).source == source,
            r == AudioEvent::StateChanged(PlaybackState::Stopped),
            final(self).volume_bits == old(self).volume_bits,
            final(self).volume_before_mute_bits == old(self).volume_before_mute_bits,
            final(self).is_muted == old(self).is_muted,
    {
        self.state = PlaybackState::Stopped;
        self.position = 0;
        self.duration = duration;
        self.format = Some(format);
        self.source = source;
        AudioEvent::StateChanged(PlaybackState::Stopped)
    }

    /// A failure in the device, stream or decoder: the engine moves to
    /// the error state and the message becomes an error event.
    pub fn apply_failure(&mut self, message: String) -> (r: AudioEvent)
        ensures
            final(self).state == PlaybackState::Error,
            r == AudioEvent::Error(message),
            final(self).volume_bits == old(self).volume_bits,
            final(self).volume_before_mute_bits == old(self).volume_before_mute_bits,
            final(self).is_muted == old(self).is_muted,
            final(self).position == old(self).position,
            final(self).duration == old(self).duration,
            final(self).format == old(self).format,
            final(self).source == old(self).source,
    {
        self.state = PlaybackState::Error;
        AudioEvent::Error(message)
    }

    /// A successful recovery from the error state: the engine returns
    /// to `Stopped`.
    pub fn apply_recovered(&mut self) -> (r: AudioEvent)
        ensures
            final(self).state == PlaybackState::Stopped,
            r == AudioEvent::StateChanged(PlaybackState::Stopped),
            final(self).volume_bits == old(self).volume_bits,
            final(self).volume_before_mute_bits == old(self).volume_before_mute_bits,
            final(self).is_muted == old(self).is_muted,
            final(self).position == old(self).position,
            final(self).duration == old(self).duration,
            final(self).format == old(self).format,
            final(self).source == old(self).source,
    {
        self.state = PlaybackState::Stopped;
        AudioEvent::StateChanged(PlaybackState::Stopped)
    }

    /// Samples per frame the callback works with: the loaded format's
    /// channel count, or two when nothing is loaded.
    pub open spec fn spec_channels(&self) -> int {
        match self.format {
            Some(f) => f.channels as int,
            None => 2,
        }
    }

    /// What the output callback must do for a buffer of `output_len`
    /// samples: silence unless the engine is playing a source; else
    /// read whole frames from the ring buffer or copy from the static
    /// buffer at the current position.
    pub fn callback_plan(&self, output_len: usize) -> (r: CallbackAction)
        requires
            self.spec_channels() > 0,
        ensures
            ({
                let samples = output_len as int / self.spec_channels()
                    * self.spec_channels();
                ({
                    if self.state != PlaybackState::Playing {
                        r == CallbackAction::FillSilence
                    } else {
                        match self.source {
                            SourceKind::NoSource => r == CallbackAction::FillSilence,
                            SourceKind::RingBuffer => r == (CallbackAction::ReadRing {
                                samples_needed: samples as usize,
                            }),
                            SourceKind::StaticBuffer => r == (CallbackAction::CopyStatic {
                                start_frame: self.position,
                                samples_needed: samples as usize,
                            }),
                        }
                    }
                })
            }),
    {
        let channels: usize = match &self.format {
            Some(f) => f.channels as usize,
            None => 2,
        };
        let frames_needed: usize = output_len / channels;
        proof {
            vstd::arithmetic::div_mod::lemma_remainder_lower(output_len as int, channels as int);
        }
        let samples_needed: usize = frames_needed * channels;
        if self.state != PlaybackState::Playing {
            CallbackAction::FillSilence
        } else {
            match self.source {
                SourceKind::NoSource => CallbackAction::FillSilence,
                SourceKind::RingBuffer => CallbackAction::ReadRing { samples_needed },
                SourceKind::StaticBuffer => CallbackAction::CopyStatic {
                    start_frame: self.position,
                    samples_needed,
                },
            }
        }
    }

    /// Advance the position after the callback consumed `frames`
    /// frames; a static source that reaches its known end stops the
    /// engine and resets the position, and that end is reported.
    pub fn advance_position(&mut self, frames: u64) -> (ended: bool)
        ensures
            ({
                let moved = if old(self).position + frames <= u64::MAX {
                    old(self).position + frames
                } else {
                    u64::MAX as int
                };
                let at_end = old(self).source == SourceKind::StaticBuffer && (match old(
                    self,
                ).duration {
                    Some(d) => moved >= d,
                    None => false,
                });
                &&& ended == at_end
                &&& final(self).position == if at_end {
                    0int
                } else {
                    moved
                }
                &&& final(self).state == if at_end {
                    PlaybackState::Stopped
                } else {
                    old(self).state
                }
            }),
            final(self).volume_bits == old(self).volume_bits,
            final(self).volume_before_mute_bits == old(self).volume_before_mute_bits,
            final(self).is_muted == old(self).is_muted,
            final(self).duration == old(self).duration,
            final(self).format == old(self).format,
            final(self).source == old(self).source,
    {
        let moved: u64 = if self.position <= u64::MAX - frames {
            self.position + frames
        } else {
            u64::MAX
        };
        let at_end: bool = self.source == SourceKind::StaticBuffer && (match self.duration {
            Some(d) => moved >= d,
            None => false,
        });
        if at_end {
            self.position = 0;
            self.state = PlaybackState::Stopped;
        } else {
            self.position = moved;
        }
        at_end
    }
}

/// What the output callback must do with one hardware buffer.
#[derive(Debug, Clone, Copy, PartialEq, Eq, Structural)]
pub enum CallbackAction {
    /// Fill the whole buffer with silence.
    FillSilence,
    /// Pull this many samples from the ring buffer, padding with
    /// silence on underrun.
    ReadRing {
        /// Whole frames' worth of samples to pull.
        samples_needed: usize,
    },
    /// Copy this many samples from the static buffer, starting at this
    /// frame.
    CopyStatic {
        /// First frame to copy.
        start_frame: u64,
        /// Whole frames' worth of samples to copy.
        samples_needed: usize,
    },
}

/// One configuration family a hardware output reports: a sample-rate
/// range at a channel count.
#[derive(Debug, Clone, Copy, PartialEq, Eq, Structural)]
pub struct DeviceConfigRange {
    /// Least sample rate the configuration supports.
    pub min_sample_rate: u32,
    /// Greatest sample rate the configuration supports.
    pub max_sample_rate: u32,
    /// Channel count of the configuration.
    pub channels: u16,
}

impl DeviceConfigRange {
    /// The configuration can carry the format: rate within the range
    /// and the exact channel count.
    pub open spec fn spec_supports(&self, format: AudioFormat) -> bool {
        &&& self.min_sample_rate <= format.sample_rate <= self.max_sample_rate
        &&& self.channels == format.channels
    }
}

/// The compatibility score of a configuration against a target format:
/// 100 for covering the rate with a 50 bonus for an exact boundary, 100
/// for the exact channel count, up to 50 for reaching high rates when
/// the target is high-resolution, and 10 for each common studio rate
/// covered.
pub open spec fn spec_score(config: DeviceConfigRange, target: AudioFormat) -> int {
    (if config.min_sample_rate <= target.sample_rate <= config.max_sample_rate {
        100 + (if config.min_sample_rate == target.sample_rate || config.max_sample_rate
            == target.sample_rate {
            50int
        } else {
            0int
        })
    } else {
        0int
    }) + (if config.channels == target.channels {
        100int
    } else {
        0int
    }) + (if target.sample_rate >= 48000 || target.sample_format != SampleFormat::I16 {
        (if config.max_sample_rate >= 96000 {
            25int
        } else {
            0int
        }) + (if config.max_sample_rate >= 192000 {
            25int
        } else {
            0int
        })
    } else {
        0int
    }) + (if config.min_sample_rate <= 44100 <= config.max_sample_rate {
        10int
    } else {
        0int
    }) + (if config.min_sample_rate <= 48000 <= config.max_sample_rate {
        10int
    } else {
        0int
    }) + (if config.min_sample_rate <= 96000 <= config.max_sample_rate {
        10int
    } else {
        0int
    }) + (if config.min_sample_rate <= 192000 <= config.max_sample_rate {
        10int
    } else {
        0int
    })
}

/// Calculate the compatibility score between a reported configuration
/// and the target format.
pub fn calculate_format_compatibility_score(config: &DeviceConfigRange, target: &AudioFormat)
    -> (score: u32)
    ensures
        score == spec_score(*config, *target),
{
    let mut score: u32 = 0;
    if config.min_sample_rate <= target.sample_rate && target.sample_rate
        <= config.max_sample_rate {
        score += 100;
        if config.min_sample_rate == target.sample_rate || config.max_sample_rate
            == target.sample_rate {
            score += 50;
        }
    }
    if config.channels == target.channels {
        score += 100;
    }
    if target.is_high_resolution() {
        if config.max_sample_rate >= 96000 {
            score += 25;
        }
        if config.max_sample_rate >= 192000 {
            score += 25;
        }
    }
    if config.min_sample_rate <= 44100 && 44100 <= config.max_sample_rate {
        score += 10;
    }
    if config.min_sample_rate <= 48000 && 48000 <= config.max_sample_rate {
        score += 10;
    }
    if config.min_sample_rate <= 96000 && 96000 <= config.max_sample_rate {
        score += 10;
    }
    if config.min_sample_rate <= 192000 && 192000 <= config.max_sample_rate {
        score += 10;
    }
    score
}

/// Find the configuration to drive for a target format: the first of
/// the compatible configurations that reaches the greatest score, or
/// `None` when no configuration is compatible.
pub fn find_compatible_config(configs: &Vec<DeviceConfigRange>, target: &AudioFormat) -> (r:
    Option<usize>)
    ensures
        r is Some <==> exists|j: int|
            0 <= j < configs@.len() && configs@[j].spec_supports(*target),
        r matches Some(i) ==> {
            &&& 0 <= i < configs@.len()
            &&& configs@[i as int].spec_supports(*target)
            &&& forall|j: int|
                0 <= j < configs@.len() && configs@[j].spec_supports(*target) ==> spec_score(
                    configs@[j],
                    *target,
                ) <= spec_score(configs@[i as int], *target)
            &&& forall|j: int|
                0 <= j < i && configs@[j].spec_supports(*target) ==> spec_score(
                    configs@[j],
                    *target,
                ) < spec_score(configs@[i as int], *target)
        },
{
    let mut best: Option<usize> = None;
    let mut best_score: u32 = 0;
    let mut k: usize = 0;
    while k < configs.len()
        invariant
            k <= configs@.len(),
            best is Some <==> exists|j: int|
                0 <= j < k && configs@[j].spec_supports(*target),
            best matches Some(i) ==> {
                &&& 0 <= i < k
                &&& configs@[i as int].spec_supports(*target)
                &&& best_score == spec_score(configs@[i as int], *target)
                &&& forall|j: int|
                    0 <= j < k && configs@[j].spec_supports(*target) ==> spec_score(
                        configs@[j],
                        *target,
                    ) <= best_score
                &&& forall|j: int|
                    0 <= j < i && configs@[j].spec_supports(*target) ==> spec_score(
                        configs@[j],
                        *target,
                    ) < best_score
            },
            best is None ==> best_score == 0,
        decreases configs@.len() - k,
    {
        let config = configs[k];
        let score = calculate_format_compatibility_score(&config, target);
        if score > best_score {
            let rate_ok = config.min_sample_rate <= target.sample_rate && target.sample_rate
                <= config.max_sample_rate;
            if rate_ok && config.channels == target.channels {
                best = Some(k);
                best_score = score;
            }
        }
        k += 1;
    }
    best
}

/// Whether any reported configuration can carry the format.
pub fn supports_format(configs: &Vec<DeviceConfigRange>, format: &AudioFormat) -> (r: bool)
    ensures
        r == exists|j: int| 0 <= j < configs@.len() && configs@[j].spec_supports(*format),
{
    let mut k: usize = 0;
    while k < configs.len()
        invariant
            k <= configs@.len(),
            forall|j: int| 0 <= j < k ==> !configs@[j].spec_supports(*format),
        decreases configs@.len() - k,
    {
        let config = configs[k];
        if config.min_sample_rate <= format.sample_rate && format.sample_rate
            <= config.max_sample_rate && config.channels == format.channels {
            return true;
        }
        k += 1;
    }
    false
}

/// Negotiate the playback format for a device: the preferred format
/// when some configuration can carry it, else a format error.
pub fn negotiate_format(configs: &Vec<DeviceConfigRange>, preferred: &AudioFormat) -> (r: Result<
    AudioFormat,
    Error,
>)
    ensures
        r is Ok <==> exists|j: int|
            0 <= j < configs@.len() && configs@[j].spec_supports(*preferred),
        r matches Ok(f) ==> {
            &&& f.sample_rate == preferred.sample_rate
            &&& f.channels == preferred.channels
            &&& f.sample_format == preferred.sample_format
            &&& opt_layout_equiv(f.channel_layout, preferred.channel_layout)
        },
        r matches Err(e) ==> e is AudioFormat,
{
    if supports_format(configs, preferred) {
        Ok(preferred.clone())
    } else {
        Err(Error::AudioFormat(String::from_str("No compatible audio configuration found")))
    }
}

/// The candidate sample rates tried for one reported configuration:
/// its boundaries and the common studio rates.
pub open spec fn spec_candidate_rate(config: DeviceConfigRange, k: int) -> u32 {
    if k == 0 {
        config.min_sample_rate
    } else if k == 1 {
        44100u32
    } else if k == 2 {
        48000u32
    } else if k == 3 {
        96000u32
    } else if k == 4 {
        192000u32
    } else {
        config.max_sample_rate
    }
}

/// Whether the list holds a format at this rate and channel count.
pub open spec fn spec_contains_rc(formats: Seq<AudioFormat>, rate: u32, channels: u16) -> bool {
    exists|i: int|
        0 <= i < formats.len() && formats[i].sample_rate == rate && formats[i].channels
            == channels
}

/// Whether a format is one of the candidates some configuration in the
/// list covers: its rate is a candidate rate of that configuration,
/// lies within its range, and the channel counts agree.
pub open spec fn spec_covered_candidate(f: AudioFormat, configs: Seq<DeviceConfigRange>) -> bool {
    exists|j: int, k: int|
        #![trigger spec_candidate_rate(configs[j], k)]
        0 <= j < configs.len() && 0 <= k < 6 && f.sample_rate == spec_candidate_rate(
            configs[j],
            k,
        ) && f.channels == configs[j].channels && configs[j].min_sample_rate <= f.sample_rate
            <= configs[j].max_sample_rate
}

/// Whether some format in the list matches the given rate and channel
/// count.
fn contains_rc(formats: &Vec<AudioFormat>, rate: u32, channels: u16) -> (r: bool)
    ensures
        r == spec_contains_rc(formats@, rate, channels),
{
    let mut i: usize = 0;
    while i < formats.len()
        invariant
            i <= formats@.len(),
            forall|j: int|
                0 <= j < i ==> !(formats@[j].sample_rate == rate && formats@[j].channels
                    == channels),
        decreases formats@.len() - i,
    {
        if formats[i].sample_rate == rate && formats[i].channels == channels {
            return true;
        }
        i += 1;
    }
    false
}

/// The formats a device supports at its boundary rates and the common
/// studio rates, one per rate and channel count, as 32-bit float
/// formats: every candidate rate a configuration covers appears, and
/// nothing else does.
pub fn supported_formats_from(configs: &Vec<DeviceConfigRange>) -> (r: Vec<AudioFormat>)
    ensures
        forall|i: int| 0 <= i < r@.len() ==> r@[i].sample_format == SampleFormat::F32,
        // every entry is a covered candidate of some configuration
        forall|i: int|
            0 <= i < r@.len() ==> spec_covered_candidate(#[trigger] r@[i], configs@),
        // no two entries share a rate and channel count
        forall|i1: int, i2: int|
            0 <= i1 < i2 < r@.len() ==> !(r@[i1].sample_rate == r@[i2].sample_rate
                && r@[i1].channels == r@[i2].channels),
        // every covered candidate of every configuration appears
        forall|j: int, k: int|
            0 <= j < configs@.len() && 0 <= k < 6 && configs@[j].min_sample_rate
                <= spec_candidate_rate(configs@[j], k) <= configs@[j].max_sample_rate
                ==> spec_contains_rc(
                r@,
                spec_candidate_rate(configs@[j], k),
                configs@[j].channels,
            ),
{
    let mut formats: Vec<AudioFormat> = Vec::new();
    let mut j: usize = 0;
    while j < configs.len()
        invariant
            j <= configs@.len(),
            forall|i: int|
                0 <= i < formats@.len() ==> formats@[i].sample_format == SampleFormat::F32,
            forall|i: int|
                0 <= i < formats@.len() ==> spec_covered_candidate(
                    #[trigger] formats@[i],
                    configs@,
                ),
            forall|i1: int, i2: int|
                0 <= i1 < i2 < formats@.len() ==> !(formats@[i1].sample_rate
                    == formats@[i2].sample_rate && formats@[i1].channels
                    == formats@[i2].channels),
            forall|j2: int, k: int|
                0 <= j2 < j && 0 <= k < 6 && configs@[j2].min_sample_rate
                    <= spec_candidate_rate(configs@[j2], k) <= configs@[j2].max_sample_rate
                    ==> spec_contains_rc(
                    formats@,
                    spec_candidate_rate(configs@[j2], k),
                    configs@[j2].channels,
                ),
        decreases configs@.len() - j,
    {
        let config = configs[j];
        let mut k: usize = 0;
        while k < 6
            invariant
                k <= 6,
                j < configs@.len(),
                config == configs@[j as int],
                forall|i: int|
                    0 <= i < formats@.len() ==> formats@[i].sample_format == SampleFormat::F32,
                forall|i: int|
                    0 <= i < formats@.len() ==> spec_covered_candidate(
                        #[trigger] formats@[i],
                        configs@,
                    ),
                forall|i1: int, i2: int|
                    0 <= i1 < i2 < formats@.len() ==> !(formats@[i1].sample_rate
                        == formats@[i2].sample_rate && formats@[i1].channels
                        == formats@[i2].channels),
                forall|j2: int, k2: int|
                    0 <= j2 < j && 0 <= k2 < 6 && configs@[j2].min_sample_rate
                        <= spec_candidate_rate(configs@[j2], k2)
                        <= configs@[j2].max_sample_rate ==> spec_contains_rc(
                        formats@,
                        spec_candidate_rate(configs@[j2], k2),
                        configs@[j2].channels,
                    ),
                forall|k2: int|
                    0 <= k2 < k && configs@[j as int].min_sample_rate <= spec_candidate_rate(
                        configs@[j as int],
                        k2,
                    ) <= configs@[j as int].max_sample_rate ==> spec_contains_rc(
                        formats@,
                        spec_candidate_rate(configs@[j as int], k2),
                        configs@[j as int].channels,
                    ),
            decreases 6 - k,
        {
            let rate: u32 = if k == 0 {
                config.min_sample_rate
            } else if k == 1 {
                44100
            } else if k == 2 {
                48000
            } else if k == 3 {
                96000
            } else if k == 4 {
                192000
            } else {
                config.max_sample_rate
            };
            proof {
                assert(spec_candidate_rate(configs@[j as int], k as int) == rate);
            }
            if config.min_sample_rate <= rate && rate <= config.max_sample_rate {
                if !contains_rc(&formats, rate, config.channels) {
                    let ghost before = formats@;
                    formats.push(AudioFormat::new(rate, config.channels, SampleFormat::F32));
                    proof {
                        let newlen = formats@.len() as int;
                        assert(forall|oldi: int|
                            0 <= oldi < before.len() ==> formats@[oldi] == before[oldi]);
                        // the new entry is the covered candidate k of
                        // configuration j
                        assert(formats@[newlen - 1].sample_rate == spec_candidate_rate(
                            configs@[j as int],
                            k as int,
                        ));
                        assert(spec_covered_candidate(formats@[newlen - 1], configs@));
                        assert(spec_contains_rc(formats@, rate, config.channels));
                        // containments established earlier survive the push
                        assert forall|rr: u32, cc: u16|
                            spec_contains_rc(before, rr, cc) implies spec_contains_rc(
                            formats@,
                            rr,
                            cc,
                        ) by {
                            let wit = choose|i: int|
                                0 <= i < before.len() && before[i].sample_rate == rr
                                    && before[i].channels == cc;
                            assert(formats@[wit] == before[wit]);
                        }
                    }
                }
            }
            k += 1;
        }
        j += 1;
    }
    formats
}

/// The best quality a device offers: the greatest reported maximum
/// sample rate, channels breaking ties, as a 32-bit float format.
pub fn get_best_format(configs: &Vec<DeviceConfigRange>) -> (r: Result<AudioFormat, Error>)
    ensures
        r is Ok <==> configs@.len() > 0,
        r matches Ok(f) ==> {
            &&& f.sample_format == SampleFormat::F32
            &&& exists|i: int|
                0 <= i < configs@.len() && f.sample_rate == configs@[i].max_sample_rate
                    && f.channels == configs@[i].channels
            &&& forall|j: int|
                0 <= j < configs@.len() ==> (configs@[j].max_sample_rate < f.sample_rate || (
                configs@[j].max_sample_rate == f.sample_rate && configs@[j].channels
                    <= f.channels))
        },
        r matches Err(e) ==> e is AudioDevice,
{
    if configs.len() == 0 {
        return Err(Error::AudioDevice(String::from_str("No supported audio formats found")));
    }
    let mut best_rate: u32 = 0;
    let mut best_channels: u16 = 0;
    let mut found: bool = false;
    let mut k: usize = 0;
    while k < configs.len()
        invariant
            k <= configs@.len(),
            k > 0 ==> found,
            found ==> exists|i: int|
                0 <= i < k && best_rate == configs@[i].max_sample_rate && best_channels
                    == configs@[i].channels,
            forall|j: int|
                0 <= j < k ==> (configs@[j].max_sample_rate < best_rate || (
                configs@[j].max_sample_rate == best_rate && configs@[j].channels
                    <= best_channels)),
            !found ==> best_rate == 0 && best_channels == 0,
        decreases configs@.len() - k,
    {
        let config = configs[k];
        if !found || config.max_sample_rate > best_rate || (config.max_sample_rate == best_rate
            && config.channels > best_channels) {
            best_rate = config.max_sample_rate;
            best_channels = config.channels;
            found = true;
        }
        k += 1;
    }
    Ok(AudioFormat::new(best_rate, best_channels, SampleFormat::F32))
}

} // verus!
