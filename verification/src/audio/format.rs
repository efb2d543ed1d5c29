//! Audio format description and validation.

use vstd::prelude::*;

verus! {

/// Encoding of a single audio sample.
#[derive(Debug, Clone, Copy, PartialEq, Eq, Structural)]
pub enum SampleFormat {
    /// 8-bit unsigned integer
    U8,
    /// 8-bit signed integer
    I8,
    /// 16-bit unsigned integer
    U16,
    /// 16-bit signed integer
    I16,
    /// 24-bit signed integer (stored in 3 bytes)
    I24,
    /// 32-bit signed integer
    I32,
    /// 32-bit floating point
    F32,
    /// 64-bit floating point
    F64,
}

impl SampleFormat {
    /// Size in bytes of one sample of this format.
    pub open spec fn spec_size_bytes(self) -> usize {
        match self {
            SampleFormat::U8 => 1usize,
            SampleFormat::I8 => 1usize,
            SampleFormat::U16 => 2usize,
            SampleFormat::I16 => 2usize,
            SampleFormat::I24 => 3usize,
            SampleFormat::I32 => 4usize,
            SampleFormat::F32 => 4usize,
            SampleFormat::F64 => 8usize,
        }
    }

    /// Get the size in bytes of this sample format.
    pub fn size_bytes(&self) -> (r: usize)
        ensures
            r == self.spec_size_bytes(),
            1 <= r <= 8,
    {
        match self {
            SampleFormat::U8 => 1,
            SampleFormat::I8 => 1,
            SampleFormat::U16 => 2,
            SampleFormat::I16 => 2,
            SampleFormat::I24 => 3,
            SampleFormat::I32 => 4,
            SampleFormat::F32 => 4,
            SampleFormat::F64 => 8,
        }
    }

    /// Whether this format stores samples as floating point.
    pub open spec fn spec_is_float(self) -> bool {
        self == SampleFormat::F32 || self == SampleFormat::F64
    }

    /// Check if this is a floating point format.
    pub fn is_float(&self) -> (r: bool)
        ensures
            r == self.spec_is_float(),
    {
        matches!(self, SampleFormat::F32 | SampleFormat::F64)
    }

    /// Check if this is an integer format.
    pub fn is_integer(&self) -> (r: bool)
        ensures
            r == !self.spec_is_float(),
    {
        !self.is_float()
    }
}

/// Description of a PCM stream: rate, channel count, sample encoding and
/// an optional channel layout.
#[derive(Debug, PartialEq)]
pub struct AudioFormat {
    /// Sample rate in Hz
    pub sample_rate: u32,
    /// Number of audio channels
    pub channels: u16,
    /// Sample format
    pub sample_format: SampleFormat,
    /// Channel layout (optional)
    pub channel_layout: Option<ChannelLayout>,
}

impl Clone for AudioFormat {
    /// A cloned format has the same rate, channels and encoding, and an
    /// equivalent layout.
    fn clone(&self) -> (res: AudioFormat)
        ensures
            res.sample_rate == self.sample_rate,
            res.channels == self.channels,
            res.sample_format == self.sample_format,
            opt_layout_equiv(res.channel_layout, self.channel_layout),
    {
        AudioFormat {
            sample_rate: self.sample_rate,
            channels: self.channels,
            sample_format: self.sample_format,
            channel_layout: match &self.channel_layout {
                Some(layout) => Some(layout.clone()),
                None => None,
            },
        }
    }
}

impl AudioFormat {
    /// Create a new audio format; the layout is derived from the channel
    /// count where a standard layout exists.
    pub fn new(sample_rate: u32, channels: u16, sample_format: SampleFormat) -> (r: AudioFormat)
        ensures
            r.sample_rate == sample_rate,
            r.channels == channels,
            r.sample_format == sample_format,
            r.channel_layout == ChannelLayout::spec_from_channel_count(channels),
    {
        AudioFormat {
            sample_rate,
            channels,
            sample_format,
            channel_layout: ChannelLayout::from_channel_count(channels),
        }
    }

    /// Get the frame size in bytes (all channels for one sample instant).
    pub fn frame_size(&self) -> (r: usize)
        ensures
            r == self.channels * self.sample_format.spec_size_bytes(),
            r <= 524280,
    {
        proof {
            vstd::arithmetic::mul::lemma_mul_upper_bound(
                self.channels as int,
                65535,
                self.sample_format.spec_size_bytes() as int,
                8,
            );
        }
        self.channels as usize * self.sample_format.size_bytes()
    }

    /// Get the byte rate (bytes per second).
    pub fn byte_rate(&self) -> (r: u64)
        ensures
            r == self.sample_rate * self.channels * self.sample_format.spec_size_bytes(),
    {
        let frame: usize = self.frame_size();
        proof {
            vstd::arithmetic::mul::lemma_mul_upper_bound(
                self.sample_rate as int,
                0xFFFF_FFFF,
                frame as int,
                524280,
            );
            vstd::arithmetic::mul::lemma_mul_is_associative(
                self.sample_rate as int,
                self.channels as int,
                self.sample_format.spec_size_bytes() as int,
            );
        }
        self.sample_rate as u64 * frame as u64
    }

    /// Two formats are compatible when rate and channel count agree.
    pub fn is_compatible_with(&self, other: &AudioFormat) -> (r: bool)
        ensures
            r == (self.sample_rate == other.sample_rate && self.channels == other.channels),
    {
        self.sample_rate == other.sample_rate && self.channels == other.channels
    }

    /// High resolution means at least 48 kHz, or any sample encoding
    /// other than 16-bit signed integer.
    pub fn is_high_resolution(&self) -> (r: bool)
        ensures
            r == (self.sample_rate >= 48000 || self.sample_format != SampleFormat::I16),
    {
        self.sample_rate >= 48000 || !matches!(self.sample_format, SampleFormat::I16)
    }
}

impl Default for AudioFormat {
    /// CD-adjacent default: 44.1 kHz stereo 32-bit float.
    fn default() -> (r: AudioFormat)
        ensures
            r.sample_rate == 44100,
            r.channels == 2,
            r.sample_format == SampleFormat::F32,
            r.channel_layout == Some(ChannelLayout::Stereo),
    {
        AudioFormat::new(44100, 2, SampleFormat::F32)
    }
}

/// Named speaker arrangement for a channel count.
#[derive(Debug, PartialEq, Eq)]
pub enum ChannelLayout {
    /// Mono (1 channel)
    Mono,
    /// Stereo (2 channels: Left, Right)
    Stereo,
    /// 2.1 (3 channels: Left, Right, LFE)
    Surround21,
    /// 5.1 (6 channels)
    Surround51,
    /// 7.1 (8 channels)
    Surround71,
    /// Custom channel layout
    Custom(Vec<Channel>),
}

/// Two layouts agree: equal, except that custom layouts are compared by
/// their channel lists.
pub open spec fn layout_equiv(a: ChannelLayout, b: ChannelLayout) -> bool {
    match (a, b) {
        (ChannelLayout::Custom(x), ChannelLayout::Custom(y)) => x@ == y@,
        _ => a == b,
    }
}

/// Lifts `layout_equiv` over optional layouts.
pub open spec fn opt_layout_equiv(a: Option<ChannelLayout>, b: Option<ChannelLayout>) -> bool {
    match (a, b) {
        (Some(x), Some(y)) => layout_equiv(x, y),
        (None, None) => true,
        _ => false,
    }
}

impl Clone for ChannelLayout {
    /// A cloned layout has the same variant and the same channels.
    fn clone(&self) -> (res: ChannelLayout)
        ensures
            layout_equiv(res, *self),
    {
        match self {
            ChannelLayout::Mono => ChannelLayout::Mono,
            ChannelLayout::Stereo => ChannelLayout::Stereo,
            ChannelLayout::Surround21 => ChannelLayout::Surround21,
            ChannelLayout::Surround51 => ChannelLayout::Surround51,
            ChannelLayout::Surround71 => ChannelLayout::Surround71,
            ChannelLayout::Custom(channels) => ChannelLayout::Custom(clone_channels(channels)),
        }
    }
}

impl ChannelLayout {
    /// Channel count of each layout; a custom layout counts its
    /// channels, truncated to 16 bits.
    pub open spec fn spec_channel_count(self) -> u16 {
        match self {
            ChannelLayout::Mono => 1u16,
            ChannelLayout::Stereo => 2u16,
            ChannelLayout::Surround21 => 3u16,
            ChannelLayout::Surround51 => 6u16,
            ChannelLayout::Surround71 => 8u16,
            ChannelLayout::Custom(channels) => channels@.len() as u16,
        }
    }

    /// Get the number of channels in this layout.
    pub fn channel_count(&self) -> (r: u16)
        ensures
            r == self.spec_channel_count(),
    {
        match self {
            ChannelLayout::Mono => 1,
            ChannelLayout::Stereo => 2,
            ChannelLayout::Surround21 => 3,
            ChannelLayout::Surround51 => 6,
            ChannelLayout::Surround71 => 8,
            ChannelLayout::Custom(channels) => {
                #[verifier::truncate] (channels.len() as u16)
            },
        }
    }

    /// The standard layout for a channel count, where one exists.
    pub open spec fn spec_from_channel_count(count: u16) -> Option<ChannelLayout> {
        match count {
            1u16 => Some(ChannelLayout::Mono),
            2u16 => Some(ChannelLayout::Stereo),
            3u16 => Some(ChannelLayout::Surround21),
            6u16 => Some(ChannelLayout::Surround51),
            8u16 => Some(ChannelLayout::Surround71),
            _ => None,
        }
    }

    /// Create a channel layout from a channel count; counts without a
    /// standard layout yield `None`.
    pub fn from_channel_count(count: u16) -> (r: Option<ChannelLayout>)
        ensures
            r == ChannelLayout::spec_from_channel_count(count),
    {
        match count {
            1 => Some(ChannelLayout::Mono),
            2 => Some(ChannelLayout::Stereo),
            3 => Some(ChannelLayout::Surround21),
            6 => Some(ChannelLayout::Surround51),
            8 => Some(ChannelLayout::Surround71),
            _ => None,
        }
    }

    /// The channels of each layout, in order.
    pub open spec fn spec_channels(self) -> Seq<Channel> {
        match self {
            ChannelLayout::Mono => seq![Channel::Center],
            ChannelLayout::Stereo => seq![Channel::Left, Channel::Right],
            ChannelLayout::Surround21 => seq![Channel::Left, Channel::Right, Channel::LFE],
            ChannelLayout::Surround51 => seq![
                Channel::Left,
                Channel::Right,
                Channel::Center,
                Channel::LFE,
                Channel::LeftSurround,
                Channel::RightSurround,
            ],
            ChannelLayout::Surround71 => seq![
                Channel::Left,
                Channel::Right,
                Channel::Center,
                Channel::LFE,
                Channel::LeftSurround,
                Channel::RightSurround,
                Channel::LeftBack,
                Channel::RightBack,
            ],
            ChannelLayout::Custom(channels) => channels@,
        }
    }

    /// Get the channels in this layout, in order.
    pub fn channels(&self) -> (r: Vec<Channel>)
        ensures
            r@ == self.spec_channels(),
    {
        match self {
            ChannelLayout::Mono => {
                let r = vec![Channel::Center];
                assert(r@ =~= self.spec_channels());
                r
            },
            ChannelLayout::Stereo => {
                let r = vec![Channel::Left, Channel::Right];
                assert(r@ =~= self.spec_channels());
                r
            },
            ChannelLayout::Surround21 => {
                let r = vec![Channel::Left, Channel::Right, Channel::LFE];
                assert(r@ =~= self.spec_channels());
                r
            },
            ChannelLayout::Surround51 => {
                let r = vec![
                    Channel::Left,
                    Channel::Right,
                    Channel::Center,
                    Channel::LFE,
                    Channel::LeftSurround,
                    Channel::RightSurround,
                ];
                assert(r@ =~= self.spec_channels());
                r
            },
            ChannelLayout::Surround71 => {
                let r = vec![
                    Channel::Left,
                    Channel::Right,
                    Channel::Center,
                    Channel::LFE,
                    Channel::LeftSurround,
                    Channel::RightSurround,
                    Channel::LeftBack,
                    Channel::RightBack,
                ];
                assert(r@ =~= self.spec_channels());
                r
            },
            ChannelLayout::Custom(channels) => clone_channels(channels),
        }
    }
}

/// Element-wise copy of a channel list.
fn clone_channels(channels: &Vec<Channel>) -> (r: Vec<Channel>)
    ensures
        r@ == channels@,
{
    let mut r: Vec<Channel> = Vec::new();
    let mut i: usize = 0;
    while i < channels.len()
        invariant
            i <= channels.len(),
            r@ =~= channels@.take(i as int),
        decreases channels.len() - i,
    {
        r.push(channels[i].clone());
        i += 1;
    }
    assert(r@ =~= channels@);
    r
}

/// One speaker position.
#[derive(Debug, PartialEq, Eq)]
pub enum Channel {
    /// Left channel
    Left,
    /// Right channel
    Right,
    /// Center channel
    Center,
    /// Low Frequency Effects (subwoofer)
    LFE,
    /// Left surround channel
    LeftSurround,
    /// Right surround channel
    RightSurround,
    /// Left back channel
    LeftBack,
    /// Right back channel
    RightBack,
    /// Custom channel
    Custom(String),
}

impl Clone for Channel {
    /// A cloned channel equals the original.
    fn clone(&self) -> (res: Channel)
        ensures
            res == *self,
    {
        match self {
            Channel::Left => Channel::Left,
            Channel::Right => Channel::Right,
            Channel::Center => Channel::Center,
            Channel::LFE => Channel::LFE,
            Channel::LeftSurround => Channel::LeftSurround,
            Channel::RightSurround => Channel::RightSurround,
            Channel::LeftBack => Channel::LeftBack,
            Channel::RightBack => Channel::RightBack,
            Channel::Custom(name) => Channel::Custom(name.clone()),
        }
    }
}

impl Channel {
    /// Short label for the channel, as printed in diagnostics.
    pub fn label(&self) -> String {
        match self {
            Channel::Left => String::from_str("L"),
            Channel::Right => String::from_str("R"),
            Channel::Center => String::from_str("C"),
            Channel::LFE => String::from_str("LFE"),
            Channel::LeftSurround => String::from_str("LS"),
            Channel::RightSurround => String::from_str("RS"),
            Channel::LeftBack => String::from_str("LB"),
            Channel::RightBack => String::from_str("RB"),
            Channel::Custom(name) => name.clone(),
        }
    }
}

/// Reasons a format is rejected.
#[derive(Debug, Clone, Copy, PartialEq, Eq, Structural)]
pub enum FormatError {
    /// Invalid sample rate provided
    InvalidSampleRate(u32),
    /// Invalid channel count provided
    InvalidChannelCount(u16),
    /// Unsupported sample format for this operation
    UnsupportedSampleFormat(SampleFormat),
    /// Audio formats are not compatible
    IncompatibleFormats,
}

/// A format is valid when the sample rate lies in (0, 192000] and the
/// channel count in [1, 32].
pub open spec fn spec_format_valid(format: AudioFormat) -> bool {
    &&& 0 < format.sample_rate <= 192000
    &&& 0 < format.channels <= 32
}

/// Validate an audio format: rejects a sample rate outside (0, 192000]
/// and then a channel count outside [1, 32]; accepts everything else.
pub fn validate_format(format: &AudioFormat) -> (r: Result<(), FormatError>)
    ensures
        r is Ok <==> spec_format_valid(*format),
        (format.sample_rate == 0 || format.sample_rate > 192000) ==> r
            == Err::<(), FormatError>(FormatError::InvalidSampleRate(format.sample_rate)),
        (0 < format.sample_rate <= 192000 && (format.channels == 0 || format.channels > 32))
            ==> r == Err::<(), FormatError>(FormatError::InvalidChannelCount(format.channels)),
{
    if format.sample_rate == 0 || format.sample_rate > 192000 {
        return Err(FormatError::InvalidSampleRate(format.sample_rate));
    }
    if format.channels == 0 || format.channels > 32 {
        return Err(FormatError::InvalidChannelCount(format.channels));
    }
    Ok(())
}

} // verus!
