//! Fixed buffer of decoded audio.
//!
//! A fully decoded track lives in one of these: canonical samples (held
//! as their 64-bit patterns, as in the ring buffer), interleaved by
//! channel, with the frame count alongside.

use vstd::prelude::*;
use crate::audio::format::AudioFormat;

verus! {

/// Audio buffer for storing decoded audio data.
#[derive(Debug)]
pub struct AudioBuffer {
    /// Interleaved samples, one 64-bit pattern each.
    data: Vec<u64>,
    /// Audio format specification
    format: AudioFormat,
    /// Number of frames (samples per channel)
    frames: usize,
}

impl AudioBuffer {
    /// Structural invariant: a nonzero channel count, and a whole
    /// number of frames within the data.
    pub closed spec fn well_formed(&self) -> bool {
        &&& self.format.channels > 0
        &&& self.frames == self.data@.len() as int / self.format.channels as int
    }

    /// The samples, interleaved.
    pub closed spec fn spec_data(&self) -> Seq<u64> {
        self.data@
    }

    /// The buffer's format.
    pub closed spec fn spec_format(&self) -> AudioFormat {
        self.format
    }

    /// The number of frames.
    pub closed spec fn spec_frames(&self) -> int {
        self.frames as int
    }

    /// Create a silent buffer of `frames` frames.
    pub fn new(format: AudioFormat, frames: usize) -> (r: AudioBuffer)
        requires
            format.channels > 0,
            frames * format.channels <= usize::MAX,
        ensures
            r.well_formed(),
            r.spec_frames() == frames,
            r.spec_format() == format,
            r.spec_data().len() == frames * format.channels,
            forall|i: int| 0 <= i < r.spec_data().len() ==> r.spec_data()[i] == 0u64,
    {
        let total: usize = frames * format.channels as usize;
        let mut data: Vec<u64> = Vec::new();
        let mut i: usize = 0;
        while i < total
            invariant
                i <= total,
                data@.len() == i,
                forall|j: int| 0 <= j < i ==> data@[j] == 0u64,
            decreases total - i,
        {
            data.push(0);
            i += 1;
        }
        proof {
            assert(data@.len() == frames * format.channels);
            vstd::arithmetic::div_mod::lemma_div_multiples_vanish(
                frames as int,
                format.channels as int,
            );
            assert(frames as int * format.channels as int == format.channels as int
                * frames as int) by (nonlinear_arith);
            assert(frames as int == data@.len() as int / format.channels as int);
        }
        AudioBuffer { data, format, frames }
    }

    /// Create a buffer over existing samples; whatever does not fill a
    /// whole frame at the end is not counted as one.
    pub fn with_data(format: AudioFormat, data: Vec<u64>) -> (r: AudioBuffer)
        requires
            format.channels > 0,
        ensures
            r.well_formed(),
            r.spec_format() == format,
            r.spec_data() == data@,
            r.spec_frames() == data@.len() as int / format.channels as int,
    {
        let frames: usize = data.len() / format.channels as usize;
        AudioBuffer { data, format, frames }
    }

    /// Get the audio format.
    pub fn format(&self) -> (r: &AudioFormat)
        ensures
            *r == self.spec_format(),
    {
        &self.format
    }

    /// Get the number of frames.
    pub fn frames(&self) -> (r: usize)
        ensures
            r == self.spec_frames(),
    {
        self.frames
    }

    /// Get the total number of samples.
    pub fn samples(&self) -> (r: usize)
        ensures
            r == self.spec_data().len(),
    {
        self.data.len()
    }

    /// Get the interleaved samples.
    pub fn data(&self) -> (r: &Vec<u64>)
        ensures
            r@ == self.spec_data(),
    {
        &self.data
    }

    /// Check if the buffer is empty.
    pub fn is_empty(&self) -> (r: bool)
        ensures
            r == (self.spec_data().len() == 0),
    {
        self.data.len() == 0
    }

    /// Get the samples of one channel: every frame's sample at that
    /// channel position, in frame order; `None` for a channel the
    /// format does not have.
    pub fn channel_data(&self, channel: usize) -> (r: Option<Vec<u64>>)
        requires
            self.well_formed(),
        ensures
            r is Some <==> channel < self.spec_format().channels,
            r matches Some(v) ==> {
                &&& v@.len() == self.spec_frames()
                &&& forall|f: int|
                    0 <= f < v@.len() ==> v@[f] == self.spec_data()[f * self.spec_format().channels
                        + channel]
            },
    {
        let channels: usize = self.format.channels as usize;
        if channel >= channels {
            return None;
        }
        let data_len: usize = self.data.len();
        let mut out: Vec<u64> = Vec::new();
        let mut f: usize = 0;
        while f < self.frames
            invariant
                f <= self.frames,
                self.well_formed(),
                channel < self.format.channels,
                channels == self.format.channels,
                data_len == self.spec_data().len(),
                out@.len() == f,
                forall|j: int|
                    0 <= j < f ==> out@[j] == self.spec_data()[j * self.format.channels + channel],
            decreases self.frames - f,
        {
            proof {
                vstd::arithmetic::mul::lemma_mul_inequality(
                    f + 1,
                    self.frames as int,
                    channels as int,
                );
                vstd::arithmetic::div_mod::lemma_remainder_lower(
                    self.data@.len() as int,
                    channels as int,
                );
                vstd::arithmetic::mul::lemma_mul_is_distributive_add_other_way(
                    channels as int,
                    f as int,
                    1,
                );
                vstd::arithmetic::mul::lemma_mul_inequality(f as int, f + 1, channels as int);
            }
            let index: usize = f * channels + channel;
            out.push(self.data[index]);
            f += 1;
        }
        Some(out)
    }

    /// Cut out `frame_count` frames starting at `start_frame`, as a
    /// buffer of its own; `None` when the range does not lie within
    /// the frames.
    pub fn slice(&self, start_frame: usize, frame_count: usize) -> (r: Option<AudioBuffer>)
        requires
            self.well_formed(),
        ensures
            r is Some <==> (start_frame < self.spec_frames() && start_frame + frame_count
                <= self.spec_frames()),
            r matches Some(b) ==> {
                &&& b.well_formed()
                &&& b.spec_frames() == frame_count
                &&& b.spec_format().sample_rate == self.spec_format().sample_rate
                &&& b.spec_format().channels == self.spec_format().channels
                &&& b.spec_format().sample_format == self.spec_format().sample_format
                &&& b.spec_data() == self.spec_data().subrange(
                    start_frame * self.spec_format().channels as int,
                    (start_frame + frame_count) * self.spec_format().channels as int,
                )
            },
    {
        if start_frame >= self.frames || frame_count > self.frames - start_frame {
            return None;
        }
        let channels: usize = self.format.channels as usize;
        let data_len: usize = self.data.len();
        proof {
            vstd::arithmetic::mul::lemma_mul_inequality(
                start_frame + frame_count,
                self.frames as int,
                channels as int,
            );
            vstd::arithmetic::div_mod::lemma_remainder_lower(
                self.data@.len() as int,
                channels as int,
            );
            vstd::arithmetic::mul::lemma_mul_inequality(
                start_frame as int,
                start_frame + frame_count,
                channels as int,
            );
            vstd::arithmetic::mul::lemma_mul_is_distributive_add_other_way(
                channels as int,
                start_frame as int,
                frame_count as int,
            );
        }
        let start_sample: usize = start_frame * channels;
        let end_sample: usize = start_sample + frame_count * channels;
        let mut out: Vec<u64> = Vec::new();
        let mut i: usize = start_sample;
        while i < end_sample
            invariant
                start_sample <= i <= end_sample,
                end_sample <= self.data@.len(),
                out@.len() == i - start_sample,
                forall|j: int|
                    0 <= j < out@.len() ==> out@[j] == self.spec_data()[start_sample + j],
            decreases end_sample - i,
        {
            out.push(self.data[i]);
            i += 1;
        }
        proof {
            assert(out@ =~= self.spec_data().subrange(
                start_sample as int,
                end_sample as int,
            ));
            vstd::arithmetic::div_mod::lemma_div_multiples_vanish(
                frame_count as int,
                channels as int,
            );
        }
        let result = AudioBuffer {
            data: out,
            format: self.format.clone(),
            frames: frame_count,
        };
        Some(result)
    }
}

} // verus!
