//! Fixed-capacity ring buffer for canonical audio samples.
//!
//! The buffer is the channel between a decoding producer and a real-time
//! consumer.  Samples live in the canonical 64-bit domain; the buffer
//! stores each one by its bit pattern, so a sample is a plain `u64` here
//! and silence is the pattern `0`.  One slot is always kept empty to
//! tell a full buffer from an empty one, so at every point
//! `available_read + available_write == capacity - 1`.

use vstd::prelude::*;
use crate::audio::format::{AudioFormat, opt_layout_equiv};

verus! {

/// Largest capacity in samples: 100 MiB of 8-byte samples.
pub const MAX_CAPACITY_SAMPLES: u64 = 13107200;

/// Configuration for ring buffer creation.
#[derive(Debug)]
pub struct RingBufferConfig {
    /// Buffer length in milliseconds (100 ms to 30 s).
    pub buffer_duration_ms: u64,
    /// Audio format
    pub format: AudioFormat,
    /// Whether to allow overwriting old data when buffer is full
    pub allow_overwrite: bool,
    /// Fill level, in thousandths of the capacity, below which the
    /// buffer counts as near underrun.
    pub underrun_threshold_permille: u32,
}

impl Clone for RingBufferConfig {
    /// A cloned configuration keeps every setting.
    fn clone(&self) -> (res: RingBufferConfig)
        ensures
            res.buffer_duration_ms == self.buffer_duration_ms,
            res.allow_overwrite == self.allow_overwrite,
            res.underrun_threshold_permille == self.underrun_threshold_permille,
            res.format.sample_rate == self.format.sample_rate,
            res.format.channels == self.format.channels,
            res.format.sample_format == self.format.sample_format,
            opt_layout_equiv(res.format.channel_layout, self.format.channel_layout),
    {
        RingBufferConfig {
            buffer_duration_ms: self.buffer_duration_ms,
            format: self.format.clone(),
            allow_overwrite: self.allow_overwrite,
            underrun_threshold_permille: self.underrun_threshold_permille,
        }
    }
}

impl RingBufferConfig {
    /// Samples the buffer holds: duration times rate, whole milliseconds
    /// of frames, times the channel count.
    pub open spec fn spec_total_samples(self) -> int {
        self.buffer_duration_ms * self.format.sample_rate / 1000 * self.format.channels
    }

    /// Every condition under which a configuration is accepted.
    pub open spec fn spec_valid(self) -> bool {
        &&& 100 <= self.buffer_duration_ms <= 30000
        &&& self.format.sample_rate > 0
        &&& self.format.channels > 0
        &&& 2 <= self.spec_total_samples() <= MAX_CAPACITY_SAMPLES
    }

    /// Create a new ring buffer configuration; rejects a duration under
    /// 0.1 s or over 30 s.
    pub fn new(buffer_duration_ms: u64, format: AudioFormat, allow_overwrite: bool) -> (r: Result<
        RingBufferConfig,
        String,
    >)
        ensures
            r is Ok <==> 100 <= buffer_duration_ms <= 30000,
            r matches Ok(c) ==> {
                &&& c.buffer_duration_ms == buffer_duration_ms
                &&& c.format == format
                &&& c.allow_overwrite == allow_overwrite
                &&& c.underrun_threshold_permille == 100
            },
    {
        if buffer_duration_ms < 100 {
            return Err(String::from_str("Buffer duration must be at least 0.1 seconds"));
        }
        if buffer_duration_ms > 30000 {
            return Err(String::from_str("Buffer duration must not exceed 30 seconds"));
        }
        Ok(
            RingBufferConfig {
                buffer_duration_ms,
                format,
                allow_overwrite,
                underrun_threshold_permille: 100,
            },
        )
    }

    /// Configuration optimized for low latency (half a second).
    pub fn low_latency(format: AudioFormat) -> (r: RingBufferConfig)
        ensures
            r.buffer_duration_ms == 500,
            r.format == format,
            !r.allow_overwrite,
            r.underrun_threshold_permille == 100,
    {
        RingBufferConfig {
            buffer_duration_ms: 500,
            format,
            allow_overwrite: false,
            underrun_threshold_permille: 100,
        }
    }

    /// Configuration optimized for standard playback (2.5 seconds).
    pub fn standard(format: AudioFormat) -> (r: RingBufferConfig)
        ensures
            r.buffer_duration_ms == 2500,
            r.format == format,
            !r.allow_overwrite,
            r.underrun_threshold_permille == 100,
    {
        RingBufferConfig {
            buffer_duration_ms: 2500,
            format,
            allow_overwrite: false,
            underrun_threshold_permille: 100,
        }
    }

    /// Configuration tolerant of high latency (4.5 seconds).
    pub fn high_latency(format: AudioFormat) -> (r: RingBufferConfig)
        ensures
            r.buffer_duration_ms == 4500,
            r.format == format,
            !r.allow_overwrite,
            r.underrun_threshold_permille == 100,
    {
        RingBufferConfig {
            buffer_duration_ms: 4500,
            format,
            allow_overwrite: false,
            underrun_threshold_permille: 100,
        }
    }

    /// Get the total buffer size in samples.
    pub fn total_samples(&self) -> (r: u64)
        requires
            self.buffer_duration_ms <= 30000,
        ensures
            r == self.spec_total_samples(),
            r <= 0x20_0000_0000_0000,
    {
        proof {
            vstd::arithmetic::mul::lemma_mul_upper_bound(
                self.buffer_duration_ms as int,
                30000,
                self.format.sample_rate as int,
                0xFFFF_FFFF,
            );
        }
        let frame_ms_product: u64 = self.buffer_duration_ms * self.format.sample_rate as u64;
        let frames: u64 = frame_ms_product / 1000;
        proof {
            vstd::arithmetic::div_mod::lemma_div_is_ordered(
                frame_ms_product as int,
                30000int * 0xFFFF_FFFF,
                1000,
            );
            vstd::arithmetic::mul::lemma_mul_upper_bound(
                frames as int,
                0x1E_0000_0000,
                self.format.channels as int,
                65535,
            );
        }
        frames * self.format.channels as u64
    }

    /// Get the buffer size in bytes: eight bytes for each sample.
    pub fn buffer_size_bytes(&self) -> (r: u64)
        requires
            self.buffer_duration_ms <= 30000,
        ensures
            r == self.spec_total_samples() * 8,
    {
        self.total_samples() * 8
    }

    /// Validate the configuration: duration in [0.1 s, 30 s], a nonzero
    /// rate and channel count, at least two samples of capacity, and at
    /// most 100 MB of backing memory.
    pub fn validate(&self) -> (r: Result<(), String>)
        ensures
            r is Ok <==> self.spec_valid(),
    {
        if self.buffer_duration_ms < 100 {
            return Err(String::from_str("Buffer duration must be at least 0.1 seconds"));
        }
        if self.buffer_duration_ms > 30000 {
            return Err(String::from_str("Buffer duration must not exceed 30 seconds"));
        }
        if self.format.sample_rate == 0 {
            return Err(String::from_str("Sample rate must be greater than 0"));
        }
        if self.format.channels == 0 {
            return Err(String::from_str("Channel count must be greater than 0"));
        }
        let total: u64 = self.total_samples();
        if total * 8 > MAX_CAPACITY_SAMPLES * 8 {
            return Err(String::from_str("Buffer size exceeds maximum allowed (100 MB)"));
        }
        if total < 2 {
            return Err(String::from_str("Buffer must hold at least 2 samples"));
        }
        Ok(())
    }
}

impl Default for RingBufferConfig {
    /// The standard configuration over the default format.
    fn default() -> (r: RingBufferConfig)
        ensures
            r.buffer_duration_ms == 2500,
            !r.allow_overwrite,
            r.underrun_threshold_permille == 100,
            r.format.sample_rate == 44100,
            r.format.channels == 2,
    {
        RingBufferConfig::standard(AudioFormat::default())
    }
}

/// Fixed-capacity circular buffer of canonical samples (held as their
/// 64-bit patterns).  Its view is the sequence of samples written but
/// not yet read, oldest first.
#[derive(Debug)]
pub struct AudioRingBuffer {
    /// Backing store; its length never changes after construction.
    buffer: Vec<u64>,
    /// Capacity in samples; equals the backing store's length.
    capacity: usize,
    /// Next slot to write (producer cursor).
    write_pos: usize,
    /// Next slot to read (consumer cursor).
    read_pos: usize,
    /// Format of the samples that travel through the buffer.
    format: AudioFormat,
    /// How often `check_health` found the fill level under the
    /// threshold.
    underruns: u64,
}

impl View for AudioRingBuffer {
    type V = Seq<u64>;

    /// The readable contents, oldest sample first.
    closed spec fn view(&self) -> Seq<u64> {
        Seq::new(
            self.spec_available_read() as nat,
            |i: int| self.buffer@[self.spec_slot(i)],
        )
    }
}

impl AudioRingBuffer {
    /// Slot index of the sample `off` places after the read cursor.
    closed spec fn spec_slot(&self, off: int) -> int {
        if self.read_pos + off < self.capacity {
            self.read_pos + off
        } else {
            self.read_pos + off - self.capacity
        }
    }

    /// Structural invariant: cursors in range, capacity matching the
    /// backing store and within the memory ceiling.
    pub closed spec fn well_formed(&self) -> bool {
        &&& self.buffer@.len() == self.capacity
        &&& 2 <= self.capacity <= MAX_CAPACITY_SAMPLES
        &&& self.write_pos < self.capacity
        &&& self.read_pos < self.capacity
    }

    /// Number of samples available to read.
    pub closed spec fn spec_available_read(&self) -> int {
        if self.write_pos >= self.read_pos {
            self.write_pos - self.read_pos
        } else {
            self.capacity - self.read_pos + self.write_pos
        }
    }

    /// Number of samples available to write.
    pub closed spec fn spec_available_write(&self) -> int {
        if self.write_pos >= self.read_pos {
            self.capacity - 1 - (self.write_pos - self.read_pos)
        } else {
            self.read_pos - self.write_pos - 1
        }
    }

    /// Capacity in samples.
    pub closed spec fn spec_capacity(&self) -> int {
        self.capacity as int
    }

    /// Format of the samples that travel through the buffer.
    pub closed spec fn spec_format(&self) -> AudioFormat {
        self.format
    }

    /// Cumulative underrun count.
    pub closed spec fn spec_underrun_count(&self) -> u64 {
        self.underruns
    }

    /// However the cursors stand, the readable and writable counts sum
    /// to one less than the capacity: one slot is always kept empty.
    pub proof fn lemma_available_conservation(&self)
        requires
            self.well_formed(),
        ensures
            self.spec_available_read() + self.spec_available_write() == self.spec_capacity() - 1,
    {
    }

    /// Data fidelity: a write appends the written samples to the
    /// readable contents, and reads return the readable contents from
    /// the front.  So once the samples that stood before a write are
    /// consumed, the very next samples read are exactly the written
    /// ones, in order, wherever the cursors stood when the write
    /// happened.
    pub proof fn lemma_data_fidelity(before: Seq<u64>, written: Seq<u64>)
        ensures
            (before + written).skip(before.len() as int) == written,
    {
        assert((before + written).skip(before.len() as int) =~= written);
    }

    /// Create a new ring buffer with the specified configuration; the
    /// buffer starts empty.
    pub fn new(config: RingBufferConfig) -> (r: Result<AudioRingBuffer, String>)
        ensures
            r is Ok <==> config.spec_valid(),
            r matches Ok(rb) ==> {
                &&& rb.well_formed()
                &&& rb.spec_capacity() == config.spec_total_samples()
                &&& rb@ == Seq::<u64>::empty()
                &&& rb.spec_available_read() == 0
                &&& rb.spec_available_write() == rb.spec_capacity() - 1
                &&& rb.spec_format() == config.format
                &&& rb.spec_underrun_count() == 0
            },
    {
        match config.validate() {
            Ok(()) => {},
            Err(e) => {
                return Err(e);
            },
        }
        let total64: u64 = config.total_samples();
        let total: usize = total64 as usize;
        let mut buffer: Vec<u64> = Vec::new();
        let mut i: usize = 0;
        while i < total
            invariant
                i <= total,
                buffer@.len() == i,
            decreases total - i,
        {
            buffer.push(0);
            i += 1;
        }
        let rb = AudioRingBuffer {
            buffer,
            capacity: total,
            write_pos: 0,
            read_pos: 0,
            format: config.format,
            underruns: 0,
        };
        proof {
            assert(rb@ =~= Seq::<u64>::empty());
        }
        Ok(rb)
    }

    /// Get the buffer capacity in samples.
    pub fn capacity(&self) -> (r: usize)
        requires
            self.well_formed(),
        ensures
            r == self.spec_capacity(),
    {
        self.capacity
    }

    /// Get the audio format.
    pub fn format(&self) -> (r: &AudioFormat)
        ensures
            *r == self.spec_format(),
    {
        &self.format
    }

    /// Get the number of samples available for reading.
    pub fn available_read(&self) -> (r: usize)
        requires
            self.well_formed(),
        ensures
            r == self.spec_available_read(),
            r == self@.len(),
    {
        if self.write_pos >= self.read_pos {
            self.write_pos - self.read_pos
        } else {
            self.capacity - self.read_pos + self.write_pos
        }
    }

    /// Get the number of samples available for writing; one slot stays
    /// empty to distinguish full from empty.
    pub fn available_write(&self) -> (r: usize)
        requires
            self.well_formed(),
        ensures
            r == self.spec_available_write(),
            r == self.spec_capacity() - 1 - self@.len(),
    {
        self.capacity - self.available_read() - 1
    }

    /// Check if the buffer is empty.
    pub fn is_empty(&self) -> (r: bool)
        requires
            self.well_formed(),
        ensures
            r == (self@.len() == 0),
    {
        self.available_read() == 0
    }

    /// Check if the buffer is full.
    pub fn is_full(&self) -> (r: bool)
        requires
            self.well_formed(),
        ensures
            r == (self@.len() == self.spec_capacity() - 1),
    {
        self.available_write() == 0
    }

    /// Copy the first `n` samples of `samples` into the free region and
    /// advance the write cursor over them.
    fn copy_in(&mut self, samples: &Vec<u64>, n: usize)
        requires
            old(self).well_formed(),
            n <= samples@.len(),
            n <= old(self).spec_available_write(),
        ensures
            final(self).well_formed(),
            final(self)@ == old(self)@ + samples@.take(n as int),
            final(self).spec_available_read() == old(self).spec_available_read() + n,
            final(self).spec_capacity() == old(self).spec_capacity(),
            final(self).spec_format() == old(self).spec_format(),
            final(self).spec_underrun_count() == old(self).spec_underrun_count(),
    {
        let ghost avail0 = old(self).spec_available_read();
        let cap: usize = self.capacity;
        let mut pos: usize = self.write_pos;
        let mut i: usize = 0;
        while i < n
            invariant
                i <= n,
                n <= samples@.len(),
                cap == self.capacity,
                self.well_formed(),
                self.capacity == old(self).capacity,
                self.write_pos == old(self).write_pos,
                self.read_pos == old(self).read_pos,
                self.format == old(self).format,
                self.underruns == old(self).underruns,
                avail0 == self.spec_available_read(),
                avail0 + n <= cap - 1,
                pos == self.spec_slot(avail0 + i),
                forall|j: int|
                    0 <= j < i ==> self.buffer@[self.spec_slot(avail0 + j)] == samples@[j],
                forall|off: int|
                    0 <= off < cap && !(avail0 <= off < avail0 + i) ==> self.buffer@[
                        self.spec_slot(off)
                    ] == old(self).buffer@[old(self).spec_slot(off)],
            decreases n - i,
        {
            self.buffer.set(pos, samples[i]);
            i += 1;
            pos += 1;
            if pos == cap {
                pos = 0;
            }
        }
        let mut new_wp: usize = self.write_pos + n;
        if new_wp >= cap {
            new_wp -= cap;
        }
        self.write_pos = new_wp;
        proof {
            assert(self.spec_available_read() == avail0 + n);
            assert forall|k: int| 0 <= k < avail0 + n implies self@[k] == (old(self)@
                + samples@.take(n as int))[k] by {
                if k < avail0 {
                } else {
                }
            }
            assert(self@ =~= old(self)@ + samples@.take(n as int));
        }
    }

    /// Advance the read cursor over `n` samples without copying them.
    fn advance_read(&mut self, n: usize)
        requires
            old(self).well_formed(),
            n <= old(self).spec_available_read(),
        ensures
            final(self).well_formed(),
            final(self)@ == old(self)@.skip(n as int),
            final(self).spec_available_read() == old(self).spec_available_read() - n,
            final(self).spec_capacity() == old(self).spec_capacity(),
            final(self).spec_format() == old(self).spec_format(),
            final(self).spec_underrun_count() == old(self).spec_underrun_count(),
    {
        let cap: usize = self.capacity;
        let mut new_rp: usize = self.read_pos + n;
        if new_rp >= cap {
            new_rp -= cap;
        }
        self.read_pos = new_rp;
        proof {
            assert(self.spec_available_read() == old(self).spec_available_read() - n);
            assert forall|k: int|
                0 <= k < self.spec_available_read() implies self@[k] == old(self)@.skip(
                n as int,
            )[k] by {
                assert(self.spec_slot(k) == old(self).spec_slot(n + k));
            }
            assert(self@ =~= old(self)@.skip(n as int));
        }
    }

    /// Copy the first `n` readable samples into the front of `output`,
    /// leaving the cursors alone.
    fn copy_out(&self, output: &mut Vec<u64>, n: usize)
        requires
            self.well_formed(),
            n <= old(output)@.len(),
            n <= self.spec_available_read(),
        ensures
            final(output)@.len() == old(output)@.len(),
            forall|i: int| 0 <= i < n ==> final(output)@[i] == self@[i],
            forall|i: int|
                n <= i < old(output)@.len() ==> final(output)@[i] == old(output)@[i],
    {
        let cap: usize = self.capacity;
        let mut pos: usize = self.read_pos;
        let mut i: usize = 0;
        while i < n
            invariant
                i <= n,
                n <= output@.len(),
                output@.len() == old(output)@.len(),
                self.well_formed(),
                cap == self.capacity,
                n <= self.spec_available_read(),
                pos == self.spec_slot(i as int),
                forall|j: int| 0 <= j < i ==> output@[j] == self@[j],
                forall|j: int| i <= j < output@.len() ==> output@[j] == old(output)@[j],
            decreases n - i,
        {
            let v: u64 = self.buffer[pos];
            output.set(i, v);
            i += 1;
            pos += 1;
            if pos == cap {
                pos = 0;
            }
        }
    }

    /// Write samples to the ring buffer, as many as fit; returns the
    /// number of samples actually written.  The written prefix of
    /// `samples` is appended to the readable contents; the call never
    /// blocks and never drops data already in the buffer.
    pub fn write(&mut self, samples: &Vec<u64>) -> (n: usize)
        requires
            old(self).well_formed(),
        ensures
            final(self).well_formed(),
            n == if samples@.len() <= old(self).spec_available_write() {
                samples@.len() as int
            } else {
                old(self).spec_available_write()
            },
            final(self)@ == old(self)@ + samples@.take(n as int),
            final(self).spec_capacity() == old(self).spec_capacity(),
            final(self).spec_format() == old(self).spec_format(),
            final(self).spec_underrun_count() == old(self).spec_underrun_count(),
    {
        let available: usize = self.available_write();
        let to_write: usize = if samples.len() < available {
            samples.len()
        } else {
            available
        };
        self.copy_in(samples, to_write);
        to_write
    }

    /// Write samples, overwriting the oldest unread samples when the
    /// buffer would otherwise be full; writes up to `capacity - 1`
    /// samples.  The readable contents afterwards are the last
    /// `capacity - 1` (at most) samples of the old contents followed by
    /// the written prefix.
    pub fn write_overwrite(&mut self, samples: &Vec<u64>) -> (n: usize)
        requires
            old(self).well_formed(),
        ensures
            final(self).well_formed(),
            n == if samples@.len() <= old(self).spec_capacity() - 1 {
                samples@.len() as int
            } else {
                old(self).spec_capacity() - 1
            },
            ({
                let dropped = if old(self)@.len() + n > old(self).spec_capacity() - 1 {
                    old(self)@.len() + n - (old(self).spec_capacity() - 1)
                } else {
                    0
                };
                final(self)@ == (old(self)@ + samples@.take(n as int)).skip(dropped)
            }),
            final(self).spec_capacity() == old(self).spec_capacity(),
            final(self).spec_format() == old(self).spec_format(),
            final(self).spec_underrun_count() == old(self).spec_underrun_count(),
    {
        let cap: usize = self.capacity;
        let to_write: usize = if samples.len() < cap - 1 {
            samples.len()
        } else {
            cap - 1
        };
        let available: usize = self.available_write();
        let ghost view0 = self@;
        if to_write > available {
            let drop_count: usize = to_write - available;
            self.advance_read(drop_count);
            proof {
                assert(self@ == view0.skip(drop_count as int));
            }
        }
        let ghost view1 = self@;
        self.copy_in(samples, to_write);
        proof {
            let n = to_write as int;
            let dropped = if view0.len() + n > old(self).spec_capacity() - 1 {
                view0.len() + n - (old(self).spec_capacity() - 1)
            } else {
                0int
            };
            assert(self@ =~= (view0 + samples@.take(n)).skip(dropped));
        }
        to_write
    }

    /// Read samples from the ring buffer into the front of `output`;
    /// returns the number of samples actually read.  The samples read
    /// are the oldest readable ones, in write order, and are consumed;
    /// the rest of `output` is left as it was.
    pub fn read(&mut self, output: &mut Vec<u64>) -> (n: usize)
        requires
            old(self).well_formed(),
        ensures
            final(self).well_formed(),
            n == if old(output)@.len() <= old(self)@.len() {
                old(output)@.len() as int
            } else {
                old(self)@.len() as int
            },
            final(output)@.len() == old(output)@.len(),
            forall|i: int| 0 <= i < n ==> final(output)@[i] == old(self)@[i],
            forall|i: int|
                n <= i < old(output)@.len() ==> final(output)@[i] == old(output)@[i],
            final(self)@ == old(self)@.skip(n as int),
            final(self).spec_capacity() == old(self).spec_capacity(),
            final(self).spec_format() == old(self).spec_format(),
            final(self).spec_underrun_count() == old(self).spec_underrun_count(),
    {
        let available: usize = self.available_read();
        let to_read: usize = if output.len() < available {
            output.len()
        } else {
            available
        };
        self.copy_out(output, to_read);
        self.advance_read(to_read);
        to_read
    }

    /// Read samples and fill any shortfall with silence; always fills
    /// and reports the whole of `output`.  The first samples are the
    /// readable contents (which are consumed), the rest are zeros.
    pub fn read_with_silence(&mut self, output: &mut Vec<u64>) -> (r: usize)
        requires
            old(self).well_formed(),
        ensures
            final(self).well_formed(),
            r == old(output)@.len(),
            final(output)@.len() == old(output)@.len(),
            ({
                let k = if old(output)@.len() <= old(self)@.len() {
                    old(output)@.len() as int
                } else {
                    old(self)@.len() as int
                };
                &&& forall|i: int| 0 <= i < k ==> final(output)@[i] == old(self)@[i]
                &&& forall|i: int| k <= i < old(output)@.len() ==> final(output)@[i] == 0u64
                &&& final(self)@ == old(self)@.skip(k)
            }),
            final(self).spec_capacity() == old(self).spec_capacity(),
            final(self).spec_format() == old(self).spec_format(),
            final(self).spec_underrun_count() == old(self).spec_underrun_count(),
    {
        let read_count: usize = self.read(output);
        let len: usize = output.len();
        let mut i: usize = read_count;
        while i < len
            invariant
                read_count <= i <= len,
                output@.len() == len,
                forall|j: int| 0 <= j < read_count ==> output@[j] == old(self)@[j],
                forall|j: int| read_count <= j < i ==> output@[j] == 0u64,
            decreases len - i,
        {
            output.set(i, 0);
            i += 1;
        }
        len
    }

    /// Peek at the oldest readable samples without consuming them;
    /// returns how many were copied into the front of `output`.
    pub fn peek(&self, output: &mut Vec<u64>) -> (n: usize)
        requires
            self.well_formed(),
        ensures
            n == if old(output)@.len() <= self@.len() {
                old(output)@.len() as int
            } else {
                self@.len() as int
            },
            final(output)@.len() == old(output)@.len(),
            forall|i: int| 0 <= i < n ==> final(output)@[i] == self@[i],
            forall|i: int|
                n <= i < old(output)@.len() ==> final(output)@[i] == old(output)@[i],
    {
        let available: usize = self.available_read();
        let to_peek: usize = if output.len() < available {
            output.len()
        } else {
            available
        };
        self.copy_out(output, to_peek);
        to_peek
    }

    /// Skip samples without reading them; returns how many were
    /// discarded.
    pub fn skip(&mut self, count: usize) -> (n: usize)
        requires
            old(self).well_formed(),
        ensures
            final(self).well_formed(),
            n == if count <= old(self)@.len() {
                count as int
            } else {
                old(self)@.len() as int
            },
            final(self)@ == old(self)@.skip(n as int),
            final(self).spec_capacity() == old(self).spec_capacity(),
            final(self).spec_format() == old(self).spec_format(),
            final(self).spec_underrun_count() == old(self).spec_underrun_count(),
    {
        let available: usize = self.available_read();
        let to_skip: usize = if count < available {
            count
        } else {
            available
        };
        self.advance_read(to_skip);
        to_skip
    }

    /// Whether the fill level is under `threshold_permille` thousandths
    /// of the capacity.
    pub fn is_underrun(&self, threshold_permille: u32) -> (r: bool)
        requires
            self.well_formed(),
        ensures
            r == (self@.len() * 1000 < self.spec_capacity() * threshold_permille),
    {
        let avail: u64 = self.available_read() as u64;
        let cap: u64 = self.capacity as u64;
        proof {
            vstd::arithmetic::mul::lemma_mul_upper_bound(
                avail as int,
                MAX_CAPACITY_SAMPLES as int,
                1000,
                1000,
            );
            vstd::arithmetic::mul::lemma_mul_upper_bound(
                cap as int,
                MAX_CAPACITY_SAMPLES as int,
                threshold_permille as int,
                0xFFFF_FFFF,
            );
        }
        avail * 1000 < cap * threshold_permille as u64
    }

    /// Record the fill level: counts one underrun when the level is
    /// under the threshold.  The counter saturates instead of wrapping.
    pub fn check_health(&mut self, threshold_permille: u32)
        requires
            old(self).well_formed(),
        ensures
            final(self).well_formed(),
            final(self)@ == old(self)@,
            final(self).spec_capacity() == old(self).spec_capacity(),
            final(self).spec_format() == old(self).spec_format(),
            final(self).spec_underrun_count() == if old(self)@.len() * 1000 < old(
                self,
            ).spec_capacity() * threshold_permille && old(self).spec_underrun_count()
                < u64::MAX {
                old(self).spec_underrun_count() + 1
            } else {
                old(self).spec_underrun_count() as int
            },
    {
        if self.is_underrun(threshold_permille) && self.underruns < u64::MAX {
            self.underruns = self.underruns + 1;
        }
    }

    /// Cumulative number of underruns that `check_health` observed.
    pub fn underrun_count(&self) -> (r: u64)
        ensures
            r == self.spec_underrun_count(),
    {
        self.underruns
    }
}

} // verus!
