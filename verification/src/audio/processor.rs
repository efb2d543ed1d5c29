//! Sample-processing support: dither state and the byte framing of PCM
//! streams.
//!
//! The arithmetic that maps samples into the canonical floating-point
//! domain runs outside this library; what stands here is everything the
//! conversions do on plain integers: the deterministic dither generator
//! state and the little-endian (un)packing of each integer encoding.

use vstd::prelude::*;

verus! {

/// Dithering algorithm for bit depth reduction.
#[derive(Debug, Clone, Copy, PartialEq, Eq, Structural)]
pub enum DitheringAlgorithm {
    /// No dithering (truncation)
    Disabled,
    /// Triangular probability density function dithering: the sum of
    /// two uniform draws, the usual choice
    Triangular,
    /// Rectangular dithering (simple uniform noise)
    Rectangular,
}

/// The dither generator's next state: a linear congruential step with
/// the multiplier 1664525 and increment 1013904223, modulo 2^64.
pub open spec fn lcg_next(state: u64) -> u64 {
    ((state * 1664525 + 1013904223) % 0x1_0000_0000_0000_0000) as u64
}

/// Dithering state: the algorithm in use and the generator state that
/// advances deterministically with every draw.
#[derive(Debug, Clone, Copy, PartialEq, Eq, Structural)]
pub struct Ditherer {
    /// Dithering algorithm to use
    algorithm: DitheringAlgorithm,
    /// Deterministic generator state
    rng_state: u64,
}

impl Ditherer {
    /// The algorithm this state dithers with.
    pub closed spec fn spec_algorithm(self) -> DitheringAlgorithm {
        self.algorithm
    }

    /// The generator state.
    pub closed spec fn spec_rng_state(self) -> u64 {
        self.rng_state
    }

    /// Create a new ditherer with the specified algorithm and the fixed
    /// initial seed.
    pub fn new(algorithm: DitheringAlgorithm) -> (r: Ditherer)
        ensures
            r.spec_algorithm() == algorithm,
            r.spec_rng_state() == 0x123456789ABCDEF0u64,
    {
        Ditherer { algorithm, rng_state: 0x123456789ABCDEF0 }
    }

    /// Get the current dithering algorithm.
    pub fn algorithm(&self) -> (r: DitheringAlgorithm)
        ensures
            r == self.spec_algorithm(),
    {
        self.algorithm
    }

    /// Set the dithering algorithm; the generator state is kept.
    pub fn set_algorithm(&mut self, algorithm: DitheringAlgorithm)
        ensures
            final(self).spec_algorithm() == algorithm,
            final(self).spec_rng_state() == old(self).spec_rng_state(),
    {
        self.algorithm = algorithm;
    }

    /// Advance the generator one step and return the new state.  The
    /// step is exactly the linear congruential formula, so a seed fixes
    /// the whole sequence.
    pub fn next_random_bits(&mut self) -> (r: u64)
        ensures
            r == lcg_next(old(self).spec_rng_state()),
            final(self).spec_rng_state() == r,
            final(self).spec_algorithm() == old(self).spec_algorithm(),
    {
        let wide: u128 = self.rng_state as u128 * 1664525 + 1013904223;
        let next: u64 = (wide % 0x1_0000_0000_0000_0000) as u64;
        self.rng_state = next;
        next
    }
}

/// The unsigned value of two little-endian bytes.
pub open spec fn u16_of_le(b0: u8, b1: u8) -> int {
    b0 + 256 * b1
}

/// The signed 16-bit value of two little-endian bytes.
pub open spec fn i16_of_le(b0: u8, b1: u8) -> int {
    if u16_of_le(b0, b1) < 0x8000 {
        u16_of_le(b0, b1)
    } else {
        u16_of_le(b0, b1) - 0x10000
    }
}

/// The signed 24-bit value of three little-endian bytes.
pub open spec fn i24_of_le(b0: u8, b1: u8, b2: u8) -> int {
    let v = b0 + 256 * b1 + 0x10000 * b2;
    if v < 0x80_0000 {
        v
    } else {
        v - 0x100_0000
    }
}

/// The signed 32-bit value of four little-endian bytes.
pub open spec fn i32_of_le(b0: u8, b1: u8, b2: u8, b3: u8) -> int {
    let v = b0 + 256 * b1 + 0x10000 * b2 + 0x100_0000 * b3;
    if v < 0x8000_0000 {
        v
    } else {
        v - 0x1_0000_0000
    }
}

/// Group a byte stream into 16-bit signed little-endian samples; a
/// trailing partial sample is dropped.
pub fn bytes_to_i16_le(bytes: &Vec<u8>) -> (r: Vec<i16>)
    ensures
        r@.len() == bytes@.len() / 2,
        forall|k: int|
            0 <= k < r@.len() ==> r@[k] == i16_of_le(bytes@[2 * k], bytes@[2 * k + 1]),
{
    let n: usize = bytes.len() / 2;
    let mut r: Vec<i16> = Vec::new();
    let mut k: usize = 0;
    while k < n
        invariant
            k <= n,
            n == bytes@.len() / 2,
            2 * n <= usize::MAX,
            r@.len() == k,
            forall|j: int|
                0 <= j < k ==> r@[j] == i16_of_le(bytes@[2 * j], bytes@[2 * j + 1]),
        decreases n - k,
    {
        let b0: u8 = bytes[2 * k];
        let b1: u8 = bytes[2 * k + 1];
        let v: u32 = b0 as u32 + 256 * b1 as u32;
        let centered: i32 = v as i32 - if v >= 0x8000 {
            0x10000
        } else {
            0
        };
        r.push(centered as i16);
        k += 1;
    }
    r
}

/// Group a byte stream into 16-bit unsigned little-endian samples; a
/// trailing partial sample is dropped.
pub fn bytes_to_u16_le(bytes: &Vec<u8>) -> (r: Vec<u16>)
    ensures
        r@.len() == bytes@.len() / 2,
        forall|k: int|
            0 <= k < r@.len() ==> r@[k] == u16_of_le(bytes@[2 * k], bytes@[2 * k + 1]),
{
    let n: usize = bytes.len() / 2;
    let mut r: Vec<u16> = Vec::new();
    let mut k: usize = 0;
    while k < n
        invariant
            k <= n,
            n == bytes@.len() / 2,
            2 * n <= usize::MAX,
            r@.len() == k,
            forall|j: int|
                0 <= j < k ==> r@[j] == u16_of_le(bytes@[2 * j], bytes@[2 * j + 1]),
        decreases n - k,
    {
        let b0: u8 = bytes[2 * k];
        let b1: u8 = bytes[2 * k + 1];
        r.push(b0 as u16 + 256 * b1 as u16);
        k += 1;
    }
    r
}

/// Group a byte stream into 24-bit signed little-endian samples,
/// sign-extended to 32 bits; a trailing partial sample is dropped.
pub fn bytes_to_i24_le(bytes: &Vec<u8>) -> (r: Vec<i32>)
    ensures
        r@.len() == bytes@.len() / 3,
        forall|k: int|
            0 <= k < r@.len() ==> r@[k] == i24_of_le(
                bytes@[3 * k],
                bytes@[3 * k + 1],
                bytes@[3 * k + 2],
            ),
{
    let n: usize = bytes.len() / 3;
    let mut r: Vec<i32> = Vec::new();
    let mut k: usize = 0;
    while k < n
        invariant
            k <= n,
            n == bytes@.len() / 3,
            3 * n <= usize::MAX,
            r@.len() == k,
            forall|j: int|
                0 <= j < k ==> r@[j] == i24_of_le(
                    bytes@[3 * j],
                    bytes@[3 * j + 1],
                    bytes@[3 * j + 2],
                ),
        decreases n - k,
    {
        let b0: u8 = bytes[3 * k];
        let b1: u8 = bytes[3 * k + 1];
        let b2: u8 = bytes[3 * k + 2];
        let v: u32 = b0 as u32 + 256 * b1 as u32 + 0x10000 * b2 as u32;
        let centered: i32 = v as i32 - if v >= 0x80_0000 {
            0x100_0000
        } else {
            0
        };
        r.push(centered);
        k += 1;
    }
    r
}

/// Group a byte stream into 32-bit signed little-endian samples; a
/// trailing partial sample is dropped.
pub fn bytes_to_i32_le(bytes: &Vec<u8>) -> (r: Vec<i32>)
    ensures
        r@.len() == bytes@.len() / 4,
        forall|k: int|
            0 <= k < r@.len() ==> r@[k] == i32_of_le(
                bytes@[4 * k],
                bytes@[4 * k + 1],
                bytes@[4 * k + 2],
                bytes@[4 * k + 3],
            ),
{
    let n: usize = bytes.len() / 4;
    let mut r: Vec<i32> = Vec::new();
    let mut k: usize = 0;
    while k < n
        invariant
            k <= n,
            n == bytes@.len() / 4,
            4 * n <= usize::MAX,
            r@.len() == k,
            forall|j: int|
                0 <= j < k ==> r@[j] == i32_of_le(
                    bytes@[4 * j],
                    bytes@[4 * j + 1],
                    bytes@[4 * j + 2],
                    bytes@[4 * j + 3],
                ),
        decreases n - k,
    {
        let b0: u8 = bytes[4 * k];
        let b1: u8 = bytes[4 * k + 1];
        let b2: u8 = bytes[4 * k + 2];
        let b3: u8 = bytes[4 * k + 3];
        let low: u64 = b0 as u64 + 256 * b1 as u64 + 0x10000 * b2 as u64 + 0x100_0000
            * b3 as u64;
        let centered: i64 = low as i64 - if low >= 0x8000_0000 {
            0x1_0000_0000
        } else {
            0
        };
        r.push(centered as i32);
        k += 1;
    }
    r
}

/// The four little-endian bytes of a signed 32-bit sample.
pub open spec fn i32_le_bytes(s: i32) -> Seq<u8> {
    let v = if s >= 0 {
        s as int
    } else {
        s + 0x1_0000_0000
    };
    seq![
        (v % 256) as u8,
        (v / 256 % 256) as u8,
        (v / 0x10000 % 256) as u8,
        (v / 0x100_0000 % 256) as u8,
    ]
}

/// Serialize 32-bit signed samples little-endian, four bytes each.
pub fn i32_to_le_bytes(samples: &Vec<i32>) -> (r: Vec<u8>)
    ensures
        r@.len() == 4 * samples@.len(),
        forall|k: int, t: int|
            0 <= k < samples@.len() && 0 <= t < 4 ==> r@[4 * k + t] == i32_le_bytes(
                samples@[k],
            )[t],
{
    let mut r: Vec<u8> = Vec::new();
    let mut k: usize = 0;
    while k < samples.len()
        invariant
            k <= samples.len(),
            r@.len() == 4 * k,
            forall|j: int, t: int|
                0 <= j < k && 0 <= t < 4 ==> r@[4 * j + t] == i32_le_bytes(samples@[j])[t],
        decreases samples.len() - k,
    {
        let s: i32 = samples[k];
        let v: u64 = if s >= 0 {
            s as u64
        } else {
            (s as i64 + 0x1_0000_0000) as u64
        };
        r.push((v % 256) as u8);
        r.push((v / 256 % 256) as u8);
        r.push((v / 0x10000 % 256) as u8);
        r.push((v / 0x100_0000 % 256) as u8);
        k += 1;
    }
    r
}

/// The low three little-endian bytes of a signed 32-bit sample: how a
/// 24-bit stream stores it.
pub open spec fn i24_le_bytes(s: i32) -> Seq<u8> {
    i32_le_bytes(s).take(3)
}

/// Serialize 32-bit signed samples as 24-bit little-endian, keeping the
/// low three bytes of each.
pub fn i32_to_le_bytes_24(samples: &Vec<i32>) -> (r: Vec<u8>)
    ensures
        r@.len() == 3 * samples@.len(),
        forall|k: int, t: int|
            0 <= k < samples@.len() && 0 <= t < 3 ==> r@[3 * k + t] == i24_le_bytes(
                samples@[k],
            )[t],
{
    let mut r: Vec<u8> = Vec::new();
    let mut k: usize = 0;
    while k < samples.len()
        invariant
            k <= samples.len(),
            r@.len() == 3 * k,
            forall|j: int, t: int|
                0 <= j < k && 0 <= t < 3 ==> r@[3 * j + t] == i24_le_bytes(samples@[j])[t],
        decreases samples.len() - k,
    {
        let s: i32 = samples[k];
        let v: u64 = if s >= 0 {
            s as u64
        } else {
            (s as i64 + 0x1_0000_0000) as u64
        };
        r.push((v % 256) as u8);
        r.push((v / 256 % 256) as u8);
        r.push((v / 0x10000 % 256) as u8);
        k += 1;
    }
    r
}

/// The two little-endian bytes of a signed 16-bit sample.
pub open spec fn i16_sample_le_bytes(s: i16) -> Seq<u8> {
    let v = if s >= 0 {
        s as int
    } else {
        s + 0x10000
    };
    seq![(v % 256) as u8, (v / 256) as u8]
}

/// Serialize 16-bit signed samples little-endian, two bytes each.
pub fn i16_to_le_bytes(samples: &Vec<i16>) -> (r: Vec<u8>)
    ensures
        r@.len() == 2 * samples@.len(),
        forall|k: int, t: int|
            0 <= k < samples@.len() && 0 <= t < 2 ==> r@[2 * k + t] == i16_sample_le_bytes(
                samples@[k],
            )[t],
{
    let mut r: Vec<u8> = Vec::new();
    let mut k: usize = 0;
    while k < samples.len()
        invariant
            k <= samples.len(),
            r@.len() == 2 * k,
            forall|j: int, t: int|
                0 <= j < k && 0 <= t < 2 ==> r@[2 * j + t] == i16_sample_le_bytes(
                    samples@[j],
                )[t],
        decreases samples.len() - k,
    {
        let s: i16 = samples[k];
        let v: u32 = if s >= 0 {
            s as u32
        } else {
            (s as i32 + 0x10000) as u32
        };
        r.push((v % 256) as u8);
        r.push((v / 256) as u8);
        k += 1;
    }
    r
}

} // verus!
