//! Checksums of audio data for verification and integrity checking.
//!
//! Samples are serialized little-endian, two bytes each, and digested
//! with one of four algorithms; the result travels as a lowercase hex
//! string.

use vstd::prelude::*;
use std::collections::hash_map::DefaultHasher;
use std::hash::Hasher;
use vstd::std_specs::hash::DefaultHasherAdditionalSpecFns;

verus! {

/// Checksum algorithm types.
#[derive(Debug, Clone, Copy, PartialEq, Eq, Structural)]
pub enum ChecksumAlgorithm {
    /// Simple hash-based checksum (fast)
    Simple,
    /// CRC32 checksum
    Crc32,
    /// MD5 hash (for compatibility)
    Md5,
    /// SHA256 hash (secure)
    Sha256,
}

/// Audio checksum result.
#[derive(Debug, PartialEq, Eq)]
pub struct AudioChecksum {
    /// The checksum algorithm used
    pub algorithm: ChecksumAlgorithm,
    /// The checksum value as hex string
    pub value: String,
    /// Number of samples processed
    pub sample_count: usize,
}

impl Clone for AudioChecksum {
    /// A cloned checksum equals the original.
    fn clone(&self) -> (res: AudioChecksum)
        ensures
            res == *self,
    {
        AudioChecksum {
            algorithm: self.algorithm,
            value: self.value.clone(),
            sample_count: self.sample_count,
        }
    }
}

impl AudioChecksum {
    /// Create a new checksum.
    pub fn new(algorithm: ChecksumAlgorithm, value: String, sample_count: usize) -> (r:
        AudioChecksum)
        ensures
            r.algorithm == algorithm,
            r.value == value,
            r.sample_count == sample_count,
    {
        AudioChecksum { algorithm, value, sample_count }
    }
}

/// The two little-endian bytes of a sample.
pub open spec fn i16_le_bytes(s: i16) -> Seq<u8> {
    seq![(s as u16 % 256) as u8, (s as u16 / 256) as u8]
}

/// Samples serialized little-endian, two bytes each, in order.
pub open spec fn le_bytes_of(samples: Seq<i16>) -> Seq<u8>
    decreases samples.len(),
{
    if samples.len() == 0 {
        Seq::empty()
    } else {
        le_bytes_of(samples.drop_last()) + i16_le_bytes(samples.last())
    }
}

/// The hex digit for a value below 16.
pub open spec fn hex_digit(n: int) -> char {
    if n == 0 {
        '0'
    } else if n == 1 {
        '1'
    } else if n == 2 {
        '2'
    } else if n == 3 {
        '3'
    } else if n == 4 {
        '4'
    } else if n == 5 {
        '5'
    } else if n == 6 {
        '6'
    } else if n == 7 {
        '7'
    } else if n == 8 {
        '8'
    } else if n == 9 {
        '9'
    } else if n == 10 {
        'a'
    } else if n == 11 {
        'b'
    } else if n == 12 {
        'c'
    } else if n == 13 {
        'd'
    } else if n == 14 {
        'e'
    } else {
        'f'
    }
}

/// `v` written in lowercase hex with exactly `width` digits, most
/// significant first (zero-padded, truncated to the low digits).
pub open spec fn spec_hex(v: int, width: nat) -> Seq<char>
    decreases width,
{
    if width == 0 {
        Seq::empty()
    } else {
        spec_hex(v / 16, (width - 1) as nat) + seq![hex_digit(v % 16)]
    }
}

/// A byte sequence written in lowercase hex, two digits per byte.
pub open spec fn hex_of_bytes(bytes: Seq<u8>) -> Seq<char>
    decreases bytes.len(),
{
    if bytes.len() == 0 {
        Seq::empty()
    } else {
        hex_of_bytes(bytes.drop_last()) + spec_hex(bytes.last() as int, 2)
    }
}

/// The hex form of `width` digits has exactly `width` characters.
pub proof fn lemma_spec_hex_len(v: int, width: nat)
    ensures
        spec_hex(v, width).len() == width,
    decreases width,
{
    if width > 0 {
        lemma_spec_hex_len(v / 16, (width - 1) as nat);
    }
}

/// The hex form of a byte sequence has two characters per byte.
pub proof fn lemma_hex_of_bytes_len(bytes: Seq<u8>)
    ensures
        hex_of_bytes(bytes).len() == 2 * bytes.len(),
    decreases bytes.len(),
{
    if bytes.len() > 0 {
        lemma_hex_of_bytes_len(bytes.drop_last());
        lemma_spec_hex_len(bytes.last() as int, 2);
    }
}

/// One hex digit as a string slice.
fn hex_digit_str(d: u64) -> (r: &'static str)
    requires
        d < 16,
    ensures
        r@ == seq![hex_digit(d as int)],
{
    proof {
        reveal_strlit("0");
        reveal_strlit("1");
        reveal_strlit("2");
        reveal_strlit("3");
        reveal_strlit("4");
        reveal_strlit("5");
        reveal_strlit("6");
        reveal_strlit("7");
        reveal_strlit("8");
        reveal_strlit("9");
        reveal_strlit("a");
        reveal_strlit("b");
        reveal_strlit("c");
        reveal_strlit("d");
        reveal_strlit("e");
        reveal_strlit("f");
    }
    match d {
        0 => "0",
        1 => "1",
        2 => "2",
        3 => "3",
        4 => "4",
        5 => "5",
        6 => "6",
        7 => "7",
        8 => "8",
        9 => "9",
        10 => "a",
        11 => "b",
        12 => "c",
        13 => "d",
        14 => "e",
        _ => "f",
    }
}

/// Format `v` as lowercase hex with exactly `width` digits.
fn hex_string(v: u64, width: usize) -> (s: String)
    ensures
        s@ == spec_hex(v as int, width as nat),
    decreases width,
{
    if width == 0 {
        String::new()
    } else {
        let mut s = hex_string(v / 16, width - 1);
        let digit = hex_digit_str(v % 16);
        s.append(digit);
        s
    }
}

/// Serialize samples little-endian, two bytes each.
fn samples_to_le_bytes(samples: &Vec<i16>) -> (r: Vec<u8>)
    ensures
        r@ == le_bytes_of(samples@),
{
    let mut r: Vec<u8> = Vec::new();
    let mut i: usize = 0;
    while i < samples.len()
        invariant
            i <= samples.len(),
            r@ == le_bytes_of(samples@.take(i as int)),
        decreases samples.len() - i,
    {
        let s: i16 = samples[i];
        let v: u16 = #[verifier::truncate] (s as u16);
        r.push((v % 256) as u8);
        r.push((v / 256) as u8);
        proof {
            assert(samples@.take(i + 1).drop_last() =~= samples@.take(i as int));
            assert(r@ =~= le_bytes_of(samples@.take(i + 1)));
        }
        i += 1;
    }
    proof {
        assert(samples@.take(samples@.len() as int) =~= samples@);
    }
    r
}

/// The per-sample write sequence that the simple checksum hands to the
/// standard hasher: one two-byte little-endian write per sample.
pub open spec fn simple_writes_of(samples: Seq<i16>) -> Seq<Seq<u8>> {
    samples.map_values(|s: i16| i16_le_bytes(s))
}

/// Calculate the simple hash-based checksum of samples: the standard
/// library hasher over one two-byte little-endian write per sample,
/// formatted as 16 hex digits.
pub fn calculate_simple_checksum(samples: &Vec<i16>) -> (r: AudioChecksum)
    ensures
        r.algorithm == ChecksumAlgorithm::Simple,
        r.sample_count == samples@.len(),
        r.value@ == spec_hex(
            DefaultHasher::spec_finish(simple_writes_of(samples@)) as int,
            16,
        ),
{
    let mut hasher = DefaultHasher::new();
    let mut i: usize = 0;
    while i < samples.len()
        invariant
            i <= samples.len(),
            hasher@ == simple_writes_of(samples@.take(i as int)),
        decreases samples.len() - i,
    {
        let s: i16 = samples[i];
        let v: u16 = #[verifier::truncate] (s as u16);
        let mut bytes: Vec<u8> = Vec::new();
        bytes.push((v % 256) as u8);
        bytes.push((v / 256) as u8);
        hasher.write(bytes.as_slice());
        proof {
            assert(bytes@ =~= i16_le_bytes(s));
            assert(hasher@ =~= simple_writes_of(samples@.take(i + 1)));
        }
        i += 1;
    }
    proof {
        assert(samples@.take(samples@.len() as int) =~= samples@);
    }
    let hash: u64 = hasher.finish();
    AudioChecksum::new(ChecksumAlgorithm::Simple, hex_string(hash, 16), samples.len())
}

/// The IEEE CRC32 of a byte sequence, as crc32fast computes it.
pub uninterp spec fn crc32_of(bytes: Seq<u8>) -> u32;

/// Relies on crc32fast::hash: the IEEE CRC32 of the bytes, a function
/// of the bytes alone.
#[verifier::external_body]
fn crc32_hash(data: &Vec<u8>) -> (r: u32)
    ensures
        r == crc32_of(data@),
{
    crc32fast::hash(data.as_slice())
}

/// The MD5 digest of a byte sequence; always 16 bytes.
pub uninterp spec fn md5_of(bytes: Seq<u8>) -> Seq<u8>;

/// Relies on md5::Md5 (the RustCrypto implementation): the MD5 digest
/// of the bytes, a function of the bytes alone, 16 bytes long.
#[verifier::external_body]
fn md5_digest(data: &Vec<u8>) -> (r: Vec<u8>)
    ensures
        r@ == md5_of(data@),
        r@.len() == 16,
{
    let out = <md5::Md5 as md5::Digest>::digest(data.as_slice());
    out.to_vec()
}

/// The SHA-256 digest of a byte sequence; always 32 bytes.
pub uninterp spec fn sha256_of(bytes: Seq<u8>) -> Seq<u8>;

/// Relies on sha2::Sha256: the SHA-256 digest of the bytes, a function
/// of the bytes alone, 32 bytes long.
#[verifier::external_body]
fn sha256_digest(data: &Vec<u8>) -> (r: Vec<u8>)
    ensures
        r@ == sha256_of(data@),
        r@.len() == 32,
{
    let out = <sha2::Sha256 as sha2::Digest>::digest(data.as_slice());
    out.to_vec()
}

/// Calculate the CRC32 checksum of samples serialized little-endian,
/// formatted as 8 hex digits.
pub fn calculate_crc32_checksum(samples: &Vec<i16>) -> (r: AudioChecksum)
    ensures
        r.algorithm == ChecksumAlgorithm::Crc32,
        r.sample_count == samples@.len(),
        r.value@ == spec_hex(crc32_of(le_bytes_of(samples@)) as int, 8),
{
    let bytes = samples_to_le_bytes(samples);
    let crc: u32 = crc32_hash(&bytes);
    AudioChecksum::new(ChecksumAlgorithm::Crc32, hex_string(crc as u64, 8), samples.len())
}

/// Format a digest as lowercase hex, two digits per byte.
fn digest_to_hex(digest: &Vec<u8>) -> (s: String)
    ensures
        s@ == hex_of_bytes(digest@),
{
    let mut s = String::new();
    let mut i: usize = 0;
    while i < digest.len()
        invariant
            i <= digest.len(),
            s@ == hex_of_bytes(digest@.take(i as int)),
        decreases digest.len() - i,
    {
        let part = hex_string(digest[i] as u64, 2);
        s.append(part.as_str());
        proof {
            assert(digest@.take(i + 1).drop_last() =~= digest@.take(i as int));
            assert(s@ =~= hex_of_bytes(digest@.take(i + 1)));
        }
        i += 1;
    }
    proof {
        assert(digest@.take(digest@.len() as int) =~= digest@);
    }
    s
}

/// Calculate the MD5 checksum of samples serialized little-endian,
/// formatted as 32 hex digits.
pub fn calculate_md5_checksum(samples: &Vec<i16>) -> (r: AudioChecksum)
    ensures
        r.algorithm == ChecksumAlgorithm::Md5,
        r.sample_count == samples@.len(),
        r.value@ == hex_of_bytes(md5_of(le_bytes_of(samples@))),
        r.value@.len() == 32,
{
    let bytes = samples_to_le_bytes(samples);
    let digest = md5_digest(&bytes);
    proof {
        lemma_hex_of_bytes_len(digest@);
    }
    AudioChecksum::new(ChecksumAlgorithm::Md5, digest_to_hex(&digest), samples.len())
}

/// Calculate the SHA256 checksum of samples serialized little-endian,
/// formatted as 64 hex digits.
pub fn calculate_sha256_checksum(samples: &Vec<i16>) -> (r: AudioChecksum)
    ensures
        r.algorithm == ChecksumAlgorithm::Sha256,
        r.sample_count == samples@.len(),
        r.value@ == hex_of_bytes(sha256_of(le_bytes_of(samples@))),
        r.value@.len() == 64,
{
    let bytes = samples_to_le_bytes(samples);
    let digest = sha256_digest(&bytes);
    proof {
        lemma_hex_of_bytes_len(digest@);
    }
    AudioChecksum::new(ChecksumAlgorithm::Sha256, digest_to_hex(&digest), samples.len())
}

/// Calculate a checksum using the specified algorithm.
pub fn calculate_checksum(samples: &Vec<i16>, algorithm: ChecksumAlgorithm) -> (r: AudioChecksum)
    ensures
        r.algorithm == algorithm,
        r.sample_count == samples@.len(),
        algorithm == ChecksumAlgorithm::Simple ==> r.value@ == spec_hex(
            DefaultHasher::spec_finish(simple_writes_of(samples@)) as int,
            16,
        ),
        algorithm == ChecksumAlgorithm::Crc32 ==> r.value@ == spec_hex(
            crc32_of(le_bytes_of(samples@)) as int,
            8,
        ),
        algorithm == ChecksumAlgorithm::Md5 ==> r.value@ == hex_of_bytes(
            md5_of(le_bytes_of(samples@)),
        ),
        algorithm == ChecksumAlgorithm::Sha256 ==> r.value@ == hex_of_bytes(
            sha256_of(le_bytes_of(samples@)),
        ),
{
    match algorithm {
        ChecksumAlgorithm::Simple => calculate_simple_checksum(samples),
        ChecksumAlgorithm::Crc32 => calculate_crc32_checksum(samples),
        ChecksumAlgorithm::Md5 => calculate_md5_checksum(samples),
        ChecksumAlgorithm::Sha256 => calculate_sha256_checksum(samples),
    }
}

/// Verify that two checksums match: same algorithm, same hex value and
/// same sample count.
pub fn verify_checksum(checksum1: &AudioChecksum, checksum2: &AudioChecksum) -> (r: bool)
    ensures
        r == (checksum1.algorithm == checksum2.algorithm && checksum1.value@ == checksum2.value@
            && checksum1.sample_count == checksum2.sample_count),
{
    checksum1.algorithm == checksum2.algorithm && checksum1.value == checksum2.value
        && checksum1.sample_count == checksum2.sample_count
}

/// Magnitude of a sample.
pub open spec fn abs_i16(s: i16) -> int {
    if s >= 0 {
        s as int
    } else {
        -(s as int)
    }
}

/// Calculate the peak amplitude of the samples: the largest magnitude,
/// and 0 for an empty slice.  The smallest representable sample is
/// excluded because its magnitude has no 16-bit representation.
pub fn calculate_peak(samples: &Vec<i16>) -> (r: i16)
    requires
        forall|i: int| 0 <= i < samples@.len() ==> samples@[i] != i16::MIN,
    ensures
        r >= 0,
        forall|i: int| 0 <= i < samples@.len() ==> abs_i16(samples@[i]) <= r,
        samples@.len() == 0 ==> r == 0,
        samples@.len() > 0 ==> exists|i: int|
            0 <= i < samples@.len() && abs_i16(samples@[i]) == r,
{
    let mut peak: i16 = 0;
    let mut i: usize = 0;
    while i < samples.len()
        invariant
            i <= samples.len(),
            peak >= 0,
            forall|k: int| 0 <= k < samples@.len() ==> samples@[k] != i16::MIN,
            forall|j: int| 0 <= j < i ==> abs_i16(samples@[j]) <= peak,
            i == 0 ==> peak == 0,
            i > 0 ==> exists|j: int| 0 <= j < i && abs_i16(samples@[j]) == peak,
        decreases samples.len() - i,
    {
        let s: i16 = samples[i];
        let magnitude: i16 = if s < 0 {
            -s
        } else {
            s
        };
        if magnitude > peak {
            peak = magnitude;
        }
        i += 1;
    }
    peak
}

} // verus!
