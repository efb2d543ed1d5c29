//! Decoder-facing surface: which files the decoder accepts, detection of
//! a format from a file name, and the configuration and description
//! types that travel between the decoder and the engine.
//!
//! The decoding itself runs outside this library; everything here is a
//! function of the file name or of plain values the decoder reported.

use vstd::prelude::*;
use vstd::string::StringSliceAdditionalSpecFns;

verus! {

/// Lowercases one ASCII letter; leaves every other byte alone.
pub open spec fn ascii_lower(b: u8) -> u8 {
    if 65 <= b <= 90 {
        (b + 32) as u8
    } else {
        b
    }
}

/// The characters of an ASCII string as bytes.
pub open spec fn str_bytes(s: Seq<char>) -> Seq<u8> {
    s.map_values(|c: char| c as u8)
}

/// A byte sequence with its ASCII letters lowercased.
pub open spec fn lower_bytes(s: Seq<u8>) -> Seq<u8> {
    s.map_values(|b: u8| ascii_lower(b))
}

/// Index of the last occurrence of `b` in `s`, or -1.
pub open spec fn last_pos(s: Seq<u8>, b: u8) -> int
    decreases s.len(),
{
    if s.len() == 0 {
        -1
    } else if s.last() == b {
        s.len() - 1
    } else {
        last_pos(s.drop_last(), b)
    }
}

/// The extension of a path, as the standard library reads it: the part
/// of the file name after its last dot, provided that dot is not the
/// file name's first byte; `None` otherwise.
pub open spec fn spec_extension(s: Seq<u8>) -> Option<Seq<u8>> {
    let name_start = last_pos(s, 47) + 1;  // after the last '/'
    let dot = last_pos(s, 46);  // the last '.'
    if dot > name_start {
        Some(s.subrange(dot + 1, s.len() as int))
    } else {
        None
    }
}

/// The extensions the decoder accepts, lowercased.
pub open spec fn spec_supported_extension(ext: Seq<u8>) -> bool {
    ||| lower_bytes(ext) == str_bytes("mp3"@)
    ||| lower_bytes(ext) == str_bytes("wav"@)
    ||| lower_bytes(ext) == str_bytes("flac"@)
    ||| lower_bytes(ext) == str_bytes("ogg"@)
    ||| lower_bytes(ext) == str_bytes("m4a"@)
    ||| lower_bytes(ext) == str_bytes("aac"@)
}

/// A path is supported when it has an extension and that extension,
/// lowercased, is one the decoder accepts.
pub open spec fn spec_format_supported(s: Seq<u8>) -> bool {
    match spec_extension(s) {
        Some(ext) => spec_supported_extension(ext),
        None => false,
    }
}

/// Extract the extension bytes of a path, as `spec_extension` defines
/// them.
fn extension_bytes(path: &str) -> (r: Option<Vec<u8>>)
    ensures
        r is Some <==> spec_extension(path.spec_bytes()) is Some,
        r matches Some(v) ==> Some(v@) == spec_extension(path.spec_bytes()),
{
    let bytes: Vec<u8> = vstd::slice::slice_to_vec(path.as_bytes());
    let ghost s = path.spec_bytes();
    let n: usize = bytes.len();
    let mut slash_end: usize = 0;  // one past the last '/', 0 when none
    let mut dot: usize = 0;  // one past the last '.', 0 when none
    let mut i: usize = 0;
    while i < n
        invariant
            i <= n,
            n == s.len(),
            bytes@ == s,
            slash_end <= i,
            dot <= i,
            slash_end == last_pos(s.take(i as int), 47) + 1,
            dot == last_pos(s.take(i as int), 46) + 1,
        decreases n - i,
    {
        proof {
            assert(s.take(i + 1).drop_last() =~= s.take(i as int));
        }
        let b: u8 = bytes[i];
        if b == 47 {
            slash_end = i + 1;
        }
        if b == 46 {
            dot = i + 1;
        }
        i += 1;
    }
    proof {
        assert(s.take(n as int) =~= s);
    }
    if dot >= 1 && dot - 1 > slash_end {
        let mut ext: Vec<u8> = Vec::new();
        proof {
            assert(Seq::<u8>::empty() =~= s.subrange(dot as int, dot as int));
        }
        let mut j: usize = dot;
        while j < n
            invariant
                dot <= j <= n,
                n == s.len(),
                bytes@ == s,
                ext@ == s.subrange(dot as int, j as int),
            decreases n - j,
        {
            ext.push(bytes[j]);
            proof {
                assert(s.subrange(dot as int, j + 1) =~= s.subrange(dot as int, j as int)
                    + seq![s[j as int]]);
            }
            j += 1;
        }
        Some(ext)
    } else {
        None
    }
}

/// Lowercase the ASCII letters of a byte vector.
fn lowercase_bytes(v: &Vec<u8>) -> (r: Vec<u8>)
    ensures
        r@ == lower_bytes(v@),
{
    let mut r: Vec<u8> = Vec::new();
    let mut i: usize = 0;
    while i < v.len()
        invariant
            i <= v.len(),
            r@ =~= lower_bytes(v@.take(i as int)),
        decreases v.len() - i,
    {
        let b: u8 = v[i];
        let low: u8 = if 65 <= b && b <= 90 {
            b + 32
        } else {
            b
        };
        r.push(low);
        proof {
            assert(r@ =~= lower_bytes(v@.take(i + 1)));
        }
        i += 1;
    }
    proof {
        assert(v@.take(v@.len() as int) =~= v@);
    }
    r
}

/// Compare a byte vector against the bytes of an ASCII string slice.
fn bytes_match(v: &Vec<u8>, pattern: &str) -> (r: bool)
    requires
        pattern.is_ascii(),
    ensures
        r == (v@ == str_bytes(pattern@)),
{
    proof {
        vstd::string::is_ascii_spec_bytes(pattern);
    }
    let p: Vec<u8> = vstd::slice::slice_to_vec(pattern.as_bytes());
    let ghost pv = str_bytes(pattern@);
    proof {
        assert(p@ =~= pv);
    }
    if v.len() != p.len() {
        proof {
            assert(v@.len() != pv.len());
        }
        return false;
    }
    let n: usize = v.len();
    let mut i: usize = 0;
    while i < n
        invariant
            i <= n,
            n == v@.len() == p@.len(),
            p@ == pv,
            pv == str_bytes(pattern@),
            forall|j: int| 0 <= j < i ==> v@[j] == pv[j],
        decreases n - i,
    {
        if v[i] != p[i] {
            proof {
                assert(v@[i as int] != pv[i as int]);
                assert(v@ != pv) by {
                    if v@ == pv {
                        assert(v@[i as int] == pv[i as int]);
                    }
                }
            }
            return false;
        }
        i += 1;
    }
    proof {
        assert(v@ =~= pv);
    }
    true
}

/// Check if a file name carries an extension the decoder accepts:
/// mp3, wav, flac, ogg, m4a or aac, in any letter case.
pub fn is_format_supported(path: &str) -> (r: bool)
    ensures
        r == spec_format_supported(path.spec_bytes()),
{
    proof {
        reveal_strlit("mp3");
        reveal_strlit("wav");
        reveal_strlit("flac");
        reveal_strlit("ogg");
        reveal_strlit("m4a");
        reveal_strlit("aac");
    }
    match extension_bytes(path) {
        Some(ext) => {
            let low = lowercase_bytes(&ext);
            bytes_match(&low, "mp3") || bytes_match(&low, "wav") || bytes_match(&low, "flac")
                || bytes_match(&low, "ogg") || bytes_match(&low, "m4a") || bytes_match(
                &low,
                "aac",
            )
        },
        None => false,
    }
}

/// The display name reported for each accepted extension.
pub open spec fn spec_format_name(s: Seq<u8>) -> Seq<char> {
    let ext = spec_extension(s)->Some_0;
    let low = lower_bytes(ext);
    if low == str_bytes("mp3"@) {
        "MP3"@
    } else if low == str_bytes("wav"@) {
        "WAV"@
    } else if low == str_bytes("flac"@) {
        "FLAC"@
    } else if low == str_bytes("ogg"@) {
        "OGG Vorbis"@
    } else if low == str_bytes("m4a"@) {
        "M4A/AAC"@
    } else {
        "AAC"@
    }
}

/// Detect a format from the file extension only: returns its display
/// name for the six accepted extensions, `None` for everything else.
pub fn detect_format_from_extension(path: &str) -> (r: Option<&'static str>)
    ensures
        r is Some <==> spec_format_supported(path.spec_bytes()),
        r matches Some(name) ==> name@ == spec_format_name(path.spec_bytes()),
{
    proof {
        reveal_strlit("mp3");
        reveal_strlit("wav");
        reveal_strlit("flac");
        reveal_strlit("ogg");
        reveal_strlit("m4a");
        reveal_strlit("aac");
    }
    match extension_bytes(path) {
        Some(ext) => {
            let low = lowercase_bytes(&ext);
            if bytes_match(&low, "mp3") {
                Some("MP3")
            } else if bytes_match(&low, "wav") {
                Some("WAV")
            } else if bytes_match(&low, "flac") {
                Some("FLAC")
            } else if bytes_match(&low, "ogg") {
                Some("OGG Vorbis")
            } else if bytes_match(&low, "m4a") {
                Some("M4A/AAC")
            } else if bytes_match(&low, "aac") {
                Some("AAC")
            } else {
                None
            }
        },
        None => None,
    }
}

/// Get the supported file extensions, lowercase.
pub fn supported_extensions() -> (r: Vec<&'static str>)
    ensures
        r@.len() == 6,
        r@[0]@ == "mp3"@,
        r@[1]@ == "wav"@,
        r@[2]@ == "flac"@,
        r@[3]@ == "ogg"@,
        r@[4]@ == "m4a"@,
        r@[5]@ == "aac"@,
    {
    let r = vec!["mp3", "wav", "flac", "ogg", "m4a", "aac"];
    r
}

/// Configuration for audio stream reading.
#[derive(Debug, Clone, Copy, PartialEq, Eq, Structural)]
pub struct StreamConfig {
    /// Buffer size in frames per packet
    pub buffer_size: usize,
    /// Whether to loop the audio when it reaches the end
    pub loop_playback: bool,
    /// Prefetch buffer size (number of packets to buffer ahead)
    pub prefetch_size: usize,
}

impl Default for StreamConfig {
    /// Packets of 1024 frames, no looping, four packets of prefetch.
    fn default() -> (r: StreamConfig)
        ensures
            r.buffer_size == 1024,
            !r.loop_playback,
            r.prefetch_size == 4,
    {
        StreamConfig { buffer_size: 1024, loop_playback: false, prefetch_size: 4 }
    }
}

/// What the decoder reported about a file's format.
#[derive(Debug)]
pub struct AudioFormatInfo {
    /// Human-readable format name (e.g., "MP3", "FLAC", "WAV")
    pub format_name: String,
    /// Codec type identifier
    pub codec_type: String,
    /// Sample rate in Hz (if known)
    pub sample_rate: Option<u32>,
    /// Number of channels (if known)
    pub channels: Option<u16>,
    /// Duration in samples (if known)
    pub duration: Option<u64>,
    /// Bit depth (if known)
    pub bit_depth: Option<u32>,
    /// Whether this is a lossless format
    pub is_lossless: bool,
}

impl Clone for AudioFormatInfo {
    /// A cloned description equals the original.
    fn clone(&self) -> (res: AudioFormatInfo)
        ensures
            res == *self,
    {
        AudioFormatInfo {
            format_name: self.format_name.clone(),
            codec_type: self.codec_type.clone(),
            sample_rate: self.sample_rate,
            channels: self.channels,
            duration: self.duration,
            bit_depth: self.bit_depth,
            is_lossless: self.is_lossless,
        }
    }
}

impl AudioFormatInfo {
    /// High resolution means a rate of at least 48 kHz or a depth over
    /// 16 bits; unknown on both counts means it is not.
    pub fn is_high_resolution(&self) -> (r: bool)
        ensures
            r == ((match self.sample_rate {
                Some(rate) => rate >= 48000,
                None => false,
            }) || (match self.bit_depth {
                Some(bits) => bits > 16,
                None => false,
            })),
    {
        let by_rate: bool = match self.sample_rate {
            Some(rate) => rate >= 48000,
            None => false,
        };
        let by_depth: bool = match self.bit_depth {
            Some(bits) => bits > 16,
            None => false,
        };
        by_rate || by_depth
    }
}

} // verus!
