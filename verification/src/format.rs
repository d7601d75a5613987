//! Audio formats: what can be recorded, how it is described in a WAV file, and
//! how a captured packet is read.
use vstd::prelude::*;
use vstd::string::*;

use crate::error::WasapiError;
use crate::text::{push_decimal, push_hex4};

verus! {

pub const WAVE_FORMAT_PCM: u16 = 0x0001;

pub const WAVE_FORMAT_IEEE_FLOAT: u16 = 0x0003;

pub const WAVE_FORMAT_EXTENSIBLE: u16 = 0xFFFE;

/// The sub-format of PCM data in an extensible format.
pub const KSDATAFORMAT_SUBTYPE_PCM: u128 = 0x0000_0001_0000_0010_8000_00aa_0038_9b71;

/// The sub-format of IEEE float data in an extensible format.
pub const KSDATAFORMAT_SUBTYPE_IEEE_FLOAT: u128 = 0x0000_0003_0000_0010_8000_00aa_0038_9b71;

/// The size of the extension that carries a sub-format.
pub const EXTENSION_SIZE: u16 = 22;

/// The fields of a Windows wave format. `sub_format` counts only where
/// [`carries_sub_format`] holds.
#[derive(Debug, Clone, Copy, PartialEq, Eq)]
pub struct WaveFormat {
    pub format_tag: u16,
    pub channels: u16,
    pub samples_per_sec: u32,
    pub avg_bytes_per_sec: u32,
    pub block_align: u16,
    pub bits_per_sample: u16,
    pub cb_size: u16,
    pub sub_format: u128,
}

/// The two kinds of samples that can be recorded.
#[derive(Debug, Clone, Copy, PartialEq, Eq, Structural)]
pub enum PcmKind {
    Float32,
    Int16,
}

/// What the recorder needs to know of a format.
#[derive(Debug, Clone, Copy, PartialEq, Eq, Structural)]
pub struct FormatInfo {
    pub kind: PcmKind,
    pub channels: u16,
    pub sample_rate: u32,
}

/// Whether a format with this tag and extension size has a sub-format.
pub open spec fn extended(tag: u16, cb_size: u16) -> bool {
    tag == WAVE_FORMAT_EXTENSIBLE && cb_size >= EXTENSION_SIZE
}

/// Whether a format with this tag and extension size has a sub-format.
pub fn carries_sub_format(tag: u16, cb_size: u16) -> (b: bool)
    ensures
        b == extended(tag, cb_size),
{
    tag == WAVE_FORMAT_EXTENSIBLE && cb_size >= EXTENSION_SIZE
}

/// The kind of samples of a format, where the recorder supports it: 32-bit
/// floats and 16-bit integers, named by the tag or by the sub-format.
pub open spec fn pcm_kind(f: WaveFormat) -> Option<PcmKind> {
    let says_float = f.format_tag == WAVE_FORMAT_IEEE_FLOAT || (extended(f.format_tag, f.cb_size)
        && f.sub_format == KSDATAFORMAT_SUBTYPE_IEEE_FLOAT);
    let says_pcm = f.format_tag == WAVE_FORMAT_PCM || (extended(f.format_tag, f.cb_size)
        && f.sub_format == KSDATAFORMAT_SUBTYPE_PCM);
    if says_float && f.bits_per_sample == 32 {
        Some(PcmKind::Float32)
    } else if says_pcm && f.bits_per_sample == 16 {
        Some(PcmKind::Int16)
    } else {
        None
    }
}

/// A hexadecimal digit in upper case.
pub open spec fn hex_upper(d: int) -> char {
    if d < 10 {
        (48 + d) as char
    } else {
        (55 + d) as char
    }
}

/// The `k`-th hexadecimal digit of `x`, counted from the most significant of 32.
pub open spec fn nibble(x: u128, k: int) -> int {
    (x as int / vstd::arithmetic::power::pow(16, (31 - k) as nat)) % 16
}

/// The registry notation of a GUID: 32 upper case hexadecimal digits in groups
/// of eight, four, four, four and twelve.
pub open spec fn guid_text(x: u128) -> Seq<char> {
    Seq::new(
        36,
        |i: int|
            if i == 8 || i == 13 || i == 18 || i == 23 {
                '-'
            } else if i < 8 {
                hex_upper(nibble(x, i))
            } else if i < 13 {
                hex_upper(nibble(x, i - 1))
            } else if i < 18 {
                hex_upper(nibble(x, i - 2))
            } else if i < 23 {
                hex_upper(nibble(x, i - 3))
            } else {
                hex_upper(nibble(x, i - 4))
            },
    )
}

/// `windows_core::GUID::from_u128` splits the number into the fields of a GUID,
/// most significant first, and the `Debug` output of a GUID is its registry
/// notation: the digits of the number in upper case with four hyphens.
#[verifier::external_body]
fn guid_debug(x: u128) -> (s: String)
    ensures
        s@ == guid_text(x),
{
    format!("{:?}", windows_core::GUID::from_u128(x))
}

/// What the error says of a format that cannot be recorded.
pub open spec fn refusal_text(f: WaveFormat) -> Seq<char> {
    if extended(f.format_tag, f.cb_size) {
        "EXTENSIBLE sub="@ + guid_text(f.sub_format) + " bits="@ + crate::text::decimal(
            f.bits_per_sample as nat,
        )
    } else {
        "tag=0x"@ + crate::text::hex4_lower(f.format_tag) + " bits="@ + crate::text::decimal(
            f.bits_per_sample as nat,
        )
    }
}

fn refusal(f: &WaveFormat) -> (s: String)
    ensures
        s@ == refusal_text(*f),
{
    let mut s = String::new();
    if carries_sub_format(f.format_tag, f.cb_size) {
        s.append("EXTENSIBLE sub=");
        let g = guid_debug(f.sub_format);
        s.append(g.as_str());
    } else {
        s.append("tag=0x");
        push_hex4(&mut s, f.format_tag);
    }
    s.append(" bits=");
    push_decimal(&mut s, f.bits_per_sample as u64);
    proof {
        assert(s@ == refusal_text(*f));
    }
    s
}

/// What the inspection of a format answers.
pub open spec fn inspected(f: WaveFormat, r: Result<FormatInfo, WasapiError>) -> bool {
    match pcm_kind(f) {
        Some(kind) => r == Ok::<FormatInfo, WasapiError>(
            FormatInfo { kind, channels: f.channels, sample_rate: f.samples_per_sec },
        ),
        None => r matches Err(WasapiError::UnsupportedFormat(what)) && what@ == refusal_text(f),
    }
}

/// Reads off a format what the recorder needs, or says why it cannot be recorded.
pub fn inspect_format(f: &WaveFormat) -> (r: Result<FormatInfo, WasapiError>)
    ensures
        inspected(*f, r),
{
    let tag = f.format_tag;
    let bits = f.bits_per_sample;
    let kind = if tag == WAVE_FORMAT_IEEE_FLOAT && bits == 32 {
        PcmKind::Float32
    } else if tag == WAVE_FORMAT_PCM && bits == 16 {
        PcmKind::Int16
    } else if carries_sub_format(tag, f.cb_size) {
        if f.sub_format == KSDATAFORMAT_SUBTYPE_IEEE_FLOAT && bits == 32 {
            PcmKind::Float32
        } else if f.sub_format == KSDATAFORMAT_SUBTYPE_PCM && bits == 16 {
            PcmKind::Int16
        } else {
            return Err(WasapiError::UnsupportedFormat(refusal(f)));
        }
    } else {
        return Err(WasapiError::UnsupportedFormat(refusal(f)));
    };
    Ok(FormatInfo { kind, channels: f.channels, sample_rate: f.samples_per_sec })
}

/// The bytes of one frame of `channels` samples of `bits` bits.
pub open spec fn block_bytes(channels: u16, bits: u16) -> int {
    (channels * bits) / 8
}

/// The plain PCM format with the given rate, channels and sample size.
pub open spec fn plain_pcm(sample_rate: u32, channels: u16, bits: u16) -> WaveFormat {
    WaveFormat {
        format_tag: WAVE_FORMAT_PCM,
        channels,
        samples_per_sec: sample_rate,
        avg_bytes_per_sec: (sample_rate * block_bytes(channels, bits)) as u32,
        block_align: block_bytes(channels, bits) as u16,
        bits_per_sample: bits,
        cb_size: 0,
        sub_format: 0,
    }
}

/// The plain PCM format with the given rate, channels and sample size.
pub fn pcm_format(sample_rate: u32, channels: u16, bits: u16) -> (f: WaveFormat)
    requires
        channels * bits <= u16::MAX,
        sample_rate * block_bytes(channels, bits) <= u32::MAX,
    ensures
        f == plain_pcm(sample_rate, channels, bits),
        f.block_align == block_bytes(channels, bits),
        f.avg_bytes_per_sec == sample_rate * block_bytes(channels, bits),
{
    let block_align: u16 = channels * bits / 8;
    assert(sample_rate as int * block_align as int >= 0) by (nonlinear_arith);
    WaveFormat {
        format_tag: WAVE_FORMAT_PCM,
        channels,
        samples_per_sec: sample_rate,
        avg_bytes_per_sec: sample_rate * block_align as u32,
        block_align,
        bits_per_sample: bits,
        cb_size: 0,
        sub_format: 0,
    }
}

/// The plain 16-bit PCM format can always be recorded.
pub proof fn law_plain_pcm_is_recordable(
    sample_rate: u32,
    channels: u16,
    r: Result<FormatInfo, WasapiError>,
)
    requires
        inspected(plain_pcm(sample_rate, channels, 16), r),
    ensures
        r == Ok::<FormatInfo, WasapiError>(
            FormatInfo { kind: PcmKind::Int16, channels, sample_rate },
        ),
{
}

// ---------------------------------------------------------------------------
// WAV files
// ---------------------------------------------------------------------------
/// How samples are stored in a WAV file.
#[derive(Debug, Clone, Copy, PartialEq, Eq, Structural)]
pub enum SampleFormat {
    Float,
    Int,
}

/// The header fields of a WAV file.
#[derive(Debug, Clone, Copy, PartialEq, Eq, Structural)]
pub struct WavSpec {
    pub channels: u16,
    pub sample_rate: u32,
    pub bits_per_sample: u16,
    pub sample_format: SampleFormat,
}

/// The header of the WAV file that a format is recorded to.
pub open spec fn wav_header(fmt: FormatInfo) -> WavSpec {
    WavSpec {
        channels: fmt.channels,
        sample_rate: fmt.sample_rate,
        bits_per_sample: (8 * sample_bytes(fmt.kind)) as u16,
        sample_format: match fmt.kind {
            PcmKind::Float32 => SampleFormat::Float,
            PcmKind::Int16 => SampleFormat::Int,
        },
    }
}

/// The header of the WAV file that a format is recorded to.
pub fn wav_spec(fmt: &FormatInfo) -> (spec: WavSpec)
    ensures
        spec == wav_header(*fmt),
{
    match fmt.kind {
        PcmKind::Float32 => WavSpec {
            channels: fmt.channels,
            sample_rate: fmt.sample_rate,
            bits_per_sample: 32,
            sample_format: SampleFormat::Float,
        },
        PcmKind::Int16 => WavSpec {
            channels: fmt.channels,
            sample_rate: fmt.sample_rate,
            bits_per_sample: 16,
            sample_format: SampleFormat::Int,
        },
    }
}

// ---------------------------------------------------------------------------
// Packets
// ---------------------------------------------------------------------------
/// Samples to be written to a WAV file; a float is held by its bits.
#[derive(Debug, PartialEq, Eq)]
pub enum Samples {
    Float32(Vec<u32>),
    Int16(Vec<i16>),
}

/// The bytes of one sample.
pub open spec fn sample_bytes(kind: PcmKind) -> int {
    match kind {
        PcmKind::Float32 => 4,
        PcmKind::Int16 => 2,
    }
}

/// The signed number that two bytes stand for, the low byte first.
pub open spec fn le_i16(lo: u8, hi: u8) -> int {
    let u = lo + 256 * hi;
    if u < 0x8000 {
        u
    } else {
        u - 0x1_0000
    }
}

/// The number that four bytes stand for, the low byte first.
pub open spec fn le_u32(b0: u8, b1: u8, b2: u8, b3: u8) -> int {
    b0 + 0x100 * b1 + 0x1_0000 * b2 + 0x100_0000 * b3
}

/// The samples of a packet: `total` zeros where it is silent, else what its
/// bytes stand for.
pub open spec fn packet(
    kind: PcmKind,
    bytes: Seq<u8>,
    total: int,
    silent: bool,
    out: Samples,
) -> bool {
    match kind {
        PcmKind::Float32 => out matches Samples::Float32(v) && v@.len() == total && forall|i: int|
            0 <= i < total ==> #[trigger] v@[i] == if silent {
                0
            } else {
                le_u32(bytes[4 * i], bytes[4 * i + 1], bytes[4 * i + 2], bytes[4 * i + 3])
            },
        PcmKind::Int16 => out matches Samples::Int16(v) && v@.len() == total && forall|i: int|
            0 <= i < total ==> #[trigger] v@[i] == if silent {
                0
            } else {
                le_i16(bytes[2 * i], bytes[2 * i + 1])
            },
    }
}

fn read_i16(lo: u8, hi: u8) -> (x: i16)
    ensures
        x == le_i16(lo, hi),
{
    let u: i32 = lo as i32 + 256 * (hi as i32);
    if u < 0x8000 {
        u as i16
    } else {
        (u - 0x1_0000) as i16
    }
}

fn read_u32(b0: u8, b1: u8, b2: u8, b3: u8) -> (x: u32)
    ensures
        x == le_u32(b0, b1, b2, b3),
{
    b0 as u32 + 0x100 * (b1 as u32) + 0x1_0000 * (b2 as u32) + 0x100_0000 * (b3 as u32)
}

/// The samples of a packet of `num_frames` frames, as they go to the WAV file.
/// The bytes of a silent packet are not read.
pub fn write_frames(fmt: &FormatInfo, bytes: &[u8], num_frames: usize, silent: bool) -> (out:
    Samples)
    requires
        num_frames * fmt.channels <= usize::MAX,
        !silent ==> num_frames * fmt.channels * sample_bytes(fmt.kind) <= bytes@.len(),
    ensures
        packet(fmt.kind, bytes@, num_frames * fmt.channels, silent, out),
{
    let total: usize = num_frames * (fmt.channels as usize);
    let len: usize = bytes.len();
    let mut i: usize = 0;
    match fmt.kind {
        PcmKind::Float32 => {
            let mut v: Vec<u32> = Vec::new();
            while i < total
                invariant
                    i <= total,
                    v@.len() == i,
                    len == bytes@.len(),
                    !silent ==> total * 4 <= len,
                    forall|j: int|
                        0 <= j < i ==> #[trigger] v@[j] == if silent {
                            0
                        } else {
                            le_u32(
                                bytes@[4 * j],
                                bytes@[4 * j + 1],
                                bytes@[4 * j + 2],
                                bytes@[4 * j + 3],
                            )
                        },
                decreases total - i,
            {
                if silent {
                    v.push(0);
                } else {
                    assert(4 * i + 3 < bytes@.len());
                    let at: usize = 4 * i;
                    v.push(read_u32(bytes[at], bytes[at + 1], bytes[at + 2], bytes[at + 3]));
                }
                i = i + 1;
            }
            Samples::Float32(v)
        },
        PcmKind::Int16 => {
            let mut v: Vec<i16> = Vec::new();
            while i < total
                invariant
                    i <= total,
                    v@.len() == i,
                    len == bytes@.len(),
                    !silent ==> total * 2 <= len,
                    forall|j: int|
                        0 <= j < i ==> #[trigger] v@[j] == if silent {
                            0
                        } else {
                            le_i16(bytes@[2 * j], bytes@[2 * j + 1])
                        },
                decreases total - i,
            {
                if silent {
                    v.push(0);
                } else {
                    assert(2 * i + 1 < bytes@.len());
                    let at: usize = 2 * i;
                    v.push(read_i16(bytes[at], bytes[at + 1]));
                }
                i = i + 1;
            }
            Samples::Int16(v)
        },
    }
}

/// The byte at `k` of samples stored with the low byte first.
pub open spec fn stored_byte(s: Samples, k: int) -> int {
    match s {
        Samples::Float32(v) => (v@[k / 4] as int / vstd::arithmetic::power::pow(
            256,
            (k % 4) as nat,
        )) % 256,
        Samples::Int16(v) => (v@[k / 2] as int / vstd::arithmetic::power::pow(
            256,
            (k % 2) as nat,
        )) % 256,
    }
}

/// A packet that is not silent reaches the WAV file byte for byte: its samples,
/// stored with the low byte first, are the bytes that were captured.
pub proof fn law_packet_keeps_bytes(
    kind: PcmKind,
    bytes: Seq<u8>,
    total: int,
    out: Samples,
    k: int,
)
    requires
        packet(kind, bytes, total, false, out),
        0 <= k < total * sample_bytes(kind) <= bytes.len(),
    ensures
        stored_byte(out, k) == bytes[k],
{
    lemma_powers_of_256();
    match out {
        Samples::Float32(v) => {
            let i = k / 4;
            let r = k % 4;
            assert(k == 4 * i + r);
            assert(0 <= i < total);
            let b0 = bytes[4 * i];
            let b1 = bytes[4 * i + 1];
            let b2 = bytes[4 * i + 2];
            let b3 = bytes[4 * i + 3];
            assert(v@[i] == le_u32(b0, b1, b2, b3));
            lemma_bytes_of_u32(b0, b1, b2, b3);
            if r == 0 {
                assert(stored_byte(out, k) == v@[i] as int % 256);
            } else if r == 1 {
                assert(stored_byte(out, k) == (v@[i] as int / 256) % 256);
            } else if r == 2 {
                assert(stored_byte(out, k) == (v@[i] as int / 0x1_0000) % 256);
            } else {
                assert(stored_byte(out, k) == (v@[i] as int / 0x100_0000) % 256);
            }
        },
        Samples::Int16(v) => {
            let i = k / 2;
            let r = k % 2;
            assert(k == 2 * i + r);
            assert(0 <= i < total);
            let lo = bytes[2 * i];
            let hi = bytes[2 * i + 1];
            assert(v@[i] == le_i16(lo, hi));
            lemma_bytes_of_i16(lo, hi);
            if r == 0 {
                assert(stored_byte(out, k) == v@[i] as int % 256);
            } else {
                assert(stored_byte(out, k) == (v@[i] as int / 256) % 256);
            }
        },
    }
}

proof fn lemma_powers_of_256()
    ensures
        vstd::arithmetic::power::pow(256, 0) == 1,
        vstd::arithmetic::power::pow(256, 1) == 256,
        vstd::arithmetic::power::pow(256, 2) == 0x1_0000,
        vstd::arithmetic::power::pow(256, 3) == 0x100_0000,
{
    reveal(vstd::arithmetic::power::pow);
    assert(vstd::arithmetic::power::pow(256, 0) == 1);
    assert(vstd::arithmetic::power::pow(256, 1) == 256 * vstd::arithmetic::power::pow(256, 0));
    assert(vstd::arithmetic::power::pow(256, 2) == 256 * vstd::arithmetic::power::pow(256, 1));
    assert(vstd::arithmetic::power::pow(256, 3) == 256 * vstd::arithmetic::power::pow(256, 2));
}

proof fn lemma_bytes_of_u32(b0: u8, b1: u8, b2: u8, b3: u8)
    ensures
        le_u32(b0, b1, b2, b3) % 256 == b0,
        (le_u32(b0, b1, b2, b3) / 256) % 256 == b1,
        (le_u32(b0, b1, b2, b3) / 0x1_0000) % 256 == b2,
        (le_u32(b0, b1, b2, b3) / 0x100_0000) % 256 == b3,
{
    let x = le_u32(b0, b1, b2, b3);
    assert(x / 256 == b1 + 0x100 * b2 + 0x1_0000 * b3);
    assert(x / 0x1_0000 == b2 + 0x100 * b3);
    assert(x / 0x100_0000 == b3);
}

proof fn lemma_bytes_of_i16(lo: u8, hi: u8)
    ensures
        le_i16(lo, hi) % 256 == lo,
        (le_i16(lo, hi) / 256) % 256 == hi,
{
    let x = le_i16(lo, hi);
    if hi < 0x80 {
        assert(x / 256 == hi);
    } else {
        assert(x / 256 == hi - 256);
    }
}

// ---------------------------------------------------------------------------
// Laws of the fields
// ---------------------------------------------------------------------------
/// Which formats are recorded, by their fields: 32-bit floats and 16-bit integers,
/// each named by a plain tag or by the sub-format of an extensible format, at
/// every rate and with every number of channels. Every other format is refused.
pub proof fn law_recorded_formats(f: WaveFormat, r: Result<FormatInfo, WasapiError>)
    requires
        inspected(f, r),
    ensures
        ({
            let extensible = f.format_tag == 0xFFFE && f.cb_size >= 22;
            let float = f.bits_per_sample == 32 && (f.format_tag == 0x0003 || (extensible
                && f.sub_format == 0x0000_0003_0000_0010_8000_00aa_0038_9b71));
            let int16 = f.bits_per_sample == 16 && (f.format_tag == 0x0001 || (extensible
                && f.sub_format == 0x0000_0001_0000_0010_8000_00aa_0038_9b71));
            &&& r is Ok <==> float || int16
            &&& r matches Ok(info) ==> {
                &&& info.channels == f.channels
                &&& info.sample_rate == f.samples_per_sec
                &&& info.kind is Float32 <==> float
                &&& info.kind is Int16 <==> int16
            }
        }),
{
}

/// Rate, channels and the derived fields take no part in the decision: formats
/// that agree in tag, sample size and sub-format are recorded alike or refused
/// alike, with the same words.
pub proof fn law_kind_is_independent_of_the_rate(
    f: WaveFormat,
    g: WaveFormat,
    r: Result<FormatInfo, WasapiError>,
    q: Result<FormatInfo, WasapiError>,
)
    requires
        inspected(f, r),
        inspected(g, q),
        f.format_tag == g.format_tag,
        f.bits_per_sample == g.bits_per_sample,
        f.cb_size == g.cb_size,
        f.sub_format == g.sub_format,
    ensures
        r is Ok <==> q is Ok,
        r is Ok ==> r->Ok_0.kind == q->Ok_0.kind,
        r is Err ==> r->Err_0.text() == q->Err_0.text(),
{
}

/// A refusal names the sub-format of an extensible format, and else the tag, and
/// in either case the sample size.
pub proof fn law_refusal_names_the_format(f: WaveFormat, r: Result<FormatInfo, WasapiError>)
    requires
        inspected(f, r),
        r is Err,
    ensures
        r matches Err(WasapiError::UnsupportedFormat(what)) && what@ == if f.format_tag == 0xFFFE
            && f.cb_size >= 22 {
            "EXTENSIBLE sub="@ + guid_text(f.sub_format) + " bits="@ + crate::text::decimal(
                f.bits_per_sample as nat,
            )
        } else {
            "tag=0x"@ + crate::text::hex4_lower(f.format_tag) + " bits="@ + crate::text::decimal(
                f.bits_per_sample as nat,
            )
        },
{
}

/// The notation of a GUID: groups of 8, 4, 4, 4 and 12 upper case hexadecimal
/// digits with hyphens between them, the `k`-th digit being that of 16 to the
/// power of `31 - k`.
pub proof fn law_guid_notation(x: u128, k: int)
    requires
        0 <= k < 32,
    ensures
        guid_text(x).len() == 36,
        guid_text(x)[8] == '-' && guid_text(x)[13] == '-' && guid_text(x)[18] == '-' && guid_text(
            x,
        )[23] == '-',
        ({
            let at = if k < 8 {
                k
            } else if k < 12 {
                k + 1
            } else if k < 16 {
                k + 2
            } else if k < 20 {
                k + 3
            } else {
                k + 4
            };
            let c = guid_text(x)[at];
            let d = (x as int / vstd::arithmetic::power::pow(16, (31 - k) as nat)) % 16;
            &&& d < 10 ==> '0' <= c <= '9' && c as int - 48 == d
            &&& d >= 10 ==> 'A' <= c <= 'F' && c as int - 55 == d
        }),
{
}

/// Plain PCM: the size of a frame is that of its samples, and the bytes of a
/// second are those of its frames.
pub proof fn law_plain_pcm_fields(sample_rate: u32, channels: u16, bits: u16)
    requires
        channels * bits <= 0xFFFF,
        sample_rate * ((channels * bits) / 8) <= 0xFFFF_FFFF,
    ensures
        ({
            let f = plain_pcm(sample_rate, channels, bits);
            &&& f.format_tag == 1
            &&& f.channels == channels
            &&& f.samples_per_sec == sample_rate
            &&& f.bits_per_sample == bits
            &&& f.block_align == (channels * bits) / 8
            &&& f.avg_bytes_per_sec == sample_rate * ((channels * bits) / 8)
            &&& f.cb_size == 0
        }),
{
    assert(sample_rate as int * ((channels * bits) / 8) >= 0) by (nonlinear_arith)
        requires
            channels >= 0,
            bits >= 0,
            sample_rate >= 0,
    ;
}

/// The header of the WAV file has the channels and the rate of the format, and
/// says 32-bit floats or 16-bit integers as the format does.
pub proof fn law_header_follows_the_format(fmt: FormatInfo)
    ensures
        wav_header(fmt).channels == fmt.channels,
        wav_header(fmt).sample_rate == fmt.sample_rate,
        fmt.kind is Float32 ==> wav_header(fmt).bits_per_sample == 32 && wav_header(
            fmt,
        ).sample_format is Float,
        fmt.kind is Int16 ==> wav_header(fmt).bits_per_sample == 16 && wav_header(
            fmt,
        ).sample_format is Int,
{
}

/// A packet becomes one sample per channel and frame: zeros where it is silent,
/// and else the numbers that four bytes each, or two, stand for with the low byte
/// first.
pub proof fn law_samples_of_a_packet(
    kind: PcmKind,
    bytes: Seq<u8>,
    total: int,
    silent: bool,
    out: Samples,
    i: int,
)
    requires
        packet(kind, bytes, total, silent, out),
        0 <= i < total,
    ensures
        match out {
            Samples::Float32(v) => {
                &&& kind is Float32
                &&& v@.len() == total
                &&& silent ==> v@[i] == 0
                &&& !silent ==> v@[i] == bytes[4 * i] + 256 * (bytes[4 * i + 1] + 256 * (bytes[4 * i
                    + 2] + 256 * bytes[4 * i + 3]))
            },
            Samples::Int16(v) => {
                &&& kind is Int16
                &&& v@.len() == total
                &&& silent ==> v@[i] == 0
                &&& !silent ==> (v@[i] - (bytes[2 * i] + 256 * bytes[2 * i + 1])) % 65_536 == 0
            },
        },
{
}

/// A sample of a packet takes four bytes or two.
pub proof fn law_sample_sizes()
    ensures
        sample_bytes(PcmKind::Float32) == 4,
        sample_bytes(PcmKind::Int16) == 2,
{
}

} // verus!
