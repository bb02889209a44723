//! The audio-format description: encoding families, channel counts, and the
//! decoder for the format subchunk's payload.

use vstd::prelude::*;

use crate::errors::{DJWavFixerError, WavFault};
use crate::render::{append_str, dec_digits, hex_digits, u128_dec, u32_hex_prefixed};
use vstd::slice::{slice_subrange, slice_to_vec};

verus! {

/// Channel count of an audio stream, with named values for the two common
/// layouts.
#[derive(Clone, Copy, PartialEq, Eq, Structural, Debug)]
pub enum WaveAudioChannels {
    Mono,
    Stereo,
    Other(u16),
}

impl WaveAudioChannels {
    /// The channel count this value stands for.
    pub open spec fn spec_as_u16(self) -> u16 {
        match self {
            WaveAudioChannels::Mono => 1,
            WaveAudioChannels::Stereo => 2,
            WaveAudioChannels::Other(value) => value,
        }
    }

    /// The channel-count value read from a format description.
    pub open spec fn spec_from(value: u16) -> WaveAudioChannels {
        if value == 1 {
            WaveAudioChannels::Mono
        } else if value == 2 {
            WaveAudioChannels::Stereo
        } else {
            WaveAudioChannels::Other(value)
        }
    }

    pub fn as_u16(&self) -> (r: u16)
        ensures
            r == self.spec_as_u16(),
    {
        match self {
            WaveAudioChannels::Mono => 1,
            WaveAudioChannels::Stereo => 2,
            WaveAudioChannels::Other(value) => *value,
        }
    }

    pub fn from(value: u16) -> (r: WaveAudioChannels)
        ensures
            r == WaveAudioChannels::spec_from(value),
    {
        if value == 1 {
            WaveAudioChannels::Mono
        } else if value == 2 {
            WaveAudioChannels::Stereo
        } else {
            WaveAudioChannels::Other(value)
        }
    }
}

/// The encoding family named by the 2-byte tag at the start of a format
/// description.
#[derive(Clone, Copy, PartialEq, Eq, Structural, Debug)]
pub enum WaveFormatType {
    IntegerPCM,
    MicrosoftADPCM,
    FloatPCM,
    ALaw,
    ULaw,
    ImaAdpcm,
    WaveFormatExtensible,
}

impl WaveFormatType {
    /// The on-disk tag value of each encoding family.
    pub open spec fn code(self) -> u16 {
        match self {
            WaveFormatType::IntegerPCM => 1,
            WaveFormatType::MicrosoftADPCM => 2,
            WaveFormatType::FloatPCM => 3,
            WaveFormatType::ALaw => 6,
            WaveFormatType::ULaw => 7,
            WaveFormatType::ImaAdpcm => 17,
            WaveFormatType::WaveFormatExtensible => 0xFFFE,
        }
    }

    /// The encoding family a tag value names, if any.
    pub open spec fn spec_of_code(value: u16) -> Option<WaveFormatType> {
        if value == 1 {
            Some(WaveFormatType::IntegerPCM)
        } else if value == 2 {
            Some(WaveFormatType::MicrosoftADPCM)
        } else if value == 3 {
            Some(WaveFormatType::FloatPCM)
        } else if value == 6 {
            Some(WaveFormatType::ALaw)
        } else if value == 7 {
            Some(WaveFormatType::ULaw)
        } else if value == 17 {
            Some(WaveFormatType::ImaAdpcm)
        } else if value == 0xFFFE {
            Some(WaveFormatType::WaveFormatExtensible)
        } else {
            None
        }
    }

    /// Decodes a tag value, rejecting any value outside the recognized set.
    pub fn try_from(value: u16) -> (r: Result<WaveFormatType, DJWavFixerError>)
        ensures
            r == (match WaveFormatType::spec_of_code(value) {
                Some(t) => Result::<WaveFormatType, DJWavFixerError>::Ok(t),
                None => Result::<WaveFormatType, DJWavFixerError>::Err(
                    DJWavFixerError::WaveFormatError(WavFault::UnsupportedFormatTag { value }),
                ),
            }),
    {
        match value {
            1u16 => Ok(WaveFormatType::IntegerPCM),
            2u16 => Ok(WaveFormatType::MicrosoftADPCM),
            3u16 => Ok(WaveFormatType::FloatPCM),
            6u16 => Ok(WaveFormatType::ALaw),
            7u16 => Ok(WaveFormatType::ULaw),
            17u16 => Ok(WaveFormatType::ImaAdpcm),
            0xFFFEu16 => Ok(WaveFormatType::WaveFormatExtensible),
            _ => Err(DJWavFixerError::WaveFormatError(WavFault::UnsupportedFormatTag { value })),
        }
    }
}

/// A decoded audio-format description, as carried by the format subchunk.
#[derive(Clone, Debug, PartialEq)]
pub struct WaveFormatExtensible {
    pub format_tag: WaveFormatType,
    pub channels: WaveAudioChannels,
    pub sample_rate: u32,
    pub avg_bytes_per_second: u32,
    pub block_align: u16,
    pub bits_per_sample: u16,
    pub valid_bits_per_sample: Option<u16>,
    pub channel_mask: u32,
    pub subformat_data: Vec<u8>,
}

/// The mathematical value of a [`WaveFormatExtensible`]: the same fields,
/// with the opaque trailing sub-format identifier as a byte sequence.
#[verifier::ext_equal]
pub ghost struct WaveFormatView {
    pub format_tag: WaveFormatType,
    pub channels: WaveAudioChannels,
    pub sample_rate: u32,
    pub avg_bytes_per_second: u32,
    pub block_align: u16,
    pub bits_per_sample: u16,
    pub valid_bits_per_sample: Option<u16>,
    pub channel_mask: u32,
    pub subformat_data: Seq<u8>,
}

impl View for WaveFormatExtensible {
    type V = WaveFormatView;

    open spec fn view(&self) -> WaveFormatView {
        WaveFormatView {
            format_tag: self.format_tag,
            channels: self.channels,
            sample_rate: self.sample_rate,
            avg_bytes_per_second: self.avg_bytes_per_second,
            block_align: self.block_align,
            bits_per_sample: self.bits_per_sample,
            valid_bits_per_sample: self.valid_bits_per_sample,
            channel_mask: self.channel_mask,
            subformat_data: self.subformat_data@,
        }
    }
}

/// The 2-byte little-endian value at offset `i` of `data`.
pub open spec fn spec_le16(data: Seq<u8>, i: int) -> u16 {
    (data[i] + data[i + 1] * 0x100) as u16
}

/// The 4-byte little-endian value at offset `i` of `data`.
pub open spec fn spec_le32(data: Seq<u8>, i: int) -> u32 {
    (data[i] + data[i + 1] * 0x100 + data[i + 2] * 0x1_0000 + data[i + 3] * 0x100_0000) as u32
}

/// Reads the 2-byte little-endian value at offset `i`.
pub fn read_le16(data: &[u8], i: usize) -> (r: u16)
    requires
        i + 2 <= data@.len(),
    ensures
        r == spec_le16(data@, i as int),
{
    (data[i] as u16) + (data[i + 1] as u16) * 0x100
}

/// Reads the 4-byte little-endian value at offset `i`.
pub fn read_le32(data: &[u8], i: usize) -> (r: u32)
    requires
        i + 4 <= data@.len(),
    ensures
        r == spec_le32(data@, i as int),
{
    (data[i] as u32) + (data[i + 1] as u32) * 0x100 + (data[i + 2] as u32) * 0x1_0000
        + (data[i + 3] as u32) * 0x100_0000
}

/// The bits actually carried per sample: the "valid bits" override when
/// present, else the nominal width.
pub open spec fn spec_effective_bits(valid_bits: Option<u16>, bits_per_sample: u16) -> u16 {
    match valid_bits {
        Some(v) => v,
        None => bits_per_sample,
    }
}

/// `bits` rounded up to the next multiple of 8: the storage width of one
/// sample of one channel, in bits.
pub open spec fn spec_storage_bits(bits: u16) -> int {
    ((bits + 7) / 8) * 8
}

/// The block alignment a description must declare: channel count times the
/// storage bytes of one sample.
pub open spec fn spec_calc_block_align(channels: WaveAudioChannels, effective_bits: u16) -> int {
    channels.spec_as_u16() * (spec_storage_bits(effective_bits) / 8)
}

/// The family-specific extension fields read from `data`, or the fault that
/// rejects them: the valid-bits override, the channel mask, and the opaque
/// sub-format identifier.
pub open spec fn spec_parse_extension(
    data: Seq<u8>,
    format_tag: WaveFormatType,
    cb_size: u16,
) -> Result<(Option<u16>, u32, Seq<u8>), DJWavFixerError> {
    match format_tag {
        WaveFormatType::IntegerPCM | WaveFormatType::FloatPCM => {
            if cb_size != 0 {
                Err(DJWavFixerError::WaveFormatError(WavFault::NonzeroPcmExtension { cb_size }))
            } else {
                Ok((None, 0u32, Seq::<u8>::empty()))
            }
        },
        WaveFormatType::MicrosoftADPCM => {
            Err(DJWavFixerError::WaveFormatError(WavFault::AdpcmUnsupported))
        },
        WaveFormatType::ImaAdpcm => {
            Err(DJWavFixerError::WaveFormatError(WavFault::ImaAdpcmUnsupported))
        },
        WaveFormatType::WaveFormatExtensible => {
            if cb_size < 22 {
                Err(DJWavFixerError::WaveFormatError(WavFault::ExtensionTooSmall { cb_size }))
            } else if data.len() < 18 + cb_size {
                Err(DJWavFixerError::WaveFormatError(WavFault::ExtensionTruncated {
                    len: data.len() as usize,
                    cb_size,
                }))
            } else {
                Ok((Some(spec_le16(data, 18)), spec_le32(data, 20), data.subrange(24, data.len() as int)))
            }
        },
        WaveFormatType::ALaw | WaveFormatType::ULaw => Ok((None, 0u32, Seq::<u8>::empty())),
    }
}

/// The cross-field arithmetic validation applied to every decoded
/// description: the declared block alignment and average byte rate must be
/// derivable from the other fields.
pub open spec fn spec_validate_fields(
    d: WaveFormatView,
) -> Result<WaveFormatView, DJWavFixerError> {
    let calc_align = spec_calc_block_align(
        d.channels,
        spec_effective_bits(d.valid_bits_per_sample, d.bits_per_sample),
    );
    if d.block_align != calc_align {
        Err(DJWavFixerError::WaveFormatError(WavFault::BlockAlignMismatch {
            expected: calc_align as u32,
            declared: d.block_align,
        }))
    } else if d.avg_bytes_per_second != d.sample_rate * d.block_align {
        Err(DJWavFixerError::WaveFormatError(WavFault::AvgBytesMismatch {
            expected: (d.sample_rate * d.block_align) as u64,
            declared: d.avg_bytes_per_second,
        }))
    } else {
        Ok(d)
    }
}

/// What decoding the format subchunk payload `data` yields: either a fully
/// validated description, or the first fault found, in the fixed order of
/// checks (length, family tag, extension, block alignment, byte rate).
pub open spec fn spec_parse_wave_format(
    data: Seq<u8>,
) -> Result<WaveFormatView, DJWavFixerError> {
    if data.len() < 16 {
        Err(DJWavFixerError::WaveFormatError(WavFault::DataTooShort { len: data.len() as usize }))
    } else {
        let tag_value = spec_le16(data, 0);
        match WaveFormatType::spec_of_code(tag_value) {
            None => Err(DJWavFixerError::WaveFormatError(WavFault::UnsupportedFormatTag {
                value: tag_value,
            })),
            Some(format_tag) => {
                if data.len() == 17 {
                    Err(DJWavFixerError::WaveFormatError(WavFault::DataTooShort {
                        len: data.len() as usize,
                    }))
                } else {
                    let cb_size: u16 = if data.len() > 16 {
                        spec_le16(data, 16)
                    } else {
                        0
                    };
                    match spec_parse_extension(data, format_tag, cb_size) {
                        Err(e) => Err(e),
                        Ok((valid_bits_per_sample, channel_mask, subformat_data)) => {
                            spec_validate_fields(WaveFormatView {
                                format_tag,
                                channels: WaveAudioChannels::spec_from(spec_le16(data, 2)),
                                sample_rate: spec_le32(data, 4),
                                avg_bytes_per_second: spec_le32(data, 8),
                                block_align: spec_le16(data, 12),
                                bits_per_sample: spec_le16(data, 14),
                                valid_bits_per_sample,
                                channel_mask,
                                subformat_data,
                            })
                        },
                    }
                }
            },
        }
    }
}

impl WaveFormatExtensible {
    /// Decodes and validates the raw payload of a format subchunk.
    ///
    /// The result is exactly what [`spec_parse_wave_format`] assigns to the
    /// payload: a description whose every field was read little-endian from
    /// its specified offset and whose block alignment and average byte rate
    /// are consistent with the other fields, or the first fault found.
    pub fn try_from(data: &[u8]) -> (r: Result<WaveFormatExtensible, DJWavFixerError>)
        ensures
            (match r {
                Ok(d) => Ok::<WaveFormatView, DJWavFixerError>(d@),
                Err(e) => Err::<WaveFormatView, DJWavFixerError>(e),
            }) == spec_parse_wave_format(data@),
    {
        if data.len() < 16 {
            return Err(DJWavFixerError::WaveFormatError(WavFault::DataTooShort {
                len: data.len(),
            }));
        }
        let tag_value = read_le16(data, 0);
        let format_tag = match WaveFormatType::try_from(tag_value) {
            Ok(t) => t,
            Err(e) => {
                return Err(e);
            },
        };
        if data.len() == 17 {
            return Err(DJWavFixerError::WaveFormatError(WavFault::DataTooShort {
                len: data.len(),
            }));
        }
        let channels = WaveAudioChannels::from(read_le16(data, 2));
        let sample_rate = read_le32(data, 4);
        let avg_bytes_per_second = read_le32(data, 8);
        let block_align = read_le16(data, 12);
        let bits_per_sample = read_le16(data, 14);
        // The extension-length field exists only when the payload goes on
        // past the fixed 16-byte description.
        let cb_size: u16 = if data.len() > 16 {
            read_le16(data, 16)
        } else {
            0
        };

        let (valid_bits_per_sample, channel_mask, subformat_data): (Option<u16>, u32, Vec<u8>) =
            match format_tag {
            WaveFormatType::IntegerPCM | WaveFormatType::FloatPCM => {
                if cb_size != 0 {
                    return Err(DJWavFixerError::WaveFormatError(WavFault::NonzeroPcmExtension {
                        cb_size,
                    }));
                }
                (None, 0u32, Vec::new())
            },
            WaveFormatType::MicrosoftADPCM => {
                return Err(DJWavFixerError::WaveFormatError(WavFault::AdpcmUnsupported));
            },
            WaveFormatType::ImaAdpcm => {
                return Err(DJWavFixerError::WaveFormatError(WavFault::ImaAdpcmUnsupported));
            },
            WaveFormatType::WaveFormatExtensible => {
                if cb_size < 22 {
                    return Err(DJWavFixerError::WaveFormatError(WavFault::ExtensionTooSmall {
                        cb_size,
                    }));
                }
                if (data.len() as u64) < 18u64 + cb_size as u64 {
                    return Err(DJWavFixerError::WaveFormatError(WavFault::ExtensionTruncated {
                        len: data.len(),
                        cb_size,
                    }));
                }
                let valid_bits = read_le16(data, 18);
                let mask = read_le32(data, 20);
                let sub = slice_to_vec(slice_subrange(data, 24, data.len()));
                (Some(valid_bits), mask, sub)
            },
            WaveFormatType::ALaw | WaveFormatType::ULaw => (None, 0u32, Vec::new()),
        };

        // Widths: storage bits stay under 2^17 and the derived alignment
        // under 2^30, so u32 holds both exactly; the byte rate product stays
        // under 2^48, so u64 holds it exactly.
        let effective_bits: u16 = match valid_bits_per_sample {
            Some(v) => v,
            None => bits_per_sample,
        };
        let storage_bits: u32 = ((effective_bits as u32) + 7) / 8 * 8;
        let channel_count: u32 = channels.as_u16() as u32;
        let storage_bytes: u32 = storage_bits / 8;
        proof {
            assert(storage_bytes <= 0x2000);
            assert(channel_count * storage_bytes <= 0xFFFF * 0x2000) by (nonlinear_arith)
                requires
                    channel_count <= 0xFFFF,
                    storage_bytes <= 0x2000,
            ;
        }
        let calculated_block_align: u32 = channel_count * storage_bytes;
        if (block_align as u32) != calculated_block_align {
            return Err(DJWavFixerError::WaveFormatError(WavFault::BlockAlignMismatch {
                expected: calculated_block_align,
                declared: block_align,
            }));
        }
        proof {
            assert((sample_rate as u64) * (block_align as u64) <= 0xFFFF_FFFFu64 * 0xFFFFu64)
                by (nonlinear_arith)
                requires
                    sample_rate <= 0xFFFF_FFFFu64,
                    block_align <= 0xFFFFu64,
            ;
        }
        let calculated_avg: u64 = (sample_rate as u64) * (block_align as u64);
        if (avg_bytes_per_second as u64) != calculated_avg {
            return Err(DJWavFixerError::WaveFormatError(WavFault::AvgBytesMismatch {
                expected: calculated_avg,
                declared: avg_bytes_per_second,
            }));
        }

        Ok(WaveFormatExtensible {
            format_tag,
            channels,
            sample_rate,
            avg_bytes_per_second,
            block_align,
            bits_per_sample,
            valid_bits_per_sample,
            channel_mask,
            subformat_data,
        })
    }
}


impl WaveFormatView {
    /// The description names the plain uncompressed integer PCM family.
    pub open spec fn is_integer_pcm(self) -> bool {
        self.format_tag == WaveFormatType::IntegerPCM
    }

    /// The sample width is one that playback devices accept: 16 or 24 bits.
    pub open spec fn is_sample_bits_supported(self) -> bool {
        self.bits_per_sample == 16 || self.bits_per_sample == 24
    }

    /// The description needs rewriting: its sample width is unsupported or
    /// its family is anything but plain uncompressed integer PCM.
    pub open spec fn spec_needs_fixing(self) -> bool {
        !self.is_sample_bits_supported() || !self.is_integer_pcm()
    }

    /// The description can safely be rewritten as plain integer PCM: its
    /// sample width is supported, the source path names a regular file, its
    /// family is the extensible wrapper, and its "valid bits" override, when
    /// present, equals the nominal width (no sub-byte packing).
    pub open spec fn spec_can_fix(self, path_is_file: bool) -> bool {
        if self.is_sample_bits_supported() {
            &&& path_is_file
            &&& self.format_tag == WaveFormatType::WaveFormatExtensible
            &&& self.bits_per_sample == spec_effective_bits(
                self.valid_bits_per_sample,
                self.bits_per_sample,
            )
        } else {
            false
        }
    }
}

impl WaveFormatExtensible {
    pub fn is_integer_pcm(&self) -> (r: bool)
        ensures
            r == self@.is_integer_pcm(),
    {
        self.format_tag == WaveFormatType::IntegerPCM
    }

    pub fn is_sample_bits_supported_by_players(&self) -> (r: bool)
        ensures
            r == self@.is_sample_bits_supported(),
    {
        self.bits_per_sample == 16 || self.bits_per_sample == 24
    }
}

/// A format description needs no rewriting exactly when its encoding family
/// is uncompressed integer PCM and its sample width is 16 or 24 bits.
pub proof fn lemma_needs_fixing_characterization(d: WaveFormatView)
    ensures
        !d.spec_needs_fixing() <==> (d.format_tag == WaveFormatType::IntegerPCM && (
        d.bits_per_sample == 16 || d.bits_per_sample == 24)),
{
}

/// A format description is eligible for repair only when its encoding family
/// is the extensible wrapper, its sample width is 16 or 24 bits, its "valid
/// bits" override (when present) equals the nominal width, and the source
/// path names a regular file.
pub proof fn lemma_can_fix_requirements(d: WaveFormatView, path_is_file: bool)
    ensures
        d.spec_can_fix(path_is_file) ==> {
            &&& d.format_tag == WaveFormatType::WaveFormatExtensible
            &&& (d.bits_per_sample == 16 || d.bits_per_sample == 24)
            &&& spec_effective_bits(d.valid_bits_per_sample, d.bits_per_sample)
                == d.bits_per_sample
            &&& path_is_file
        },
{
}


/// The two little-endian bytes of `x`.
pub open spec fn le16_bytes(x: u16) -> Seq<u8> {
    seq![(x % 0x100) as u8, (x / 0x100) as u8]
}

/// The four little-endian bytes of `x`.
pub open spec fn le32_bytes(x: u32) -> Seq<u8> {
    seq![
        (x % 0x100) as u8,
        ((x / 0x100) % 0x100) as u8,
        ((x / 0x1_0000) % 0x100) as u8,
        (x / 0x100_0000) as u8,
    ]
}

/// The 18-byte fixed header a format description encodes to: family tag,
/// channel count, sample rate, average byte rate, block alignment, bits per
/// sample, and a zero extension length — all little-endian.
pub open spec fn spec_format_header_bytes(d: WaveFormatView) -> Seq<u8> {
    le16_bytes(d.format_tag.code()) + le16_bytes(d.channels.spec_as_u16()) + le32_bytes(
        d.sample_rate,
    ) + le32_bytes(d.avg_bytes_per_second) + le16_bytes(d.block_align) + le16_bytes(
        d.bits_per_sample,
    ) + le16_bytes(0)
}

/// Reading back the two little-endian bytes of `x` at offset `i` gives `x`.
pub proof fn lemma_le16_roundtrip(data: Seq<u8>, i: int, x: u16)
    requires
        0 <= i,
        i + 2 <= data.len(),
        data.subrange(i, i + 2) == le16_bytes(x),
    ensures
        spec_le16(data, i) == x,
{
    assert(data[i] == le16_bytes(x)[0]);
    assert(data[i + 1] == le16_bytes(x)[1]);
    assert((x % 0x100) + (x / 0x100) * 0x100 == x);
}

/// Reading back the four little-endian bytes of `x` at offset `i` gives `x`.
pub proof fn lemma_le32_roundtrip(data: Seq<u8>, i: int, x: u32)
    requires
        0 <= i,
        i + 4 <= data.len(),
        data.subrange(i, i + 4) == le32_bytes(x),
    ensures
        spec_le32(data, i) == x,
{
    assert(data[i] == le32_bytes(x)[0]);
    assert(data[i + 1] == le32_bytes(x)[1]);
    assert(data[i + 2] == le32_bytes(x)[2]);
    assert(data[i + 3] == le32_bytes(x)[3]);
    assert((x % 0x100) + ((x / 0x100) % 0x100) * 0x100 + ((x / 0x1_0000) % 0x100) * 0x1_0000 + (x
        / 0x100_0000) * 0x100_0000 == x) by (bit_vector);
}

/// Every internally consistent uncompressed-PCM format description survives
/// an encode-decode round trip with every field intact: decoding the 18-byte
/// header it encodes to succeeds and yields the description itself.
pub proof fn lemma_pcm_round_trip(d: WaveFormatView)
    requires
        d.format_tag == WaveFormatType::IntegerPCM || d.format_tag == WaveFormatType::FloatPCM,
        d.valid_bits_per_sample is None,
        d.channel_mask == 0,
        d.subformat_data == Seq::<u8>::empty(),
        d.channels == WaveAudioChannels::spec_from(d.channels.spec_as_u16()),
        d.block_align == spec_calc_block_align(d.channels, d.bits_per_sample),
        d.avg_bytes_per_second == d.sample_rate * d.block_align,
    ensures
        spec_parse_wave_format(spec_format_header_bytes(d)) == Ok::<
            WaveFormatView,
            DJWavFixerError,
        >(d),
{
    let bytes = spec_format_header_bytes(d);
    assert(bytes.len() == 18);
    assert(bytes.subrange(0, 2) =~= le16_bytes(d.format_tag.code()));
    lemma_le16_roundtrip(bytes, 0, d.format_tag.code());
    assert(bytes.subrange(2, 4) =~= le16_bytes(d.channels.spec_as_u16()));
    lemma_le16_roundtrip(bytes, 2, d.channels.spec_as_u16());
    assert(bytes.subrange(4, 8) =~= le32_bytes(d.sample_rate));
    lemma_le32_roundtrip(bytes, 4, d.sample_rate);
    assert(bytes.subrange(8, 12) =~= le32_bytes(d.avg_bytes_per_second));
    lemma_le32_roundtrip(bytes, 8, d.avg_bytes_per_second);
    assert(bytes.subrange(12, 14) =~= le16_bytes(d.block_align));
    lemma_le16_roundtrip(bytes, 12, d.block_align);
    assert(bytes.subrange(14, 16) =~= le16_bytes(d.bits_per_sample));
    lemma_le16_roundtrip(bytes, 14, d.bits_per_sample);
    assert(bytes.subrange(16, 18) =~= le16_bytes(0));
    lemma_le16_roundtrip(bytes, 16, 0);

    assert(WaveFormatType::spec_of_code(d.format_tag.code()) == Some(d.format_tag));
    let parsed = spec_parse_wave_format(bytes);
    assert(parsed is Ok);
    assert(parsed->Ok_0 =~= d);
}


/// Every payload shorter than 16 bytes is rejected with a format error
/// naming its length, regardless of content.
pub proof fn lemma_short_payload_rejected(data: Seq<u8>)
    requires
        data.len() < 16,
    ensures
        spec_parse_wave_format(data) == Err::<WaveFormatView, DJWavFixerError>(
            DJWavFixerError::WaveFormatError(WavFault::DataTooShort { len: data.len() as usize }),
        ),
{
}

/// Every payload that reaches the cross-field checks with a declared block
/// alignment different from channel-count times the storage bytes of the
/// effective sample width is rejected, and the fault carries both the
/// derived and the declared value.
pub proof fn lemma_block_align_mismatch_rejected(data: Seq<u8>)
    requires
        data.len() >= 16,
        data.len() != 17,
        WaveFormatType::spec_of_code(spec_le16(data, 0)) is Some,
        spec_parse_extension(
            data,
            WaveFormatType::spec_of_code(spec_le16(data, 0))->Some_0,
            if data.len() > 16 {
                spec_le16(data, 16)
            } else {
                0
            },
        ) is Ok,
        ({
            let (valid_bits, mask, sub) = spec_parse_extension(
                data,
                WaveFormatType::spec_of_code(spec_le16(data, 0))->Some_0,
                if data.len() > 16 {
                    spec_le16(data, 16)
                } else {
                    0
                },
            )->Ok_0;
            spec_le16(data, 12) != spec_calc_block_align(
                WaveAudioChannels::spec_from(spec_le16(data, 2)),
                spec_effective_bits(valid_bits, spec_le16(data, 14)),
            )
        }),
    ensures
        ({
            let (valid_bits, mask, sub) = spec_parse_extension(
                data,
                WaveFormatType::spec_of_code(spec_le16(data, 0))->Some_0,
                if data.len() > 16 {
                    spec_le16(data, 16)
                } else {
                    0
                },
            )->Ok_0;
            spec_parse_wave_format(data) == Err::<WaveFormatView, DJWavFixerError>(
                DJWavFixerError::WaveFormatError(WavFault::BlockAlignMismatch {
                    expected: spec_calc_block_align(
                        WaveAudioChannels::spec_from(spec_le16(data, 2)),
                        spec_effective_bits(valid_bits, spec_le16(data, 14)),
                    ) as u32,
                    declared: spec_le16(data, 12),
                }),
            )
        }),
{
}


/// The display name of each encoding family.
pub open spec fn spec_format_type_name(t: WaveFormatType) -> Seq<char> {
    match t {
        WaveFormatType::IntegerPCM => "Integer PCM"@,
        WaveFormatType::MicrosoftADPCM => "Microsoft ADPCM"@,
        WaveFormatType::FloatPCM => "Float PCM"@,
        WaveFormatType::ALaw => "A-Law"@,
        WaveFormatType::ImaAdpcm => "IMA ADPCM"@,
        WaveFormatType::ULaw => "U-Law"@,
        WaveFormatType::WaveFormatExtensible => "Wave Format Extensible"@,
    }
}

impl WaveFormatType {
    /// The family's display name.
    pub fn name(&self) -> (r: &'static str)
        ensures
            r@ == spec_format_type_name(*self),
    {
        match self {
            WaveFormatType::IntegerPCM => "Integer PCM",
            WaveFormatType::MicrosoftADPCM => "Microsoft ADPCM",
            WaveFormatType::FloatPCM => "Float PCM",
            WaveFormatType::ALaw => "A-Law",
            WaveFormatType::ImaAdpcm => "IMA ADPCM",
            WaveFormatType::ULaw => "U-Law",
            WaveFormatType::WaveFormatExtensible => "Wave Format Extensible",
        }
    }
}

/// The indented description block a format description reports as: one line
/// per field, the channel mask only for the extensible wrapper, and the
/// sub-format identifier's length only when one is present.
pub open spec fn spec_information_text(d: WaveFormatView) -> Seq<char> {
    "  Format Tag: "@ + spec_format_type_name(d.format_tag) + "\n"@ + "  Channels: "@
        + dec_digits(d.channels.spec_as_u16() as int) + "\n"@ + "  Sample Rate: "@ + dec_digits(
        d.sample_rate as int,
    ) + "\n"@ + "  Average Bytes Per Second: "@ + dec_digits(d.avg_bytes_per_second as int)
        + "\n"@ + "  Block Align: "@ + dec_digits(d.block_align as int) + "\n"@
        + "  Bits Per Sample: "@ + dec_digits(d.bits_per_sample as int) + "\n"@
        + "  Valid Bits Per Sample: "@ + dec_digits(
        spec_effective_bits(d.valid_bits_per_sample, d.bits_per_sample) as int,
    ) + "\n"@ + (if d.format_tag == WaveFormatType::WaveFormatExtensible {
        "  Channel Mask: "@ + "0x"@ + hex_digits(d.channel_mask as int) + "\n"@
    } else {
        Seq::<char>::empty()
    }) + (if d.subformat_data.len() != 0 {
        "  Subformat Data Length: "@ + dec_digits(d.subformat_data.len() as int) + " bytes\n"@
    } else {
        Seq::<char>::empty()
    })
}

impl WaveFormatExtensible {
    /// Renders the description's report block, line by line.
    pub fn write_information(&self) -> (r: String)
        ensures
            r@ == spec_information_text(self@),
    {
        let mut s = String::new();
        append_str(&mut s, "  Format Tag: ");
        append_str(&mut s, self.format_tag.name());
        append_str(&mut s, "\n");
        append_str(&mut s, "  Channels: ");
        let channels = u128_dec(self.channels.as_u16() as u128);
        append_str(&mut s, channels.as_str());
        append_str(&mut s, "\n");
        append_str(&mut s, "  Sample Rate: ");
        let rate = u128_dec(self.sample_rate as u128);
        append_str(&mut s, rate.as_str());
        append_str(&mut s, "\n");
        append_str(&mut s, "  Average Bytes Per Second: ");
        let avg = u128_dec(self.avg_bytes_per_second as u128);
        append_str(&mut s, avg.as_str());
        append_str(&mut s, "\n");
        append_str(&mut s, "  Block Align: ");
        let align = u128_dec(self.block_align as u128);
        append_str(&mut s, align.as_str());
        append_str(&mut s, "\n");
        append_str(&mut s, "  Bits Per Sample: ");
        let bits = u128_dec(self.bits_per_sample as u128);
        append_str(&mut s, bits.as_str());
        append_str(&mut s, "\n");
        append_str(&mut s, "  Valid Bits Per Sample: ");
        let effective: u16 = match self.valid_bits_per_sample {
            Some(v) => v,
            None => self.bits_per_sample,
        };
        let valid = u128_dec(effective as u128);
        append_str(&mut s, valid.as_str());
        append_str(&mut s, "\n");
        if self.format_tag == WaveFormatType::WaveFormatExtensible {
            append_str(&mut s, "  Channel Mask: ");
            let mask = u32_hex_prefixed(self.channel_mask);
            append_str(&mut s, mask.as_str());
            append_str(&mut s, "\n");
        }
        if self.subformat_data.len() != 0 {
            append_str(&mut s, "  Subformat Data Length: ");
            let n = u128_dec(self.subformat_data.len() as u128);
            append_str(&mut s, n.as_str());
            append_str(&mut s, " bytes\n");
        }
        proof {
            assert(s@ =~= spec_information_text(self@));
        }
        s
    }
}

} // verus!
