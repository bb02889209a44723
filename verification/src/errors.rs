//! Typed failure values for the scanner, the format decoder and the repair
//! transform.
//!
//! Every fault carries the offending values as plain fields, so contracts can
//! state exactly which failure an input produces; a human-readable message is
//! rendered from those fields on demand.

use vstd::prelude::*;

use crate::render::{append_str, dec_digits, u128_dec};

verus! {

/// Structural faults found while scanning the chunk layout of a container.
#[allow(inconsistent_fields)]
#[derive(Clone, Copy, PartialEq, Eq, Structural, Debug)]
pub enum RiffFault {
    /// Two chunks at the top nesting level share the same 4-byte tag.
    DuplicateChunk { id: u32 },
    /// Two subchunks within one chunk share the same 4-byte tag.
    DuplicateSubchunk { id: u32 },
    /// A record header (size or nested-format field) was cut off by the end
    /// of the stream at this offset.
    TruncatedRecord { position: u64 },
    /// A chunk's declared extent does not match the extent consumed by its
    /// subchunks.
    ChunkSizeMismatch { expected: u128, actual: u128 },
    /// The final chunk's end offset does not match the caller-supplied
    /// expected extent.
    DataSizeMismatch { expected: u64, actual: u128 },
    /// The container has no outermost `RIFF` chunk.
    MissingRiffChunk,
    /// The outermost chunk's nested-format tag is not `WAVE`.
    InvalidRiffFormat,
    /// The `RIFF` chunk has no `fmt ` subchunk.
    MissingFmtSubchunk,
}

/// Faults found while decoding the payload of the format subchunk.
#[allow(inconsistent_fields)]
#[derive(Clone, Copy, PartialEq, Eq, Structural, Debug)]
pub enum WavFault {
    /// The payload is too short to hold the fixed 16-byte description, or
    /// holds a cut-off extension-length field.
    DataTooShort { len: usize },
    /// The 2-byte encoding-family tag is none of the recognized values.
    UnsupportedFormatTag { value: u16 },
    /// An uncompressed-PCM description declared a nonzero extension length.
    NonzeroPcmExtension { cb_size: u16 },
    /// The Microsoft ADPCM compressed encoding is detected but rejected.
    AdpcmUnsupported,
    /// The IMA ADPCM compressed encoding is detected but rejected.
    ImaAdpcmUnsupported,
    /// An extensible-wrapper description declared an extension shorter than
    /// the mandatory 22 bytes.
    ExtensionTooSmall { cb_size: u16 },
    /// The payload ends before the declared extension does.
    ExtensionTruncated { len: usize, cb_size: u16 },
    /// The declared block alignment differs from the one derived from the
    /// channel count and the effective bits per sample.
    BlockAlignMismatch { expected: u32, declared: u16 },
    /// The declared average byte rate differs from sample rate times block
    /// alignment.
    AvgBytesMismatch { expected: u64, declared: u32 },
}

/// The error type shared by every fallible operation of this crate.
#[derive(Clone, Copy, PartialEq, Eq, Structural, Debug)]
pub enum DJWavFixerError {
    /// A structural error in the chunk layout of the container.
    RiffHeaderError(RiffFault),
    /// An invalid or unsupported audio-format description.
    WaveFormatError(WavFault),
}


/// The message text of a structural fault.
pub open spec fn spec_riff_fault_message(f: RiffFault) -> Seq<char> {
    match f {
        RiffFault::DuplicateChunk { id } => "Duplicate chunk id found: "@ + dec_digits(id as int),
        RiffFault::DuplicateSubchunk { id } => "Duplicate subchunk id found: "@ + dec_digits(
            id as int,
        ),
        RiffFault::TruncatedRecord { position } => "Record header truncated at offset "@
            + dec_digits(position as int),
        RiffFault::ChunkSizeMismatch { expected, actual } => "Chunk size mismatch: expected "@
            + dec_digits(expected as int) + " from chunk, but last subchunk ends at "@
            + dec_digits(actual as int),
        RiffFault::DataSizeMismatch { expected, actual } => "Data size mismatch: expected "@
            + dec_digits(expected as int) + " from file, but last chunk ends at "@ + dec_digits(
            actual as int,
        ),
        RiffFault::MissingRiffChunk => "Missing 'RIFF' chunk"@,
        RiffFault::InvalidRiffFormat => "Invalid RIFF format: expected 'WAVE'"@,
        RiffFault::MissingFmtSubchunk => "Missing 'fmt ' subchunk"@,
    }
}

/// The message text of a format fault.
pub open spec fn spec_wav_fault_message(f: WavFault) -> Seq<char> {
    match f {
        WavFault::DataTooShort { len } => "Data is too short to contain WaveFormatExtensible (data size is "@
            + dec_digits(len as int) + ")"@,
        WavFault::UnsupportedFormatTag { value } => dec_digits(value as int)
            + " is not a supported WaveFormatType"@,
        WavFault::NonzeroPcmExtension { .. } => "cbSize should be 0 for Integer/Float PCM"@,
        WavFault::AdpcmUnsupported => "Microsoft ADPCM format is not supported"@,
        WavFault::ImaAdpcmUnsupported => "IMA_ADPCM format is not supported"@,
        WavFault::ExtensionTooSmall { .. } => "cbSize is too small for WaveFormatExtensible"@,
        WavFault::ExtensionTruncated { .. } => "Data is too short for additional subformat information"@,
        WavFault::BlockAlignMismatch { expected, declared } => "Block align mismatch: expected "@
            + dec_digits(expected as int) + ", got "@ + dec_digits(declared as int),
        WavFault::AvgBytesMismatch { expected, declared } => "Average bytes per second mismatch: expected "@
            + dec_digits(expected as int) + ", got "@ + dec_digits(declared as int),
    }
}

/// The message text of an error: its kind's prefix and its fault's message.
pub open spec fn spec_error_message(e: DJWavFixerError) -> Seq<char> {
    match e {
        DJWavFixerError::RiffHeaderError(f) => "RIFF header error: "@ + spec_riff_fault_message(
            f,
        ),
        DJWavFixerError::WaveFormatError(f) => "Invalid WAV format: "@ + spec_wav_fault_message(
            f,
        ),
    }
}

impl RiffFault {
    /// Renders the fault's message.
    pub fn message(&self) -> (r: String)
        ensures
            r@ == spec_riff_fault_message(*self),
    {
        let mut s = String::new();
        match self {
            RiffFault::DuplicateChunk { id } => {
                append_str(&mut s, "Duplicate chunk id found: ");
                let n = u128_dec(*id as u128);
                append_str(&mut s, n.as_str());
            },
            RiffFault::DuplicateSubchunk { id } => {
                append_str(&mut s, "Duplicate subchunk id found: ");
                let n = u128_dec(*id as u128);
                append_str(&mut s, n.as_str());
            },
            RiffFault::TruncatedRecord { position } => {
                append_str(&mut s, "Record header truncated at offset ");
                let n = u128_dec(*position as u128);
                append_str(&mut s, n.as_str());
            },
            RiffFault::ChunkSizeMismatch { expected, actual } => {
                append_str(&mut s, "Chunk size mismatch: expected ");
                let n = u128_dec(*expected);
                append_str(&mut s, n.as_str());
                append_str(&mut s, " from chunk, but last subchunk ends at ");
                let m = u128_dec(*actual);
                append_str(&mut s, m.as_str());
            },
            RiffFault::DataSizeMismatch { expected, actual } => {
                append_str(&mut s, "Data size mismatch: expected ");
                let n = u128_dec(*expected as u128);
                append_str(&mut s, n.as_str());
                append_str(&mut s, " from file, but last chunk ends at ");
                let m = u128_dec(*actual);
                append_str(&mut s, m.as_str());
            },
            RiffFault::MissingRiffChunk => {
                append_str(&mut s, "Missing 'RIFF' chunk");
            },
            RiffFault::InvalidRiffFormat => {
                append_str(&mut s, "Invalid RIFF format: expected 'WAVE'");
            },
            RiffFault::MissingFmtSubchunk => {
                append_str(&mut s, "Missing 'fmt ' subchunk");
            },
        }
        proof {
            assert(s@ =~= spec_riff_fault_message(*self));
        }
        s
    }
}

impl WavFault {
    /// Renders the fault's message.
    pub fn message(&self) -> (r: String)
        ensures
            r@ == spec_wav_fault_message(*self),
    {
        let mut s = String::new();
        match self {
            WavFault::DataTooShort { len } => {
                append_str(
                    &mut s,
                    "Data is too short to contain WaveFormatExtensible (data size is ",
                );
                let n = u128_dec(*len as u128);
                append_str(&mut s, n.as_str());
                append_str(&mut s, ")");
            },
            WavFault::UnsupportedFormatTag { value } => {
                let n = u128_dec(*value as u128);
                append_str(&mut s, n.as_str());
                append_str(&mut s, " is not a supported WaveFormatType");
            },
            WavFault::NonzeroPcmExtension { .. } => {
                append_str(&mut s, "cbSize should be 0 for Integer/Float PCM");
            },
            WavFault::AdpcmUnsupported => {
                append_str(&mut s, "Microsoft ADPCM format is not supported");
            },
            WavFault::ImaAdpcmUnsupported => {
                append_str(&mut s, "IMA_ADPCM format is not supported");
            },
            WavFault::ExtensionTooSmall { .. } => {
                append_str(&mut s, "cbSize is too small for WaveFormatExtensible");
            },
            WavFault::ExtensionTruncated { .. } => {
                append_str(&mut s, "Data is too short for additional subformat information");
            },
            WavFault::BlockAlignMismatch { expected, declared } => {
                append_str(&mut s, "Block align mismatch: expected ");
                let n = u128_dec(*expected as u128);
                append_str(&mut s, n.as_str());
                append_str(&mut s, ", got ");
                let m = u128_dec(*declared as u128);
                append_str(&mut s, m.as_str());
            },
            WavFault::AvgBytesMismatch { expected, declared } => {
                append_str(&mut s, "Average bytes per second mismatch: expected ");
                let n = u128_dec(*expected as u128);
                append_str(&mut s, n.as_str());
                append_str(&mut s, ", got ");
                let m = u128_dec(*declared as u128);
                append_str(&mut s, m.as_str());
            },
        }
        proof {
            assert(s@ =~= spec_wav_fault_message(*self));
        }
        s
    }
}

impl DJWavFixerError {
    /// Renders the error's message: the kind's prefix and the fault's text.
    pub fn message(&self) -> (r: String)
        ensures
            r@ == spec_error_message(*self),
    {
        let mut s = String::new();
        match self {
            DJWavFixerError::RiffHeaderError(f) => {
                append_str(&mut s, "RIFF header error: ");
                let m = f.message();
                append_str(&mut s, m.as_str());
            },
            DJWavFixerError::WaveFormatError(f) => {
                append_str(&mut s, "Invalid WAV format: ");
                let m = f.message();
                append_str(&mut s, m.as_str());
            },
        }
        proof {
            assert(s@ =~= spec_error_message(*self));
        }
        s
    }
}

/// The message of a block-alignment fault carries the decimal rendering of
/// both the derived and the declared value.
pub proof fn lemma_block_align_message_contains_values(expected: u32, declared: u16)
    ensures
        ({
            let m = spec_wav_fault_message(WavFault::BlockAlignMismatch { expected, declared });
            let e_digits = dec_digits(expected as int);
            let d_digits = dec_digits(declared as int);
            &&& exists|k: int|
                0 <= k && k + e_digits.len() <= m.len() && #[trigger] m.subrange(
                    k,
                    k + e_digits.len(),
                ) == e_digits
            &&& exists|k: int|
                0 <= k && k + d_digits.len() <= m.len() && #[trigger] m.subrange(
                    k,
                    k + d_digits.len(),
                ) == d_digits
        }),
{
    let m = spec_wav_fault_message(WavFault::BlockAlignMismatch { expected, declared });
    let e_digits = dec_digits(expected as int);
    let d_digits = dec_digits(declared as int);
    let p = "Block align mismatch: expected "@;
    let mid = ", got "@;
    let ke = p.len() as int;
    assert(m.subrange(ke, ke + e_digits.len()) =~= e_digits);
    let kd: int = p.len() as int + e_digits.len() as int + mid.len() as int;
    assert(m.subrange(kd, kd + d_digits.len()) =~= d_digits);
}

} // verus!
