//! Inspection and repair of the audio-format description inside RIFF/WAVE
//! containers.
//!
//! The crate scans the tagged-chunk structure of a WAVE file held in memory,
//! decodes and validates the `fmt ` subchunk, decides whether the format
//! layout is one that common playback devices reject, and, when that is
//! provably safe, rewrites the format description in place as plain
//! uncompressed integer PCM.

use vstd::prelude::*;

pub mod byte_stream;
pub mod errors;
pub mod file_fixer;
pub mod render;
pub mod riff_chunk;
pub mod riff_file;
pub mod riff_subchunk;
pub mod tag_index;
pub mod wav_file;
pub mod wav_format;

verus! {

/// Width in bytes of the 4-byte tags and size fields used throughout the
/// RIFF container layout.
pub const DWORD_SIZE: usize = 4;

/// The outermost chunk's tag, `RIFF`, as the little-endian value of those
/// four ASCII bytes.
pub const RIFF_MAGIC: u32 = 0x4646_4952;

/// The nested container-format tag of a WAVE file, `WAVE`, little-endian.
pub const WAVE_MAGIC: u32 = 0x4556_4157;

/// The format subchunk's tag, `fmt `, little-endian.
pub const FMT_MAGIC: u32 = 0x2074_6D66;

/// The sample-data subchunk's tag, `data`, little-endian.
pub const DATA_MAGIC: u32 = 0x6174_6164;

/// Bytes in a record header: a 4-byte tag and a 4-byte size.
pub const RIFF_CHUNK_HEADER_SIZE: usize = 8;

} // verus!
