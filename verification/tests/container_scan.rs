use djwavfixer::errors::{DJWavFixerError, RiffFault};
use djwavfixer::wav_file::{load_wav_file, WavFileLoadStatus};

fn build_container(riff_size_bias: i64, fmt_payload: &[u8], data_payload: &[u8]) -> Vec<u8> {
    let mut v = Vec::new();
    v.extend_from_slice(b"RIFF");
    let size = (20 + fmt_payload.len() + data_payload.len()) as i64 + riff_size_bias;
    v.extend_from_slice(&(size as u32).to_le_bytes());
    v.extend_from_slice(b"WAVE");
    v.extend_from_slice(b"fmt ");
    v.extend_from_slice(&(fmt_payload.len() as u32).to_le_bytes());
    v.extend_from_slice(fmt_payload);
    v.extend_from_slice(b"data");
    v.extend_from_slice(&(data_payload.len() as u32).to_le_bytes());
    v.extend_from_slice(data_payload);
    v
}

fn pcm16_stereo_payload() -> Vec<u8> {
    let mut p = Vec::new();
    p.extend_from_slice(&1u16.to_le_bytes());
    p.extend_from_slice(&2u16.to_le_bytes());
    p.extend_from_slice(&44100u32.to_le_bytes());
    p.extend_from_slice(&176400u32.to_le_bytes());
    p.extend_from_slice(&4u16.to_le_bytes());
    p.extend_from_slice(&16u16.to_le_bytes());
    p
}

#[test]
fn minimal_container_scans_and_decodes() {
    let bytes = build_container(0, &pcm16_stereo_payload(), &[]);
    assert_eq!(bytes.len(), 44);
    let wav = load_wav_file("a.wav".to_string(), bytes);
    assert!(matches!(wav.load_status, WavFileLoadStatus::Success { .. }));
}

#[test]
fn chunk_size_one_byte_large_names_both_extents() {
    let bytes = build_container(1, &pcm16_stereo_payload(), &[]);
    let wav = load_wav_file("c.wav".to_string(), bytes);
    let error = match wav.load_status {
        WavFileLoadStatus::RiffFileInvalid { error } => error,
        _ => panic!("expected a structural failure"),
    };
    assert_eq!(
        error,
        DJWavFixerError::RiffHeaderError(RiffFault::ChunkSizeMismatch {
            expected: 37,
            actual: 36
        })
    );
    let message = error.message();
    assert_eq!(
        message,
        "RIFF header error: Chunk size mismatch: expected 37 from chunk, but last subchunk ends at 36"
    );
    assert!(message.contains("37"));
    assert!(message.contains("36"));
}

#[test]
fn trailing_garbage_fails_the_extent_check() {
    let mut bytes = build_container(0, &pcm16_stereo_payload(), &[]);
    bytes.push(0xAA);
    let wav = load_wav_file("d.wav".to_string(), bytes);
    let error = match wav.load_status {
        WavFileLoadStatus::RiffFileInvalid { error } => error,
        _ => panic!("expected a structural failure"),
    };
    assert_eq!(
        error,
        DJWavFixerError::RiffHeaderError(RiffFault::DataSizeMismatch {
            expected: 37,
            actual: 36
        })
    );
    assert_eq!(
        error.message(),
        "RIFF header error: Data size mismatch: expected 37 from file, but last chunk ends at 36"
    );
}

#[test]
fn truncated_chunk_header_is_a_structural_error() {
    let bytes = b"RIFF\x24\x00".to_vec();
    let wav = load_wav_file("t.wav".to_string(), bytes);
    let error = match wav.load_status {
        WavFileLoadStatus::RiffFileInvalid { error } => error,
        _ => panic!("expected a structural failure"),
    };
    assert_eq!(error, DJWavFixerError::RiffHeaderError(RiffFault::TruncatedRecord { position: 0 }));
    assert_eq!(error.message(), "RIFF header error: Record header truncated at offset 0");
}

#[test]
fn empty_stream_has_no_riff_chunk() {
    let wav = load_wav_file("e.wav".to_string(), Vec::new());
    let error = match wav.load_status {
        WavFileLoadStatus::WavFileInvalid { error, .. } => error,
        _ => panic!("an empty stream scans to zero chunks, then lacks the RIFF chunk"),
    };
    assert_eq!(error, DJWavFixerError::RiffHeaderError(RiffFault::MissingRiffChunk));
    assert_eq!(error.message(), "RIFF header error: Missing 'RIFF' chunk");
}

#[test]
fn wrong_outer_tag_reports_missing_riff_chunk() {
    let mut bytes = build_container(0, &pcm16_stereo_payload(), &[]);
    bytes[0..4].copy_from_slice(b"RIFX");
    let wav = load_wav_file("x.wav".to_string(), bytes);
    let error = match wav.load_status {
        WavFileLoadStatus::WavFileInvalid { error, .. } => error,
        _ => panic!("expected a format-level failure"),
    };
    assert_eq!(error, DJWavFixerError::RiffHeaderError(RiffFault::MissingRiffChunk));
}

#[test]
fn wrong_nested_format_tag_rejected() {
    let mut bytes = build_container(0, &pcm16_stereo_payload(), &[]);
    bytes[8..12].copy_from_slice(b"WAVX");
    let wav = load_wav_file("w.wav".to_string(), bytes);
    let error = match wav.load_status {
        WavFileLoadStatus::WavFileInvalid { error, .. } => error,
        _ => panic!("expected a format-level failure"),
    };
    assert_eq!(error, DJWavFixerError::RiffHeaderError(RiffFault::InvalidRiffFormat));
    assert_eq!(error.message(), "RIFF header error: Invalid RIFF format: expected 'WAVE'");
}

#[test]
fn missing_fmt_subchunk_rejected() {
    let mut bytes = build_container(0, &pcm16_stereo_payload(), &[]);
    bytes[12..16].copy_from_slice(b"fmx ");
    let wav = load_wav_file("m.wav".to_string(), bytes);
    let error = match wav.load_status {
        WavFileLoadStatus::WavFileInvalid { error, .. } => error,
        _ => panic!("expected a format-level failure"),
    };
    assert_eq!(error, DJWavFixerError::RiffHeaderError(RiffFault::MissingFmtSubchunk));
    assert_eq!(error.message(), "RIFF header error: Missing 'fmt ' subchunk");
}

#[test]
fn duplicate_subchunk_tag_rejected() {
    // A second `fmt ` subchunk in place of `data`.
    let mut bytes = build_container(0, &pcm16_stereo_payload(), &[]);
    bytes[36..40].copy_from_slice(b"fmt ");
    let wav = load_wav_file("dup.wav".to_string(), bytes);
    let error = match wav.load_status {
        WavFileLoadStatus::RiffFileInvalid { error } => error,
        _ => panic!("expected a structural failure"),
    };
    let fmt_tag = u32::from_le_bytes(*b"fmt ");
    assert_eq!(
        error,
        DJWavFixerError::RiffHeaderError(RiffFault::DuplicateSubchunk { id: fmt_tag })
    );
    assert_eq!(
        error.message(),
        format!("RIFF header error: Duplicate subchunk id found: {}", fmt_tag)
    );
}

#[test]
fn fmt_as_last_subchunk_reaching_the_end_decodes() {
    // No data subchunk: the fmt payload ends exactly at the end of the
    // stream, and every extent check still lines up.
    let mut bytes = Vec::new();
    bytes.extend_from_slice(b"RIFF");
    bytes.extend_from_slice(&28u32.to_le_bytes());
    bytes.extend_from_slice(b"WAVE");
    bytes.extend_from_slice(b"fmt ");
    bytes.extend_from_slice(&16u32.to_le_bytes());
    bytes.extend_from_slice(&pcm16_stereo_payload());
    assert_eq!(bytes.len(), 36);
    let wav = load_wav_file("last.wav".to_string(), bytes);
    assert!(matches!(wav.load_status, WavFileLoadStatus::Success { .. }));
}
