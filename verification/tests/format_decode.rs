use djwavfixer::errors::{DJWavFixerError, WavFault};
use djwavfixer::wav_format::{WaveAudioChannels, WaveFormatExtensible, WaveFormatType};

fn pcm_payload(
    tag: u16,
    channels: u16,
    rate: u32,
    avg: u32,
    align: u16,
    bits: u16,
) -> Vec<u8> {
    let mut v = Vec::new();
    v.extend_from_slice(&tag.to_le_bytes());
    v.extend_from_slice(&channels.to_le_bytes());
    v.extend_from_slice(&rate.to_le_bytes());
    v.extend_from_slice(&avg.to_le_bytes());
    v.extend_from_slice(&align.to_le_bytes());
    v.extend_from_slice(&bits.to_le_bytes());
    v
}

fn extensible_payload(
    channels: u16,
    rate: u32,
    avg: u32,
    align: u16,
    bits: u16,
    cb_size: u16,
    valid_bits: u16,
    mask: u32,
    subformat: &[u8],
) -> Vec<u8> {
    let mut v = pcm_payload(0xFFFE, channels, rate, avg, align, bits);
    v.extend_from_slice(&cb_size.to_le_bytes());
    v.extend_from_slice(&valid_bits.to_le_bytes());
    v.extend_from_slice(&mask.to_le_bytes());
    v.extend_from_slice(subformat);
    v
}

#[test]
fn decode_integer_pcm_round_trips_every_field() {
    let payload = pcm_payload(1, 2, 44100, 176400, 4, 16);
    let d = WaveFormatExtensible::try_from(&payload).expect("consistent PCM must decode");
    assert_eq!(d.format_tag, WaveFormatType::IntegerPCM);
    assert_eq!(d.channels, WaveAudioChannels::Stereo);
    assert_eq!(d.sample_rate, 44100);
    assert_eq!(d.avg_bytes_per_second, 176400);
    assert_eq!(d.block_align, 4);
    assert_eq!(d.bits_per_sample, 16);
    assert_eq!(d.valid_bits_per_sample, None);
    assert_eq!(d.channel_mask, 0);
    assert!(d.subformat_data.is_empty());
}

#[test]
fn decode_float_pcm() {
    let payload = pcm_payload(3, 2, 44100, 352800, 8, 32);
    let d = WaveFormatExtensible::try_from(&payload).expect("consistent float PCM must decode");
    assert_eq!(d.format_tag, WaveFormatType::FloatPCM);
    assert_eq!(d.bits_per_sample, 32);
}

#[test]
fn decode_mono_alaw() {
    let payload = pcm_payload(6, 1, 8000, 8000, 1, 8);
    let d = WaveFormatExtensible::try_from(&payload).expect("consistent A-law must decode");
    assert_eq!(d.format_tag, WaveFormatType::ALaw);
    assert_eq!(d.channels, WaveAudioChannels::Mono);
}

#[test]
fn decode_extensible_with_subformat() {
    let guid = [1u8, 0, 0, 0, 0, 0, 16, 0, 128, 0, 0, 170, 0, 56, 155, 113];
    let payload = extensible_payload(2, 44100, 264600, 6, 24, 22, 24, 3, &guid);
    assert_eq!(payload.len(), 40);
    let d = WaveFormatExtensible::try_from(&payload).expect("extensible must decode");
    assert_eq!(d.format_tag, WaveFormatType::WaveFormatExtensible);
    assert_eq!(d.valid_bits_per_sample, Some(24));
    assert_eq!(d.channel_mask, 3);
    assert_eq!(d.subformat_data, guid.to_vec());
}

#[test]
fn short_payload_rejected_regardless_of_content() {
    for len in 0..16usize {
        let payload = vec![0xFFu8; len];
        let err = WaveFormatExtensible::try_from(&payload).unwrap_err();
        assert_eq!(
            err,
            DJWavFixerError::WaveFormatError(WavFault::DataTooShort { len }),
            "length {} must be rejected",
            len
        );
    }
}

#[test]
fn short_payload_message_names_the_length() {
    let payload = vec![0u8; 10];
    let err = WaveFormatExtensible::try_from(&payload).unwrap_err();
    assert_eq!(
        err.message(),
        "Invalid WAV format: Data is too short to contain WaveFormatExtensible (data size is 10)"
    );
}

#[test]
fn seventeen_byte_payload_rejected_as_too_short() {
    let mut payload = pcm_payload(1, 2, 44100, 176400, 4, 16);
    payload.push(0);
    assert_eq!(payload.len(), 17);
    let err = WaveFormatExtensible::try_from(&payload).unwrap_err();
    assert_eq!(err, DJWavFixerError::WaveFormatError(WavFault::DataTooShort { len: 17 }));
}

#[test]
fn unknown_format_tag_rejected_with_value() {
    let payload = pcm_payload(5, 2, 44100, 176400, 4, 16);
    let err = WaveFormatExtensible::try_from(&payload).unwrap_err();
    assert_eq!(
        err,
        DJWavFixerError::WaveFormatError(WavFault::UnsupportedFormatTag { value: 5 })
    );
    assert_eq!(err.message(), "Invalid WAV format: 5 is not a supported WaveFormatType");
}

#[test]
fn nonzero_extension_rejected_for_pcm() {
    let mut payload = pcm_payload(1, 2, 44100, 176400, 4, 16);
    payload.extend_from_slice(&1u16.to_le_bytes());
    let err = WaveFormatExtensible::try_from(&payload).unwrap_err();
    assert_eq!(
        err,
        DJWavFixerError::WaveFormatError(WavFault::NonzeroPcmExtension { cb_size: 1 })
    );
    assert_eq!(err.message(), "Invalid WAV format: cbSize should be 0 for Integer/Float PCM");
}

#[test]
fn microsoft_adpcm_rejected() {
    let payload = pcm_payload(2, 2, 44100, 176400, 4, 16);
    let err = WaveFormatExtensible::try_from(&payload).unwrap_err();
    assert_eq!(err, DJWavFixerError::WaveFormatError(WavFault::AdpcmUnsupported));
    assert_eq!(err.message(), "Invalid WAV format: Microsoft ADPCM format is not supported");
}

#[test]
fn ima_adpcm_rejected() {
    let payload = pcm_payload(17, 2, 44100, 176400, 4, 16);
    let err = WaveFormatExtensible::try_from(&payload).unwrap_err();
    assert_eq!(err, DJWavFixerError::WaveFormatError(WavFault::ImaAdpcmUnsupported));
}

#[test]
fn extensible_with_small_extension_rejected() {
    let guid = [0u8; 16];
    let payload = extensible_payload(2, 44100, 264600, 6, 24, 21, 24, 3, &guid);
    let err = WaveFormatExtensible::try_from(&payload).unwrap_err();
    assert_eq!(err, DJWavFixerError::WaveFormatError(WavFault::ExtensionTooSmall { cb_size: 21 }));
}

#[test]
fn extensible_with_truncated_extension_rejected() {
    // cb_size claims 22 bytes but only 6 follow the extension-length field.
    let payload = extensible_payload(2, 44100, 264600, 6, 24, 22, 24, 3, &[]);
    assert_eq!(payload.len(), 24);
    let err = WaveFormatExtensible::try_from(&payload).unwrap_err();
    assert_eq!(
        err,
        DJWavFixerError::WaveFormatError(WavFault::ExtensionTruncated { len: 24, cb_size: 22 })
    );
}

#[test]
fn block_align_mismatch_names_both_values() {
    let payload = pcm_payload(1, 2, 44100, 176400, 5, 16);
    let err = WaveFormatExtensible::try_from(&payload).unwrap_err();
    assert_eq!(
        err,
        DJWavFixerError::WaveFormatError(WavFault::BlockAlignMismatch {
            expected: 4,
            declared: 5
        })
    );
    let message = err.message();
    assert_eq!(message, "Invalid WAV format: Block align mismatch: expected 4, got 5");
    assert!(message.contains('4'));
    assert!(message.contains('5'));
}

#[test]
fn block_align_uses_valid_bits_rounded_up() {
    // Valid bits 20 rounds up to 3 storage bytes per sample: stereo needs
    // block alignment 6.
    let guid = [0u8; 16];
    let good = extensible_payload(2, 44100, 264600, 6, 24, 22, 20, 3, &guid);
    let d = WaveFormatExtensible::try_from(&good).expect("alignment 6 is consistent");
    assert_eq!(d.valid_bits_per_sample, Some(20));

    let bad = extensible_payload(2, 44100, 352800, 8, 24, 22, 20, 3, &guid);
    let err = WaveFormatExtensible::try_from(&bad).unwrap_err();
    assert_eq!(
        err,
        DJWavFixerError::WaveFormatError(WavFault::BlockAlignMismatch {
            expected: 6,
            declared: 8
        })
    );
}

#[test]
fn avg_bytes_mismatch_names_both_values() {
    let payload = pcm_payload(1, 2, 44100, 176401, 4, 16);
    let err = WaveFormatExtensible::try_from(&payload).unwrap_err();
    assert_eq!(
        err,
        DJWavFixerError::WaveFormatError(WavFault::AvgBytesMismatch {
            expected: 176400,
            declared: 176401
        })
    );
    assert_eq!(
        err.message(),
        "Invalid WAV format: Average bytes per second mismatch: expected 176400, got 176401"
    );
}

#[test]
fn format_type_codes_round_trip() {
    for (code, expected) in [
        (1u16, WaveFormatType::IntegerPCM),
        (2, WaveFormatType::MicrosoftADPCM),
        (3, WaveFormatType::FloatPCM),
        (6, WaveFormatType::ALaw),
        (7, WaveFormatType::ULaw),
        (17, WaveFormatType::ImaAdpcm),
        (0xFFFE, WaveFormatType::WaveFormatExtensible),
    ] {
        assert_eq!(WaveFormatType::try_from(code).unwrap(), expected);
    }
    assert!(WaveFormatType::try_from(4).is_err());
}

#[test]
fn channel_values_round_trip() {
    assert_eq!(WaveAudioChannels::from(1), WaveAudioChannels::Mono);
    assert_eq!(WaveAudioChannels::from(2), WaveAudioChannels::Stereo);
    assert_eq!(WaveAudioChannels::from(6), WaveAudioChannels::Other(6));
    assert_eq!(WaveAudioChannels::Mono.as_u16(), 1);
    assert_eq!(WaveAudioChannels::Stereo.as_u16(), 2);
    assert_eq!(WaveAudioChannels::Other(6).as_u16(), 6);
}
