use djwavfixer::file_fixer::fix_wav_file;
use djwavfixer::wav_file::{load_wav_file, run_with_cli, WavFile, WavFileLoadStatus};
use djwavfixer::wav_format::{WaveAudioChannels, WaveFormatType};

fn build_container(fmt_payload: &[u8], data_payload: &[u8]) -> Vec<u8> {
    let mut v = Vec::new();
    v.extend_from_slice(b"RIFF");
    let size = (20 + fmt_payload.len() + data_payload.len()) as u32;
    v.extend_from_slice(&size.to_le_bytes());
    v.extend_from_slice(b"WAVE");
    v.extend_from_slice(b"fmt ");
    v.extend_from_slice(&(fmt_payload.len() as u32).to_le_bytes());
    v.extend_from_slice(fmt_payload);
    v.extend_from_slice(b"data");
    v.extend_from_slice(&(data_payload.len() as u32).to_le_bytes());
    v.extend_from_slice(data_payload);
    v
}

fn fixed_fields_payload(tag: u16, rate: u32, avg: u32, align: u16, bits: u16) -> Vec<u8> {
    let mut p = Vec::new();
    p.extend_from_slice(&tag.to_le_bytes());
    p.extend_from_slice(&2u16.to_le_bytes());
    p.extend_from_slice(&rate.to_le_bytes());
    p.extend_from_slice(&avg.to_le_bytes());
    p.extend_from_slice(&align.to_le_bytes());
    p.extend_from_slice(&bits.to_le_bytes());
    p
}

fn extensible_24bit_payload() -> Vec<u8> {
    let mut p = fixed_fields_payload(0xFFFE, 44100, 264600, 6, 24);
    p.extend_from_slice(&22u16.to_le_bytes());
    p.extend_from_slice(&24u16.to_le_bytes());
    p.extend_from_slice(&3u32.to_le_bytes());
    p.extend_from_slice(&[1, 0, 0, 0, 0, 0, 16, 0, 128, 0, 0, 170, 0, 56, 155, 113]);
    p
}

#[test]
fn minimal_pcm16_stereo_needs_no_fixing() {
    // Scenario: a 44-byte minimal container, stereo, 44100 Hz, 16-bit
    // integer PCM, block alignment 4, 176400 bytes per second.
    let bytes = build_container(&fixed_fields_payload(1, 44100, 176400, 4, 16), &[]);
    assert_eq!(bytes.len(), 44);
    let wav = load_wav_file("a.wav".to_string(), bytes);
    assert_eq!(wav.needs_fixing(), Some(false));
}

#[test]
fn extensible_24bit_is_fixable_and_repair_round_trips() {
    // Scenario: the same parameters but the extensible wrapper, extension
    // length 22, valid bits 24 of 24, channel mask 3, block alignment 6 and
    // 264600 bytes per second.
    let source = build_container(&extensible_24bit_payload(), &[0xAB; 12]);
    let wav = load_wav_file("b.wav".to_string(), source.clone());
    assert_eq!(wav.needs_fixing(), Some(true));
    assert_eq!(wav.can_fix(true), Some(true));

    let fixed = fix_wav_file(&wav);
    assert_eq!(fixed.len(), source.len());
    // Exactly the first 18 bytes of the fmt payload (at offset 20) change.
    assert_eq!(&fixed[..20], &source[..20]);
    assert_eq!(&fixed[38..], &source[38..]);

    let reloaded = load_wav_file("b_fixed.wav".to_string(), fixed);
    let info = match &reloaded.load_status {
        WavFileLoadStatus::Success { wave_format_info, .. } => wave_format_info,
        _ => panic!("the repaired container must still scan and decode"),
    };
    assert_eq!(info.format_tag, WaveFormatType::IntegerPCM);
    assert_eq!(info.channels, WaveAudioChannels::Stereo);
    assert_eq!(info.sample_rate, 44100);
    assert_eq!(info.avg_bytes_per_second, 264600);
    assert_eq!(info.block_align, 6);
    assert_eq!(info.bits_per_sample, 24);
    assert_eq!(info.valid_bits_per_sample, None);
    assert_eq!(info.channel_mask, 0);
    assert!(info.subformat_data.is_empty());
    // The rewritten description needs no further fixing, and a second repair
    // is no longer permitted: the family is now plain PCM.
    assert_eq!(reloaded.needs_fixing(), Some(false));
    assert_eq!(reloaded.can_fix(true), Some(false));
}

#[test]
fn missing_source_file_blocks_the_repair() {
    let source = build_container(&extensible_24bit_payload(), &[]);
    let wav = load_wav_file("gone.wav".to_string(), source);
    assert_eq!(wav.can_fix(false), Some(false));
}

#[test]
fn alaw_needs_fixing_but_is_never_fixable() {
    let bytes = build_container(&fixed_fields_payload(6, 44100, 88200, 2, 8), &[]);
    let wav = load_wav_file("alaw.wav".to_string(), bytes);
    assert_eq!(wav.needs_fixing(), Some(true));
    assert_eq!(wav.can_fix(true), Some(false));
}

#[test]
fn ulaw_needs_fixing_but_is_never_fixable() {
    let bytes = build_container(&fixed_fields_payload(7, 44100, 88200, 2, 8), &[]);
    let wav = load_wav_file("ulaw.wav".to_string(), bytes);
    assert_eq!(wav.needs_fixing(), Some(true));
    assert_eq!(wav.can_fix(true), Some(false));
}

#[test]
fn float_pcm_needs_fixing_but_is_never_fixable() {
    let bytes = build_container(&fixed_fields_payload(3, 44100, 352800, 8, 32), &[]);
    let wav = load_wav_file("f32.wav".to_string(), bytes);
    assert_eq!(wav.needs_fixing(), Some(true));
    assert_eq!(wav.can_fix(true), Some(false));
}

#[test]
fn pcm32_needs_fixing_but_is_never_fixable() {
    // Integer PCM at an unsupported width still needs fixing, and stays
    // unfixable: only the extensible wrapper is eligible.
    let bytes = build_container(&fixed_fields_payload(1, 44100, 352800, 8, 32), &[]);
    let wav = load_wav_file("i32.wav".to_string(), bytes);
    assert_eq!(wav.needs_fixing(), Some(true));
    assert_eq!(wav.can_fix(true), Some(false));
}

#[test]
fn extensible_with_subbyte_packing_is_not_fixable() {
    // Valid bits 20 of 24: rewriting would misdeclare the sample layout.
    let mut p = fixed_fields_payload(0xFFFE, 44100, 264600, 6, 24);
    p.extend_from_slice(&22u16.to_le_bytes());
    p.extend_from_slice(&20u16.to_le_bytes());
    p.extend_from_slice(&3u32.to_le_bytes());
    p.extend_from_slice(&[0u8; 16]);
    let bytes = build_container(&p, &[]);
    let wav = load_wav_file("packed.wav".to_string(), bytes);
    assert_eq!(wav.needs_fixing(), Some(true));
    assert_eq!(wav.can_fix(true), Some(false));
}

#[test]
fn undecodable_file_has_no_diagnosis() {
    let wav = load_wav_file("broken.wav".to_string(), vec![0u8; 3]);
    assert_eq!(wav.needs_fixing(), None);
    assert_eq!(wav.can_fix(true), None);
}

#[test]
fn information_text_lists_every_field() {
    let bytes = build_container(&extensible_24bit_payload(), &[]);
    let wav = load_wav_file("info.wav".to_string(), bytes);
    let text = wav.write_information(true);
    let expected = "  Path: info.wav\n\
                    \x20 Format Tag: Wave Format Extensible\n\
                    \x20 Channels: 2\n\
                    \x20 Sample Rate: 44100\n\
                    \x20 Average Bytes Per Second: 264600\n\
                    \x20 Block Align: 6\n\
                    \x20 Bits Per Sample: 24\n\
                    \x20 Valid Bits Per Sample: 24\n\
                    \x20 Channel Mask: 0x3\n\
                    \x20 Subformat Data Length: 16 bytes\n\
                    \x20 Needs Fixing: true\n\
                    \x20 Can Fix: true\n";
    assert_eq!(text, expected);
}

#[test]
fn information_text_for_undecodable_file_names_the_fault() {
    let wav = load_wav_file("bad.wav".to_string(), vec![0u8; 3]);
    let text = wav.write_information(true);
    assert_eq!(
        text,
        "  Path: bad.wav\n  WAV file invalid: RIFF header error: Missing 'RIFF' chunk\n"
    );
}

#[test]
fn report_numbers_each_file() {
    let first = load_wav_file(
        "one.wav".to_string(),
        build_container(&fixed_fields_payload(1, 44100, 176400, 4, 16), &[]),
    );
    let second = load_wav_file("two.wav".to_string(), vec![0u8; 3]);
    let files: Vec<WavFile> = vec![first, second];
    let flags = vec![true, true];
    let report = run_with_cli(&files, &flags);
    assert!(report.starts_with("\n1:\n  Path: one.wav\n"));
    assert!(report.contains("\n2:\n  Path: two.wav\n"));
    assert!(report.contains("  Needs Fixing: false\n"));
    assert!(report.contains("  WAV file invalid: "));
}
