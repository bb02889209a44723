//! The repair transform: a full copy of the container with the format
//! subchunk's payload rewritten as plain uncompressed integer PCM.

use vstd::prelude::*;

use crate::errors::DJWavFixerError;
use crate::riff_file::chunk_views;
use crate::wav_file::{fmt_location_ok, fmt_payload, WavFile, WavFileLoadStatus};
use crate::wav_format::{
    le16_bytes, le32_bytes, spec_calc_block_align, spec_effective_bits, spec_format_header_bytes,
    spec_le16, spec_parse_wave_format, WaveAudioChannels, WaveFormatType, WaveFormatView,
};
use crate::{FMT_MAGIC, RIFF_MAGIC};

verus! {

/// The description the repair transform writes in place of `d`: the plain
/// uncompressed integer PCM equivalent, with the same channel count, sample
/// rate, byte rate, block alignment and sample width, and no extension
/// fields.
pub open spec fn spec_fixed_view(d: WaveFormatView) -> WaveFormatView {
    WaveFormatView {
        format_tag: WaveFormatType::IntegerPCM,
        channels: d.channels,
        sample_rate: d.sample_rate,
        avg_bytes_per_second: d.avg_bytes_per_second,
        block_align: d.block_align,
        bits_per_sample: d.bits_per_sample,
        valid_bits_per_sample: None,
        channel_mask: 0,
        subformat_data: Seq::<u8>::empty(),
    }
}

/// Appends the two little-endian bytes of `x`.
fn push_le16(v: &mut Vec<u8>, x: u16)
    ensures
        final(v)@ == old(v)@ + le16_bytes(x),
{
    v.push((x % 0x100) as u8);
    v.push((x / 0x100) as u8);
    proof {
        assert(final(v)@ =~= old(v)@ + le16_bytes(x));
    }
}

/// Appends the four little-endian bytes of `x`.
fn push_le32(v: &mut Vec<u8>, x: u32)
    ensures
        final(v)@ == old(v)@ + le32_bytes(x),
{
    v.push((x % 0x100) as u8);
    v.push(((x / 0x100) % 0x100) as u8);
    v.push(((x / 0x1_0000) % 0x100) as u8);
    v.push((x / 0x100_0000) as u8);
    proof {
        assert(final(v)@ =~= old(v)@ + le32_bytes(x));
    }
}

/// Every descriptor that decoding produces is internally consistent: its
/// channel value is canonical, its block alignment and byte rate are derived
/// from the other fields, and an extensible descriptor comes from a payload
/// of at least 40 bytes with its "valid bits" override present.
pub proof fn lemma_parsed_descriptor_consistent(payload: Seq<u8>, d: WaveFormatView)
    requires
        spec_parse_wave_format(payload) == Ok::<WaveFormatView, DJWavFixerError>(d),
    ensures
        d.channels == WaveAudioChannels::spec_from(d.channels.spec_as_u16()),
        d.block_align == spec_calc_block_align(
            d.channels,
            spec_effective_bits(d.valid_bits_per_sample, d.bits_per_sample),
        ),
        d.avg_bytes_per_second == d.sample_rate * d.block_align,
        d.format_tag == WaveFormatType::WaveFormatExtensible ==> payload.len() >= 40
            && d.valid_bits_per_sample is Some,
{
    let ch = WaveAudioChannels::spec_from(spec_le16(payload, 2));
    assert(ch == WaveAudioChannels::spec_from(ch.spec_as_u16()));
}

/// Decoding any payload whose first 18 bytes are the plain-PCM encoding of a
/// consistent description yields exactly that description back: the family
/// is integer PCM, the extension length reads zero, and every numeric field
/// round-trips.
pub proof fn lemma_fix_round_trip(d: WaveFormatView, payload: Seq<u8>)
    requires
        payload.len() >= 18,
        payload.subrange(0, 18) == spec_format_header_bytes(spec_fixed_view(d)),
        d.channels == WaveAudioChannels::spec_from(d.channels.spec_as_u16()),
        d.block_align == spec_calc_block_align(d.channels, d.bits_per_sample),
        d.avg_bytes_per_second == d.sample_rate * d.block_align,
    ensures
        spec_parse_wave_format(payload) == Ok::<WaveFormatView, DJWavFixerError>(
            spec_fixed_view(d),
        ),
{
    let f = spec_fixed_view(d);
    let header = spec_format_header_bytes(f);
    assert(header.len() == 18);
    assert forall|m: int| 0 <= m < 18 implies payload[m] == header[m] by {
        assert(payload.subrange(0, 18)[m] == payload[m]);
    }
    assert(header.subrange(0, 2) =~= le16_bytes(f.format_tag.code()));
    assert(payload.subrange(0, 2) =~= le16_bytes(f.format_tag.code()));
    crate::wav_format::lemma_le16_roundtrip(payload, 0, f.format_tag.code());
    assert(header.subrange(2, 4) =~= le16_bytes(f.channels.spec_as_u16()));
    assert(payload.subrange(2, 4) =~= le16_bytes(f.channels.spec_as_u16()));
    crate::wav_format::lemma_le16_roundtrip(payload, 2, f.channels.spec_as_u16());
    assert(header.subrange(4, 8) =~= le32_bytes(f.sample_rate));
    assert(payload.subrange(4, 8) =~= le32_bytes(f.sample_rate));
    crate::wav_format::lemma_le32_roundtrip(payload, 4, f.sample_rate);
    assert(header.subrange(8, 12) =~= le32_bytes(f.avg_bytes_per_second));
    assert(payload.subrange(8, 12) =~= le32_bytes(f.avg_bytes_per_second));
    crate::wav_format::lemma_le32_roundtrip(payload, 8, f.avg_bytes_per_second);
    assert(header.subrange(12, 14) =~= le16_bytes(f.block_align));
    assert(payload.subrange(12, 14) =~= le16_bytes(f.block_align));
    crate::wav_format::lemma_le16_roundtrip(payload, 12, f.block_align);
    assert(header.subrange(14, 16) =~= le16_bytes(f.bits_per_sample));
    assert(payload.subrange(14, 16) =~= le16_bytes(f.bits_per_sample));
    crate::wav_format::lemma_le16_roundtrip(payload, 14, f.bits_per_sample);
    assert(header.subrange(16, 18) =~= le16_bytes(0));
    assert(payload.subrange(16, 18) =~= le16_bytes(0));
    crate::wav_format::lemma_le16_roundtrip(payload, 16, 0);

    let parsed = spec_parse_wave_format(payload);
    assert(parsed is Ok);
    assert(parsed->Ok_0 =~= f);
}

/// The repair transform. The caller has established `can_fix` for the
/// decoded description; the result is a full copy of the source stream in
/// which exactly the first 18 bytes of the format subchunk's payload now
/// hold the plain integer-PCM encoding of the same numeric fields, with the
/// extension length forced to zero.
///
/// The subchunk's declared size is deliberately left unchanged: the bytes of
/// the original extension beyond offset 18 stay in place as documented
/// padding, orphaned by the zero extension length.
pub fn fix_wav_file(wav_file: &WavFile) -> (out: Vec<u8>)
    requires
        wav_file.wf(),
        wav_file.load_status is Success,
        match wav_file.load_status {
            WavFileLoadStatus::Success { wave_format_info, .. } => wave_format_info@.spec_can_fix(
                true,
            ),
            _ => false,
        },
    ensures
        match wav_file.load_status {
            WavFileLoadStatus::Success { riff_file, wave_format_info } => {
                let data = riff_file.file.spec_data();
                let cvs = chunk_views(riff_file.chunks@);
                exists|i: int, j: int|
                    #[trigger] fmt_location_ok(data, cvs, i, j) && {
                        let start = cvs[i].subchunks[j].payload_start();
                        &&& out@.len() == data.len()
                        &&& forall|m: int|
                            0 <= m < data.len() && !(start <= m < start + 18) ==> out@[m]
                                == data[m]
                        &&& out@.subrange(start, start + 18) == spec_format_header_bytes(
                            spec_fixed_view(wave_format_info@),
                        )
                        &&& spec_parse_wave_format(
                            out@.subrange(start, start + cvs[i].subchunks[j].size),
                        ) == Ok::<WaveFormatView, DJWavFixerError>(
                            spec_fixed_view(wave_format_info@),
                        )
                    }
            },
            _ => false,
        },
{
    let (riff_file, wave_format_info) = match &wav_file.load_status {
        WavFileLoadStatus::Success { riff_file, wave_format_info } => (
            riff_file,
            wave_format_info,
        ),
        _ => vstd::pervasive::unreached(),
    };
    let ghost data = riff_file.file.spec_data();
    let ghost cvs = chunk_views(riff_file.chunks@);
    let ghost d = wave_format_info@;
    let ghost (gi, gj): (int, int) = choose|i: int, j: int|
        #[trigger] fmt_location_ok(data, cvs, i, j) && spec_parse_wave_format(
            fmt_payload(data, cvs, i, j),
        ) == Ok::<WaveFormatView, DJWavFixerError>(d);

    let riff_idx = match riff_file.get_chunk_index(RIFF_MAGIC) {
        Some(i) => i,
        None => {
            proof {
                assert(cvs[gi].id == RIFF_MAGIC);
                assert(crate::riff_file::chunks_have_id(cvs, RIFF_MAGIC));
            }
            vstd::pervasive::unreached()
        },
    };
    proof {
        // The chunk tags are unique, so the index found is the located one.
        assert(riff_idx as int == gi);
    }

    proof {
        assert(riff_file.chunks@[riff_idx as int].wf(data));
    }
    let fmt_idx = match riff_file.chunks[riff_idx].get_subchunk_index(FMT_MAGIC) {
        Some(j) => j,
        None => {
            proof {
                assert(cvs[gi].subchunks[gj].id == FMT_MAGIC);
                assert(crate::riff_subchunk::subchunks_have_id(cvs[gi].subchunks, FMT_MAGIC));
            }
            vstd::pervasive::unreached()
        },
    };
    proof {
        assert(fmt_idx as int == gj);
        lemma_parsed_descriptor_consistent(fmt_payload(data, cvs, gi, gj), d);
    }

    let sub_position: u64 = riff_file.chunks[riff_idx].subchunks[fmt_idx].position;
    let sub_size: u32 = riff_file.chunks[riff_idx].subchunks[fmt_idx].size;
    proof {
        assert(cvs[gi].subchunks[gj].position == sub_position);
        assert(cvs[gi].subchunks[gj].size == sub_size);
        assert(sub_position + 8 + sub_size <= data.len());
        assert(fmt_payload(data, cvs, gi, gj).len() == sub_size);
        assert(sub_size >= 40);
        assert(data.len() <= usize::MAX);
    }
    let start: usize = (sub_position + 8) as usize;

    // Duplicate the whole source stream; the repair never edits in place.
    let mut out: Vec<u8> = vstd::slice::slice_to_vec(riff_file.file.data().as_slice());

    // The 18-byte plain integer-PCM description that replaces the start of
    // the format subchunk's payload.
    let mut patch: Vec<u8> = Vec::new();
    push_le16(&mut patch, 1);
    push_le16(&mut patch, wave_format_info.channels.as_u16());
    push_le32(&mut patch, wave_format_info.sample_rate);
    push_le32(&mut patch, wave_format_info.avg_bytes_per_second);
    push_le16(&mut patch, wave_format_info.block_align);
    push_le16(&mut patch, wave_format_info.bits_per_sample);
    push_le16(&mut patch, 0);
    proof {
        assert(WaveFormatType::IntegerPCM.code() == 1);
        assert(patch@ =~= spec_format_header_bytes(spec_fixed_view(d)));
    }

    let mut k: usize = 0;
    while k < 18
        invariant
            k <= 18,
            patch@.len() == 18,
            patch@ == spec_format_header_bytes(spec_fixed_view(d)),
            out@.len() == data.len(),
            data.len() <= usize::MAX,
            start + 18 <= out@.len(),
            start == sub_position + 8,
            forall|m: int| 0 <= m < k ==> out@[start + m] == patch@[m],
            forall|m: int|
                0 <= m < out@.len() && !(start <= m < start + k) ==> out@[m] == data[m],
        decreases 18 - k,
    {
        let value = patch[k];
        out[start + k] = value;
        k += 1;
    }

    proof {
        assert(out@.subrange(start as int, start as int + 18) =~= patch@);
        let new_payload = out@.subrange(start as int, start as int + sub_size);
        assert(new_payload.subrange(0, 18) =~= patch@);
        lemma_fix_round_trip(d, new_payload);
        assert(fmt_location_ok(data, cvs, gi, gj));
    }
    out
}

} // verus!
