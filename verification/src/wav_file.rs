//! A file plus its decode outcome: scanning the container, locating and
//! decoding the format subchunk, and the per-file entry point.

use vstd::prelude::*;

use crate::byte_stream::ByteStream;
use crate::errors::{spec_error_message, DJWavFixerError, RiffFault};
use crate::render::{append_str, dec_digits, u128_dec};
use crate::riff_chunk::{subchunk_views, RiffChunkView};
use crate::tag_index::tag_index_entries;
use crate::riff_file::{chunk_views, chunks_have_id, spec_scan_riff_file, RiffFile};
use crate::riff_subchunk::subchunks_have_id;
use crate::wav_format::{spec_parse_wave_format, WaveFormatExtensible, WaveFormatView};
use crate::{FMT_MAGIC, RIFF_MAGIC, WAVE_MAGIC};

verus! {

/// The two subchunk records carry the same header: offset, tag and declared
/// size (only the memoized payload may differ).
pub open spec fn subchunk_headers_eq(
    a: crate::riff_subchunk::RiffSubchunkView,
    b: crate::riff_subchunk::RiffSubchunkView,
) -> bool {
    a.position == b.position && a.id == b.id && a.size == b.size
}

/// The two chunk records carry the same headers throughout: their own fields
/// and every subchunk's header.
pub open spec fn chunk_headers_eq(a: RiffChunkView, b: RiffChunkView) -> bool {
    &&& a.position == b.position
    &&& a.id == b.id
    &&& a.size == b.size
    &&& a.format == b.format
    &&& a.subchunks.len() == b.subchunks.len()
    &&& forall|j: int|
        0 <= j < a.subchunks.len() ==> subchunk_headers_eq(
            #[trigger] a.subchunks[j],
            b.subchunks[j],
        )
}

/// The two chunk lists carry the same headers, record for record.
pub open spec fn chunks_headers_eq(a: Seq<RiffChunkView>, b: Seq<RiffChunkView>) -> bool {
    a.len() == b.len() && forall|i: int|
        0 <= i < a.len() ==> chunk_headers_eq(#[trigger] a[i], b[i])
}

/// Positions `i`, `j` point at the `fmt ` subchunk of the `RIFF`/`WAVE`
/// chunk.
pub open spec fn fmt_location_header(chunks: Seq<RiffChunkView>, i: int, j: int) -> bool {
    &&& 0 <= i < chunks.len()
    &&& chunks[i].id == RIFF_MAGIC
    &&& chunks[i].format == WAVE_MAGIC
    &&& 0 <= j < chunks[i].subchunks.len()
    &&& chunks[i].subchunks[j].id == FMT_MAGIC
}

/// Positions `i`, `j` name the format subchunk of a scanned container: chunk
/// `i` is the `RIFF` chunk, carries the `WAVE` format tag, and its subchunk
/// `j` is the `fmt ` subchunk, whose payload lies inside the stream.
pub open spec fn fmt_location_ok(
    data: Seq<u8>,
    chunks: Seq<RiffChunkView>,
    i: int,
    j: int,
) -> bool {
    &&& fmt_location_header(chunks, i, j)
    &&& chunks[i].subchunks[j].payload_start() + chunks[i].subchunks[j].size <= data.len()
}

/// The payload of the subchunk at positions `i`, `j`.
pub open spec fn fmt_payload(data: Seq<u8>, chunks: Seq<RiffChunkView>, i: int, j: int) -> Seq<
    u8,
> {
    chunks[i].subchunks[j].payload_spec(data)
}

/// `r` is the correct outcome of locating and decoding the format subchunk
/// in a container with chunks `chunks` over stream bytes `data`.
pub open spec fn wav_parse_outcome(
    data: Seq<u8>,
    chunks: Seq<RiffChunkView>,
    r: Result<WaveFormatView, DJWavFixerError>,
) -> bool {
    match r {
        Ok(d) => exists|i: int, j: int|
            #[trigger] fmt_location_ok(data, chunks, i, j) && spec_parse_wave_format(
                fmt_payload(data, chunks, i, j),
            ) == Ok::<WaveFormatView, DJWavFixerError>(d),
        Err(DJWavFixerError::RiffHeaderError(RiffFault::MissingRiffChunk)) => !chunks_have_id(
            chunks,
            RIFF_MAGIC,
        ),
        Err(DJWavFixerError::RiffHeaderError(RiffFault::InvalidRiffFormat)) => exists|i: int|
            0 <= i < chunks.len() && (#[trigger] chunks[i].id) == RIFF_MAGIC && chunks[i].format
                != WAVE_MAGIC,
        Err(DJWavFixerError::RiffHeaderError(RiffFault::MissingFmtSubchunk)) => exists|i: int|
            0 <= i < chunks.len() && (#[trigger] chunks[i].id) == RIFF_MAGIC && chunks[i].format
                == WAVE_MAGIC && !subchunks_have_id(chunks[i].subchunks, FMT_MAGIC),
        Err(DJWavFixerError::RiffHeaderError(RiffFault::TruncatedRecord { position })) => exists|
            i: int,
            j: int,
        |
            {
                &&& #[trigger] fmt_location_header(chunks, i, j)
                &&& chunks[i].subchunks[j].payload_start() + chunks[i].subchunks[j].size
                    > data.len()
                &&& position == chunks[i].subchunks[j].position
            },
        Err(e) => exists|i: int, j: int|
            #[trigger] fmt_location_ok(data, chunks, i, j) && spec_parse_wave_format(
                fmt_payload(data, chunks, i, j),
            ) == Err::<WaveFormatView, DJWavFixerError>(e),
    }
}

/// Locates the format subchunk (inside the `RIFF` chunk, whose nested format
/// tag must read `WAVE`), reads its payload — memoizing it in the record —
/// and decodes it.
pub fn parse_wav_format(riff_file: &mut RiffFile) -> (r: Result<
    WaveFormatExtensible,
    DJWavFixerError,
>)
    requires
        old(riff_file).wf(),
    ensures
        final(riff_file).wf(),
        final(riff_file).file.spec_data() == old(riff_file).file.spec_data(),
        chunks_headers_eq(
            chunk_views(old(riff_file).chunks@),
            chunk_views(final(riff_file).chunks@),
        ),
        wav_parse_outcome(
            final(riff_file).file.spec_data(),
            chunk_views(final(riff_file).chunks@),
            match r {
                Ok(d) => Ok::<WaveFormatView, DJWavFixerError>(d@),
                Err(e) => Err::<WaveFormatView, DJWavFixerError>(e),
            },
        ),
{
    let ghost data = riff_file.file.spec_data();

    let riff_idx = match riff_file.get_chunk_index(RIFF_MAGIC) {
        Some(i) => i,
        None => {
            return Err(DJWavFixerError::RiffHeaderError(RiffFault::MissingRiffChunk));
        },
    };

    if riff_file.chunks[riff_idx].format != WAVE_MAGIC {
        return Err(DJWavFixerError::RiffHeaderError(RiffFault::InvalidRiffFormat));
    }

    proof {
        assert(riff_file.chunks@[riff_idx as int].wf(data));
    }
    let fmt_idx = match riff_file.chunks[riff_idx].get_subchunk_index(FMT_MAGIC) {
        Some(j) => j,
        None => {
            return Err(DJWavFixerError::RiffHeaderError(RiffFault::MissingFmtSubchunk));
        },
    };

    let ghost old_chunks = riff_file.chunks@;
    let ghost old_subs = riff_file.chunks@[riff_idx as int].subchunks@;
    let ghost old_sub = old_subs[fmt_idx as int];

    let payload_res = {
        let chunk = &mut riff_file.chunks[riff_idx];
        proof {
            assert(subchunk_views(chunk.subchunks@)[fmt_idx as int].wf(data));
        }
        let sub = &mut chunk.subchunks[fmt_idx];
        sub.read_data(&mut riff_file.file)
    };

    proof {
        let new_chunks = riff_file.chunks@;
        let nc = new_chunks[riff_idx as int];
        assert(new_chunks =~= old_chunks.update(riff_idx as int, nc));
        assert(nc.subchunks@ =~= old_subs.update(fmt_idx as int, nc.subchunks@[fmt_idx as int]));

        // Only the memoized payload of the format subchunk changed; every
        // header, every tag index and so the container's well-formedness
        // carry over.
        assert(nc.subchunk_index == old_chunks[riff_idx as int].subchunk_index);
        assert(nc.subchunks@[fmt_idx as int].id == old_sub.id);
        assert(nc.subchunks@[fmt_idx as int].position == old_sub.position);
        assert(nc.subchunks@[fmt_idx as int].size == old_sub.size);
        assert(nc.subchunks@[fmt_idx as int]@.wf(data));
        assert forall|k: int| 0 <= k < new_chunks.len() implies #[trigger] new_chunks[k].wf(
            data,
        ) by {
            assert(old_chunks[k].wf(data));
            if k == riff_idx as int {
                assert forall|l: int|
                    0 <= l < nc@.subchunks.len() implies #[trigger] nc@.subchunks[l].wf(data) by {
                    assert(subchunk_views(old_subs)[l].wf(data));
                    if l != fmt_idx as int {
                        assert(nc.subchunks@[l] == old_subs[l]);
                    }
                }
                assert forall|l: int| 0 <= l < nc@.subchunks.len() implies nc@.subchunks[l].id
                    == subchunk_views(old_subs)[l].id && nc@.subchunks[l].position
                    == subchunk_views(old_subs)[l].position && nc@.subchunks[l].size
                    == subchunk_views(old_subs)[l].size by {
                    if l != fmt_idx as int {
                        assert(nc.subchunks@[l] == old_subs[l]);
                    }
                }
                assert(tag_index_entries(nc.subchunk_index).len() == nc@.subchunks.len());
                assert forall|l: int| 0 <= l < nc@.subchunks.len() implies tag_index_entries(
                    nc.subchunk_index,
                )[l] == (nc@.subchunks[l].id, l as usize) by {
                    assert(tag_index_entries(old_chunks[riff_idx as int].subchunk_index)[l] == (
                        subchunk_views(old_subs)[l].id,
                        l as usize,
                    ));
                }
                assert forall|a: int, b: int|
                    0 <= a < b < nc@.subchunks.len() implies nc@.subchunks[a].id
                    != nc@.subchunks[b].id by {
                    assert(subchunk_views(old_subs)[a].id != subchunk_views(old_subs)[b].id);
                }
                assert(crate::riff_chunk::index_matches(nc.subchunk_index, nc@.subchunks));
            }
        }
        assert forall|k: int| 0 <= k < new_chunks.len() implies chunk_views(new_chunks)[k].id
            == chunk_views(old_chunks)[k].id by {
            if k != riff_idx as int {
                assert(new_chunks[k] == old_chunks[k]);
            }
        }
        assert(riff_file.wf());
        assert(fmt_location_header(chunk_views(new_chunks), riff_idx as int, fmt_idx as int));
    }

    let payload = match payload_res {
        Ok(p) => p,
        Err(e) => {
            proof {
                let cvs = chunk_views(riff_file.chunks@);
                assert(fmt_location_header(cvs, riff_idx as int, fmt_idx as int));
                assert(cvs[riff_idx as int].subchunks[fmt_idx as int].payload_start()
                    + cvs[riff_idx as int].subchunks[fmt_idx as int].size > data.len());
            }
            return Err(e);
        },
    };

    proof {
        let cvs = chunk_views(riff_file.chunks@);
        assert(fmt_location_ok(data, cvs, riff_idx as int, fmt_idx as int));
        assert(fmt_payload(data, cvs, riff_idx as int, fmt_idx as int) == payload@);
    }
    match WaveFormatExtensible::try_from(payload.as_slice()) {
        Ok(info) => Ok(info),
        Err(e) => Err(e),
    }
}

/// A file's decode outcome: the scanned container with its decoded format
/// description, the container with the format fault that rejected it, or the
/// structural fault that stopped scanning.
pub enum WavFileLoadStatus {
    Success { riff_file: RiffFile, wave_format_info: WaveFormatExtensible },
    WavFileInvalid { riff_file: RiffFile, error: DJWavFixerError },
    RiffFileInvalid { error: DJWavFixerError },
}

/// A file path together with its sealed decode outcome.
pub struct WavFile {
    pub path: String,
    pub load_status: WavFileLoadStatus,
}

/// The expected extent handed to the container scan: every byte after the
/// outermost chunk's 8-byte tag-and-size header (the declared size of a
/// well-formed outermost chunk counts its nested-format tag and all its
/// subchunks). Too short a stream scans to a fault anyway, so its extent is
/// of no consequence.
pub open spec fn spec_expected_extent(data: Seq<u8>) -> u64 {
    if data.len() >= 8 {
        (data.len() - 8) as u64
    } else {
        0
    }
}

impl WavFile {
    /// The load status is well formed: a retained container is well formed,
    /// scanned from its own stream with the structurally derived extent, and
    /// a retained format description decodes from that container's format
    /// subchunk.
    pub open spec fn wf(self) -> bool {
        match self.load_status {
            WavFileLoadStatus::Success { riff_file, wave_format_info } => {
                &&& riff_file.wf()
                &&& wav_parse_outcome(
                    riff_file.file.spec_data(),
                    chunk_views(riff_file.chunks@),
                    Ok(wave_format_info@),
                )
            },
            WavFileLoadStatus::WavFileInvalid { riff_file, error } => {
                &&& riff_file.wf()
                &&& wav_parse_outcome(
                    riff_file.file.spec_data(),
                    chunk_views(riff_file.chunks@),
                    Err(error),
                )
            },
            WavFileLoadStatus::RiffFileInvalid { .. } => true,
        }
    }
}

/// The per-file entry point: scans the container held in `data`, decodes its
/// format subchunk, and seals the outcome — a failure is recorded, never
/// propagated.
pub fn load_wav_file(path: String, data: Vec<u8>) -> (r: WavFile)
    ensures
        r.path == path,
        r.wf(),
        match r.load_status {
            WavFileLoadStatus::Success { riff_file, .. } => riff_file.file.spec_data() == data@
                && spec_scan_riff_file(data@, spec_expected_extent(data@)) is Ok
                && chunks_headers_eq(
                spec_scan_riff_file(data@, spec_expected_extent(data@))->Ok_0,
                chunk_views(riff_file.chunks@),
            ),
            WavFileLoadStatus::WavFileInvalid { riff_file, .. } => riff_file.file.spec_data()
                == data@ && spec_scan_riff_file(data@, spec_expected_extent(data@)) is Ok
                && chunks_headers_eq(
                spec_scan_riff_file(data@, spec_expected_extent(data@))->Ok_0,
                chunk_views(riff_file.chunks@),
            ),
            WavFileLoadStatus::RiffFileInvalid { error } => spec_scan_riff_file(
                data@,
                spec_expected_extent(data@),
            ) == Err::<Seq<RiffChunkView>, _>(error),
        },
{
    let data_len = data.len();
    let data_size: u64 = if data_len >= 8 {
        (data_len - 8) as u64
    } else {
        0
    };
    let stream = ByteStream::new(data);

    let load_status = match RiffFile::try_new(stream, data_size) {
        Ok(mut riff_file) => match parse_wav_format(&mut riff_file) {
            Ok(wave_format_info) => WavFileLoadStatus::Success { riff_file, wave_format_info },
            Err(error) => WavFileLoadStatus::WavFileInvalid { riff_file, error },
        },
        Err(error) => WavFileLoadStatus::RiffFileInvalid { error },
    };

    WavFile { path, load_status }
}


impl WavFile {
    /// The path this outcome belongs to.
    pub fn path(&self) -> (r: &String)
        ensures
            r == self.path,
    {
        &self.path
    }

    /// Whether the decoded format description needs rewriting; `None` when
    /// the file did not decode (the caller must look at the recorded fault
    /// instead).
    pub fn needs_fixing(&self) -> (r: Option<bool>)
        ensures
            r == (match self.load_status {
                WavFileLoadStatus::Success { wave_format_info, .. } => Some(
                    wave_format_info@.spec_needs_fixing(),
                ),
                _ => None::<bool>,
            }),
    {
        match &self.load_status {
            WavFileLoadStatus::Success { wave_format_info, .. } => Some(
                !wave_format_info.is_sample_bits_supported_by_players()
                    || !wave_format_info.is_integer_pcm(),
            ),
            _ => None,
        }
    }

    /// Whether the decoded format description may safely be rewritten as
    /// plain integer PCM; `None` when the file did not decode. The caller
    /// reports in `path_is_file` whether the path names an existing regular
    /// file.
    pub fn can_fix(&self, path_is_file: bool) -> (r: Option<bool>)
        ensures
            r == (match self.load_status {
                WavFileLoadStatus::Success { wave_format_info, .. } => Some(
                    wave_format_info@.spec_can_fix(path_is_file),
                ),
                _ => None::<bool>,
            }),
    {
        match &self.load_status {
            WavFileLoadStatus::Success { wave_format_info, .. } => {
                if wave_format_info.is_sample_bits_supported_by_players() {
                    let valid_matches = match wave_format_info.valid_bits_per_sample {
                        Some(v) => wave_format_info.bits_per_sample == v,
                        None => true,
                    };
                    Some(
                        path_is_file && wave_format_info.format_tag
                            == crate::wav_format::WaveFormatType::WaveFormatExtensible
                            && valid_matches,
                    )
                } else {
                    Some(false)
                }
            },
            _ => None,
        }
    }
}


/// The text of a boolean in a report.
pub open spec fn spec_bool_text(b: bool) -> Seq<char> {
    if b {
        "true"@
    } else {
        "false"@
    }
}

/// The indented report block of one file: its path, then its decoded
/// description with the two diagnostics, or the fault that stopped it.
/// `path_is_file` reports whether the path names an existing regular file.
pub open spec fn spec_wav_file_information(f: WavFile, path_is_file: bool) -> Seq<char> {
    "  Path: "@ + f.path@ + "\n"@ + match f.load_status {
        WavFileLoadStatus::Success { wave_format_info, .. } => crate::wav_format::spec_information_text(
            wave_format_info@,
        ) + "  Needs Fixing: "@ + spec_bool_text(wave_format_info@.spec_needs_fixing()) + "\n"@
            + (if wave_format_info@.spec_needs_fixing() {
            "  Can Fix: "@ + spec_bool_text(wave_format_info@.spec_can_fix(path_is_file)) + "\n"@
        } else {
            Seq::<char>::empty()
        }),
        WavFileLoadStatus::WavFileInvalid { error, .. } => "  WAV file invalid: "@
            + spec_error_message(error) + "\n"@,
        WavFileLoadStatus::RiffFileInvalid { error } => "  Could not load RIFF structure: "@
            + spec_error_message(error) + "\n"@,
    }
}

fn bool_text(b: bool) -> (r: &'static str)
    ensures
        r@ == spec_bool_text(b),
{
    if b {
        "true"
    } else {
        "false"
    }
}

impl WavFile {
    /// Renders the file's report block. `path_is_file` reports whether the
    /// path names an existing regular file (it feeds the `Can Fix` line).
    pub fn write_information(&self, path_is_file: bool) -> (r: String)
        ensures
            r@ == spec_wav_file_information(*self, path_is_file),
    {
        let mut s = String::new();
        append_str(&mut s, "  Path: ");
        append_str(&mut s, self.path.as_str());
        append_str(&mut s, "\n");
        match &self.load_status {
            WavFileLoadStatus::Success { wave_format_info, .. } => {
                let info = wave_format_info.write_information();
                append_str(&mut s, info.as_str());
                let needs = match self.needs_fixing() {
                    Some(b) => b,
                    None => vstd::pervasive::unreached(),
                };
                append_str(&mut s, "  Needs Fixing: ");
                append_str(&mut s, bool_text(needs));
                append_str(&mut s, "\n");
                if needs {
                    let can = match self.can_fix(path_is_file) {
                        Some(b) => b,
                        None => vstd::pervasive::unreached(),
                    };
                    append_str(&mut s, "  Can Fix: ");
                    append_str(&mut s, bool_text(can));
                    append_str(&mut s, "\n");
                }
            },
            WavFileLoadStatus::WavFileInvalid { error, .. } => {
                append_str(&mut s, "  WAV file invalid: ");
                let m = error.message();
                append_str(&mut s, m.as_str());
                append_str(&mut s, "\n");
            },
            WavFileLoadStatus::RiffFileInvalid { error } => {
                append_str(&mut s, "  Could not load RIFF structure: ");
                let m = error.message();
                append_str(&mut s, m.as_str());
                append_str(&mut s, "\n");
            },
        }
        proof {
            assert(s@ =~= spec_wav_file_information(*self, path_is_file));
        }
        s
    }
}

/// The report entries for `files[k..]`, each numbered from `k + 1` on:
/// a numbered heading line and the file's report block.
pub open spec fn spec_report_text(files: Seq<WavFile>, flags: Seq<bool>, k: int) -> Seq<char>
    decreases files.len() - k,
    when 0 <= k <= files.len()
{
    if k == files.len() {
        Seq::<char>::empty()
    } else {
        dec_digits(k + 1) + ":\n"@ + spec_wav_file_information(files[k], flags[k]) + spec_report_text(
            files,
            flags,
            k + 1,
        )
    }
}

/// Builds the report text that a run prints for its loaded files: a leading
/// blank line, then each file's numbered report block. `paths_are_files[k]`
/// reports whether the `k`-th file's path names an existing regular file.
#[verifier::loop_isolation(false)]
pub fn run_with_cli(read_files: &Vec<WavFile>, paths_are_files: &Vec<bool>) -> (r: String)
    requires
        read_files@.len() == paths_are_files@.len(),
    ensures
        r@ == "\n"@ + spec_report_text(read_files@, paths_are_files@, 0),
{
    let mut s = String::new();
    append_str(&mut s, "\n");

    let ghost files = read_files@;
    let ghost flags = paths_are_files@;

    let mut k: usize = 0;
    while k < read_files.len()
        invariant
            k <= files.len(),
            s@ + spec_report_text(files, flags, k as int) == "\n"@ + spec_report_text(
                files,
                flags,
                0,
            ),
        decreases files.len() - k,
    {
        let ghost s_before = s@;
        let number = u128_dec((k + 1) as u128);
        append_str(&mut s, number.as_str());
        append_str(&mut s, ":\n");
        let info = read_files[k].write_information(paths_are_files[k]);
        append_str(&mut s, info.as_str());
        proof {
            assert(s@ =~= s_before + (dec_digits(k + 1) + ":\n"@ + spec_wav_file_information(
                files[k as int],
                flags[k as int],
            )));
            assert(s_before + spec_report_text(files, flags, k as int) =~= s@ + spec_report_text(
                files,
                flags,
                k as int + 1,
            ));
        }
        k += 1;
    }
    proof {
        assert(s@ + spec_report_text(files, flags, k as int) =~= s@);
    }
    s
}

} // verus!
