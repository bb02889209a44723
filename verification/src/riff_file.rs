//! The scanned container: its stream, its chunks in scan order, and the
//! lookup that later stages use to reach the format subchunk.

use vstd::prelude::*;

use crate::byte_stream::ByteStream;
use crate::errors::{DJWavFixerError, RiffFault};
use crate::riff_chunk::{index_matches, spec_scan_chunk, subchunk_views, RiffChunk, RiffChunkView};
use crate::tag_index::{tag_index_contains, tag_index_entries, tag_index_insert, tag_index_new};

verus! {

/// A fully scanned container: the stream it was read from and its top-level
/// chunks in scan order, indexed by tag.
pub struct RiffFile {
    pub file: ByteStream,
    pub chunks: Vec<RiffChunk>,
    pub chunk_index: indexmap::IndexMap<u32, usize, std::hash::RandomState>,
}

/// The views of a list of chunk records, in order.
pub open spec fn chunk_views(chunks: Seq<RiffChunk>) -> Seq<RiffChunkView> {
    chunks.map_values(|c: RiffChunk| c@)
}

/// Whether some chunk in `s` carries the tag `id`.
pub open spec fn chunks_have_id(s: Seq<RiffChunkView>, id: u32) -> bool {
    exists|i: int| 0 <= i < s.len() && s[i].id == id
}

/// The tag index `idx` lists exactly the tags of `chunks`, each with its
/// position in scan order, and those tags are unique.
pub open spec fn chunk_index_matches(
    idx: indexmap::IndexMap<u32, usize, std::hash::RandomState>,
    chunks: Seq<RiffChunkView>,
) -> bool {
    &&& tag_index_entries(idx).len() == chunks.len()
    &&& forall|i: int|
        0 <= i < chunks.len() ==> tag_index_entries(idx)[i] == (chunks[i].id, i as usize)
    &&& forall|i: int, j: int| 0 <= i < j < chunks.len() ==> chunks[i].id != chunks[j].id
}

/// What scanning chunk records forward from `pos`, having already collected
/// `acc`, yields: the collected chunks, or the first structural fault.
/// Scanning ends successfully when fewer than 4 bytes remain for a new tag;
/// a tag seen twice at this level is a fault.
pub open spec fn spec_scan_chunks(
    data: Seq<u8>,
    pos: int,
    acc: Seq<RiffChunkView>,
) -> Result<Seq<RiffChunkView>, DJWavFixerError>
    decreases data.len() - pos,
    when 0 <= pos <= data.len()
{
    match spec_scan_chunk(data, pos) {
        Err(e) => Err(e),
        Ok(None) => Ok(acc),
        Ok(Some((chunk, fin))) => {
            if chunks_have_id(acc, chunk.id) {
                Err(DJWavFixerError::RiffHeaderError(RiffFault::DuplicateChunk { id: chunk.id }))
            } else {
                // The scan always moves forward and stays inside the data;
                // the bounds here only make that evident to the recursion.
                let next = if fin <= pos {
                    pos + 1
                } else if fin > data.len() {
                    data.len() as int
                } else {
                    fin
                };
                spec_scan_chunks(data, next, acc.push(chunk))
            }
        },
    }
}

/// What scanning a whole container of `data` with expected extent
/// `data_size` yields: its chunks, or the first structural fault. The final
/// chunk's end offset must equal the expected extent (an empty container's
/// end counts as offset 0).
pub open spec fn spec_scan_riff_file(data: Seq<u8>, data_size: u64) -> Result<
    Seq<RiffChunkView>,
    DJWavFixerError,
> {
    match spec_scan_chunks(data, 0, Seq::<RiffChunkView>::empty()) {
        Err(e) => Err(e),
        Ok(chunks) => {
            let last_end: int = if chunks.len() == 0 {
                0
            } else {
                chunks.last().end_offset()
            };
            if last_end != data_size {
                Err(DJWavFixerError::RiffHeaderError(RiffFault::DataSizeMismatch {
                    expected: data_size,
                    actual: last_end as u128,
                }))
            } else {
                Ok(chunks)
            }
        },
    }
}

impl RiffFile {
    /// A scanned container is well formed when its stream is, each chunk is
    /// well formed against the stream's data, and the tag index lists
    /// exactly the chunks' tags.
    pub open spec fn wf(self) -> bool {
        &&& self.file.wf()
        &&& forall|i: int|
            0 <= i < self.chunks@.len() ==> #[trigger] self.chunks@[i].wf(self.file.spec_data())
        &&& chunk_index_matches(self.chunk_index, chunk_views(self.chunks@))
    }

    /// Scans every chunk of the container and checks that the final chunk
    /// ends exactly at the caller-supplied expected extent.
    #[verifier::loop_isolation(false)]
    pub fn try_new(file: ByteStream, data_size: u64) -> (r: Result<RiffFile, DJWavFixerError>)
        requires
            file.wf(),
            file.spec_pos() == 0,
        ensures
            match r {
                Ok(f) => {
                    &&& spec_scan_riff_file(file.spec_data(), data_size)
                        == Ok::<_, DJWavFixerError>(chunk_views(f.chunks@))
                    &&& f.wf()
                    &&& f.file.spec_data() == file.spec_data()
                },
                Err(e) => spec_scan_riff_file(file.spec_data(), data_size)
                    == Err::<Seq<RiffChunkView>, _>(e),
            },
    {
        let ghost data = file.spec_data();

        let mut stream = file;
        let mut chunks: Vec<RiffChunk> = Vec::new();
        let mut chunk_index = tag_index_new();
        proof {
            assert(chunk_views(chunks@) =~= Seq::<RiffChunkView>::empty());
        }

        loop
            invariant
                stream.wf(),
                stream.spec_data() == data,
                spec_scan_chunks(data, 0, Seq::<RiffChunkView>::empty()) == spec_scan_chunks(
                    data,
                    stream.spec_pos(),
                    chunk_views(chunks@),
                ),
                chunk_index_matches(chunk_index, chunk_views(chunks@)),
                forall|i: int|
                    0 <= i < chunks@.len() ==> #[trigger] chunks@[i].wf(data),
            decreases data.len() - stream.spec_pos(),
        {
            let ghost pos_before = stream.spec_pos();
            let ghost cvs_before = chunk_views(chunks@);

            let chunk = match RiffChunk::scan_next(&mut stream) {
                Ok(Some(c)) => c,
                Ok(None) => {
                    // No more chunks: apply the container-extent check.
                    let last_chunk_end: u128 = if chunks.len() == 0 {
                        0
                    } else {
                        let last = &chunks[chunks.len() - 1];
                        last.position as u128 + last.size as u128
                    };
                    proof {
                        if chunks@.len() > 0 {
                            assert(cvs_before.last() == chunks@[chunks@.len() - 1]@);
                        }
                        assert(spec_scan_chunks(data, pos_before, cvs_before)
                            == Ok::<_, DJWavFixerError>(cvs_before));
                    }
                    if last_chunk_end != data_size as u128 {
                        return Err(DJWavFixerError::RiffHeaderError(RiffFault::DataSizeMismatch {
                            expected: data_size,
                            actual: last_chunk_end,
                        }));
                    }
                    return Ok(RiffFile { file: stream, chunks, chunk_index });
                },
                Err(e) => {
                    return Err(e);
                },
            };

            let chunk_id = chunk.id();
            if tag_index_contains(&chunk_index, chunk_id) {
                proof {
                    assert(chunks_have_id(cvs_before, chunk_id)) by {
                        let k = choose|k: int|
                            0 <= k < tag_index_entries(chunk_index).len() && tag_index_entries(
                                chunk_index,
                            )[k].0 == chunk_id;
                        assert(cvs_before[k].id == chunk_id);
                    }
                }
                return Err(DJWavFixerError::RiffHeaderError(RiffFault::DuplicateChunk {
                    id: chunk_id,
                }));
            }
            proof {
                if chunks_have_id(cvs_before, chunk_id) {
                    let k = choose|k: int| 0 <= k < cvs_before.len() && cvs_before[k].id == chunk_id;
                    assert(tag_index_entries(chunk_index)[k].0 == chunk_id);
                    assert(crate::tag_index::entries_have_key(
                        tag_index_entries(chunk_index),
                        chunk_id,
                    ));
                }
            }

            let next_slot = chunks.len();
            tag_index_insert(&mut chunk_index, chunk_id, next_slot);
            chunks.push(chunk);

            proof {
                assert(chunk_views(chunks@) =~= cvs_before.push(chunk@));
                assert(spec_scan_chunks(data, pos_before, cvs_before) == spec_scan_chunks(
                    data,
                    stream.spec_pos(),
                    chunk_views(chunks@),
                ));
            }
        }
    }

    /// The position in scan order of the chunk carrying the tag `id`, if
    /// any.
    pub fn get_chunk_index(&self, id: u32) -> (r: Option<usize>)
        requires
            chunk_index_matches(self.chunk_index, chunk_views(self.chunks@)),
        ensures
            match r {
                Some(j) => j < self.chunks@.len() && chunk_views(self.chunks@)[j as int].id == id,
                None => !chunks_have_id(chunk_views(self.chunks@), id),
            },
    {
        let r = crate::tag_index::tag_index_get(&self.chunk_index, id);
        proof {
            assert(self.chunks@.len() == vstd::std_specs::vec::spec_vec_len(&self.chunks));
            match r {
                Some(j) => {
                    let k = choose|k: int|
                        0 <= k < tag_index_entries(self.chunk_index).len() && tag_index_entries(
                            self.chunk_index,
                        )[k] == (id, j);
                    assert(chunk_views(self.chunks@)[k].id == id && k as usize == j);
                },
                None => {
                    if chunks_have_id(chunk_views(self.chunks@), id) {
                        let k = choose|k: int|
                            0 <= k < chunk_views(self.chunks@).len() && chunk_views(
                                self.chunks@,
                            )[k].id == id;
                        assert(tag_index_entries(self.chunk_index)[k].0 == id);
                    }
                },
            }
        }
        r
    }
}

} // verus!
