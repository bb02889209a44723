//! Top-level records of the container: tagged, sized chunks carrying a
//! nested-format tag and an ordered collection of subchunks.

use vstd::prelude::*;

use crate::byte_stream::ByteStream;
use crate::errors::{DJWavFixerError, RiffFault};
use crate::riff_subchunk::{spec_scan_subchunks, subchunks_have_id, RiffSubchunk, RiffSubchunkView};
use crate::tag_index::{
    tag_index_contains, tag_index_entries, tag_index_get, tag_index_insert, tag_index_new,
};
use crate::wav_format::spec_le32;

verus! {

/// A chunk record: its byte offset, 4-byte tag, declared payload size, the
/// nested container-format tag, and its subchunks in scan order, indexed by
/// tag.
pub struct RiffChunk {
    pub position: u64,
    pub id: u32,
    pub size: u32,
    pub format: u32,
    pub subchunks: Vec<RiffSubchunk>,
    pub subchunk_index: indexmap::IndexMap<u32, usize, std::hash::RandomState>,
}

/// The mathematical value of a [`RiffChunk`]: its header fields and the
/// sequence of its subchunks in scan order.
#[verifier::ext_equal]
pub ghost struct RiffChunkView {
    pub position: u64,
    pub id: u32,
    pub size: u32,
    pub format: u32,
    pub subchunks: Seq<RiffSubchunkView>,
}

/// The views of a list of subchunk records, in order.
pub open spec fn subchunk_views(subs: Seq<RiffSubchunk>) -> Seq<RiffSubchunkView> {
    subs.map_values(|s: RiffSubchunk| s@)
}

impl View for RiffChunk {
    type V = RiffChunkView;

    open spec fn view(&self) -> RiffChunkView {
        RiffChunkView {
            position: self.position,
            id: self.id,
            size: self.size,
            format: self.format,
            subchunks: subchunk_views(self.subchunks@),
        }
    }
}

/// The tag index `idx` lists exactly the tags of `subs`, each with its
/// position in scan order, and those tags are unique.
pub open spec fn index_matches(
    idx: indexmap::IndexMap<u32, usize, std::hash::RandomState>,
    subs: Seq<RiffSubchunkView>,
) -> bool {
    &&& tag_index_entries(idx).len() == subs.len()
    &&& forall|i: int|
        0 <= i < subs.len() ==> tag_index_entries(idx)[i] == (subs[i].id, i as usize)
    &&& forall|i: int, j: int|
        0 <= i < j < subs.len() ==> subs[i].id != subs[j].id
}

impl RiffChunkView {
    /// The chunk's end offset as the size checks count it: its offset plus
    /// its declared size (its 8-byte header omitted, as on the subchunk
    /// side).
    pub open spec fn end_offset(self) -> int {
        self.position + self.size
    }

    /// The extent the chunk's subchunks actually consumed: the last
    /// subchunk's end offset, or the end of the chunk's own 12-byte header
    /// when it has no subchunks.
    pub open spec fn observed_extent(self) -> int {
        if self.subchunks.len() == 0 {
            self.position + 12
        } else {
            self.subchunks.last().end_offset()
        }
    }
}

impl RiffChunk {
    /// A chunk is well formed against the stream it was scanned from when
    /// each subchunk is, and the tag index lists exactly the subchunks'
    /// tags.
    pub open spec fn wf(self, stream_data: Seq<u8>) -> bool {
        &&& forall|i: int|
            0 <= i < self@.subchunks.len() ==> #[trigger] self@.subchunks[i].wf(stream_data)
        &&& index_matches(self.subchunk_index, self@.subchunks)
    }
}

/// What scanning one chunk record at `pos` yields: nothing when fewer than
/// 4 bytes remain for a tag; the chunk's view and the final stream position
/// when its header, its subchunks and its size check all pass; the first
/// fault otherwise.
///
/// A chunk's declared size must place its end exactly at the last
/// subchunk's end (both ends counted without their 8-byte headers).
pub open spec fn spec_scan_chunk(data: Seq<u8>, pos: int) -> Result<
    Option<(RiffChunkView, int)>,
    DJWavFixerError,
> {
    if pos + 4 > data.len() {
        Ok(None)
    } else if pos + 12 > data.len() {
        Err(DJWavFixerError::RiffHeaderError(RiffFault::TruncatedRecord {
            position: pos as u64,
        }))
    } else {
        match spec_scan_subchunks(data, pos + 12, Seq::<RiffSubchunkView>::empty()) {
            Err(e) => Err(e),
            Ok((subs, fin)) => {
                let chunk = RiffChunkView {
                    position: pos as u64,
                    id: spec_le32(data, pos),
                    size: spec_le32(data, pos + 4),
                    format: spec_le32(data, pos + 8),
                    subchunks: subs,
                };
                if chunk.end_offset() != chunk.observed_extent() {
                    Err(DJWavFixerError::RiffHeaderError(RiffFault::ChunkSizeMismatch {
                        expected: chunk.end_offset() as u128,
                        actual: chunk.observed_extent() as u128,
                    }))
                } else {
                    Ok(Some((chunk, fin)))
                }
            },
        }
    }
}

impl RiffChunk {
    /// Scans the subchunks of one chunk forward from the stream's position
    /// until fewer than 4 bytes remain, collecting them in order and
    /// indexing them by tag; rejects a repeated tag.
    #[verifier::loop_isolation(false)]
    fn scan_subchunks(stream: &mut ByteStream) -> (r: Result<
        (Vec<RiffSubchunk>, indexmap::IndexMap<u32, usize, std::hash::RandomState>),
        DJWavFixerError,
    >)
        requires
            old(stream).wf(),
        ensures
            final(stream).wf(),
            final(stream).spec_data() == old(stream).spec_data(),
            match r {
                Ok((subs, idx)) => {
                    &&& spec_scan_subchunks(
                        old(stream).spec_data(),
                        old(stream).spec_pos(),
                        Seq::<RiffSubchunkView>::empty(),
                    ) == Ok::<_, DJWavFixerError>((
                        subchunk_views(subs@),
                        final(stream).spec_pos(),
                    ))
                    &&& index_matches(idx, subchunk_views(subs@))
                    &&& final(stream).spec_pos() >= old(stream).spec_pos()
                    &&& forall|i: int|
                        0 <= i < subs@.len() ==> #[trigger] subchunk_views(subs@)[i].wf(
                            old(stream).spec_data(),
                        )
                },
                Err(e) => spec_scan_subchunks(
                    old(stream).spec_data(),
                    old(stream).spec_pos(),
                    Seq::<RiffSubchunkView>::empty(),
                ) == Err::<(Seq<RiffSubchunkView>, int), _>(e),
            },
    {
        let ghost data = stream.spec_data();
        let ghost start = stream.spec_pos();

        let mut subchunks: Vec<RiffSubchunk> = Vec::new();
        let mut subchunk_index = tag_index_new();
        proof {
            assert(subchunk_views(subchunks@) =~= Seq::<RiffSubchunkView>::empty());
        }

        loop
            invariant
                stream.wf(),
                stream.spec_data() == data,
                0 <= start <= stream.spec_pos(),
                spec_scan_subchunks(data, start, Seq::<RiffSubchunkView>::empty())
                    == spec_scan_subchunks(
                    data,
                    stream.spec_pos(),
                    subchunk_views(subchunks@),
                ),
                index_matches(subchunk_index, subchunk_views(subchunks@)),
                forall|i: int|
                    0 <= i < subchunks@.len() ==> #[trigger] subchunk_views(subchunks@)[i].wf(
                        data,
                    ),
            decreases data.len() - stream.spec_pos(),
        {
            let ghost pos_before = stream.spec_pos();
            let ghost vs_before = subchunk_views(subchunks@);

            let subchunk = match RiffSubchunk::scan_next(stream) {
                Ok(Some(s)) => s,
                Ok(None) => {
                    proof {
                        assert(spec_scan_subchunks(data, stream.spec_pos(), subchunk_views(subchunks@))
                            == Ok::<_, DJWavFixerError>((
                            subchunk_views(subchunks@),
                            stream.spec_pos(),
                        )));
                    }
                    return Ok((subchunks, subchunk_index));
                },
                Err(e) => {
                    proof {
                        assert(spec_scan_subchunks(data, pos_before, vs_before) == Err::<
                            (Seq<RiffSubchunkView>, int),
                            _,
                        >(e));
                    }
                    return Err(e);
                },
            };

            let subchunk_id = subchunk.id();
            if tag_index_contains(&subchunk_index, subchunk_id) {
                proof {
                    assert(subchunks_have_id(vs_before, subchunk_id)) by {
                        let k = choose|k: int|
                            0 <= k < tag_index_entries(subchunk_index).len()
                                && tag_index_entries(subchunk_index)[k].0 == subchunk_id;
                        assert(vs_before[k].id == subchunk_id);
                    }
                }
                return Err(DJWavFixerError::RiffHeaderError(RiffFault::DuplicateSubchunk {
                    id: subchunk_id,
                }));
            }
            proof {
                if subchunks_have_id(vs_before, subchunk_id) {
                    let k = choose|k: int|
                        0 <= k < vs_before.len() && vs_before[k].id == subchunk_id;
                    assert(tag_index_entries(subchunk_index)[k].0 == subchunk_id);
                    assert(crate::tag_index::entries_have_key(
                        tag_index_entries(subchunk_index),
                        subchunk_id,
                    ));
                }
            }

            let next_slot = subchunks.len();
            tag_index_insert(&mut subchunk_index, subchunk_id, next_slot);
            subchunks.push(subchunk);

            proof {
                assert(subchunk_views(subchunks@) =~= vs_before.push(subchunk@));
                assert(spec_scan_subchunks(data, pos_before, vs_before) == spec_scan_subchunks(
                    data,
                    stream.spec_pos(),
                    subchunk_views(subchunks@),
                ));
            }
        }

    }

    /// Scans the next chunk record at the stream's position: its 4-byte tag,
    /// 4-byte little-endian size and 4-byte nested-format tag, then all its
    /// subchunks, and checks that the declared size matches the extent the
    /// subchunks consumed.
    ///
    /// Fewer than 4 bytes left for the tag ends scanning (`Ok(None)`).
    pub fn scan_next(stream: &mut ByteStream) -> (r: Result<Option<RiffChunk>, DJWavFixerError>)
        requires
            old(stream).wf(),
        ensures
            final(stream).wf(),
            final(stream).spec_data() == old(stream).spec_data(),
            match r {
                Ok(None) => {
                    &&& spec_scan_chunk(old(stream).spec_data(), old(stream).spec_pos())
                        == Ok::<Option<(RiffChunkView, int)>, DJWavFixerError>(None)
                    &&& final(stream).spec_pos() == old(stream).spec_pos()
                },
                Ok(Some(chunk)) => {
                    &&& spec_scan_chunk(old(stream).spec_data(), old(stream).spec_pos())
                        == Ok::<Option<(RiffChunkView, int)>, DJWavFixerError>(Some((
                        chunk@,
                        final(stream).spec_pos(),
                    )))
                    &&& chunk.wf(old(stream).spec_data())
                    &&& final(stream).spec_pos() > old(stream).spec_pos()
                },
                Err(e) => spec_scan_chunk(old(stream).spec_data(), old(stream).spec_pos())
                    == Err::<Option<(RiffChunkView, int)>, DJWavFixerError>(e),
            },
    {
        let position = stream.stream_position();

        let id = match stream.read_u32_le() {
            Some(v) => v,
            None => {
                return Ok(None);  // No more chunks to read
            },
        };

        let size = match stream.read_u32_le() {
            Some(v) => v,
            None => {
                return Err(DJWavFixerError::RiffHeaderError(RiffFault::TruncatedRecord {
                    position,
                }));
            },
        };

        let format = match stream.read_u32_le() {
            Some(v) => v,
            None => {
                return Err(DJWavFixerError::RiffHeaderError(RiffFault::TruncatedRecord {
                    position,
                }));
            },
        };

        let (subchunks, subchunk_index) = match Self::scan_subchunks(stream) {
            Ok(pair) => pair,
            Err(e) => {
                return Err(e);
            },
        };

        let declared_end: u128 = position as u128 + size as u128;
        let last_subchunk_end: u128 = if subchunks.len() == 0 {
            position as u128 + 12
        } else {
            let last = &subchunks[subchunks.len() - 1];
            last.position as u128 + last.size as u128
        };

        proof {
            let subs_v = subchunk_views(subchunks@);
            if subchunks@.len() > 0 {
                assert(subs_v.last() == subchunks@[subchunks@.len() - 1]@);
            }
        }
        if declared_end != last_subchunk_end {
            return Err(DJWavFixerError::RiffHeaderError(RiffFault::ChunkSizeMismatch {
                expected: declared_end,
                actual: last_subchunk_end,
            }));
        }

        Ok(Some(RiffChunk { position, id, size, format, subchunks, subchunk_index }))
    }

    /// The position in scan order of the subchunk carrying the tag `id`, if
    /// any.
    pub fn get_subchunk_index(&self, id: u32) -> (r: Option<usize>)
        requires
            index_matches(self.subchunk_index, self@.subchunks),
        ensures
            match r {
                Some(j) => j < self@.subchunks.len() && self@.subchunks[j as int].id == id,
                None => !subchunks_have_id(self@.subchunks, id),
            },
    {
        let r = tag_index_get(&self.subchunk_index, id);
        proof {
            assert(self.subchunks@.len() == vstd::std_specs::vec::spec_vec_len(&self.subchunks));
            match r {
                Some(j) => {
                    let k = choose|k: int|
                        0 <= k < tag_index_entries(self.subchunk_index).len()
                            && tag_index_entries(self.subchunk_index)[k] == (id, j);
                    assert(self@.subchunks[k].id == id && k as usize == j);
                },
                None => {
                    if subchunks_have_id(self@.subchunks, id) {
                        let k = choose|k: int|
                            0 <= k < self@.subchunks.len() && self@.subchunks[k].id == id;
                        assert(tag_index_entries(self.subchunk_index)[k].0 == id);
                    }
                },
            }
        }
        r
    }

    pub fn position(&self) -> (r: u64)
        ensures
            r == self.position,
    {
        self.position
    }

    pub fn id(&self) -> (r: u32)
        ensures
            r == self.id,
    {
        self.id
    }

    pub fn size(&self) -> (r: u32)
        ensures
            r == self.size,
    {
        self.size
    }

    pub fn format(&self) -> (r: u32)
        ensures
            r == self.format,
    {
        self.format
    }
}

} // verus!
