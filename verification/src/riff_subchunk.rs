//! Leaf records of the container: tagged, sized subchunks with a lazily
//! read, memoized payload.

use vstd::prelude::*;

use crate::byte_stream::ByteStream;
use crate::errors::{DJWavFixerError, RiffFault};
use crate::wav_format::spec_le32;

verus! {

/// A subchunk record: its byte offset, 4-byte tag (as the little-endian
/// value of those bytes), declared payload size, and the payload itself once
/// it has been read.
pub struct RiffSubchunk {
    pub position: u64,
    pub id: u32,
    pub size: u32,
    pub data: Option<Vec<u8>>,
}

/// The mathematical value of a [`RiffSubchunk`].
#[verifier::ext_equal]
pub ghost struct RiffSubchunkView {
    pub position: u64,
    pub id: u32,
    pub size: u32,
    pub data: Option<Seq<u8>>,
}

impl View for RiffSubchunk {
    type V = RiffSubchunkView;

    open spec fn view(&self) -> RiffSubchunkView {
        RiffSubchunkView {
            position: self.position,
            id: self.id,
            size: self.size,
            data: match self.data {
                Some(d) => Some(d@),
                None => None,
            },
        }
    }
}

impl RiffSubchunkView {
    /// Where the record's payload starts: just past the 8-byte tag+size
    /// header.
    pub open spec fn payload_start(self) -> int {
        self.position + 8
    }

    /// The record's payload bytes within the stream.
    pub open spec fn payload_spec(self, stream_data: Seq<u8>) -> Seq<u8> {
        stream_data.subrange(self.payload_start(), self.payload_start() + self.size)
    }

    /// The record's end offset as the container's size checks count it: its
    /// offset plus its declared payload size (both sides of those checks
    /// omit the same 8-byte header).
    pub open spec fn end_offset(self) -> int {
        self.position + self.size
    }

    /// A record is well formed against the stream it was scanned from when
    /// its header lies inside the stream and a memoized payload, if any,
    /// holds exactly the payload bytes.
    pub open spec fn wf(self, stream_data: Seq<u8>) -> bool {
        &&& self.payload_start() <= stream_data.len()
        &&& match self.data {
            Some(d) => {
                &&& self.payload_start() + self.size <= stream_data.len()
                &&& d == self.payload_spec(stream_data)
            },
            None => true,
        }
    }
}

/// Whether some record in `s` carries the tag `id`.
pub open spec fn subchunks_have_id(s: Seq<RiffSubchunkView>, id: u32) -> bool {
    exists|i: int| 0 <= i < s.len() && s[i].id == id
}

/// What scanning subchunk records forward from `pos`, having already
/// collected `acc`, yields: the collected records and the final stream
/// position, or the first structural fault.
///
/// Scanning ends successfully when fewer than 4 bytes remain for a new tag;
/// a record whose size field is cut off is a fault; a tag seen twice at this
/// level is a fault; otherwise the record is collected and scanning skips
/// its declared payload (stopping at the end of the stream) and continues.
pub open spec fn spec_scan_subchunks(
    data: Seq<u8>,
    pos: int,
    acc: Seq<RiffSubchunkView>,
) -> Result<(Seq<RiffSubchunkView>, int), DJWavFixerError>
    decreases data.len() - pos,
    when 0 <= pos <= data.len()
{
    if pos + 4 > data.len() {
        Ok((acc, pos))
    } else if pos + 8 > data.len() {
        Err(DJWavFixerError::RiffHeaderError(RiffFault::TruncatedRecord {
            position: pos as u64,
        }))
    } else {
        let rec = RiffSubchunkView {
            position: pos as u64,
            id: spec_le32(data, pos),
            size: spec_le32(data, pos + 4),
            data: None,
        };
        if subchunks_have_id(acc, rec.id) {
            Err(DJWavFixerError::RiffHeaderError(RiffFault::DuplicateSubchunk { id: rec.id }))
        } else {
            let next = if pos + 8 + rec.size <= data.len() {
                pos + 8 + rec.size
            } else {
                data.len() as int
            };
            spec_scan_subchunks(data, next, acc.push(rec))
        }
    }
}

impl RiffSubchunk {
    /// Scans the next subchunk record at the stream's position: its 4-byte
    /// tag, its 4-byte little-endian size, and a seek past its payload.
    ///
    /// Fewer than 4 bytes left for the tag ends scanning (`Ok(None)`); a
    /// cut-off size field is a structural fault.
    pub fn scan_next(stream: &mut ByteStream) -> (r: Result<
        Option<RiffSubchunk>,
        DJWavFixerError,
    >)
        requires
            old(stream).wf(),
        ensures
            final(stream).wf(),
            final(stream).spec_data() == old(stream).spec_data(),
            match r {
                Ok(None) => {
                    &&& old(stream).spec_pos() + 4 > old(stream).spec_data().len()
                    &&& final(stream).spec_pos() == old(stream).spec_pos()
                },
                Ok(Some(rec)) => {
                    &&& old(stream).spec_pos() + 8 <= old(stream).spec_data().len()
                    &&& rec@ == (RiffSubchunkView {
                        position: old(stream).spec_pos() as u64,
                        id: spec_le32(old(stream).spec_data(), old(stream).spec_pos()),
                        size: spec_le32(old(stream).spec_data(), old(stream).spec_pos() + 4),
                        data: None,
                    })
                    &&& final(stream).spec_pos() == if old(stream).spec_pos() + 8 + rec.size
                        <= old(stream).spec_data().len() {
                        old(stream).spec_pos() + 8 + rec.size
                    } else {
                        old(stream).spec_data().len() as int
                    }
                },
                Err(e) => {
                    &&& old(stream).spec_pos() + 4 <= old(stream).spec_data().len()
                    &&& old(stream).spec_pos() + 8 > old(stream).spec_data().len()
                    &&& e == DJWavFixerError::RiffHeaderError(RiffFault::TruncatedRecord {
                        position: old(stream).spec_pos() as u64,
                    })
                },
            },
    {
        let position = stream.stream_position();

        let id = match stream.read_u32_le() {
            Some(v) => v,
            None => {
                return Ok(None);  // No more records to read
            },
        };

        let size = match stream.read_u32_le() {
            Some(v) => v,
            None => {
                return Err(DJWavFixerError::RiffHeaderError(RiffFault::TruncatedRecord {
                    position,
                }));
            },
        };

        // Seek forward to the end of the subchunk
        stream.skip(size);

        Ok(Some(RiffSubchunk { position, id, size, data: None }))
    }

    pub fn position(&self) -> (r: u64)
        ensures
            r == self.position,
    {
        self.position
    }

    pub fn id(&self) -> (r: u32)
        ensures
            r == self.id,
    {
        self.id
    }

    pub fn size(&self) -> (r: u32)
        ensures
            r == self.size,
    {
        self.size
    }

    /// The record's payload, read from the stream on first call and returned
    /// from the memoized copy thereafter.
    ///
    /// Fails exactly when the declared payload runs past the end of the
    /// stream.
    pub fn read_data(&mut self, stream: &mut ByteStream) -> (r: Result<Vec<u8>, DJWavFixerError>)
        requires
            old(self)@.wf(old(stream).spec_data()),
            old(stream).wf(),
        ensures
            final(stream).wf(),
            final(stream).spec_data() == old(stream).spec_data(),
            final(self).position == old(self).position,
            final(self).id == old(self).id,
            final(self).size == old(self).size,
            final(self)@.wf(final(stream).spec_data()),
            match r {
                Ok(v) => {
                    &&& old(self)@.payload_start() + old(self).size
                        <= old(stream).spec_data().len()
                    &&& v@ == old(self)@.payload_spec(old(stream).spec_data())
                    &&& final(self)@.data == Some(v@)
                },
                Err(e) => {
                    &&& old(self)@.payload_start() + old(self).size
                        > old(stream).spec_data().len()
                    &&& e == DJWavFixerError::RiffHeaderError(RiffFault::TruncatedRecord {
                        position: old(self).position,
                    })
                    &&& final(self)@.data == old(self)@.data
                },
            },
    {
        if let Some(d) = &self.data {
            // Payload already read: hand out the memoized copy.
            return Ok(vstd::slice::slice_to_vec(d.as_slice()));
        }

        let start: u64 = self.position + 8;
        let stream_len: usize = stream.len();
        if (self.size as u64) <= (stream_len as u64) - start {
            stream.seek_to(start as usize);
            match stream.read_vec(self.size as usize) {
                Some(v) => {
                    self.data = Some(vstd::slice::slice_to_vec(v.as_slice()));
                    Ok(v)
                },
                None => vstd::pervasive::unreached(),
            }
        } else {
            Err(DJWavFixerError::RiffHeaderError(RiffFault::TruncatedRecord {
                position: self.position,
            }))
        }
    }
}

} // verus!
