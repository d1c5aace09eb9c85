//! A conforming reader for the frame records: each record is self-delimiting
//! through its length prefix, so a stream is parsed with no trailing index.

use crate::ivf::{
    lemma_frame_record_len, lemma_ivf_file_is_header_plus_records, lemma_ivf_file_len,
    lemma_records_concat, spec_frame_record, spec_ivf_file, spec_records, spec_records_len,
};
use vstd::bytes::*;
use vstd::prelude::*;
use vstd::slice::slice_subrange;

verus! {

/// One frame record read back from a byte stream.
pub struct FrameRecord {
    pub payload: Vec<u8>,
    pub timestamp: u64,
}

/// The payload length announced by the record starting at `off`.
pub open spec fn spec_record_len_at(bytes: Seq<u8>, off: int) -> int
    recommends
        0 <= off,
        off + 4 <= bytes.len(),
{
    spec_u32_from_le_bytes(bytes.subrange(off, off + 4)) as int
}

/// Whether a complete frame record starts at `off`: the 12-byte record header
/// fits, and so does the payload it announces.
pub open spec fn spec_record_at(bytes: Seq<u8>, off: int) -> bool {
    &&& 0 <= off
    &&& off + 12 <= bytes.len()
    &&& off + 12 + spec_record_len_at(bytes, off) <= bytes.len()
}

/// Parses the frame record starting at `off`. Returns the record exactly when
/// a complete one starts there, with the payload and timestamp the bytes
/// announce; such a record occupies 12 + payload length bytes.
pub fn read_frame_record(bytes: &Vec<u8>, off: usize) -> (r: Option<FrameRecord>)
    ensures
        r.is_some() <==> spec_record_at(bytes@, off as int),
        r matches Some(rec) ==> {
            &&& rec.payload@ == bytes@.subrange(
                off + 12,
                off + 12 + spec_record_len_at(bytes@, off as int),
            )
            &&& rec.timestamp == spec_u64_from_le_bytes(bytes@.subrange(off + 4, off + 12))
        },
{
    if bytes.len() < 12 || off > bytes.len() - 12 {
        return None;
    }
    let len_bytes = slice_subrange(bytes.as_slice(), off, off + 4);
    let len = u32_from_le_bytes(len_bytes);
    let rest = bytes.len() - off - 12;
    let len_usize = len as usize;
    if len_usize > rest {
        return None;
    }
    let ts_bytes = slice_subrange(bytes.as_slice(), off + 4, off + 12);
    let timestamp = u64_from_le_bytes(ts_bytes);
    let mut payload: Vec<u8> = Vec::new();
    payload.extend_from_slice(slice_subrange(bytes.as_slice(), off + 12, off + 12 + len_usize));
    proof {
        assert(payload@ =~= bytes@.subrange(
            off + 12,
            off + 12 + spec_record_len_at(bytes@, off as int),
        ));
    }
    Some(FrameRecord { payload, timestamp })
}

/// Law: a frame record round-trips. Wherever a written record stands in a byte
/// stream, a complete record is found at its start; it announces the payload
/// it was written with, carries the same timestamp, and spans exactly
/// 12 + payload length bytes.
pub proof fn lemma_frame_record_round_trip(
    prefix: Seq<u8>,
    payload: Seq<u8>,
    timestamp: u64,
    suffix: Seq<u8>,
)
    requires
        payload.len() < 0x1_0000_0000,
    ensures
        ({
            let bytes = prefix + spec_frame_record(payload, timestamp) + suffix;
            let off = prefix.len() as int;
            &&& spec_record_at(bytes, off)
            &&& spec_record_len_at(bytes, off) == payload.len()
            &&& spec_u64_from_le_bytes(bytes.subrange(off + 4, off + 12)) == timestamp
            &&& bytes.subrange(off + 12, off + 12 + payload.len()) == payload
            &&& spec_frame_record(payload, timestamp).len() == 12 + payload.len()
        }),
{
    lemma_auto_spec_u32_to_from_le_bytes();
    lemma_auto_spec_u64_to_from_le_bytes();
    lemma_frame_record_len(payload, timestamp);
    let bytes = prefix + spec_frame_record(payload, timestamp) + suffix;
    let off = prefix.len() as int;
    assert(bytes.subrange(off, off + 4) =~= spec_u32_to_le_bytes(payload.len() as u32));
    assert(bytes.subrange(off + 4, off + 12) =~= spec_u64_to_le_bytes(timestamp));
    assert(bytes.subrange(off + 12, off + 12 + payload.len()) =~= payload);
}

/// Law: a file's records parse back in write order. For any file and any
/// position i, the i-th record starts right after the header and the records
/// before it, a complete record is found there, and it yields the i-th
/// frame's payload and timestamp.
pub proof fn lemma_ivf_file_parses_in_order(
    width: u16,
    height: u16,
    frame_rate: u32,
    frames: Seq<(Seq<u8>, u64)>,
    i: int,
)
    requires
        forall|j: int| 0 <= j < frames.len() ==> #[trigger] frames[j].0.len() < 0x1_0000_0000,
        0 <= i < frames.len(),
    ensures
        ({
            let bytes = spec_ivf_file(width, height, frame_rate, frames);
            let off = 32 + spec_records_len(frames.take(i));
            &&& spec_record_at(bytes, off)
            &&& spec_record_len_at(bytes, off) == frames[i].0.len()
            &&& spec_u64_from_le_bytes(bytes.subrange(off + 4, off + 12)) == frames[i].1
            &&& bytes.subrange(off + 12, off + 12 + frames[i].0.len()) == frames[i].0
        }),
{
    let bytes = spec_ivf_file(width, height, frame_rate, frames);
    let head = frames.take(i);
    let mid = seq![frames[i]];
    let tail = frames.skip(i + 1);
    assert(frames =~= head + mid + tail);
    lemma_records_concat(head + mid, tail);
    lemma_records_concat(head, mid);
    assert(mid.drop_last() =~= Seq::<(Seq<u8>, u64)>::empty());
    assert(spec_records(Seq::<(Seq<u8>, u64)>::empty()) =~= Seq::<u8>::empty());
    assert(mid.last() == frames[i]);
    assert(spec_records(mid) == spec_records(mid.drop_last()) + spec_frame_record(
        mid.last().0,
        mid.last().1,
    ));
    assert(spec_records(mid) =~= spec_frame_record(frames[i].0, frames[i].1));
    lemma_ivf_file_is_header_plus_records(width, height, frame_rate, frames);
    lemma_ivf_file_is_header_plus_records(width, height, frame_rate, head);
    assert(forall|j: int| 0 <= j < head.len() ==> #[trigger] head[j].0.len() < 0x1_0000_0000);
    lemma_ivf_file_len(width, height, frame_rate, head);
    let prefix = spec_ivf_file(width, height, frame_rate, head);
    let suffix = spec_records(tail);
    assert(bytes =~= prefix + spec_frame_record(frames[i].0, frames[i].1) + suffix);
    lemma_frame_record_round_trip(prefix, frames[i].0, frames[i].1, suffix);
}

} // verus!
