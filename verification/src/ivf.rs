//! Serialization of the IVF container: the 32-byte file header and the
//! length-prefixed, timestamped frame records, with their exact byte layout.

use vstd::bytes::*;
use vstd::prelude::*;

verus! {

/// The four-byte signature that opens every file of this container format.
pub open spec fn spec_signature() -> Seq<u8> {
    seq![0x44u8, 0x4bu8, 0x49u8, 0x46u8]
}

/// The four-byte tag naming the payload codec carried by this writer.
pub open spec fn spec_codec_tag() -> Seq<u8> {
    seq![0x41u8, 0x56u8, 0x30u8, 0x31u8]
}

/// The 32-byte file header: signature, format version 0, header length 32,
/// codec tag, width, height, frame-rate numerator, time base 1, frame count
/// and a reserved field, every multi-byte integer little-endian.
///
/// The frame count is written as zero: an append-only writer does not know
/// the final count when the header goes out, and this writer never patches
/// it afterwards. Readers parse by the self-delimiting records instead.
pub open spec fn spec_ivf_header(width: u16, height: u16, frame_rate: u32) -> Seq<u8> {
    spec_signature() + spec_u16_to_le_bytes(0u16) + spec_u16_to_le_bytes(32u16)
        + spec_codec_tag() + spec_u16_to_le_bytes(width) + spec_u16_to_le_bytes(height)
        + spec_u32_to_le_bytes(frame_rate) + spec_u32_to_le_bytes(1u32)
        + spec_u32_to_le_bytes(0u32) + spec_u32_to_le_bytes(0u32)
}

/// One frame record: a 4-byte payload length, an 8-byte timestamp, then the
/// payload itself, with no padding.
pub open spec fn spec_frame_record(payload: Seq<u8>, timestamp: u64) -> Seq<u8>
    recommends
        payload.len() < 0x1_0000_0000,
{
    spec_u32_to_le_bytes(payload.len() as u32) + spec_u64_to_le_bytes(timestamp) + payload
}

/// A whole file: the header, then one record per frame, in order.
pub open spec fn spec_ivf_file(
    width: u16,
    height: u16,
    frame_rate: u32,
    frames: Seq<(Seq<u8>, u64)>,
) -> Seq<u8>
    decreases frames.len(),
{
    if frames.len() == 0 {
        spec_ivf_header(width, height, frame_rate)
    } else {
        spec_ivf_file(width, height, frame_rate, frames.drop_last())
            + spec_frame_record(frames.last().0, frames.last().1)
    }
}

pub proof fn lemma_ivf_header_len(width: u16, height: u16, frame_rate: u32)
    ensures
        spec_ivf_header(width, height, frame_rate).len() == 32,
{
    lemma_auto_spec_u16_to_from_le_bytes();
    lemma_auto_spec_u32_to_from_le_bytes();
}

/// Law: the header is byte-exact. For any width, height and frame rate it is
/// exactly 32 bytes, opens with the signature, carries the codec tag at
/// offset 8, and every numeric field decodes from its documented little-endian
/// position: version 0, header length 32, the given dimensions and rate, time
/// base 1, frame count 0 and reserved 0.
pub proof fn lemma_ivf_header_fields(width: u16, height: u16, frame_rate: u32)
    ensures
        ({
            let h = spec_ivf_header(width, height, frame_rate);
            &&& h.len() == 32
            &&& h.subrange(0, 4) == spec_signature()
            &&& spec_u16_from_le_bytes(h.subrange(4, 6)) == 0
            &&& spec_u16_from_le_bytes(h.subrange(6, 8)) == 32
            &&& h.subrange(8, 12) == spec_codec_tag()
            &&& spec_u16_from_le_bytes(h.subrange(12, 14)) == width
            &&& spec_u16_from_le_bytes(h.subrange(14, 16)) == height
            &&& spec_u32_from_le_bytes(h.subrange(16, 20)) == frame_rate
            &&& spec_u32_from_le_bytes(h.subrange(20, 24)) == 1
            &&& spec_u32_from_le_bytes(h.subrange(24, 28)) == 0
            &&& spec_u32_from_le_bytes(h.subrange(28, 32)) == 0
        }),
{
    lemma_auto_spec_u16_to_from_le_bytes();
    lemma_auto_spec_u32_to_from_le_bytes();
    let h = spec_ivf_header(width, height, frame_rate);
    assert(h.subrange(0, 4) =~= spec_signature());
    assert(h.subrange(4, 6) =~= spec_u16_to_le_bytes(0u16));
    assert(h.subrange(6, 8) =~= spec_u16_to_le_bytes(32u16));
    assert(h.subrange(8, 12) =~= spec_codec_tag());
    assert(h.subrange(12, 14) =~= spec_u16_to_le_bytes(width));
    assert(h.subrange(14, 16) =~= spec_u16_to_le_bytes(height));
    assert(h.subrange(16, 20) =~= spec_u32_to_le_bytes(frame_rate));
    assert(h.subrange(20, 24) =~= spec_u32_to_le_bytes(1u32));
    assert(h.subrange(24, 28) =~= spec_u32_to_le_bytes(0u32));
    assert(h.subrange(28, 32) =~= spec_u32_to_le_bytes(0u32));
}

pub proof fn lemma_frame_record_len(payload: Seq<u8>, timestamp: u64)
    ensures
        spec_frame_record(payload, timestamp).len() == 12 + payload.len(),
{
    lemma_auto_spec_u32_to_from_le_bytes();
    lemma_auto_spec_u64_to_from_le_bytes();
}

/// Appending one frame extends the file by exactly that frame's record.
pub proof fn lemma_ivf_file_push(
    width: u16,
    height: u16,
    frame_rate: u32,
    frames: Seq<(Seq<u8>, u64)>,
    payload: Seq<u8>,
    timestamp: u64,
)
    ensures
        spec_ivf_file(width, height, frame_rate, frames.push((payload, timestamp)))
            == spec_ivf_file(width, height, frame_rate, frames)
            + spec_frame_record(payload, timestamp),
{
    let pushed = frames.push((payload, timestamp));
    assert(pushed.drop_last() =~= frames);
    assert(pushed.last() == (payload, timestamp));
}

/// The total length of the records for `frames`: 12 + L for each payload of
/// length L, summed in order.
pub open spec fn spec_records_len(frames: Seq<(Seq<u8>, u64)>) -> int
    decreases frames.len(),
{
    if frames.len() == 0 {
        0
    } else {
        spec_records_len(frames.drop_last()) + 12 + frames.last().0.len()
    }
}

/// The records for `frames`, concatenated in order, without the header.
pub open spec fn spec_records(frames: Seq<(Seq<u8>, u64)>) -> Seq<u8>
    decreases frames.len(),
{
    if frames.len() == 0 {
        Seq::empty()
    } else {
        spec_records(frames.drop_last()) + spec_frame_record(frames.last().0, frames.last().1)
    }
}

/// Concatenating frame sequences concatenates their records.
pub proof fn lemma_records_concat(a: Seq<(Seq<u8>, u64)>, b: Seq<(Seq<u8>, u64)>)
    ensures
        spec_records(a + b) == spec_records(a) + spec_records(b),
    decreases b.len(),
{
    if b.len() == 0 {
        assert(a + b =~= a);
        assert(spec_records(a) + spec_records(b) =~= spec_records(a));
    } else {
        lemma_records_concat(a, b.drop_last());
        assert((a + b).drop_last() =~= a + b.drop_last());
        assert((a + b).last() == b.last());
    }
}

/// A file is the header followed by the records.
pub proof fn lemma_ivf_file_is_header_plus_records(
    width: u16,
    height: u16,
    frame_rate: u32,
    frames: Seq<(Seq<u8>, u64)>,
)
    ensures
        spec_ivf_file(width, height, frame_rate, frames) == spec_ivf_header(
            width,
            height,
            frame_rate,
        ) + spec_records(frames),
    decreases frames.len(),
{
    if frames.len() == 0 {
        assert(spec_ivf_header(width, height, frame_rate) + spec_records(frames)
            =~= spec_ivf_header(width, height, frame_rate));
    } else {
        lemma_ivf_file_is_header_plus_records(width, height, frame_rate, frames.drop_last());
        assert(spec_ivf_file(width, height, frame_rate, frames) =~= spec_ivf_header(
            width,
            height,
            frame_rate,
        ) + spec_records(frames));
    }
}

/// Law: records accumulate append-only, so a file holding N frames is exactly
/// 32 bytes of header plus the sum over the frames of 12 + payload length.
pub proof fn lemma_ivf_file_len(
    width: u16,
    height: u16,
    frame_rate: u32,
    frames: Seq<(Seq<u8>, u64)>,
)
    ensures
        spec_ivf_file(width, height, frame_rate, frames).len() == 32 + spec_records_len(frames),
    decreases frames.len(),
{
    if frames.len() == 0 {
        lemma_ivf_header_len(width, height, frame_rate);
    } else {
        lemma_ivf_file_len(width, height, frame_rate, frames.drop_last());
        lemma_frame_record_len(frames.last().0, frames.last().1);
    }
}

/// Law: the first 32 bytes of a file depend only on width, height and frame
/// rate, never on the frames written after the header.
pub proof fn lemma_ivf_file_header_prefix(
    width: u16,
    height: u16,
    frame_rate: u32,
    frames: Seq<(Seq<u8>, u64)>,
)
    ensures
        spec_ivf_file(width, height, frame_rate, frames).len() >= 32,
        spec_ivf_file(width, height, frame_rate, frames).subrange(0, 32)
            == spec_ivf_header(width, height, frame_rate),
    decreases frames.len(),
{
    lemma_ivf_header_len(width, height, frame_rate);
    if frames.len() == 0 {
        assert(spec_ivf_file(width, height, frame_rate, frames).subrange(0, 32)
            =~= spec_ivf_header(width, height, frame_rate));
    } else {
        lemma_ivf_file_header_prefix(width, height, frame_rate, frames.drop_last());
        assert(spec_ivf_file(width, height, frame_rate, frames).subrange(0, 32)
            =~= spec_ivf_file(width, height, frame_rate, frames.drop_last()).subrange(0, 32));
    }
}

/// Law: two files written with the same width, height and frame rate agree
/// byte-for-byte on their first 32 bytes, whatever frames each one holds;
/// the frame-count field is always written as zero.
pub proof fn lemma_header_independent_of_frames(
    width: u16,
    height: u16,
    frame_rate: u32,
    frames1: Seq<(Seq<u8>, u64)>,
    frames2: Seq<(Seq<u8>, u64)>,
)
    ensures
        spec_ivf_file(width, height, frame_rate, frames1).subrange(0, 32)
            == spec_ivf_file(width, height, frame_rate, frames2).subrange(0, 32),
{
    lemma_ivf_file_header_prefix(width, height, frame_rate, frames1);
    lemma_ivf_file_header_prefix(width, height, frame_rate, frames2);
}

/// Writes the 32-byte container header. Exactly 32 bytes are appended, in the
/// field order and little-endian layout of `spec_ivf_header`; the frame-count
/// and reserved fields are written as zero.
pub fn write_ivf_header(out: &mut Vec<u8>, width: u16, height: u16, frame_rate: u32)
    ensures
        final(out)@ == old(out)@ + spec_ivf_header(width, height, frame_rate),
        final(out)@.len() == old(out)@.len() + 32,
{
    out.push(0x44);
    out.push(0x4b);
    out.push(0x49);
    out.push(0x46);
    let mut version = u16_to_le_bytes(0);
    out.append(&mut version);
    let mut header_len = u16_to_le_bytes(32);
    out.append(&mut header_len);
    out.push(0x41);
    out.push(0x56);
    out.push(0x30);
    out.push(0x31);
    let mut width_bytes = u16_to_le_bytes(width);
    out.append(&mut width_bytes);
    let mut height_bytes = u16_to_le_bytes(height);
    out.append(&mut height_bytes);
    let mut rate_bytes = u32_to_le_bytes(frame_rate);
    out.append(&mut rate_bytes);
    let mut time_base = u32_to_le_bytes(1);
    out.append(&mut time_base);
    let mut frame_count = u32_to_le_bytes(0);
    out.append(&mut frame_count);
    let mut reserved = u32_to_le_bytes(0);
    out.append(&mut reserved);
    proof {
        lemma_ivf_header_len(width, height, frame_rate);
        assert(out@ =~= old(out)@ + spec_ivf_header(width, height, frame_rate));
    }
}

/// Appends one frame record: the payload's length as 4 little-endian bytes,
/// the timestamp as 8 little-endian bytes, then the payload itself. Exactly
/// 12 + payload length bytes are appended; the timestamp is passed through
/// unchanged, whatever its value.
pub fn write_ivf_frame(out: &mut Vec<u8>, payload: &Vec<u8>, timestamp: u64)
    requires
        payload@.len() < 0x1_0000_0000,
    ensures
        final(out)@ == old(out)@ + spec_frame_record(payload@, timestamp),
        final(out)@.len() == old(out)@.len() + 12 + payload@.len(),
{
    let len32: u32 = payload.len() as u32;
    let mut len_bytes = u32_to_le_bytes(len32);
    out.append(&mut len_bytes);
    let mut ts_bytes = u64_to_le_bytes(timestamp);
    out.append(&mut ts_bytes);
    out.extend_from_slice(payload.as_slice());
    proof {
        lemma_frame_record_len(payload@, timestamp);
        assert(out@ =~= old(out)@ + spec_frame_record(payload@, timestamp));
    }
}

} // verus!
