use ivf_writer::ivf::{write_ivf_frame, write_ivf_header};
use ivf_writer::reader::read_frame_record;

#[test]
fn header_is_byte_exact() {
    let mut out: Vec<u8> = Vec::new();
    write_ivf_header(&mut out, 320, 240, 30);
    let expected: Vec<u8> = vec![
        0x44, 0x4b, 0x49, 0x46, // signature "DKIF"
        0x00, 0x00, // version 0
        0x20, 0x00, // header length 32
        0x41, 0x56, 0x30, 0x31, // codec tag "AV01"
        0x40, 0x01, // width 320
        0xf0, 0x00, // height 240
        0x1e, 0x00, 0x00, 0x00, // frame rate 30
        0x01, 0x00, 0x00, 0x00, // time base 1
        0x00, 0x00, 0x00, 0x00, // frame count, unknown at write time
        0x00, 0x00, 0x00, 0x00, // reserved
    ];
    assert_eq!(out, expected);
}

#[test]
fn header_extreme_values() {
    let mut out: Vec<u8> = Vec::new();
    write_ivf_header(&mut out, 0xffff, 1, 0xffff_ffff);
    assert_eq!(out.len(), 32);
    assert_eq!(&out[12..14], &[0xff, 0xff]);
    assert_eq!(&out[14..16], &[0x01, 0x00]);
    assert_eq!(&out[16..20], &[0xff, 0xff, 0xff, 0xff]);

    let mut zero: Vec<u8> = Vec::new();
    write_ivf_header(&mut zero, 0, 0, 0);
    assert_eq!(zero.len(), 32);
    assert_eq!(&zero[12..20], &[0x00; 8]);
}

#[test]
fn frame_record_layout() {
    let mut out: Vec<u8> = Vec::new();
    let payload: Vec<u8> = vec![b'a', b'b', b'c'];
    write_ivf_frame(&mut out, &payload, 0x0102030405060708);
    let expected: Vec<u8> = vec![
        0x03, 0x00, 0x00, 0x00, // payload length 3
        0x08, 0x07, 0x06, 0x05, 0x04, 0x03, 0x02, 0x01, // timestamp
        b'a', b'b', b'c',
    ];
    assert_eq!(out, expected);
}

#[test]
fn frame_record_round_trip() {
    let mut out: Vec<u8> = Vec::new();
    write_ivf_header(&mut out, 320, 240, 30);
    let payload: Vec<u8> = vec![9, 8, 7, 6, 5];
    write_ivf_frame(&mut out, &payload, 0xdead_beef_0123_4567);
    let rec = read_frame_record(&out, 32).expect("a record starts after the header");
    assert_eq!(rec.payload, payload);
    assert_eq!(rec.timestamp, 0xdead_beef_0123_4567);
    // the record consumed exactly 12 + L bytes
    assert_eq!(out.len(), 32 + 12 + payload.len());
    assert!(read_frame_record(&out, 32 + 12 + payload.len()).is_none());
}

#[test]
fn frame_record_round_trip_empty_payload() {
    let mut out: Vec<u8> = Vec::new();
    let payload: Vec<u8> = Vec::new();
    write_ivf_frame(&mut out, &payload, 42);
    assert_eq!(out.len(), 12);
    let rec = read_frame_record(&out, 0).expect("an empty record still parses");
    assert_eq!(rec.payload, payload);
    assert_eq!(rec.timestamp, 42);
}

#[test]
fn records_accumulate_append_only() {
    let payloads: Vec<Vec<u8>> = vec![vec![1, 2, 3, 4, 5], Vec::new(), vec![7; 7]];
    let mut out: Vec<u8> = Vec::new();
    write_ivf_header(&mut out, 320, 240, 30);
    let mut expected_len = 32;
    for (i, p) in payloads.iter().enumerate() {
        write_ivf_frame(&mut out, p, i as u64);
        expected_len += 12 + p.len();
        assert_eq!(out.len(), expected_len);
    }
    // the records parse back in write order
    let mut off = 32;
    for (i, p) in payloads.iter().enumerate() {
        let rec = read_frame_record(&out, off).expect("record present");
        assert_eq!(&rec.payload, p);
        assert_eq!(rec.timestamp, i as u64);
        off += 12 + rec.payload.len();
    }
    assert_eq!(off, out.len());
}

#[test]
fn header_independent_of_frames() {
    let mut one: Vec<u8> = Vec::new();
    write_ivf_header(&mut one, 640, 480, 25);
    write_ivf_frame(&mut one, &vec![1, 2, 3], 0);

    let mut two: Vec<u8> = Vec::new();
    write_ivf_header(&mut two, 640, 480, 25);
    write_ivf_frame(&mut two, &vec![4], 7);
    write_ivf_frame(&mut two, &vec![5, 6], 8);

    assert_eq!(&one[..32], &two[..32]);
}

#[test]
fn timestamps_may_arrive_out_of_order() {
    let mut out: Vec<u8> = Vec::new();
    write_ivf_header(&mut out, 320, 240, 30);
    let stamps: Vec<u64> = vec![2, 0, 1];
    for (i, ts) in stamps.iter().enumerate() {
        write_ivf_frame(&mut out, &vec![i as u8], *ts);
    }
    // all three records stand in write order, timestamps untouched
    let mut off = 32;
    for (i, ts) in stamps.iter().enumerate() {
        let rec = read_frame_record(&out, off).expect("record present");
        assert_eq!(rec.payload, vec![i as u8]);
        assert_eq!(rec.timestamp, *ts);
        off += 12 + rec.payload.len();
    }
    assert_eq!(off, out.len());
}

#[test]
fn reader_rejects_truncated_input() {
    // too short for even a record header
    let out: Vec<u8> = vec![0; 11];
    assert!(read_frame_record(&out, 0).is_none());

    // the length prefix announces more than the buffer holds
    let mut short: Vec<u8> = Vec::new();
    write_ivf_frame(&mut short, &vec![1, 2, 3, 4], 5);
    short.pop();
    assert!(read_frame_record(&short, 0).is_none());

    // an offset past the end finds nothing
    let mut whole: Vec<u8> = Vec::new();
    write_ivf_frame(&mut whole, &vec![1], 1);
    assert!(read_frame_record(&whole, whole.len()).is_none());
}
