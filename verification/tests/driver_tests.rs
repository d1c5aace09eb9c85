use ivf_writer::driver::{Driver, PacketEvent, Phase, SubmitStatus};
use ivf_writer::encoder::{encode_to_ivf, EncodeError};
use ivf_writer::reader::read_frame_record;

#[test]
fn end_to_end_scenario() {
    // width 320, height 240, frame rate 30, three frames submitted
    let mut drv = Driver::new(320, 240, 30, 3);
    assert_eq!(drv.phase, Phase::Submitting);
    for _ in 0..3 {
        drv.on_submit_status(SubmitStatus::Accepted);
    }
    assert_eq!(drv.phase, Phase::Draining);
    assert_eq!(drv.submitted, 3);

    drv.on_packet_event(PacketEvent::Packet { data: vec![b'A', b'A'], display_index: 0 });
    drv.on_packet_event(PacketEvent::Packet { data: vec![b'B', b'B', b'B'], display_index: 1 });
    drv.on_packet_event(PacketEvent::Packet { data: vec![b'C'], display_index: 2 });
    drv.on_packet_event(PacketEvent::StreamExhausted);
    assert_eq!(drv.phase, Phase::Done);

    let out = drv.into_bytes();
    // 32-byte header, then records of 14, 15 and 13 bytes
    assert_eq!(out.len(), 32 + 14 + 15 + 13);
    assert_eq!(out.len(), 74);
    assert_eq!(&out[0..4], b"DKIF");
    assert_eq!(&out[8..12], b"AV01");
    assert_eq!(&out[12..14], &[0x40, 0x01]); // width 320
    assert_eq!(&out[14..16], &[0xf0, 0x00]); // height 240
    assert_eq!(&out[16..20], &[0x1e, 0x00, 0x00, 0x00]); // rate 30

    let first = read_frame_record(&out, 32).expect("first record");
    assert_eq!(first.payload, b"AA".to_vec());
    assert_eq!(first.timestamp, 0);
    let second = read_frame_record(&out, 32 + 14).expect("second record");
    assert_eq!(second.payload, b"BBB".to_vec());
    assert_eq!(second.timestamp, 1);
    let third = read_frame_record(&out, 32 + 14 + 15).expect("third record");
    assert_eq!(third.payload, b"C".to_vec());
    assert_eq!(third.timestamp, 2);
}

#[test]
fn backpressure_is_not_an_error() {
    // ten frames intended, the queue fills on the fifth call
    let mut drv = Driver::new(320, 240, 30, 10);
    for _ in 0..4 {
        drv.on_submit_status(SubmitStatus::Accepted);
        assert_eq!(drv.phase, Phase::Submitting);
    }
    drv.on_submit_status(SubmitStatus::QueueFull);
    // exactly four submissions preceded; the drain begins at once
    assert_eq!(drv.submitted, 4);
    assert_eq!(drv.phase, Phase::Draining);

    drv.on_packet_event(PacketEvent::Packet { data: vec![1, 2], display_index: 0 });
    drv.on_packet_event(PacketEvent::StreamExhausted);
    assert_eq!(drv.phase, Phase::Done);
    let out = drv.into_bytes();
    assert_eq!(out.len(), 32 + 12 + 2);
}

#[test]
fn submission_fatal_fails_the_run() {
    let mut drv = Driver::new(320, 240, 30, 5);
    drv.on_submit_status(SubmitStatus::Accepted);
    drv.on_submit_status(SubmitStatus::Fatal);
    assert_eq!(drv.phase, Phase::Failed);
    assert_eq!(drv.submitted, 1);
}

#[test]
fn drain_fatal_fails_the_run() {
    let mut drv = Driver::new(320, 240, 30, 0);
    assert_eq!(drv.phase, Phase::Draining);
    drv.on_packet_event(PacketEvent::Fatal);
    assert_eq!(drv.phase, Phase::Failed);
}

#[test]
fn try_again_changes_nothing() {
    let mut drv = Driver::new(320, 240, 30, 0);
    let before = drv.buf.clone();
    drv.on_packet_event(PacketEvent::TryAgain);
    assert_eq!(drv.phase, Phase::Draining);
    assert_eq!(drv.buf, before);
}

#[test]
fn need_more_input_ends_the_drain() {
    let mut drv = Driver::new(320, 240, 30, 0);
    drv.on_packet_event(PacketEvent::NeedMoreInput);
    assert_eq!(drv.phase, Phase::Done);
    assert_eq!(drv.into_bytes().len(), 32);
}

#[test]
fn zero_target_skips_submission() {
    let drv = Driver::new(64, 48, 30, 0);
    assert_eq!(drv.phase, Phase::Draining);
    assert_eq!(drv.submitted, 0);
}

#[test]
fn encode_rejects_zero_dimensions() {
    assert_eq!(encode_to_ivf(0, 48, 30, 1, 10, 255), Err(EncodeError::Config));
    assert_eq!(encode_to_ivf(64, 0, 30, 1, 10, 255), Err(EncodeError::Config));
}

#[test]
fn encode_small_video_with_real_encoder() {
    let out = encode_to_ivf(64, 48, 30, 1, 10, 255).expect("encoding succeeds");
    assert!(out.len() > 32);
    assert_eq!(&out[0..4], b"DKIF");
    assert_eq!(&out[8..12], b"AV01");
    assert_eq!(&out[12..14], &[64, 0]);
    assert_eq!(&out[14..16], &[48, 0]);
    // every record is well formed and together they fill the file exactly
    let mut off = 32;
    let mut n = 0;
    while off < out.len() {
        let rec = read_frame_record(&out, off).expect("well-formed record");
        off += 12 + rec.payload.len();
        n += 1;
    }
    assert_eq!(off, out.len());
    assert!(n >= 1);
}
