use lumina::encoder::{
    downscale_nearest, video_frame_payload, VideoStreamReader, input_length_prefix, parse_video_header, rgba_to_rgb, video_packet_header,
    EncodedPacket, SystemEncoder, VideoPacketMeta,
};

#[test]
fn quality_is_clamped() {
    let mut e = SystemEncoder::new(1920, 1080, 30).unwrap();
    assert_eq!(e.quality(), 60);
    e.set_quality(5);
    assert_eq!(e.quality(), 5);
    e.set_quality(0);
    assert_eq!(e.quality(), 1);
    e.set_quality(200);
    assert_eq!(e.quality(), 100);
    e.set_quality(42);
    assert_eq!(e.quality(), 42);
}

#[test]
fn downscale_decision() {
    let e = SystemEncoder::new(1920, 1080, 30).unwrap();
    assert!(!e.needs_downscale(1920, 1080));
    assert!(e.needs_downscale(1921, 1080));
    assert!(e.needs_downscale(100, 2000));
}

#[test]
fn rgb_conversion_drops_alpha() {
    let px = vec![1, 2, 3, 4, 5, 6, 7, 8, 9];
    assert_eq!(rgba_to_rgb(&px), vec![1, 2, 3, 5, 6, 7]);
}

#[test]
fn nearest_neighbour_sampling() {
    // 2x2 source
    let data = vec![1, 1, 1, 1, 2, 2, 2, 2, 3, 3, 3, 3, 4, 4, 4, 4];
    let out = downscale_nearest(&data, 2, &vec![1], &vec![0, 1, 5]);
    assert_eq!(out, vec![2, 2, 2, 2, 4, 4, 4, 4, 0, 0, 0, 255]);
}

#[test]
fn encode_produces_jpeg_keyframes() {
    let mut e = SystemEncoder::new(16, 16, 30).unwrap();
    let px = vec![200u8; 8 * 4 * 4];
    let pkts = e.encode_pixels(&px, 8, 4, 1234).unwrap();
    assert_eq!(pkts.len(), 1);
    assert!(pkts[0].is_keyframe);
    assert_eq!(pkts[0].timestamp_us, 1234);
    // a JPEG file: SOI marker first, EOI marker last
    assert_eq!(&pkts[0].data[..2], &[0xFF, 0xD8]);
    assert_eq!(&pkts[0].data[pkts[0].data.len() - 2..], &[0xFF, 0xD9]);
}

#[test]
fn encode_rejects_empty_image() {
    let mut e = SystemEncoder::new(16, 16, 30).unwrap();
    let r = e.encode_pixels(&Vec::new(), 0, 0, 0);
    assert!(r.is_err());
    assert!(r.err().unwrap().starts_with("JPEG encode error: "));
}

#[test]
fn video_header_roundtrip() {
    let pkt = EncodedPacket { data: vec![0; 300], is_keyframe: true, timestamp_us: 0x0102030405060708 };
    let meta = video_packet_header(&pkt);
    assert_eq!(meta, [0, 0, 1, 44, 1, 1, 2, 3, 4, 5, 6, 7, 8]);
    assert_eq!(parse_video_header(&meta), VideoPacketMeta { size: 300, is_keyframe: true, timestamp_us: 0x0102030405060708 });
    let pkt = EncodedPacket { data: vec![], is_keyframe: false, timestamp_us: 9 };
    assert_eq!(parse_video_header(&video_packet_header(&pkt)), VideoPacketMeta { size: 0, is_keyframe: false, timestamp_us: 9 });
}

#[test]
fn input_prefix_is_big_endian() {
    assert_eq!(input_length_prefix(0x01020304), [1, 2, 3, 4]);
    assert_eq!(input_length_prefix(17), [0, 0, 0, 17]);
}

#[test]
fn video_frame_payload_is_base64_and_header_fields() {
    let pkt = EncodedPacket { data: b"hello".to_vec(), is_keyframe: true, timestamp_us: 0x0102030405060708 };
    let meta = video_packet_header(&pkt);
    let (data, is_keyframe, timestamp_us) = video_frame_payload(&meta, &pkt.data);
    assert_eq!(data, "aGVsbG8=");
    assert!(is_keyframe);
    assert_eq!(timestamp_us, 0x0102030405060708);
    let mut meta = meta;
    meta[4] = 2;
    let (data, is_keyframe, _) = video_frame_payload(&meta, &vec![0xff, 0x00, 0x10]);
    assert_eq!(data, "/wAQ");
    assert!(!is_keyframe);
    assert_eq!(video_frame_payload(&meta, &vec![]).0, "");
}

#[test]
fn every_packet_is_a_keyframe() {
    let mut e = SystemEncoder::new(4, 4, 30).unwrap();
    for _ in 0..3 {
        let pkts = e.encode_pixels(&vec![128u8; 4 * 4 * 4], 4, 4, 1).unwrap();
        assert!(pkts[0].is_keyframe);
    }
}

#[test]
fn video_stream_reader_hands_out_packets_in_order() {
    let a = EncodedPacket { data: b"hello".to_vec(), is_keyframe: true, timestamp_us: 1 };
    let b = EncodedPacket { data: vec![0xff, 0x00, 0x10], is_keyframe: false, timestamp_us: 2 };
    let c = EncodedPacket { data: vec![], is_keyframe: true, timestamp_us: 3 };
    let mut stream = Vec::new();
    for p in [&a, &b, &c] {
        stream.extend_from_slice(&video_packet_header(p));
        stream.extend_from_slice(&p.data);
    }
    let mut reader = VideoStreamReader::new();
    let mut got = Vec::new();
    for chunk in stream.chunks(7) {
        reader.push(chunk);
        while let Some(f) = reader.next_frame() {
            got.push(f);
        }
    }
    assert_eq!(
        got,
        vec![("aGVsbG8=".to_string(), true, 1), ("/wAQ".to_string(), false, 2), (String::new(), true, 3)]
    );
    assert_eq!(reader.pending_len(), 0);
    reader.push(&video_packet_header(&a)[..10]);
    assert_eq!(reader.next_frame(), None);
    assert_eq!(reader.pending_len(), 10);
}

#[test]
fn jpeg_errors_are_reported_with_prefix() {
    let mut e = SystemEncoder::new(4, 4, 30).unwrap();
    let err = e.encode_pixels(&vec![], 0, 0, 1).err().unwrap();
    assert!(err.starts_with("JPEG encode error: "));
    assert!(err.len() > "JPEG encode error: ".len());
}
