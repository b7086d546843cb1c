//! Binary media frames.

use qsonaut_hostbridge::media::{
    dispatch_binary, package_frame, AudioCodec, AudioFrame, CaptureStream, MediaDirection,
    MediaError, MediaFrameHeader, MAX_MEDIA_FRAME_BYTES, MAX_MEDIA_PAYLOAD_BYTES,
};

fn header(direction: MediaDirection, payload_bytes: u32) -> MediaFrameHeader {
    MediaFrameHeader {
        version: 1,
        stream_id: 0x0403_0201,
        direction,
        codec: AudioCodec::PcmS16Le,
        sequence: 0x1817_1615_1413_1211,
        timestamp_samples: 0x2827_2625_2423_2221,
        sample_rate_hz: 48_000,
        channels: 2,
        payload_bytes,
    }
}

fn message(header: &MediaFrameHeader, pcm: &[u8]) -> Vec<u8> {
    let mut bytes = Vec::new();
    header.encode(&mut bytes);
    bytes.extend_from_slice(pcm);
    bytes
}

fn refusal(bytes: &[u8], output_selected: bool) -> MediaError {
    dispatch_binary(bytes, output_selected).err().unwrap()
}

#[test]
fn header_is_little_endian() {
    let bytes = message(&header(MediaDirection::ClientToHost, 0x3433_3231), &[]);
    assert_eq!(bytes.len(), MediaFrameHeader::BYTES);
    assert_eq!(
        bytes,
        vec![
            1, 0x01, 0x02, 0x03, 0x04, 1, 0, 0x11, 0x12, 0x13, 0x14, 0x15, 0x16, 0x17, 0x18, 0x21,
            0x22, 0x23, 0x24, 0x25, 0x26, 0x27, 0x28, 0x80, 0xBB, 0, 0, 2, 0x31, 0x32, 0x33, 0x34,
        ]
    );
}

#[test]
fn header_reads_back() {
    let written = header(MediaDirection::HostToClient, 5);
    let bytes = message(&written, &[9, 9, 9, 9, 9]);
    assert_eq!(MediaFrameHeader::decode(&bytes), Some(written));
    assert_eq!(MediaFrameHeader::decode(&bytes[..31]), None);
}

#[test]
fn client_frame_reaches_the_output() {
    let written = header(MediaDirection::ClientToHost, 4);
    let frame = dispatch_binary(&message(&written, &[1, 2, 3, 4]), true).unwrap();
    assert_eq!(frame.header, written);
    assert_eq!(frame.pcm_s16le, vec![1, 2, 3, 4]);
}

#[test]
fn faulty_frames_are_refused_in_order() {
    let good = header(MediaDirection::ClientToHost, 2);
    let bytes = message(&good, &[1, 2]);
    assert_eq!(refusal(&bytes[..31], true), MediaError::TooShort);
    let mut bad = bytes.clone();
    bad[5] = 7;
    assert_eq!(refusal(&bad, true), MediaError::InvalidHeader);
    let mut bad = bytes.clone();
    bad[6] = 7;
    assert_eq!(refusal(&bad, true), MediaError::InvalidHeader);
    let mut bad = bytes.clone();
    bad[0] = 2;
    bad[5] = 0;
    assert_eq!(refusal(&bad, true), MediaError::UnsupportedVersion(2));
    let mut bad = bytes.clone();
    bad[5] = 0;
    bad[28] = 9;
    assert_eq!(refusal(&bad, true), MediaError::WrongDirection);
    let mut bad = bytes.clone();
    bad[28] = 9;
    assert_eq!(refusal(&bad, true), MediaError::LengthMismatch);
    assert_eq!(refusal(&bytes, false), MediaError::NoOutput);
}

#[test]
fn media_refusals_have_words() {
    let words = |error: MediaError| error.message();
    assert_eq!(words(MediaError::TooShort), "media frame is shorter than its header");
    assert_eq!(words(MediaError::InvalidHeader), "invalid media frame header");
    assert_eq!(
        words(MediaError::UnsupportedVersion(200)),
        "unsupported media header version 200"
    );
    assert_eq!(
        words(MediaError::WrongDirection),
        "client media frame has the wrong direction"
    );
    assert_eq!(
        words(MediaError::LengthMismatch),
        "media payload length does not match its frame"
    );
    assert_eq!(words(MediaError::TooLong), "media frame exceeds the HostBridge limit");
    assert_eq!(words(MediaError::NoOutput), "select an audio output first");
}

#[test]
fn size_limit_is_sharp_in_both_directions() {
    assert_eq!(MAX_MEDIA_PAYLOAD_BYTES, 1_048_576);
    assert_eq!(MAX_MEDIA_FRAME_BYTES, 1_048_608);
    let full = vec![0_u8; MAX_MEDIA_PAYLOAD_BYTES];
    let over = vec![0_u8; MAX_MEDIA_PAYLOAD_BYTES + 1];
    let ok = message(&header(MediaDirection::ClientToHost, full.len() as u32), &full);
    assert_eq!(dispatch_binary(&ok, true).unwrap().pcm_s16le.len(), full.len());
    let long = message(&header(MediaDirection::ClientToHost, over.len() as u32), &over);
    assert_eq!(refusal(&long, true), MediaError::TooLong);
    let frame = |pcm: Vec<u8>| AudioFrame {
        header: header(MediaDirection::HostToClient, 0),
        pcm_s16le: pcm,
    };
    assert_eq!(package_frame(&frame(full)).unwrap().len(), MAX_MEDIA_FRAME_BYTES);
    assert!(package_frame(&frame(over)).is_none());
}

#[test]
fn packaging_corrects_the_header() {
    let mut wrong = header(MediaDirection::ClientToHost, 77);
    wrong.version = 9;
    let packaged = package_frame(&AudioFrame { header: wrong, pcm_s16le: vec![5, 6] }).unwrap();
    let sent = MediaFrameHeader::decode(&packaged).unwrap();
    assert_eq!(sent, header(MediaDirection::HostToClient, 2));
    assert_eq!(&packaged[32..], &[5, 6]);
    assert_eq!(refusal(&packaged, true), MediaError::WrongDirection);
}

#[test]
fn blocks_hold_twenty_milliseconds() {
    assert_eq!(CaptureStream::new(1, 1).block_bytes(), 1_920);
    assert_eq!(CaptureStream::new(1, 2).block_bytes(), 3_840);
}

#[test]
fn blocks_are_numbered_in_sequence() {
    let mut stream = CaptureStream::new(42, 1);
    let first = stream.next_frame(vec![0; 1_920]);
    let second = stream.next_frame(vec![1; 1_920]);
    assert_eq!(first.header.sequence, 0);
    assert_eq!(first.header.timestamp_samples, 0);
    assert_eq!(second.header.sequence, 1);
    assert_eq!(second.header.timestamp_samples, 960);
    assert_eq!(second.header.stream_id, 42);
    assert_eq!(second.header.sample_rate_hz, 48_000);
    assert_eq!(second.header.channels, 1);
    assert_eq!(second.header.payload_bytes, 1_920);
    assert_eq!(second.header.direction, MediaDirection::HostToClient);
    assert_eq!(second.pcm_s16le, vec![1; 1_920]);
}

#[test]
fn recorded_bytes_are_cut_into_whole_blocks() {
    let bytes: Vec<u8> = (0..5_000_u32).map(|i| (i % 251) as u8).collect();
    let mut whole = CaptureStream::new(7, 1);
    let mut recorded = bytes.clone();
    let frames = whole.take_frames(&mut recorded);
    assert_eq!(frames.len(), 2);
    assert_eq!(recorded, bytes[3_840..].to_vec());
    for (n, frame) in frames.iter().enumerate() {
        assert_eq!(frame.header.sequence, n as u64);
        assert_eq!(frame.header.timestamp_samples, 960 * n as u64);
        assert_eq!(frame.header.payload_bytes, 1_920);
        assert_eq!(frame.pcm_s16le, bytes[1_920 * n..1_920 * (n + 1)].to_vec());
    }
    let mut pieces = CaptureStream::new(7, 1);
    let mut pending = Vec::new();
    let mut found = Vec::new();
    for piece in bytes.chunks(700) {
        pending.extend_from_slice(piece);
        found.extend(pieces.take_frames(&mut pending));
    }
    assert_eq!(found, frames);
    assert_eq!(pending, recorded);
    assert_eq!(pieces.sequence, whole.sequence);
}

#[test]
fn capture_without_channels_has_no_blocks() {
    let mut stream = CaptureStream::new(7, 0);
    let mut recorded = vec![1, 2, 3];
    assert!(stream.take_frames(&mut recorded).is_empty());
    assert_eq!(recorded, vec![1, 2, 3]);
}

#[test]
fn numbering_wraps() {
    let mut stream = CaptureStream {
        stream_id: 1,
        channels: 1,
        sequence: u64::MAX,
        timestamp_samples: u64::MAX - 959,
    };
    assert_eq!(stream.next_frame(Vec::new()).header.sequence, u64::MAX);
    assert_eq!(stream.sequence, 0);
    assert_eq!(stream.timestamp_samples, 0);
}
