use agent::session::protocol::{
    frame_bytes, line_bytes, FrameReader, LineReader, FRAME_GPS, FRAME_VIDEO, MAX_CONTROL_BYTES,
    MAX_FRAME_BYTES,
};

/// Feed `stream` in pieces of at most `piece` bytes.
fn read_frames(stream: &[u8], piece: usize) -> Vec<(u8, Vec<u8>)> {
    let mut reader = FrameReader::new();
    let mut found = Vec::new();
    let mut at = 0;
    while at < stream.len() {
        let count = reader.wanted().min(piece).min(stream.len() - at);
        match reader.push(&stream[at..at + count]) {
            Ok(Some(frame)) => found.push((frame.kind, frame.payload)),
            Ok(None) => {}
            Err(error) => panic!("{}", error.message()),
        }
        at += count;
    }
    assert!(reader.received.is_empty());
    found
}

#[test]
fn frame_is_kind_length_payload() {
    assert_eq!(frame_bytes(FRAME_GPS, &[7, 8, 9]), vec![2, 0, 0, 0, 3, 7, 8, 9]);
    assert_eq!(frame_bytes(9, &[]), vec![9, 0, 0, 0, 0]);
}

#[test]
fn frames_read_back_however_they_are_cut() {
    let long: Vec<u8> = (0..1000u32).map(|i| i as u8).collect();
    let mut stream = frame_bytes(FRAME_VIDEO, &long);
    stream.extend(frame_bytes(FRAME_GPS, &[]));
    stream.extend(frame_bytes(77, &[1, 2]));
    let wanted = vec![(FRAME_VIDEO, long), (FRAME_GPS, vec![]), (77, vec![1, 2])];
    for piece in [1, 2, 3, 5, 7, 64, 4096] {
        assert_eq!(read_frames(&stream, piece), wanted);
    }
}

#[test]
fn frame_that_announces_too_much_is_refused() {
    let mut reader = FrameReader::new();
    let length = (MAX_FRAME_BYTES + 1) as u32;
    let mut header = vec![1];
    header.extend_from_slice(&length.to_be_bytes());
    let error = match reader.push(&header) {
        Err(error) => error,
        Ok(_) => panic!("accepted"),
    };
    assert_eq!(error.length, 8_388_609);
    assert_eq!(error.message(), "frame length 8388609 exceeds the 8388608 byte limit");

    let mut reader = FrameReader::new();
    let mut header = vec![1];
    header.extend_from_slice(&(MAX_FRAME_BYTES as u32).to_be_bytes());
    assert!(matches!(reader.push(&header), Ok(None)));
    assert_eq!(reader.wanted(), MAX_FRAME_BYTES);
}

fn read_lines(stream: &[u8]) -> Vec<String> {
    let mut reader = LineReader::new();
    let mut found = Vec::new();
    for byte in stream {
        match reader.push(*byte) {
            Ok(Some(line)) => found.push(line),
            Ok(None) => {}
            Err(_) => panic!("too long"),
        }
    }
    found
}

#[test]
fn control_lines_read_back() {
    let mut stream = line_bytes("{\"type\":\"START_SCREEN_STREAM\"}");
    stream.extend(line_bytes(""));
    stream.extend(line_bytes("Zoë 😀"));
    stream.extend_from_slice(b"a\r\nb\xff\n");
    assert_eq!(
        read_lines(&stream),
        vec!["{\"type\":\"START_SCREEN_STREAM\"}", "", "Zoë 😀", "a", "b\u{fffd}"]
    );
}

#[test]
fn control_line_has_a_limit() {
    let mut reader = LineReader::new();
    for _ in 0..MAX_CONTROL_BYTES {
        assert!(matches!(reader.push(b'x'), Ok(None)));
    }
    assert!(matches!(reader.push(b'\r'), Ok(None)));
    assert!(reader.push(b'x').is_err());
}
