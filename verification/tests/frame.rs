use uart_stack::error::{invalid, ErrorKind};
use uart_stack::frame::{crc32, decode, encode, MAX_PAYLOAD};

#[test]
fn crc_known_answer() {
    assert_eq!(crc32(b"123456789"), 0xcbf4_3926);
}

#[test]
fn all_payload_lengths_roundtrip() {
    for size in 0..=MAX_PAYLOAD {
        let payload: Vec<_> = (0..size).map(|i| i as u8).collect();
        let frame = encode(u32::MAX, &payload).unwrap();
        assert_eq!(decode(&frame).unwrap(), (u32::MAX, payload.as_slice()));
    }
    assert!(encode(0, &vec![0; MAX_PAYLOAD + 1]).is_err());
}

#[test]
fn truncation_corruption_and_trailing_bytes_are_rejected() {
    let frame = encode(42, b"uart\0\xff").unwrap();
    for end in 0..frame.len() {
        assert!(decode(&frame[..end]).is_err());
    }
    for offset in 0..frame.len() {
        let mut corrupt = frame.clone();
        corrupt[offset] ^= 1;
        assert!(decode(&corrupt).is_err());
    }
    let mut extra = frame;
    extra.push(0);
    assert!(decode(&extra).is_err());
}

#[test]
fn layout_of_an_empty_frame() {
    let frame = encode(0x0403_0201, b"").unwrap();
    assert_eq!(&frame[..10], b"RU48\x01\x02\x03\x04\x00\x00");
    assert_eq!(frame.len(), 14);
    assert_eq!(frame[10..], crc32(&frame[..10]).to_le_bytes());
}

#[test]
fn each_defect_has_its_message() {
    let frame = encode(7, b"abc").unwrap();
    let message = |bytes: &[u8]| {
        let error = decode(bytes).unwrap_err();
        assert_eq!(error.kind, ErrorKind::InvalidInput);
        error.message
    };
    assert_eq!(message(b"RU48"), "invalid frame header");
    let mut wrong = frame.clone();
    wrong[0] = b'X';
    assert_eq!(message(&wrong), "invalid frame header");
    let mut wrong = frame.clone();
    wrong[8] = 4;
    assert_eq!(message(&wrong), "invalid frame length");
    let mut wrong = frame.clone();
    wrong[11] ^= 0x80;
    assert_eq!(message(&wrong), "CRC mismatch");
    let error = encode(0, &vec![0; MAX_PAYLOAD + 1]).unwrap_err();
    assert_eq!(error.message, "payload exceeds 1024 bytes");
    assert_eq!(error.kind, ErrorKind::InvalidInput);
    assert_eq!(invalid("why").message, "why");
}

#[test]
fn any_corrupted_byte_is_rejected_whatever_it_becomes() {
    let frame = encode(9, b"xyz").unwrap();
    for offset in 0..frame.len() {
        for byte in 0..=255u8 {
            let mut corrupt = frame.clone();
            corrupt[offset] = byte;
            assert_eq!(decode(&corrupt).is_ok(), byte == frame[offset]);
        }
    }
}
