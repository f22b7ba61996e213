use stelliberty_service::protocol::{check_frame_len, decode_frame, encode_frame, header_len, FrameError, MAX_FRAME_LEN};

#[test]
fn frame_has_little_endian_length_prefix() {
    let f = encode_frame(&[7u8, 8, 9]).unwrap();
    assert_eq!(f, vec![3, 0, 0, 0, 7, 8, 9]);
    let big = vec![0u8; 0x0102];
    let f = encode_frame(&big).unwrap();
    assert_eq!(&f[..4], &[0x02, 0x01, 0, 0]);
    assert_eq!(f.len(), 0x0106);
}

#[test]
fn frame_round_trip() {
    let payload = b"{\"type\":\"GetStatus\"}".to_vec();
    let f = encode_frame(&payload).unwrap();
    let (p, used) = decode_frame(&f).unwrap();
    assert_eq!(p, payload);
    assert_eq!(used, f.len());
}

#[test]
fn oversized_declaration_is_refused_from_the_header() {
    let declared = (MAX_FRAME_LEN + 1) as u32;
    let header = declared.to_le_bytes();
    assert_eq!(header_len(header[0], header[1], header[2], header[3]), declared);
    assert_eq!(decode_frame(&header), Err(FrameError::TooLarge { len: declared as u64 }));
    assert_eq!(check_frame_len(declared), Err(FrameError::TooLarge { len: declared as u64 }));
    assert_eq!(check_frame_len(MAX_FRAME_LEN as u32), Ok(MAX_FRAME_LEN));
}

#[test]
fn short_buffers_are_incomplete() {
    assert_eq!(decode_frame(&[1, 0]), Err(FrameError::Incomplete));
    assert_eq!(decode_frame(&[2, 0, 0, 0, 5]), Err(FrameError::Incomplete));
    assert_eq!(decode_frame(&[0, 0, 0, 0]).unwrap(), (vec![], 4));
}

#[test]
fn oversized_payload_is_not_framed() {
    let big = vec![0u8; MAX_FRAME_LEN + 1];
    assert_eq!(encode_frame(&big), Err(FrameError::TooLarge { len: MAX_FRAME_LEN as u64 + 1 }));
}
