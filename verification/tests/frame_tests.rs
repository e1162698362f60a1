use rusty_dreams::frame::{decode_frame, encode_frame, frame_len, header_bytes};

#[test]
fn frame_header_is_big_endian_length() {
    assert_eq!(frame_len([0, 0, 1, 2]), 258);
    assert_eq!(frame_len([1, 0, 0, 0]), 16777216);
    assert_eq!(header_bytes(258), [0, 0, 1, 2]);
    assert_eq!(header_bytes(u32::MAX), u32::MAX.to_be_bytes());
}

#[test]
fn frame_roundtrip() {
    let payload = vec![5u8, 6, 7];
    let framed = encode_frame(&payload);
    assert_eq!(framed, vec![0, 0, 0, 3, 5, 6, 7]);
    assert_eq!(decode_frame(&framed), Some(payload.clone()));
    let mut longer = framed.clone();
    longer.extend_from_slice(&[1, 2]);
    assert_eq!(decode_frame(&longer), Some(payload));
    assert_eq!(decode_frame(&vec![0, 0, 0, 4, 1]), None);
    assert_eq!(decode_frame(&vec![0, 0]), None);
    assert_eq!(decode_frame(&encode_frame(&vec![])), Some(vec![]));
}
