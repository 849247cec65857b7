use libvirt_node::base64::{decode, encode};

#[test]
fn encode_empty() {
    assert_eq!(encode(b""), b"".to_vec());
}

#[test]
fn encode_standard_vectors() {
    assert_eq!(encode(b"f"), b"Zg==".to_vec());
    assert_eq!(encode(b"fo"), b"Zm8=".to_vec());
    assert_eq!(encode(b"foo"), b"Zm9v".to_vec());
    assert_eq!(encode(b"foob"), b"Zm9vYg==".to_vec());
    assert_eq!(encode(b"fooba"), b"Zm9vYmE=".to_vec());
    assert_eq!(encode(b"foobar"), b"Zm9vYmFy".to_vec());
}

#[test]
fn encode_binary_bytes() {
    assert_eq!(encode(&[0u8, 255u8, 128u8]), b"AP+A".to_vec());
    assert_eq!(encode(&[251u8, 239u8]), b"++8=".to_vec());
}

#[test]
fn decode_standard_vectors() {
    assert_eq!(decode(b"Zg==").unwrap(), b"f".to_vec());
    assert_eq!(decode(b"Zm8=").unwrap(), b"fo".to_vec());
    assert_eq!(decode(b"Zm9v").unwrap(), b"foo".to_vec());
    assert_eq!(decode(b"Zm9vYg==").unwrap(), b"foob".to_vec());
    assert_eq!(decode(b"Zm9vYmE=").unwrap(), b"fooba".to_vec());
    assert_eq!(decode(b"Zm9vYmFy").unwrap(), b"foobar".to_vec());
}

#[test]
fn decode_empty() {
    assert_eq!(decode(b"").unwrap(), Vec::<u8>::new());
    assert_eq!(decode(b"====").unwrap(), Vec::<u8>::new());
}

#[test]
fn decode_without_padding() {
    assert_eq!(decode(b"Zg").unwrap(), b"f".to_vec());
    assert_eq!(decode(b"Zm8").unwrap(), b"fo".to_vec());
}

#[test]
fn decode_rejects_bad_byte() {
    let err = decode(b"Zm9!").unwrap_err();
    assert_eq!(err.byte, b'!');
    assert_eq!(err.at, 3);
}

#[test]
fn decode_rejects_inner_padding() {
    // padding in the middle is not trimmed and is no alphabet byte
    let err = decode(b"Zg==Zg==").unwrap_err();
    assert_eq!(err.byte, b'=');
    assert_eq!(err.at, 2);
}

#[test]
fn round_trip_all_single_bytes() {
    for b in 0u8..=255u8 {
        let bytes = vec![b];
        assert_eq!(decode(&encode(&bytes)).unwrap(), bytes);
    }
}

#[test]
fn round_trip_longer_payload() {
    let bytes: Vec<u8> = (0u8..=255u8).collect();
    assert_eq!(decode(&encode(&bytes)).unwrap(), bytes);
}
