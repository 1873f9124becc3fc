use lock_bootstrap::codec::{base64_encode_bytes, base64url_decode_bytes};

#[test]
fn base64_empty() {
    assert_eq!(base64_encode_bytes(b""), Vec::<u8>::new());
}

#[test]
fn base64_known_vectors() {
    assert_eq!(base64_encode_bytes(b"f"), b"Zg==".to_vec());
    assert_eq!(base64_encode_bytes(b"fo"), b"Zm8=".to_vec());
    assert_eq!(base64_encode_bytes(b"foo"), b"Zm9v".to_vec());
    assert_eq!(base64_encode_bytes(b"foobar"), b"Zm9vYmFy".to_vec());
}

#[test]
fn base64_binary_input() {
    assert_eq!(base64_encode_bytes(&[0xff, 0xef, 0xbe]), b"/+++".to_vec());
    assert_eq!(base64_encode_bytes(&[0x00]), b"AA==".to_vec());
}

#[test]
fn base64url_decode_known_vectors() {
    assert_eq!(base64url_decode_bytes(b""), Some(Vec::new()));
    assert_eq!(base64url_decode_bytes(b"Zg"), Some(b"f".to_vec()));
    assert_eq!(base64url_decode_bytes(b"Zm8"), Some(b"fo".to_vec()));
    assert_eq!(base64url_decode_bytes(b"Zm9v"), Some(b"foo".to_vec()));
    assert_eq!(base64url_decode_bytes(b"Zm9vYmFy"), Some(b"foobar".to_vec()));
}

#[test]
fn base64url_decode_url_alphabet() {
    // '-' and '_' carry the values 62 and 63.
    assert_eq!(base64url_decode_bytes(b"--"), Some(vec![0xfb]));
    assert_eq!(base64url_decode_bytes(b"__"), Some(vec![0xff]));
}

#[test]
fn base64url_decode_rejects_bad_input() {
    assert_eq!(base64url_decode_bytes(b"Z!"), None);
    assert_eq!(base64url_decode_bytes(b"Zm9v+"), None);
    // a trailing group of one byte cannot encode anything
    assert_eq!(base64url_decode_bytes(b"Zm9vX"), None);
    // standard-alphabet padding is not part of the unpadded url form
    assert_eq!(base64url_decode_bytes(b"Zg=="), None);
}

#[test]
fn base64url_decode_inverts_encoding_of_ascii() {
    let encoded = base64_encode_bytes(b"he");
    // strip the padding to obtain the unpadded url form
    let unpadded: Vec<u8> = encoded.into_iter().take_while(|&b| b != b'=').collect();
    assert_eq!(base64url_decode_bytes(&unpadded), Some(b"he".to_vec()));
}
