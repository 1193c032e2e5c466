use jwe_compact::base64url::{decode_bytes, encode_bytes};
use jwe_compact::errors::Error;

#[test]
fn encodes_the_rfc_4648_vectors_without_padding() {
    assert_eq!(encode_bytes(b"").unwrap(), b"".to_vec());
    assert_eq!(encode_bytes(b"f").unwrap(), b"Zg".to_vec());
    assert_eq!(encode_bytes(b"fo").unwrap(), b"Zm8".to_vec());
    assert_eq!(encode_bytes(b"foo").unwrap(), b"Zm9v".to_vec());
    assert_eq!(encode_bytes(b"foob").unwrap(), b"Zm9vYg".to_vec());
    assert_eq!(encode_bytes(b"fooba").unwrap(), b"Zm9vYmE".to_vec());
    assert_eq!(encode_bytes(b"foobar").unwrap(), b"Zm9vYmFy".to_vec());
}

#[test]
fn encodes_with_the_url_safe_alphabet() {
    assert_eq!(encode_bytes(&[0xfb, 0xff]).unwrap(), b"-_8".to_vec());
    assert_eq!(encode_bytes(&[0xff, 0xff, 0xfe]).unwrap(), b"___-".to_vec());
    assert_eq!(encode_bytes(&[0x00, 0x10, 0x83]).unwrap(), b"ABCD".to_vec());
}

#[test]
fn encodes_every_six_bit_value_to_its_symbol() {
    let alphabet = b"ABCDEFGHIJKLMNOPQRSTUVWXYZabcdefghijklmnopqrstuvwxyz0123456789-_";
    for value in 0u8..64 {
        let text = encode_bytes(&[value << 2]).unwrap();
        assert_eq!(text.len(), 2);
        assert_eq!(text[0], alphabet[value as usize]);
        assert_eq!(text[1], b'A');
    }
}

#[test]
fn decodes_the_rfc_4648_vectors() {
    assert_eq!(decode_bytes(b"").unwrap(), b"".to_vec());
    assert_eq!(decode_bytes(b"Zg").unwrap(), b"f".to_vec());
    assert_eq!(decode_bytes(b"Zm8").unwrap(), b"fo".to_vec());
    assert_eq!(decode_bytes(b"Zm9v").unwrap(), b"foo".to_vec());
    assert_eq!(decode_bytes(b"Zm9vYmFy").unwrap(), b"foobar".to_vec());
    assert_eq!(decode_bytes(b"-_8").unwrap(), vec![0xfb, 0xff]);
}

#[test]
fn decoding_gives_back_what_was_encoded() {
    let mut data: Vec<u8> = Vec::new();
    for length in 0..70usize {
        let text = encode_bytes(&data).unwrap();
        assert_eq!(text.len(), (4 * length + 2) / 3);
        assert!(!text.contains(&b'.'));
        assert_eq!(decode_bytes(&text).unwrap(), data);
        data.push((length * 37 % 256) as u8);
    }
}

#[test]
fn refuses_padding() {
    assert_eq!(decode_bytes(b"Zg=="), Err(Error::DecodeBase64));
    assert_eq!(decode_bytes(b"Zm8="), Err(Error::DecodeBase64));
}

#[test]
fn refuses_characters_outside_the_alphabet() {
    assert_eq!(decode_bytes(b"Zm9v!"), Err(Error::DecodeBase64));
    assert_eq!(decode_bytes(b"Zm+v"), Err(Error::DecodeBase64));
    assert_eq!(decode_bytes(b"Zm/v"), Err(Error::DecodeBase64));
    assert_eq!(decode_bytes(b"Zm 9v"), Err(Error::DecodeBase64));
    assert_eq!(decode_bytes(b"a.b"), Err(Error::DecodeBase64));
}

#[test]
fn refuses_a_length_that_no_text_has() {
    assert_eq!(decode_bytes(b"Z"), Err(Error::DecodeBase64));
    assert_eq!(decode_bytes(b"Zm9vY"), Err(Error::DecodeBase64));
}

#[test]
fn refuses_spare_bits_that_are_not_zero() {
    assert_eq!(decode_bytes(b"Zh"), Err(Error::DecodeBase64));
    assert_eq!(decode_bytes(b"Zm9"), Err(Error::DecodeBase64));
}
