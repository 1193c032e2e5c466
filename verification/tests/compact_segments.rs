use jwe_compact::compact::{Compact, CompactPart};
use jwe_compact::errors::{Error, TokenError};

#[test]
fn a_new_container_has_no_segments() {
    assert_eq!(Compact::new().len(), 0);
    assert!(Compact::new().is_empty());
    assert_eq!(Compact::with_capacity(5).len(), 0);
    assert_eq!(Compact::with_capacity(5).encode(), Vec::<u8>::new());
}

#[test]
fn push_appends_the_text_of_the_bytes() {
    let mut compact = Compact::with_capacity(3);
    compact.push_bytes(b"foo").unwrap();
    compact.push(&b"fo".to_vec()).unwrap();
    compact.push_bytes(b"").unwrap();
    assert_eq!(compact.len(), 3);
    assert!(!compact.is_empty());
    assert_eq!(compact.parts, vec![b"Zm9v".to_vec(), b"Zm8".to_vec(), b"".to_vec()]);
    assert_eq!(compact.encode(), b"Zm9v.Zm8.".to_vec());
    assert_eq!(compact.to_text(), Some("Zm9v.Zm8.".to_string()));
}

#[test]
fn part_reads_a_segment_back() {
    let compact = Compact::decode("Zm9v.Zm8.Zg");
    assert_eq!(compact.part_bytes(0), Ok(b"foo".to_vec()));
    assert_eq!(compact.part::<Vec<u8>>(1), Ok(b"fo".to_vec()));
    assert_eq!(compact.part_bytes(2), Ok(b"f".to_vec()));
}

#[test]
fn part_past_the_end_is_an_invalid_token() {
    let compact = Compact::decode("Zm9v.Zm8");
    assert_eq!(compact.part_bytes(2), Err(Error::DecodeError(TokenError::InvalidToken)));
    assert_eq!(
        compact.part::<Vec<u8>>(usize::MAX),
        Err(Error::DecodeError(TokenError::InvalidToken))
    );
}

#[test]
fn part_of_malformed_text_fails() {
    let compact = Compact::decode("Zm9v.Zg==.%%");
    assert_eq!(compact.part_bytes(0), Ok(b"foo".to_vec()));
    assert_eq!(compact.part_bytes(1), Err(Error::DecodeBase64));
    assert_eq!(compact.part_bytes(2), Err(Error::DecodeBase64));
}

#[test]
fn decode_splits_on_every_dot() {
    assert_eq!(Compact::decode("a.b.c").parts, vec![b"a".to_vec(), b"b".to_vec(), b"c".to_vec()]);
    assert_eq!(Compact::decode("abc").parts, vec![b"abc".to_vec()]);
    assert_eq!(Compact::decode("").parts, vec![b"".to_vec()]);
    assert_eq!(Compact::decode(".").parts, vec![b"".to_vec(), b"".to_vec()]);
    assert_eq!(
        Compact::decode("a..b.").parts,
        vec![b"a".to_vec(), b"".to_vec(), b"b".to_vec(), b"".to_vec()]
    );
    assert_eq!(Compact::decode("a.b.c.d.e.f.g").len(), 7);
}

#[test]
fn decode_bytes_splits_as_decode_does() {
    assert_eq!(Compact::decode_bytes(b"a..b."), Compact::decode("a..b."));
    assert_eq!(Compact::decode_bytes(b""), Compact::decode(""));
}

#[test]
fn encode_joins_what_decode_split() {
    for wire in ["", ".", "a", "a.b", "a..b.", "....", "eyJh.bGci.OiJk.aXIi.LCJl"] {
        assert_eq!(Compact::decode(wire).encode(), wire.as_bytes().to_vec());
        assert_eq!(Compact::decode(wire).to_text(), Some(wire.to_string()));
    }
}

#[test]
fn decode_splits_what_encode_joined() {
    let compact = Compact { parts: vec![b"one".to_vec(), b"".to_vec(), b"three".to_vec()] };
    assert_eq!(Compact::decode_bytes(&compact.encode()), compact);
}

#[test]
fn text_that_is_not_unicode_has_no_string() {
    let compact = Compact { parts: vec![vec![0xff, 0xfe], b"a".to_vec()] };
    assert_eq!(compact.encode(), vec![0xff, 0xfe, b'.', b'a']);
    assert_eq!(compact.to_text(), None);
}

#[test]
fn bytes_stand_for_themselves() {
    let value = vec![1u8, 2, 3];
    assert_eq!(value.to_bytes(), Ok(vec![1u8, 2, 3]));
    assert_eq!(<Vec<u8> as CompactPart>::from_bytes(&[4, 5]), Ok(vec![4u8, 5]));
}

#[test]
fn segments_stand_for_their_wire_text() {
    let inner = Compact::decode("aGVhZGVy.cGF5bG9hZA.c2lnbmF0dXJl");
    assert_eq!(inner.to_bytes(), Ok(b"aGVhZGVy.cGF5bG9hZA.c2lnbmF0dXJl".to_vec()));
    assert_eq!(<Compact as CompactPart>::from_bytes(&inner.to_bytes().unwrap()), Ok(inner.clone()));
    let mut outer = Compact::new();
    outer.push(&inner).unwrap();
    assert_eq!(outer.part::<Compact>(0), Ok(inner));
}
