use jwe_compact::compact::CompactPart;
use jwe_compact::errors::Error;
use jwe_compact::json::Member;
use jwe_compact::jwa::{ContentEncryptionAlgorithm, EncryptionResult, KeyManagementAlgorithm};
use jwe_compact::jwe::header::{
    CekAlgorithmHeader, CompressionAlgorithm, Empty, Header, OpenFields, PrivateHeader,
    RegisteredHeader,
};
use jwe_compact::jwe::keys::recognized;

fn text(bytes: Vec<u8>) -> String {
    String::from_utf8(bytes).unwrap()
}

fn full_header() -> Header<Empty> {
    Header {
        registered: RegisteredHeader {
            cek_algorithm: KeyManagementAlgorithm::DirectSymmetricKey,
            enc_algorithm: ContentEncryptionAlgorithm::A128GCM,
            compression_algorithm: Some(CompressionAlgorithm::Other("LZ".to_string())),
            media_type: Some("JOSE".to_string()),
            content_type: Some("JWT".to_string()),
            web_key_url: Some("u".to_string()),
            web_key: Some("k".to_string()),
            key_id: Some("id".to_string()),
            x509_url: Some("x".to_string()),
            x509_chain: Some(vec!["a".to_string(), "b".to_string()]),
            x509_fingerprint: Some("t".to_string()),
            critical: Some(vec!["exp".to_string()]),
        },
        cek_algorithm: CekAlgorithmHeader { nonce: Some(vec![1, 2]), tag: Some(vec![3]) },
        private: Empty {},
    }
}

#[test]
fn the_default_header_names_direct_mode_and_aes_128_gcm() {
    let registered = RegisteredHeader::default();
    assert_eq!(registered.cek_algorithm, KeyManagementAlgorithm::DirectSymmetricKey);
    assert_eq!(registered.enc_algorithm, ContentEncryptionAlgorithm::A128GCM);
    assert_eq!(registered.compression_algorithm, None);
    assert_eq!(registered.media_type, None);
    assert_eq!(registered.x509_chain, None);
    assert_eq!(registered.critical, None);
    assert_eq!(CekAlgorithmHeader::default(), CekAlgorithmHeader { nonce: None, tag: None });
    assert_eq!(Empty::default(), Empty {});
}

#[test]
fn a_header_from_registered_fields_has_nothing_else_set() {
    let registered = RegisteredHeader {
        cek_algorithm: KeyManagementAlgorithm::A256GCMKW,
        enc_algorithm: ContentEncryptionAlgorithm::A256GCM,
        ..Default::default()
    };
    let header = Header::from_registered_header(registered.clone());
    assert_eq!(header.registered, registered);
    assert_eq!(header.cek_algorithm, CekAlgorithmHeader::default());
    assert_eq!(header.private, Empty {});
    assert_eq!(Header::from(registered.clone()), header);
    let converted: Header<Empty> = registered.into();
    assert_eq!(converted, header);
}

#[test]
fn a_header_is_written_as_one_flat_object() {
    let header = Header::from_registered_header(RegisteredHeader {
        cek_algorithm: KeyManagementAlgorithm::A256GCMKW,
        enc_algorithm: ContentEncryptionAlgorithm::A256GCM,
        ..Default::default()
    });
    assert_eq!(text(header.encode().unwrap()), r#"{"alg":"A256GCMKW","enc":"A256GCM"}"#);
    assert_eq!(header.to_bytes(), header.encode());
}

#[test]
fn every_field_is_written_under_its_key() {
    assert_eq!(
        text(full_header().encode().unwrap()),
        concat_all(&[
            r#"{"alg":"dir","crit":["exp"],"cty":"JWT","enc":"A128GCM","iv":[1,2],"#,
            r#""jku":"u","jwk":"k","kid":"id","tag":[3],"typ":"JOSE","x5c":["a","b"],"#,
            r#""x5t":"t","x5u":"x","zip":"LZ"}"#,
        ])
    );
}

fn concat_all(pieces: &[&str]) -> String {
    let mut all = String::new();
    for piece in pieces {
        all.push_str(piece);
    }
    all
}

#[test]
fn every_field_is_read_from_under_its_key() {
    let header = full_header();
    let bytes = header.encode().unwrap();
    assert_eq!(Header::<Empty>::decode(&bytes), Ok(header.clone()));
    assert_eq!(<Header<Empty> as CompactPart>::from_bytes(&bytes), Ok(header));
}

#[test]
fn deflate_goes_by_the_name_def() {
    assert_eq!(CompressionAlgorithm::Deflate.name(), "DEF");
    assert_eq!(CompressionAlgorithm::Other("LZ".to_string()).name(), "LZ");
    assert_eq!(CompressionAlgorithm::from_name("DEF".to_string()), CompressionAlgorithm::Deflate);
    assert_eq!(
        CompressionAlgorithm::from_name("def".to_string()),
        CompressionAlgorithm::Other("def".to_string())
    );
    assert_eq!(
        CompressionAlgorithm::from_name(String::new()),
        CompressionAlgorithm::Other(String::new())
    );
    assert_eq!(CompressionAlgorithm::Deflate.duplicate(), CompressionAlgorithm::Deflate);

    let mut header = Header::from_registered_header(RegisteredHeader::default());
    header.registered.compression_algorithm = Some(CompressionAlgorithm::Deflate);
    let bytes = header.encode().unwrap();
    assert_eq!(text(bytes.clone()), r#"{"alg":"dir","enc":"A128GCM","zip":"DEF"}"#);
    assert_eq!(Header::<Empty>::decode(&bytes), Ok(header));
}

#[test]
fn strings_are_escaped_and_read_back() {
    let mut header = Header::from_registered_header(RegisteredHeader::default());
    header.registered.key_id = Some("a\"b\\c\nd\u{e9}\u{1F600}".to_string());
    header.registered.critical = Some(vec!["".to_string(), "\t".to_string()]);
    let bytes = header.encode().unwrap();
    assert_eq!(
        text(bytes.clone()),
        "{\"alg\":\"dir\",\"crit\":[\"\",\"\\t\"],\"enc\":\"A128GCM\",\"kid\":\"a\\\"b\\\\c\\nd\u{e9}\u{1F600}\"}"
    );
    assert_eq!(Header::<Empty>::decode(&bytes), Ok(header));
}

#[test]
fn members_that_nothing_recognizes_are_passed_over() {
    let bytes = br#" { "enc" : "A256GCM", "extra" : {"nested": [1, 2.5, null]}, "alg":"A256GCMKW",
        "typ": null, "iv": [0, 255], "more": "text" } "#;
    let header = Header::<Empty>::decode(bytes).unwrap();
    assert_eq!(header.registered.cek_algorithm, KeyManagementAlgorithm::A256GCMKW);
    assert_eq!(header.registered.enc_algorithm, ContentEncryptionAlgorithm::A256GCM);
    assert_eq!(header.registered.media_type, None);
    assert_eq!(header.cek_algorithm.nonce, Some(vec![0, 255]));
    assert_eq!(header.cek_algorithm.tag, None);
}

#[test]
fn a_header_must_name_both_algorithms() {
    assert_eq!(Header::<Empty>::decode(br#"{"enc":"A256GCM"}"#), Err(Error::JsonError));
    assert_eq!(Header::<Empty>::decode(br#"{"alg":"dir"}"#), Err(Error::JsonError));
    assert_eq!(Header::<Empty>::decode(br#"{}"#), Err(Error::JsonError));
    assert_eq!(
        Header::<Empty>::decode(br#"{"alg":null,"enc":"A256GCM"}"#),
        Err(Error::JsonError)
    );
    assert_eq!(
        Header::<Empty>::decode(br#"{"alg":"none","enc":"A256GCM"}"#),
        Err(Error::JsonError)
    );
    assert_eq!(
        Header::<Empty>::decode(br#"{"alg":"dir","enc":"A256GCMKW"}"#),
        Err(Error::JsonError)
    );
}

#[test]
fn a_field_of_the_wrong_kind_is_refused() {
    for bytes in [
        &br#"{"alg":"dir","enc":"A128GCM","typ":5}"#[..],
        &br#"{"alg":"dir","enc":"A128GCM","zip":["DEF"]}"#[..],
        &br#"{"alg":"dir","enc":"A128GCM","x5c":"a"}"#[..],
        &br#"{"alg":"dir","enc":"A128GCM","crit":[1]}"#[..],
        &br#"{"alg":"dir","enc":"A128GCM","iv":[256]}"#[..],
        &br#"{"alg":"dir","enc":"A128GCM","iv":[-1]}"#[..],
        &br#"{"alg":"dir","enc":"A128GCM","iv":[1.0]}"#[..],
        &br#"{"alg":"dir","enc":"A128GCM","tag":"AAAA"}"#[..],
        &br#"{"alg":["dir"],"enc":"A128GCM"}"#[..],
    ] {
        assert_eq!(Header::<Empty>::decode(bytes), Err(Error::JsonError));
    }
}

#[test]
fn what_is_no_json_object_is_refused() {
    for bytes in [
        &b""[..],
        &b"[]"[..],
        &b"null"[..],
        &br#""alg""#[..],
        &br#"{"alg":"dir","enc":"A128GCM""#[..],
        &br#"{"alg":"dir","enc":"A128GCM"} x"#[..],
        &br#"{"alg":"dir","enc":"A128GCM",}"#[..],
        &[0xff, 0xfe][..],
    ] {
        assert_eq!(Header::<Empty>::decode(bytes), Err(Error::JsonError));
    }
}

#[test]
fn null_stands_for_a_field_that_is_not_set() {
    let bytes = br#"{"alg":"dir","enc":"A128GCM","zip":null,"kid":null,"x5c":null,"tag":null}"#;
    assert_eq!(
        Header::<Empty>::decode(bytes),
        Ok(Header::from_registered_header(RegisteredHeader::default()))
    );
}

#[test]
fn the_recognized_keys_are_the_fourteen_of_the_header() {
    for key in [
        "alg", "enc", "zip", "typ", "cty", "jku", "jwk", "kid", "x5u", "x5c", "x5t", "crit", "iv",
        "tag",
    ] {
        assert!(recognized(key));
    }
    for key in ["", "ALG", "alg ", "exp", "iss", "p2s", "epk", "x5t#S256", "i", "ta"] {
        assert!(!recognized(key));
    }
}

#[test]
fn the_wrapped_key_leaves_its_nonce_and_tag_in_the_header() {
    let mut header = Header::from_registered_header(RegisteredHeader::default());
    let wrapped = EncryptionResult {
        nonce: vec![1; 12],
        encrypted: vec![2; 16],
        tag: vec![3; 16],
        additional_data: vec![],
    };
    header.update_cek_algorithm(&wrapped);
    assert_eq!(header.cek_algorithm.nonce, Some(vec![1; 12]));
    assert_eq!(header.cek_algorithm.tag, Some(vec![3; 16]));
    assert_eq!(header.registered, RegisteredHeader::default());

    header.update_cek_algorithm(&EncryptionResult::default());
    assert_eq!(header.cek_algorithm.nonce, Some(vec![1; 12]));
    assert_eq!(header.cek_algorithm.tag, Some(vec![3; 16]));

    let only_tag = EncryptionResult { tag: vec![4], ..Default::default() };
    header.update_cek_algorithm(&only_tag);
    assert_eq!(header.cek_algorithm.nonce, Some(vec![1; 12]));
    assert_eq!(header.cek_algorithm.tag, Some(vec![4]));
}

#[test]
fn extracting_the_wrapped_key_strips_the_header() {
    let mut header = full_header();
    let result = header.extract_cek_encryption_result(&[9, 8, 7]);
    assert_eq!(
        result,
        EncryptionResult {
            nonce: vec![1, 2],
            encrypted: vec![9, 8, 7],
            tag: vec![3],
            additional_data: vec![],
        }
    );
    assert_eq!(header.cek_algorithm, CekAlgorithmHeader::default());
    assert_eq!(header.registered, full_header().registered);

    let again = header.extract_cek_encryption_result(&[]);
    assert_eq!(again, EncryptionResult::default());
    assert_eq!(header.cek_algorithm, CekAlgorithmHeader::default());
}

#[test]
fn copies_are_equal_to_what_they_copy() {
    let header = full_header();
    assert_eq!(header.duplicate(), header);
    assert_eq!(header.registered.duplicate(), header.registered);
    assert_eq!(header.cek_algorithm.duplicate(), header.cek_algorithm);
}

#[test]
fn the_empty_group_has_no_members_and_reads_from_any() {
    assert_eq!(Empty {}.to_members(), Vec::<Member>::new());
    let members = vec![Member { key: "exp".to_string(), value: "1".to_string() }];
    assert_eq!(<Empty as PrivateHeader>::from_members(&members), Some(Empty {}));
    assert_eq!(<Empty as PrivateHeader>::from_members(&Vec::new()), Some(Empty {}));
    assert_eq!(PrivateHeader::duplicate(&Empty {}), Empty {});
}

fn member(key: &str, value: &str) -> Member {
    Member { key: key.to_string(), value: value.to_string() }
}

#[test]
fn open_fields_keep_what_nothing_recognizes() {
    let bytes = br#" { "enc" : "A256GCM", "extra" : {"nested": [1, 2.5, null]}, "alg":"A256GCMKW",
        "typ": null, "iv": [0, 255], "more": "text" , "count":  7 } "#;
    let header = Header::<OpenFields>::decode(bytes).unwrap();
    assert_eq!(header.registered.cek_algorithm, KeyManagementAlgorithm::A256GCMKW);
    assert_eq!(header.cek_algorithm.nonce, Some(vec![0, 255]));
    assert_eq!(header.private.len(), 3);
    assert_eq!(header.private.get("extra"), Some(r#"{"nested": [1, 2.5, null]}"#.to_string()));
    assert_eq!(header.private.get("more"), Some(r#""text""#.to_string()));
    assert_eq!(header.private.get("count"), Some("7".to_string()));
    assert_eq!(header.private.get("alg"), None);
    assert_eq!(header.private.get("typ"), None);
    assert_eq!(header.private.get("iv"), None);
    assert_eq!(
        header.private.members(),
        vec![
            member("count", "7"),
            member("extra", r#"{"nested": [1, 2.5, null]}"#),
            member("more", r#""text""#),
        ]
    );
    assert_eq!(
        text(header.encode().unwrap()),
        concat_all(&[
            r#"{"alg":"A256GCMKW","count":7,"enc":"A256GCM","extra":{"nested": [1, 2.5, null]},"#,
            r#""iv":[0,255],"more":"text"}"#,
        ])
    );
    assert_eq!(Header::<OpenFields>::decode(&header.encode().unwrap()), Ok(header.clone()));
    assert_eq!(header.duplicate(), header);
}

#[test]
fn open_fields_are_made_of_distinct_keys_and_plain_json() {
    assert_eq!(OpenFields::new().len(), 0);
    assert_eq!(OpenFields::new().members(), Vec::<Member>::new());
    let fields =
        OpenFields::from_list(vec![member("b", "[1]"), member("a", "\"x\""), member("", "null")])
            .unwrap();
    assert_eq!(fields.len(), 3);
    assert_eq!(fields.get("a"), Some("\"x\"".to_string()));
    assert_eq!(fields.get("b"), Some("[1]".to_string()));
    assert_eq!(fields.get(""), Some("null".to_string()));
    assert_eq!(fields.get("c"), None);
    assert_eq!(fields.clone(), fields);
    assert_eq!(fields.to_members(), fields.members());
    assert_eq!(<OpenFields as PrivateHeader>::from_members(&fields.members()), Some(fields.clone()));
    assert_eq!(PrivateHeader::duplicate(&fields), fields);

    assert_eq!(OpenFields::from_list(vec![member("a", "1"), member("a", "2")]), None);
    assert_eq!(OpenFields::from_list(vec![member("a", "1"), member("b", "1"), member("a", "1")]), None);
    assert_eq!(OpenFields::from_list(vec![member("a", "")]), None);
    assert_eq!(OpenFields::from_list(vec![member("a", "x")]), None);
    assert_eq!(OpenFields::from_list(vec![member("a", "[1,")]), None);
    assert_eq!(OpenFields::from_list(vec![member("a", "1 2")]), None);
    assert_eq!(OpenFields::from_list(vec![member("a", " 1")]), None);
    assert_eq!(OpenFields::from_list(vec![member("a", "1\n")]), None);
}

#[test]
fn open_fields_stand_beside_the_other_groups() {
    let mut header = Header {
        registered: RegisteredHeader::default(),
        cek_algorithm: CekAlgorithmHeader { nonce: None, tag: Some(vec![1]) },
        private: OpenFields::from_list(vec![member("exp", "1700000000"), member("aud", "[\"a\"]")])
            .unwrap(),
    };
    let bytes = header.encode().unwrap();
    assert_eq!(
        text(bytes.clone()),
        r#"{"alg":"dir","aud":["a"],"enc":"A128GCM","exp":1700000000,"tag":[1]}"#
    );
    let read = Header::<OpenFields>::decode(&bytes).unwrap();
    assert_eq!(read.registered, header.registered);
    assert_eq!(read.cek_algorithm, header.cek_algorithm);
    assert_eq!(read.private.get("exp"), Some("1700000000".to_string()));
    assert_eq!(read.private.get("aud"), Some("[\"a\"]".to_string()));
    assert_eq!(read.private.len(), 2);
    assert_eq!(Header::<Empty>::decode(&bytes).unwrap().registered, header.registered);

    let stripped = header.extract_cek_encryption_result(&[]);
    assert_eq!(stripped.tag, vec![1]);
    assert_eq!(header.private.len(), 2);
}

#[test]
fn own_fields_under_a_recognized_key_are_refused() {
    for key in ["alg", "enc", "zip", "kid", "crit", "iv", "tag"] {
        let header = Header {
            registered: RegisteredHeader::default(),
            cek_algorithm: CekAlgorithmHeader::default(),
            private: OpenFields::from_list(vec![member("exp", "1"), member(key, "\"x\"")]).unwrap(),
        };
        assert_eq!(header.encode(), Err(Error::JsonError));
        assert_eq!(header.to_bytes(), Err(Error::JsonError));
    }
}
