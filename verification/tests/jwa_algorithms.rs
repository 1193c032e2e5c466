use jwe_compact::errors::{Error, KeyType, OptionsKind, TokenError};
use jwe_compact::jwa::aes_gcm::{aes_gcm_decrypt, aes_gcm_encrypt, AesGcm};
use jwe_compact::jwa::{
    ContentEncryptionAlgorithm, EncryptionOptions, EncryptionResult, KeyManagementAlgorithm,
};
use jwe_compact::jwk::Key;

fn hex(text: &str) -> Vec<u8> {
    let digits: Vec<u8> = text.bytes().map(|c| (c as char).to_digit(16).unwrap() as u8).collect();
    digits.chunks(2).map(|pair| pair[0] * 16 + pair[1]).collect()
}

fn zero_nonce() -> EncryptionOptions {
    EncryptionOptions::AES_GCM { nonce: vec![0; 12] }
}

#[test]
fn aes_128_gcm_gives_the_published_ciphertext() {
    let key = Key::new_octet_key(&[0; 16]);
    let sealed = aes_gcm_encrypt(AesGcm::Aes128, &[0; 16], &[0; 12], &[], &key).unwrap();
    assert_eq!(sealed.encrypted, hex("0388dace60b6a392f328c2b971b2fe78"));
    assert_eq!(sealed.tag, hex("ab6e47d42cec13bdf53a67b21257bddf"));
    assert_eq!(sealed.nonce, vec![0; 12]);
    assert_eq!(sealed.additional_data, Vec::<u8>::new());
    let empty = aes_gcm_encrypt(AesGcm::Aes128, &[], &[0; 12], &[], &key).unwrap();
    assert_eq!(empty.encrypted, Vec::<u8>::new());
    assert_eq!(empty.tag, hex("58e2fccefa7e3061367f1d57a4e7455a"));
}

#[test]
fn aes_256_gcm_gives_the_published_ciphertext() {
    let key = Key::new_octet_key(&[0; 32]);
    let sealed = aes_gcm_encrypt(AesGcm::Aes256, &[0; 16], &[0; 12], &[], &key).unwrap();
    assert_eq!(sealed.encrypted, hex("cea7403d4d606b6e074ec5d3baf39d18"));
    assert_eq!(sealed.tag, hex("d0d1c8a799996bf0265b98b5d48ab919"));
}

#[test]
fn aes_gcm_authenticates_the_additional_data() {
    let key = Key::new_octet_key(&[0; 16]);
    let sealed = aes_gcm_encrypt(AesGcm::Aes128, b"hello", &[0; 12], b"header", &key).unwrap();
    assert_eq!(sealed.encrypted, hex("6bedb6a20f"));
    assert_eq!(sealed.tag, hex("18d1f3ac6ea7edec03a4f4d63e9ab9e5"));
    assert_eq!(sealed.additional_data, b"header".to_vec());
    assert_eq!(aes_gcm_decrypt(AesGcm::Aes128, &sealed, &key), Ok(b"hello".to_vec()));

    let mut other_data = sealed.clone();
    other_data.additional_data = b"Header".to_vec();
    assert_eq!(
        aes_gcm_decrypt(AesGcm::Aes128, &other_data, &key),
        Err(Error::UnspecifiedCryptographicError)
    );

    let long_key = Key::new_octet_key(&[0; 32]);
    let sealed = aes_gcm_encrypt(AesGcm::Aes256, b"hello", &[0; 12], b"header", &long_key).unwrap();
    assert_eq!(sealed.encrypted, hex("a6c22c5122"));
    assert_eq!(sealed.tag, hex("c16f483a0c2d8447e7f2fce0de6a9c7c"));
}

#[test]
fn aes_gcm_refuses_what_does_not_verify() {
    let key = Key::new_octet_key(&[7; 16]);
    let sealed = aes_gcm_encrypt(AesGcm::Aes128, b"payload", &[1; 12], b"aad", &key).unwrap();
    assert_eq!(aes_gcm_decrypt(AesGcm::Aes128, &sealed, &key), Ok(b"payload".to_vec()));

    let mut flipped = sealed.clone();
    flipped.encrypted[0] ^= 1;
    assert_eq!(
        aes_gcm_decrypt(AesGcm::Aes128, &flipped, &key),
        Err(Error::UnspecifiedCryptographicError)
    );
    let mut flipped = sealed.clone();
    flipped.tag[15] ^= 0x80;
    assert_eq!(
        aes_gcm_decrypt(AesGcm::Aes128, &flipped, &key),
        Err(Error::UnspecifiedCryptographicError)
    );
    let other_key = Key::new_octet_key(&[8; 16]);
    assert_eq!(
        aes_gcm_decrypt(AesGcm::Aes128, &sealed, &other_key),
        Err(Error::UnspecifiedCryptographicError)
    );
}

#[test]
fn aes_gcm_checks_the_lengths_of_nonce_and_tag_before_it_decrypts() {
    let key = Key::new_octet_key(&[7; 16]);
    let sealed = aes_gcm_encrypt(AesGcm::Aes128, b"payload", &[1; 12], b"", &key).unwrap();
    let mut short_tag = sealed.clone();
    short_tag.tag.truncate(8);
    assert_eq!(
        aes_gcm_decrypt(AesGcm::Aes128, &short_tag, &key),
        Err(Error::UnspecifiedCryptographicError)
    );
    let mut moved_tag = sealed.clone();
    let last = moved_tag.encrypted.pop().unwrap();
    moved_tag.tag.insert(0, last);
    assert_eq!(
        aes_gcm_decrypt(AesGcm::Aes128, &moved_tag, &key),
        Err(Error::UnspecifiedCryptographicError)
    );
    let mut long_nonce = sealed.clone();
    long_nonce.nonce.push(1);
    assert_eq!(
        aes_gcm_decrypt(AesGcm::Aes128, &long_nonce, &key),
        Err(Error::UnspecifiedCryptographicError)
    );
}

#[test]
fn aes_gcm_refuses_keys_and_nonces_of_the_wrong_length() {
    let short = Key::new_octet_key(&[0; 16]);
    let long = Key::new_octet_key(&[0; 32]);
    assert_eq!(
        aes_gcm_encrypt(AesGcm::Aes256, b"x", &[0; 12], &[], &short),
        Err(Error::UnspecifiedCryptographicError)
    );
    assert_eq!(
        aes_gcm_encrypt(AesGcm::Aes128, b"x", &[0; 12], &[], &long),
        Err(Error::UnspecifiedCryptographicError)
    );
    assert_eq!(
        aes_gcm_encrypt(AesGcm::Aes128, b"x", &[0; 11], &[], &short),
        Err(Error::UnspecifiedCryptographicError)
    );
    assert_eq!(
        aes_gcm_encrypt(AesGcm::Aes128, b"x", &[0; 16], &[], &short),
        Err(Error::UnspecifiedCryptographicError)
    );
}

#[test]
fn aes_gcm_refuses_a_key_that_is_not_symmetric() {
    let key = Key::EllipticCurve(vec![1, 2, 3]);
    let wrong = Error::WrongKeyType { expected: KeyType::Octet, actual: KeyType::EllipticCurve };
    assert_eq!(aes_gcm_encrypt(AesGcm::Aes128, b"x", &[0; 12], &[], &key), Err(wrong));
    let sealed = EncryptionResult {
        nonce: vec![0; 12],
        encrypted: vec![1],
        tag: vec![0; 16],
        additional_data: vec![],
    };
    assert_eq!(aes_gcm_decrypt(AesGcm::Aes128, &sealed, &key), Err(wrong));
}

#[test]
fn keys_tell_their_kind() {
    let octet = Key::new_octet_key(&[1, 2]);
    assert_eq!(octet, Key::Octet(vec![1, 2]));
    assert_eq!(octet.key_type(), KeyType::Octet);
    assert_eq!(octet.octet_key(), Ok(&[1u8, 2][..]));
    assert_eq!(octet.duplicate(), octet);
    let curve = Key::EllipticCurve(vec![9]);
    assert_eq!(curve.key_type(), KeyType::EllipticCurve);
    assert_eq!(
        curve.octet_key(),
        Err(Error::WrongKeyType { expected: KeyType::Octet, actual: KeyType::EllipticCurve })
    );
    assert_eq!(curve.duplicate(), curve);
}

#[test]
fn the_ciphers_have_their_key_lengths() {
    assert_eq!(AesGcm::Aes128.key_len(), 16);
    assert_eq!(AesGcm::Aes256.key_len(), 32);
    assert_eq!(ContentEncryptionAlgorithm::A128GCM.cipher(), Ok(AesGcm::Aes128));
    assert_eq!(ContentEncryptionAlgorithm::A256GCM.cipher(), Ok(AesGcm::Aes256));
    assert_eq!(ContentEncryptionAlgorithm::A192GCM.cipher(), Err(Error::UnsupportedOperation));
    assert_eq!(
        ContentEncryptionAlgorithm::A128CBC_HS256.cipher(),
        Err(Error::UnsupportedOperation)
    );
    assert_eq!(KeyManagementAlgorithm::A128GCMKW.wrap_cipher(), Ok(AesGcm::Aes128));
    assert_eq!(KeyManagementAlgorithm::A256GCMKW.wrap_cipher(), Ok(AesGcm::Aes256));
    assert_eq!(KeyManagementAlgorithm::A192GCMKW.wrap_cipher(), Err(Error::UnsupportedOperation));
    assert_eq!(
        KeyManagementAlgorithm::DirectSymmetricKey.wrap_cipher(),
        Err(Error::UnsupportedOperation)
    );
    assert!(KeyManagementAlgorithm::DirectSymmetricKey.is_direct());
    assert!(!KeyManagementAlgorithm::A256GCMKW.is_direct());
}

#[test]
fn the_defaults_are_direct_mode_and_aes_128_gcm() {
    assert_eq!(KeyManagementAlgorithm::default(), KeyManagementAlgorithm::DirectSymmetricKey);
    assert_eq!(ContentEncryptionAlgorithm::default(), ContentEncryptionAlgorithm::A128GCM);
    assert_eq!(EncryptionOptions::default(), EncryptionOptions::NoOptions);
    assert_eq!(
        EncryptionResult::default(),
        EncryptionResult { nonce: vec![], encrypted: vec![], tag: vec![], additional_data: vec![] }
    );
}

#[test]
fn the_algorithms_have_their_registered_names() {
    let key_management = [
        (KeyManagementAlgorithm::RSA1_5, "RSA1_5"),
        (KeyManagementAlgorithm::RSA_OAEP, "RSA-OAEP"),
        (KeyManagementAlgorithm::RSA_OAEP_256, "RSA-OAEP-256"),
        (KeyManagementAlgorithm::A128KW, "A128KW"),
        (KeyManagementAlgorithm::A192KW, "A192KW"),
        (KeyManagementAlgorithm::A256KW, "A256KW"),
        (KeyManagementAlgorithm::DirectSymmetricKey, "dir"),
        (KeyManagementAlgorithm::ECDH_ES, "ECDH-ES"),
        (KeyManagementAlgorithm::ECDH_ES_A128KW, "ECDH-ES+A128KW"),
        (KeyManagementAlgorithm::ECDH_ES_A192KW, "ECDH-ES+A192KW"),
        (KeyManagementAlgorithm::ECDH_ES_A256KW, "ECDH-ES+A256KW"),
        (KeyManagementAlgorithm::A128GCMKW, "A128GCMKW"),
        (KeyManagementAlgorithm::A192GCMKW, "A192GCMKW"),
        (KeyManagementAlgorithm::A256GCMKW, "A256GCMKW"),
        (KeyManagementAlgorithm::PBES2_HS256_A128KW, "PBES2-HS256+A128KW"),
        (KeyManagementAlgorithm::PBES2_HS384_A192KW, "PBES2-HS384+A192KW"),
        (KeyManagementAlgorithm::PBES2_HS512_A256KW, "PBES2-HS512+A256KW"),
    ];
    for (algorithm, name) in key_management {
        assert_eq!(algorithm.name(), name);
        assert_eq!(KeyManagementAlgorithm::from_name(name), Some(algorithm));
    }
    let content = [
        (ContentEncryptionAlgorithm::A128CBC_HS256, "A128CBC-HS256"),
        (ContentEncryptionAlgorithm::A192CBC_HS384, "A192CBC-HS384"),
        (ContentEncryptionAlgorithm::A256CBC_HS512, "A256CBC-HS512"),
        (ContentEncryptionAlgorithm::A128GCM, "A128GCM"),
        (ContentEncryptionAlgorithm::A192GCM, "A192GCM"),
        (ContentEncryptionAlgorithm::A256GCM, "A256GCM"),
    ];
    for (algorithm, name) in content {
        assert_eq!(algorithm.name(), name);
        assert_eq!(ContentEncryptionAlgorithm::from_name(name), Some(algorithm));
    }
    assert_eq!(KeyManagementAlgorithm::from_name("DIR"), None);
    assert_eq!(KeyManagementAlgorithm::from_name("A256GCM"), None);
    assert_eq!(KeyManagementAlgorithm::from_name(""), None);
    assert_eq!(ContentEncryptionAlgorithm::from_name("A256GCMKW"), None);
    assert_eq!(ContentEncryptionAlgorithm::from_name("a256gcm"), None);
}

#[test]
fn generated_keys_have_the_length_of_the_cipher() {
    assert_eq!(ContentEncryptionAlgorithm::A128GCM.generate_key().unwrap().len(), 16);
    assert_eq!(ContentEncryptionAlgorithm::A256GCM.generate_key().unwrap().len(), 32);
    assert_eq!(
        ContentEncryptionAlgorithm::A128CBC_HS256.generate_key(),
        Err(Error::UnsupportedOperation)
    );
    assert_eq!(ContentEncryptionAlgorithm::A192GCM.generate_key(), Err(Error::UnsupportedOperation));
    let one = ContentEncryptionAlgorithm::A256GCM.generate_key().unwrap();
    let other = ContentEncryptionAlgorithm::A256GCM.generate_key().unwrap();
    assert_ne!(one, other);
}

#[test]
fn random_options_hold_a_nonce_of_96_bits() {
    match ContentEncryptionAlgorithm::A128GCM.random_encryption_options() {
        Ok(EncryptionOptions::AES_GCM { nonce }) => assert_eq!(nonce.len(), 12),
        other => panic!("{:?}", other),
    }
    match ContentEncryptionAlgorithm::A256GCM.random_encryption_options() {
        Ok(EncryptionOptions::AES_GCM { nonce }) => assert_eq!(nonce.len(), 12),
        other => panic!("{:?}", other),
    }
    assert_eq!(
        ContentEncryptionAlgorithm::A256CBC_HS512.random_encryption_options(),
        Ok(EncryptionOptions::NoOptions)
    );
}

#[test]
fn options_give_their_nonce() {
    assert_eq!(zero_nonce().aes_gcm_nonce(), Ok(&[0u8; 12][..]));
    assert_eq!(
        EncryptionOptions::NoOptions.aes_gcm_nonce(),
        Err(Error::WrongEncryptionOptions {
            expected: OptionsKind::AesGcm,
            actual: OptionsKind::NoOptions
        })
    );
}

#[test]
fn in_direct_mode_the_key_is_the_content_encryption_key() {
    let direct = KeyManagementAlgorithm::DirectSymmetricKey;
    let key = Key::new_octet_key(&[5; 16]);
    assert_eq!(direct.cek(ContentEncryptionAlgorithm::A128GCM, &key), Ok(key.clone()));
    assert_eq!(direct.cek(ContentEncryptionAlgorithm::A256CBC_HS512, &key), Ok(key.clone()));
    assert_eq!(direct.cek_from(&key, Ok(vec![1; 16])), Ok(key.clone()));
    assert_eq!(direct.cek_from(&key, Err(Error::UnspecifiedCryptographicError)), Ok(key.clone()));
    let curve = Key::EllipticCurve(vec![1]);
    assert_eq!(
        direct.cek(ContentEncryptionAlgorithm::A128GCM, &curve),
        Err(Error::WrongKeyType { expected: KeyType::Octet, actual: KeyType::EllipticCurve })
    );
}

#[test]
fn the_wrapping_algorithms_take_a_fresh_key() {
    let key = Key::new_octet_key(&[5; 32]);
    let wrapping = KeyManagementAlgorithm::A256GCMKW;
    match wrapping.cek(ContentEncryptionAlgorithm::A128GCM, &key) {
        Ok(Key::Octet(fresh)) => assert_eq!(fresh.len(), 16),
        other => panic!("{:?}", other),
    }
    match KeyManagementAlgorithm::A128GCMKW.cek(ContentEncryptionAlgorithm::A256GCM, &key) {
        Ok(Key::Octet(fresh)) => assert_eq!(fresh.len(), 32),
        other => panic!("{:?}", other),
    }
    assert_eq!(
        wrapping.cek(ContentEncryptionAlgorithm::A128CBC_HS256, &key),
        Err(Error::UnsupportedOperation)
    );
    assert_eq!(wrapping.cek_from(&key, Ok(vec![9; 16])), Ok(Key::Octet(vec![9; 16])));
    assert_eq!(
        wrapping.cek_from(&key, Err(Error::UnspecifiedCryptographicError)),
        Err(Error::UnspecifiedCryptographicError)
    );
    for unsupported in [
        KeyManagementAlgorithm::RSA1_5,
        KeyManagementAlgorithm::A128KW,
        KeyManagementAlgorithm::A192GCMKW,
        KeyManagementAlgorithm::ECDH_ES,
        KeyManagementAlgorithm::PBES2_HS256_A128KW,
    ] {
        assert_eq!(
            unsupported.cek(ContentEncryptionAlgorithm::A128GCM, &key),
            Err(Error::UnsupportedOperation)
        );
        assert_eq!(
            unsupported.cek_from(&key, Ok(vec![9; 16])),
            Err(Error::UnsupportedOperation)
        );
    }
}

#[test]
fn direct_mode_wraps_nothing() {
    let direct = KeyManagementAlgorithm::DirectSymmetricKey;
    let key = Key::new_octet_key(&[5; 16]);
    assert_eq!(
        direct.wrap_key(&[5; 16], &key, &EncryptionOptions::NoOptions),
        Ok(EncryptionResult::default())
    );
    assert_eq!(
        direct.wrap_key(&[5; 16], &key, &zero_nonce()),
        Err(Error::WrongEncryptionOptions {
            expected: OptionsKind::NoOptions,
            actual: OptionsKind::AesGcm
        })
    );
    assert_eq!(
        direct.unwrap_key(&EncryptionResult::default(), ContentEncryptionAlgorithm::A128GCM, &key),
        Ok(key.clone())
    );
    let curve = Key::EllipticCurve(vec![1]);
    assert_eq!(
        direct.unwrap_key(&EncryptionResult::default(), ContentEncryptionAlgorithm::A128GCM, &curve),
        Ok(curve)
    );
}

#[test]
fn a_wrapped_key_unwraps_to_itself() {
    let key = Key::new_octet_key(&[0; 32]);
    let cek: Vec<u8> = (1..=32).collect();
    let wrapping = KeyManagementAlgorithm::A256GCMKW;
    let wrapped = wrapping.wrap_key(&cek, &key, &zero_nonce()).unwrap();
    assert_eq!(
        wrapped.encrypted,
        hex("cfa5433948666c660e44cedfb7fd9208637210de22b03d6cc8b8ee9268182aae")
    );
    assert_eq!(wrapped.tag, hex("b1897f774c3b7a4dd31e5748db3ff897"));
    assert_eq!(wrapped.nonce, vec![0; 12]);
    assert_eq!(wrapped.additional_data, Vec::<u8>::new());
    assert_eq!(
        wrapping.unwrap_key(&wrapped, ContentEncryptionAlgorithm::A256GCM, &key),
        Ok(Key::Octet(cek))
    );
}

#[test]
fn a_wrapped_key_of_the_wrong_length_is_malformed() {
    let key = Key::new_octet_key(&[0; 32]);
    let wrapping = KeyManagementAlgorithm::A256GCMKW;
    let wrapped = wrapping.wrap_key(&[1; 32], &key, &zero_nonce()).unwrap();
    assert_eq!(
        wrapping.unwrap_key(&wrapped, ContentEncryptionAlgorithm::A128GCM, &key),
        Err(Error::DecodeError(TokenError::InvalidToken))
    );
    assert_eq!(
        wrapping.unwrap_key(&wrapped, ContentEncryptionAlgorithm::A256CBC_HS512, &key),
        Ok(Key::Octet(vec![1; 32]))
    );
}

#[test]
fn wrapping_asks_for_the_right_options_and_key() {
    let key = Key::new_octet_key(&[0; 16]);
    let wrapping = KeyManagementAlgorithm::A128GCMKW;
    assert_eq!(
        wrapping.wrap_key(&[1; 16], &key, &EncryptionOptions::NoOptions),
        Err(Error::WrongEncryptionOptions {
            expected: OptionsKind::AesGcm,
            actual: OptionsKind::NoOptions
        })
    );
    assert_eq!(
        wrapping.wrap_key(&[1; 16], &Key::EllipticCurve(vec![]), &zero_nonce()),
        Err(Error::WrongKeyType { expected: KeyType::Octet, actual: KeyType::EllipticCurve })
    );
    assert_eq!(
        KeyManagementAlgorithm::A256GCMKW.wrap_key(&[1; 16], &key, &zero_nonce()),
        Err(Error::UnspecifiedCryptographicError)
    );
    assert_eq!(
        KeyManagementAlgorithm::A192GCMKW.wrap_key(&[1; 16], &key, &zero_nonce()),
        Err(Error::UnsupportedOperation)
    );
    assert_eq!(
        KeyManagementAlgorithm::RSA_OAEP.wrap_key(&[1; 16], &key, &zero_nonce()),
        Err(Error::UnsupportedOperation)
    );
    assert_eq!(
        KeyManagementAlgorithm::A192GCMKW.unwrap_key(
            &EncryptionResult::default(),
            ContentEncryptionAlgorithm::A128GCM,
            &key
        ),
        Err(Error::UnsupportedOperation)
    );
    assert_eq!(
        KeyManagementAlgorithm::ECDH_ES_A128KW.unwrap_key(
            &EncryptionResult::default(),
            ContentEncryptionAlgorithm::A128GCM,
            &key
        ),
        Err(Error::UnsupportedOperation)
    );
}

#[test]
fn content_is_encrypted_and_decrypted_under_the_named_cipher() {
    let key = Key::new_octet_key(&[0; 16]);
    let content = ContentEncryptionAlgorithm::A128GCM;
    let sealed = content.encrypt(b"hello", b"header", &key, &zero_nonce()).unwrap();
    assert_eq!(sealed.encrypted, hex("6bedb6a20f"));
    assert_eq!(sealed.tag, hex("18d1f3ac6ea7edec03a4f4d63e9ab9e5"));
    assert_eq!(content.decrypt(&sealed, &key), Ok(b"hello".to_vec()));
    assert_eq!(
        ContentEncryptionAlgorithm::A256GCM.decrypt(&sealed, &key),
        Err(Error::UnspecifiedCryptographicError)
    );
}

#[test]
fn content_encryption_names_what_it_lacks() {
    let key = Key::new_octet_key(&[0; 16]);
    assert_eq!(
        ContentEncryptionAlgorithm::A128CBC_HS256.encrypt(b"x", b"", &key, &zero_nonce()),
        Err(Error::UnsupportedOperation)
    );
    assert_eq!(
        ContentEncryptionAlgorithm::A192GCM.encrypt(b"x", b"", &key, &zero_nonce()),
        Err(Error::UnsupportedOperation)
    );
    assert_eq!(
        ContentEncryptionAlgorithm::A128GCM.encrypt(b"x", b"", &key, &EncryptionOptions::NoOptions),
        Err(Error::WrongEncryptionOptions {
            expected: OptionsKind::AesGcm,
            actual: OptionsKind::NoOptions
        })
    );
    assert_eq!(
        ContentEncryptionAlgorithm::A128GCM.encrypt(
            b"x",
            b"",
            &Key::EllipticCurve(vec![]),
            &zero_nonce()
        ),
        Err(Error::WrongKeyType { expected: KeyType::Octet, actual: KeyType::EllipticCurve })
    );
    assert_eq!(
        ContentEncryptionAlgorithm::A256GCM.encrypt(b"x", b"", &key, &zero_nonce()),
        Err(Error::UnspecifiedCryptographicError)
    );
    assert_eq!(
        ContentEncryptionAlgorithm::A192CBC_HS384.decrypt(&EncryptionResult::default(), &key),
        Err(Error::UnsupportedOperation)
    );
}
