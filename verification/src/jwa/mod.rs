//! The algorithms: how a content-encryption key is chosen, wrapped and
//! unwrapped, and how content is encrypted and decrypted under it.
//!
//! This module decides which cipher a name stands for, which options and
//! keys it takes, and which error each mismatch gives; the cipher itself is
//! in `aes_gcm`.

use crate::errors::{Error, OptionsKind, TokenError};
use crate::jwa::aes_gcm::{
    aes_gcm_decrypt, aes_gcm_encrypt, random_bytes, spec_aes_gcm_decrypt, spec_aes_gcm_encrypt,
    AesGcm, NONCE_LEN, TAG_LEN,
};
use crate::jwk::{Key, KeyView};
use vstd::prelude::*;

pub mod aes_gcm;
pub mod names;

verus! {

/// What an encryption needs besides key and data.
#[allow(non_camel_case_types)]
#[derive(Debug, Clone, PartialEq, Eq)]
pub enum EncryptionOptions {
    /// Nothing: the algorithm takes no options.
    NoOptions,
    /// The nonce of an AES GCM encryption, which must be 96 bits long and must
    /// not be used twice with one key.
    AES_GCM { nonce: Vec<u8> },
}

/// What an `EncryptionOptions` holds.
#[allow(non_camel_case_types)]
pub enum EncryptionOptionsView {
    NoOptions,
    AES_GCM { nonce: Seq<u8> },
}

impl EncryptionOptionsView {
    /// The kind of the options.
    pub open spec fn kind(self) -> OptionsKind {
        match self {
            EncryptionOptionsView::NoOptions => OptionsKind::NoOptions,
            EncryptionOptionsView::AES_GCM { .. } => OptionsKind::AesGcm,
        }
    }

    /// The nonce of AES GCM options; other options are of the wrong kind.
    pub open spec fn aes_gcm_nonce(self) -> Result<Seq<u8>, Error> {
        match self {
            EncryptionOptionsView::AES_GCM { nonce } => Ok(nonce),
            EncryptionOptionsView::NoOptions => Err(
                Error::WrongEncryptionOptions {
                    expected: OptionsKind::AesGcm,
                    actual: OptionsKind::NoOptions,
                },
            ),
        }
    }
}

impl View for EncryptionOptions {
    type V = EncryptionOptionsView;

    open spec fn view(&self) -> EncryptionOptionsView {
        match self {
            EncryptionOptions::NoOptions => EncryptionOptionsView::NoOptions,
            EncryptionOptions::AES_GCM { nonce } => EncryptionOptionsView::AES_GCM {
                nonce: nonce@,
            },
        }
    }
}

impl Default for EncryptionOptions {
    fn default() -> (options: EncryptionOptions)
        ensures
            options@ == EncryptionOptionsView::NoOptions,
    {
        EncryptionOptions::NoOptions
    }
}

impl EncryptionOptions {
    /// The nonce of AES GCM options.
    pub fn aes_gcm_nonce(&self) -> (r: Result<&[u8], Error>)
        ensures
            match r {
                Ok(nonce) => self@.aes_gcm_nonce() == Ok::<Seq<u8>, Error>(nonce@),
                Err(e) => self@.aes_gcm_nonce() == Err::<Seq<u8>, Error>(e),
            },
    {
        match self {
            EncryptionOptions::AES_GCM { nonce } => Ok(nonce.as_slice()),
            EncryptionOptions::NoOptions => Err(
                Error::WrongEncryptionOptions {
                    expected: OptionsKind::AesGcm,
                    actual: OptionsKind::NoOptions,
                },
            ),
        }
    }
}

/// What an encryption gives: it is handed from the algorithms to the engine
/// and back, and kept nowhere.
#[derive(Debug, Clone, PartialEq, Eq)]
pub struct EncryptionResult {
    /// The nonce that was used.
    pub nonce: Vec<u8>,
    /// The ciphertext.
    pub encrypted: Vec<u8>,
    /// The authentication tag.
    pub tag: Vec<u8>,
    /// The data that is authenticated but not encrypted.
    pub additional_data: Vec<u8>,
}

/// What an `EncryptionResult` holds.
pub struct EncryptionResultView {
    pub nonce: Seq<u8>,
    pub encrypted: Seq<u8>,
    pub tag: Seq<u8>,
    pub additional_data: Seq<u8>,
}

impl EncryptionResultView {
    /// The result that holds nothing.
    pub open spec fn empty() -> EncryptionResultView {
        EncryptionResultView {
            nonce: Seq::empty(),
            encrypted: Seq::empty(),
            tag: Seq::empty(),
            additional_data: Seq::empty(),
        }
    }
}

impl View for EncryptionResult {
    type V = EncryptionResultView;

    open spec fn view(&self) -> EncryptionResultView {
        EncryptionResultView {
            nonce: self.nonce@,
            encrypted: self.encrypted@,
            tag: self.tag@,
            additional_data: self.additional_data@,
        }
    }
}

impl Default for EncryptionResult {
    fn default() -> (result: EncryptionResult)
        ensures
            result@ == EncryptionResultView::empty(),
    {
        EncryptionResult {
            nonce: Vec::new(),
            encrypted: Vec::new(),
            tag: Vec::new(),
            additional_data: Vec::new(),
        }
    }
}

/// How the content-encryption key is come by.
#[allow(non_camel_case_types)]
#[derive(Clone, Copy, Debug, PartialEq, Eq, Structural)]
pub enum KeyManagementAlgorithm {
    /// RSAES-PKCS1-v1_5
    RSA1_5,
    /// RSAES OAEP using default parameters
    RSA_OAEP,
    /// RSAES OAEP using SHA-256 and MGF1 with SHA-256
    RSA_OAEP_256,
    /// AES Key Wrap using 128-bit key
    A128KW,
    /// AES Key Wrap using 192-bit key
    A192KW,
    /// AES Key Wrap using 256-bit key
    A256KW,
    /// Direct use of a shared symmetric key: the key is the content-encryption key
    DirectSymmetricKey,
    /// ECDH-ES using Concat KDF
    ECDH_ES,
    /// ECDH-ES using Concat KDF and "A128KW" wrapping
    ECDH_ES_A128KW,
    /// ECDH-ES using Concat KDF and "A192KW" wrapping
    ECDH_ES_A192KW,
    /// ECDH-ES using Concat KDF and "A256KW" wrapping
    ECDH_ES_A256KW,
    /// Key wrapping with AES GCM using 128-bit key
    A128GCMKW,
    /// Key wrapping with AES GCM using 192-bit key
    A192GCMKW,
    /// Key wrapping with AES GCM using 256-bit key
    A256GCMKW,
    /// PBES2 with HMAC SHA-256 and "A128KW" wrapping
    PBES2_HS256_A128KW,
    /// PBES2 with HMAC SHA-384 and "A192KW" wrapping
    PBES2_HS384_A192KW,
    /// PBES2 with HMAC SHA-512 and "A256KW" wrapping
    PBES2_HS512_A256KW,
}

/// How the content is encrypted.
#[allow(non_camel_case_types)]
#[derive(Clone, Copy, Debug, PartialEq, Eq, Structural)]
pub enum ContentEncryptionAlgorithm {
    /// AES_128_CBC_HMAC_SHA_256
    A128CBC_HS256,
    /// AES_192_CBC_HMAC_SHA_384
    A192CBC_HS384,
    /// AES_256_CBC_HMAC_SHA_512
    A256CBC_HS512,
    /// AES GCM using 128-bit key
    A128GCM,
    /// AES GCM using 192-bit key
    A192GCM,
    /// AES GCM using 256-bit key
    A256GCM,
}

impl Default for KeyManagementAlgorithm {
    fn default() -> (algorithm: KeyManagementAlgorithm)
        ensures
            algorithm == KeyManagementAlgorithm::DirectSymmetricKey,
    {
        KeyManagementAlgorithm::DirectSymmetricKey
    }
}

impl Default for ContentEncryptionAlgorithm {
    fn default() -> (algorithm: ContentEncryptionAlgorithm)
        ensures
            algorithm == ContentEncryptionAlgorithm::A128GCM,
    {
        ContentEncryptionAlgorithm::A128GCM
    }
}

impl ContentEncryptionAlgorithm {
    /// The cipher that the algorithm names, where the library has one for it.
    pub open spec fn spec_cipher(self) -> Result<AesGcm, Error> {
        match self {
            ContentEncryptionAlgorithm::A128GCM => Ok(AesGcm::Aes128),
            ContentEncryptionAlgorithm::A256GCM => Ok(AesGcm::Aes256),
            _ => Err(Error::UnsupportedOperation),
        }
    }

    /// The cipher that the algorithm names, where the library has one for it.
    pub fn cipher(self) -> (r: Result<AesGcm, Error>)
        ensures
            r == self.spec_cipher(),
    {
        match self {
            ContentEncryptionAlgorithm::A128GCM => Ok(AesGcm::Aes128),
            ContentEncryptionAlgorithm::A256GCM => Ok(AesGcm::Aes256),
            _ => Err(Error::UnsupportedOperation),
        }
    }

    /// The length in bytes of the key that the algorithm takes.
    pub open spec fn spec_key_len(self) -> Result<nat, Error> {
        match self.spec_cipher() {
            Ok(cipher) => Ok(cipher.spec_key_len()),
            Err(e) => Err(e),
        }
    }

    /// Whether a draw of randomness `r` is one that `generate_key` may return:
    /// a key of the cipher's length, a cryptographic error where the random
    /// source failed, or no support for the algorithm.
    pub open spec fn key_outcome(self, r: Result<Seq<u8>, Error>) -> bool {
        match self.spec_cipher() {
            Ok(cipher) => match r {
                Ok(key) => key.len() == cipher.spec_key_len(),
                Err(e) => e == Error::UnspecifiedCryptographicError,
            },
            Err(unsupported) => r == Err::<Seq<u8>, Error>(unsupported),
        }
    }

    /// A fresh random key of the length that the algorithm takes.
    pub fn generate_key(self) -> (r: Result<Vec<u8>, Error>)
        ensures
            match r {
                Ok(key) => self.key_outcome(Ok(key@)),
                Err(e) => self.key_outcome(Err(e)),
            },
    {
        let cipher = self.cipher()?;
        match random_bytes(cipher.key_len()) {
            Ok(key) => Ok(key),
            Err(_) => Err(Error::UnspecifiedCryptographicError),
        }
    }

    /// Whether `r` is one of the options that `random_encryption_options` may
    /// return: a nonce of 96 bits for the AES GCM algorithms, a cryptographic
    /// error where the random source failed, and no options for the others.
    pub open spec fn options_outcome(self, r: Result<EncryptionOptionsView, Error>) -> bool {
        match self.spec_cipher() {
            Ok(_) => match r {
                Ok(options) => options matches EncryptionOptionsView::AES_GCM { nonce }
                    && nonce.len() == NONCE_LEN,
                Err(e) => e == Error::UnspecifiedCryptographicError,
            },
            Err(_) => r == Ok::<EncryptionOptionsView, Error>(EncryptionOptionsView::NoOptions),
        }
    }

    /// Fresh random options for the algorithm, for when the caller's options
    /// go to the key wrapping.
    pub fn random_encryption_options(self) -> (r: Result<EncryptionOptions, Error>)
        ensures
            match r {
                Ok(options) => self.options_outcome(Ok(options@)),
                Err(e) => self.options_outcome(Err(e)),
            },
    {
        match self.cipher() {
            Ok(_) => match random_bytes(NONCE_LEN) {
                Ok(nonce) => Ok(EncryptionOptions::AES_GCM { nonce }),
                Err(_) => Err(Error::UnspecifiedCryptographicError),
            },
            Err(_) => Ok(EncryptionOptions::NoOptions),
        }
    }

    /// What `encrypt` returns.
    pub open spec fn spec_encrypt(
        self,
        payload: Seq<u8>,
        aad: Seq<u8>,
        key: KeyView,
        options: EncryptionOptionsView,
    ) -> Result<EncryptionResultView, Error> {
        match self.spec_cipher() {
            Err(e) => Err(e),
            Ok(cipher) => match options.aes_gcm_nonce() {
                Err(e) => Err(e),
                Ok(nonce) => spec_aes_gcm_encrypt(cipher, payload, nonce, aad, key),
            },
        }
    }

    /// Encrypts `payload` under `key` and authenticates `aad` with it. The
    /// algorithm must be one that the library has a cipher for, the options
    /// must hold the nonce, and the key must be symmetric, in this order.
    pub fn encrypt(
        self,
        payload: &[u8],
        aad: &[u8],
        key: &Key,
        options: &EncryptionOptions,
    ) -> (r: Result<EncryptionResult, Error>)
        ensures
            match r {
                Ok(sealed) => {
                    &&& self.spec_encrypt(payload@, aad@, key@, options@) == Ok::<
                        EncryptionResultView,
                        Error,
                    >(sealed@)
                    &&& sealed@.nonce.len() == NONCE_LEN
                    &&& sealed@.tag.len() == TAG_LEN
                    &&& sealed@.encrypted.len() == payload@.len()
                    &&& self.spec_decrypt(sealed@, key@) == Ok::<Seq<u8>, Error>(payload@)
                },
                Err(e) => self.spec_encrypt(payload@, aad@, key@, options@) == Err::<
                    EncryptionResultView,
                    Error,
                >(e),
            },
    {
        let cipher = self.cipher()?;
        let nonce = options.aes_gcm_nonce()?;
        aes_gcm_encrypt(cipher, payload, nonce, aad, key)
    }

    /// What `decrypt` returns.
    pub open spec fn spec_decrypt(self, encrypted: EncryptionResultView, key: KeyView) -> Result<
        Seq<u8>,
        Error,
    > {
        match self.spec_cipher() {
            Err(e) => Err(e),
            Ok(cipher) => spec_aes_gcm_decrypt(cipher, encrypted, key),
        }
    }

    /// Decrypts `encrypted` under `key`, with the additional data that
    /// `encrypted` carries.
    pub fn decrypt(self, encrypted: &EncryptionResult, key: &Key) -> (r: Result<Vec<u8>, Error>)
        ensures
            match r {
                Ok(plaintext) => self.spec_decrypt(encrypted@, key@) == Ok::<Seq<u8>, Error>(
                    plaintext@,
                ),
                Err(e) => self.spec_decrypt(encrypted@, key@) == Err::<Seq<u8>, Error>(e),
            },
    {
        let cipher = self.cipher()?;
        aes_gcm_decrypt(cipher, encrypted, key)
    }
}

impl KeyManagementAlgorithm {
    /// Whether the key is used as it is, with nothing wrapped.
    pub open spec fn spec_is_direct(self) -> bool {
        self == KeyManagementAlgorithm::DirectSymmetricKey
    }

    /// Whether the key is used as it is, with nothing wrapped.
    pub fn is_direct(self) -> (direct: bool)
        ensures
            direct == self.spec_is_direct(),
    {
        match self {
            KeyManagementAlgorithm::DirectSymmetricKey => true,
            _ => false,
        }
    }

    /// The cipher that wraps the key, for the algorithms that wrap with AES
    /// GCM and that the library has a cipher for.
    pub open spec fn spec_wrap_cipher(self) -> Result<AesGcm, Error> {
        match self {
            KeyManagementAlgorithm::A128GCMKW => Ok(AesGcm::Aes128),
            KeyManagementAlgorithm::A256GCMKW => Ok(AesGcm::Aes256),
            _ => Err(Error::UnsupportedOperation),
        }
    }

    /// The cipher that wraps the key.
    pub fn wrap_cipher(self) -> (r: Result<AesGcm, Error>)
        ensures
            r == self.spec_wrap_cipher(),
    {
        match self {
            KeyManagementAlgorithm::A128GCMKW => Ok(AesGcm::Aes128),
            KeyManagementAlgorithm::A256GCMKW => Ok(AesGcm::Aes256),
            _ => Err(Error::UnsupportedOperation),
        }
    }

    /// The content-encryption key, given the outcome `fresh` of generating one:
    /// in direct mode it is the key itself, which must be symmetric, and
    /// `fresh` is not looked at; the algorithms that wrap with AES GCM take
    /// `fresh`; the others are not supported.
    pub open spec fn spec_cek(self, key: KeyView, fresh: Result<Seq<u8>, Error>) -> Result<
        KeyView,
        Error,
    > {
        if self.spec_is_direct() {
            match key.octet_key() {
                Ok(_) => Ok(key),
                Err(e) => Err(e),
            }
        } else {
            match self.spec_wrap_cipher() {
                Err(e) => Err(e),
                Ok(_) => match fresh {
                    Ok(octets) => Ok(KeyView::Octet(octets)),
                    Err(e) => Err(e),
                },
            }
        }
    }

    /// The content-encryption key for `fresh`, which stands for a key that was
    /// generated for the content algorithm, or for the failure to do so.
    pub fn cek_from(self, key: &Key, fresh: Result<Vec<u8>, Error>) -> (r: Result<Key, Error>)
        ensures
            match r {
                Ok(cek) => self.spec_cek(
                    key@,
                    match fresh {
                        Ok(octets) => Ok(octets@),
                        Err(e) => Err(e),
                    },
                ) == Ok::<KeyView, Error>(cek@),
                Err(e) => self.spec_cek(
                    key@,
                    match fresh {
                        Ok(octets) => Ok(octets@),
                        Err(e) => Err(e),
                    },
                ) == Err::<KeyView, Error>(e),
            },
    {
        if self.is_direct() {
            match key.octet_key() {
                Ok(_) => Ok(key.duplicate()),
                Err(e) => Err(e),
            }
        } else {
            match self.wrap_cipher() {
                Err(e) => Err(e),
                Ok(_) => match fresh {
                    Ok(octets) => Ok(Key::Octet(octets)),
                    Err(e) => Err(e),
                },
            }
        }
    }

    /// The content-encryption key for the content algorithm `content`: the
    /// key itself in direct mode, a fresh random key of the length that
    /// `content` takes for the algorithms that wrap with AES GCM.
    pub fn cek(self, content: ContentEncryptionAlgorithm, key: &Key) -> (r: Result<Key, Error>)
        ensures
            exists|fresh: Result<Seq<u8>, Error>|
                #![trigger content.key_outcome(fresh)]
                content.key_outcome(fresh) && match r {
                    Ok(cek) => self.spec_cek(key@, fresh) == Ok::<KeyView, Error>(cek@),
                    Err(e) => self.spec_cek(key@, fresh) == Err::<KeyView, Error>(e),
                },
    {
        if self.is_direct() || self.wrap_cipher().is_err() {
            let r = self.cek_from(key, Err(Error::UnsupportedOperation));
            proof {
                let fresh: Result<Seq<u8>, Error> = match content.spec_cipher() {
                    Ok(_) => Err(Error::UnspecifiedCryptographicError),
                    Err(e) => Err(e),
                };
                assert(content.key_outcome(fresh));
                assert(self.spec_cek(key@, fresh) == self.spec_cek(
                    key@,
                    Err(Error::UnsupportedOperation),
                ));
            }
            r
        } else {
            let fresh = content.generate_key();
            let ghost outcome: Result<Seq<u8>, Error> = match &fresh {
                Ok(octets) => Ok(octets@),
                Err(e) => Err(*e),
            };
            let r = self.cek_from(key, fresh);
            proof {
                assert(content.key_outcome(outcome));
            }
            r
        }
    }

    /// What `wrap_key` returns.
    pub open spec fn spec_wrap_key(
        self,
        payload: Seq<u8>,
        key: KeyView,
        options: EncryptionOptionsView,
    ) -> Result<EncryptionResultView, Error> {
        match self {
            KeyManagementAlgorithm::A128GCMKW
            | KeyManagementAlgorithm::A192GCMKW
            | KeyManagementAlgorithm::A256GCMKW => match self.spec_wrap_cipher() {
                Err(e) => Err(e),
                Ok(cipher) => match options.aes_gcm_nonce() {
                    Err(e) => Err(e),
                    Ok(nonce) => spec_aes_gcm_encrypt(cipher, payload, nonce, Seq::empty(), key),
                },
            },
            KeyManagementAlgorithm::DirectSymmetricKey => match options {
                EncryptionOptionsView::NoOptions => Ok(EncryptionResultView::empty()),
                _ => Err(
                    Error::WrongEncryptionOptions {
                        expected: OptionsKind::NoOptions,
                        actual: options.kind(),
                    },
                ),
            },
            _ => Err(Error::UnsupportedOperation),
        }
    }

    /// Wraps the content-encryption key `payload` under `key`. In direct mode
    /// nothing is wrapped: the options must be none and the result holds
    /// nothing. The algorithms that wrap with AES GCM take the nonce from the
    /// options and authenticate no additional data.
    pub fn wrap_key(self, payload: &[u8], key: &Key, options: &EncryptionOptions) -> (r: Result<
        EncryptionResult,
        Error,
    >)
        ensures
            match r {
                Ok(wrapped) => {
                    &&& self.spec_wrap_key(payload@, key@, options@) == Ok::<
                        EncryptionResultView,
                        Error,
                    >(wrapped@)
                    &&& wrapped@.additional_data.len() == 0
                    &&& !self.spec_is_direct() ==> wrapped@.encrypted.len() == payload@.len()
                    &&& !self.spec_is_direct() ==> wrapped@.nonce.len() == NONCE_LEN
                    &&& !self.spec_is_direct() ==> wrapped@.tag.len() == TAG_LEN
                    &&& !self.spec_is_direct() ==> forall|content: ContentEncryptionAlgorithm|
                        content.spec_key_len() == Ok::<nat, Error>(payload@.len())
                            ==> #[trigger] self.spec_unwrap_key(wrapped@, content, key@) == Ok::<
                            KeyView,
                            Error,
                        >(KeyView::Octet(payload@))
                },
                Err(e) => self.spec_wrap_key(payload@, key@, options@) == Err::<
                    EncryptionResultView,
                    Error,
                >(e),
            },
    {
        match self {
            KeyManagementAlgorithm::A128GCMKW
            | KeyManagementAlgorithm::A192GCMKW
            | KeyManagementAlgorithm::A256GCMKW => {
                let cipher = self.wrap_cipher()?;
                let nonce = options.aes_gcm_nonce()?;
                let empty: Vec<u8> = Vec::new();
                aes_gcm_encrypt(cipher, payload, nonce, empty.as_slice(), key)
            },
            KeyManagementAlgorithm::DirectSymmetricKey => match options {
                EncryptionOptions::NoOptions => Ok(EncryptionResult::default()),
                EncryptionOptions::AES_GCM { .. } => Err(
                    Error::WrongEncryptionOptions {
                        expected: OptionsKind::NoOptions,
                        actual: OptionsKind::AesGcm,
                    },
                ),
            },
            _ => Err(Error::UnsupportedOperation),
        }
    }

    /// What `unwrap_key` returns.
    pub open spec fn spec_unwrap_key(
        self,
        encrypted: EncryptionResultView,
        content: ContentEncryptionAlgorithm,
        key: KeyView,
    ) -> Result<KeyView, Error> {
        match self {
            KeyManagementAlgorithm::A128GCMKW
            | KeyManagementAlgorithm::A192GCMKW
            | KeyManagementAlgorithm::A256GCMKW => match self.spec_wrap_cipher() {
                Err(e) => Err(e),
                Ok(cipher) => if content.spec_key_len() is Ok && content.spec_key_len()->Ok_0
                    != encrypted.encrypted.len() {
                    Err(Error::DecodeError(TokenError::InvalidToken))
                } else {
                    match spec_aes_gcm_decrypt(cipher, encrypted, key) {
                        Ok(octets) => Ok(KeyView::Octet(octets)),
                        Err(e) => Err(e),
                    }
                },
            },
            KeyManagementAlgorithm::DirectSymmetricKey => Ok(key),
            _ => Err(Error::UnsupportedOperation),
        }
    }

    /// Unwraps the content-encryption key for the content algorithm `content`.
    /// In direct mode it is `key` as it stands. A wrapped key whose length is
    /// not the one that `content` takes is malformed.
    pub fn unwrap_key(
        self,
        encrypted: &EncryptionResult,
        content: ContentEncryptionAlgorithm,
        key: &Key,
    ) -> (r: Result<Key, Error>)
        ensures
            match r {
                Ok(cek) => self.spec_unwrap_key(encrypted@, content, key@) == Ok::<KeyView, Error>(
                    cek@,
                ),
                Err(e) => self.spec_unwrap_key(encrypted@, content, key@) == Err::<KeyView, Error>(
                    e,
                ),
            },
    {
        match self {
            KeyManagementAlgorithm::A128GCMKW
            | KeyManagementAlgorithm::A192GCMKW
            | KeyManagementAlgorithm::A256GCMKW => {
                let cipher = self.wrap_cipher()?;
                match content.cipher() {
                    Ok(content_cipher) => {
                        if content_cipher.key_len() != encrypted.encrypted.len() {
                            return Err(Error::DecodeError(TokenError::InvalidToken));
                        }
                    },
                    Err(_) => {},
                }
                let octets = aes_gcm_decrypt(cipher, encrypted, key)?;
                Ok(Key::Octet(octets))
            },
            KeyManagementAlgorithm::DirectSymmetricKey => Ok(key.duplicate()),
            _ => Err(Error::UnsupportedOperation),
        }
    }
}

} // verus!
