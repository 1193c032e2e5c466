//! AES in Galois/Counter Mode, the cipher of both the key wrapping and the
//! content encryption, and the random source that keys and nonces come from.
//!
//! The cipher and the random source are the `ring` crate's. What is said of
//! them here is believed, not proved.

use crate::errors::Error;
use crate::jwa::{EncryptionResult, EncryptionResultView};
use crate::jwk::{Key, KeyView};
use vstd::prelude::*;
use vstd::slice::slice_to_vec;

verus! {

/// The cipher's own error, carried from the call to where it is mapped.
#[verifier::external_type_specification]
#[verifier::external_body]
pub struct ExUnspecified(ring::error::Unspecified);

/// The length of an AES GCM nonce: 96 bits.
pub const NONCE_LEN: usize = 12;

/// The length of an AES GCM authentication tag: 128 bits.
pub const TAG_LEN: usize = 16;

/// The most bytes that one AES GCM call encrypts: 2^32 - 2 blocks of 16.
pub const MAX_IN_OUT_LEN: u64 = 68719476704;

/// The most bytes of additional data whose length in bits fits 64 bits.
pub const MAX_AAD_LEN: u64 = 2305843009213693951;

/// The two AES GCM ciphers at hand.
#[derive(Clone, Copy, Debug, PartialEq, Eq, Structural)]
pub enum AesGcm {
    /// AES-128 in GCM mode.
    Aes128,
    /// AES-256 in GCM mode.
    Aes256,
}

impl AesGcm {
    /// The length of the cipher's key in bytes.
    pub open spec fn spec_key_len(self) -> nat {
        match self {
            AesGcm::Aes128 => 16,
            AesGcm::Aes256 => 32,
        }
    }

    /// The length of the cipher's key in bytes.
    pub fn key_len(self) -> (len: usize)
        ensures
            len == self.spec_key_len(),
    {
        match self {
            AesGcm::Aes128 => 16,
            AesGcm::Aes256 => 32,
        }
    }
}

/// The ciphertext and the tag that AES GCM gives for a plaintext: the result of
/// `ring::aead::LessSafeKey::seal_in_place_separate_tag`.
pub uninterp spec fn aes_gcm_sealed(
    cipher: AesGcm,
    key: Seq<u8>,
    nonce: Seq<u8>,
    aad: Seq<u8>,
    plaintext: Seq<u8>,
) -> (Seq<u8>, Seq<u8>);

/// The plaintext that AES GCM gives back for a ciphertext and its tag, if the
/// tag verifies: the result of `ring::aead::LessSafeKey::open_in_place`.
pub uninterp spec fn aes_gcm_opened(
    cipher: AesGcm,
    key: Seq<u8>,
    nonce: Seq<u8>,
    aad: Seq<u8>,
    ciphertext: Seq<u8>,
    tag: Seq<u8>,
) -> Option<Seq<u8>>;

/// The inputs that the cipher seals: a key and a nonce of the right lengths,
/// and no more data than the block counter and the length fields can count.
pub open spec fn seal_accepts(
    cipher: AesGcm,
    key: Seq<u8>,
    nonce: Seq<u8>,
    aad: Seq<u8>,
    plaintext: Seq<u8>,
) -> bool {
    &&& key.len() == cipher.spec_key_len()
    &&& nonce.len() == NONCE_LEN
    &&& aad.len() <= MAX_AAD_LEN
    &&& plaintext.len() <= MAX_IN_OUT_LEN
}

/// `ring::aead`: builds the key with `UnboundKey::new`, the nonce with
/// `Nonce::try_assume_unique_for_key`, and seals with
/// `LessSafeKey::seal_in_place_separate_tag`. Trusted: the call succeeds on
/// exactly the inputs of `seal_accepts`; the ciphertext is as long as the
/// plaintext and the tag has 16 bytes; and opening what was sealed, with the
/// same key, nonce and additional data, gives the plaintext back.
#[verifier::external_body]
fn seal(cipher: AesGcm, key: &[u8], nonce: &[u8], aad: &[u8], plaintext: &[u8]) -> (r: Result<
    (Vec<u8>, Vec<u8>),
    ring::error::Unspecified,
>)
    ensures
        r is Ok <==> seal_accepts(cipher, key@, nonce@, aad@, plaintext@),
        r matches Ok(sealed) ==> {
            &&& (sealed.0@, sealed.1@) == aes_gcm_sealed(cipher, key@, nonce@, aad@, plaintext@)
            &&& sealed.0@.len() == plaintext@.len()
            &&& sealed.1@.len() == TAG_LEN
            &&& aes_gcm_opened(cipher, key@, nonce@, aad@, sealed.0@, sealed.1@) == Some(
                plaintext@,
            )
        },
{
    let algorithm = match cipher {
        AesGcm::Aes128 => &ring::aead::AES_128_GCM,
        AesGcm::Aes256 => &ring::aead::AES_256_GCM,
    };
    let key = ring::aead::LessSafeKey::new(ring::aead::UnboundKey::new(algorithm, key)?);
    let nonce = ring::aead::Nonce::try_assume_unique_for_key(nonce)?;
    let mut in_out = plaintext.to_vec();
    let tag = key.seal_in_place_separate_tag(nonce, ring::aead::Aad::from(aad), &mut in_out)?;
    Ok((in_out, tag.as_ref().to_vec()))
}

/// `ring::aead`: builds the key and the nonce as `seal` does and opens the
/// ciphertext followed by the tag with `LessSafeKey::open_in_place`. Trusted:
/// the plaintext, where the call gives one, is as long as the ciphertext.
#[verifier::external_body]
fn open(
    cipher: AesGcm,
    key: &[u8],
    nonce: &[u8],
    aad: &[u8],
    ciphertext: &[u8],
    tag: &[u8],
) -> (r: Result<Vec<u8>, ring::error::Unspecified>)
    requires
        tag@.len() == TAG_LEN,
    ensures
        match r {
            Ok(plaintext) => {
                &&& aes_gcm_opened(cipher, key@, nonce@, aad@, ciphertext@, tag@) == Some(
                    plaintext@,
                )
                &&& plaintext@.len() == ciphertext@.len()
            },
            Err(_) => aes_gcm_opened(cipher, key@, nonce@, aad@, ciphertext@, tag@) is None,
        },
{
    let algorithm = match cipher {
        AesGcm::Aes128 => &ring::aead::AES_128_GCM,
        AesGcm::Aes256 => &ring::aead::AES_256_GCM,
    };
    let key = ring::aead::LessSafeKey::new(ring::aead::UnboundKey::new(algorithm, key)?);
    let nonce = ring::aead::Nonce::try_assume_unique_for_key(nonce)?;
    let mut in_out = [ciphertext, tag].concat();
    let plaintext = key.open_in_place(nonce, ring::aead::Aad::from(aad), &mut in_out)?;
    Ok(plaintext.to_vec())
}

/// `ring::rand::SystemRandom`, through `SecureRandom::fill`: `len` bytes from
/// the operating system. Trusted: only the length is known of them.
#[verifier::external_body]
pub(crate) fn random_bytes(len: usize) -> (r: Result<Vec<u8>, ring::error::Unspecified>)
    requires
        len <= 64,
    ensures
        r matches Ok(bytes) ==> bytes@.len() == len,
{
    let mut bytes = vec![0u8; len];
    ring::rand::SecureRandom::fill(&ring::rand::SystemRandom::new(), &mut bytes)?;
    Ok(bytes)
}

/// What `aes_gcm_encrypt` returns.
pub open spec fn spec_aes_gcm_encrypt(
    cipher: AesGcm,
    payload: Seq<u8>,
    nonce: Seq<u8>,
    aad: Seq<u8>,
    key: KeyView,
) -> Result<EncryptionResultView, Error> {
    match key.octet_key() {
        Err(e) => Err(e),
        Ok(octets) => if seal_accepts(cipher, octets, nonce, aad, payload) {
            let sealed = aes_gcm_sealed(cipher, octets, nonce, aad, payload);
            Ok(
                EncryptionResultView {
                    nonce,
                    encrypted: sealed.0,
                    tag: sealed.1,
                    additional_data: aad,
                },
            )
        } else {
            Err(Error::UnspecifiedCryptographicError)
        },
    }
}

/// What `aes_gcm_decrypt` returns.
pub open spec fn spec_aes_gcm_decrypt(
    cipher: AesGcm,
    encrypted: EncryptionResultView,
    key: KeyView,
) -> Result<Seq<u8>, Error> {
    match key.octet_key() {
        Err(e) => Err(e),
        Ok(octets) => if encrypted.nonce.len() != NONCE_LEN || encrypted.tag.len() != TAG_LEN {
            Err(Error::UnspecifiedCryptographicError)
        } else {
            match aes_gcm_opened(
                cipher,
                octets,
                encrypted.nonce,
                encrypted.additional_data,
                encrypted.encrypted,
                encrypted.tag,
            ) {
                Some(plaintext) => Ok(plaintext),
                None => Err(Error::UnspecifiedCryptographicError),
            }
        },
    }
}

/// Whether opening `sealed` with `key` gives `payload` back.
pub open spec fn opens_to(
    cipher: AesGcm,
    sealed: EncryptionResultView,
    key: KeyView,
    payload: Seq<u8>,
) -> bool {
    spec_aes_gcm_decrypt(cipher, sealed, key) == Ok::<Seq<u8>, Error>(payload)
}

/// Encrypts `payload` with AES GCM under a symmetric key. A key of another
/// kind is refused before the cipher is asked; what the cipher refuses is a
/// cryptographic error. What comes out opens to `payload` again.
pub fn aes_gcm_encrypt(
    cipher: AesGcm,
    payload: &[u8],
    nonce: &[u8],
    aad: &[u8],
    key: &Key,
) -> (r: Result<EncryptionResult, Error>)
    ensures
        match r {
            Ok(sealed) => {
                &&& spec_aes_gcm_encrypt(cipher, payload@, nonce@, aad@, key@) == Ok::<
                    EncryptionResultView,
                    Error,
                >(sealed@)
                &&& sealed@.encrypted.len() == payload@.len()
                &&& sealed@.nonce == nonce@
                &&& sealed@.nonce.len() == NONCE_LEN
                &&& sealed@.tag.len() == TAG_LEN
                &&& opens_to(cipher, sealed@, key@, payload@)
            },
            Err(e) => spec_aes_gcm_encrypt(cipher, payload@, nonce@, aad@, key@) == Err::<
                EncryptionResultView,
                Error,
            >(e),
        },
{
    let octets = key.octet_key()?;
    match seal(cipher, octets, nonce, aad, payload) {
        Ok(sealed) => Ok(
            EncryptionResult {
                nonce: slice_to_vec(nonce),
                encrypted: sealed.0,
                tag: sealed.1,
                additional_data: slice_to_vec(aad),
            },
        ),
        Err(_) => Err(Error::UnspecifiedCryptographicError),
    }
}

/// Decrypts what AES GCM encrypted. The nonce and the tag must have the
/// lengths that the cipher fixes; a tag that does not verify gives an error
/// and no plaintext.
pub fn aes_gcm_decrypt(cipher: AesGcm, encrypted: &EncryptionResult, key: &Key) -> (r: Result<
    Vec<u8>,
    Error,
>)
    ensures
        match r {
            Ok(plaintext) => {
                &&& spec_aes_gcm_decrypt(cipher, encrypted@, key@) == Ok::<Seq<u8>, Error>(
                    plaintext@,
                )
                &&& plaintext@.len() == encrypted@.encrypted.len()
            },
            Err(e) => spec_aes_gcm_decrypt(cipher, encrypted@, key@) == Err::<Seq<u8>, Error>(e),
        },
{
    let octets = key.octet_key()?;
    if encrypted.nonce.len() != NONCE_LEN || encrypted.tag.len() != TAG_LEN {
        return Err(Error::UnspecifiedCryptographicError);
    }
    match open(
        cipher,
        octets,
        encrypted.nonce.as_slice(),
        encrypted.additional_data.as_slice(),
        encrypted.encrypted.as_slice(),
        encrypted.tag.as_slice(),
    ) {
        Ok(plaintext) => Ok(plaintext),
        Err(_) => Err(Error::UnspecifiedCryptographicError),
    }
}

} // verus!
