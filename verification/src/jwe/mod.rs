//! JSON Web Encryption: the header model and the engine that turns a header
//! and a payload into a five-segment token and back.

pub mod fields;
pub mod header;
pub mod keys;
pub mod laws;
pub mod model;

use crate::base64url;
use crate::compact::CompactPart;
use crate::errors::{Error, TokenError, ValidationError};
use crate::jwa::aes_gcm::NONCE_LEN;
use crate::jwa::{ContentEncryptionAlgorithm, EncryptionOptions, EncryptionResult, KeyManagementAlgorithm};
use crate::jwe::header::{private_reads_back, Header, HeaderView, PrivateHeader};
use crate::jwe::model::{
    as_encrypted, can_encrypt, decrypt_outcome, encrypt_fails_only_for_its_means,
    encrypt_outcome, encrypted_soundly, fresh_fits, header_too_long, lemma_decrypts_back,
    spec_encrypt, PARTS,
};
use crate::jwk::Key;
use vstd::prelude::*;
use vstd::slice::slice_to_vec;

verus! {

/// A token, in one of two states that no value mixes: decrypted, with its
/// header and payload at hand, or encrypted, as the segments that go over the
/// wire. Encrypting and decrypting never change a value in place: they make
/// a new one.
///
/// AES GCM must never see one nonce twice under one key. The engine takes
/// the nonce that the caller gives and does not keep count: a caller may
/// treat the nonce as a counter of 96 bits and add one after each use.
#[derive(Debug, Clone, PartialEq, Eq)]
pub enum Compact<T, H> {
    /// The token in the clear. It has no wire form.
    Decrypted {
        /// The header.
        header: Header<H>,
        /// The payload, as a rule a signed token.
        payload: T,
    },
    /// The token as it goes over the wire.
    Encrypted(crate::compact::Compact),
}

/// What a `Compact` holds.
pub enum CompactView<P, V> {
    Decrypted { header: HeaderView<V>, payload: P },
    Encrypted(Seq<Seq<u8>>),
}

impl<T: View, H: View> View for Compact<T, H> {
    type V = CompactView<T::V, H::V>;

    open spec fn view(&self) -> CompactView<T::V, H::V> {
        match self {
            Compact::Decrypted { header, payload } => CompactView::Decrypted {
                header: header@,
                payload: payload@,
            },
            Compact::Encrypted(compact) => CompactView::Encrypted(compact@),
        }
    }
}

/// What a result holds.
pub open spec fn result_view<T: View, H: View>(r: Result<Compact<T, H>, Error>) -> Result<
    CompactView<T::V, H::V>,
    Error,
> {
    match r {
        Ok(token) => Ok(token@),
        Err(e) => Err(e),
    }
}

impl<T: CompactPart, H: PrivateHeader> Compact<T, H> {
    /// A decrypted token of a header and a payload.
    pub fn new_decrypted(header: Header<H>, payload: T) -> (token: Self)
        ensures
            token == (Compact::Decrypted { header, payload }),
    {
        Compact::Decrypted { header, payload }
    }

    /// An encrypted token from its wire text. Nothing is checked of the text
    /// before the token is decrypted.
    pub fn new_encrypted(token: &str) -> (encrypted: Self)
        ensures
            encrypted@ == CompactView::<T::V, H::V>::Encrypted(
                crate::compact::split(vstd::string::StringSliceAdditionalSpecFns::spec_bytes(token)),
            ),
    {
        Compact::Encrypted(crate::compact::Compact::decode(token))
    }

    /// Encrypts a decrypted token with the key and the nonce that the random
    /// source gave: `fresh_key` is the content-encryption key and
    /// `fresh_nonce` the nonce of the content encryption, unless the mode is
    /// direct, where the key itself encrypts the content under the caller's
    /// options and neither is looked at. An encrypted token is refused.
    ///
    /// What comes out has five segments and decrypts, under the same key and
    /// with the header's algorithms expected, to the payload and to the header
    /// without its key-management fields. Where `can_encrypt` holds and
    /// `fresh_key` and `fresh_nonce` have the lengths that the content
    /// algorithm takes, a token does come out, unless the text of the header
    /// is longer than a segment holds.
    pub fn encrypt_with(
        &self,
        key: &Key,
        options: &EncryptionOptions,
        fresh_key: &[u8],
        fresh_nonce: &[u8],
    ) -> (r: Result<Self, Error>)
        ensures
            result_view(r) == match self@ {
                CompactView::Encrypted(_) => Err(Error::UnsupportedOperation),
                CompactView::Decrypted { header, payload } => as_encrypted::<T::V, H::V>(
                    spec_encrypt::<T, H>(
                        header,
                        payload,
                        key@,
                        options@,
                        fresh_key@,
                        fresh_nonce@,
                    ),
                ),
            },
            encrypted_soundly::<T, H>(self@, key@, result_view(r)),
            (self@ matches CompactView::Decrypted { header, payload } && can_encrypt::<T, H>(
                header,
                payload,
                key@,
                options@,
            ) && fresh_fits(header.registered.enc_algorithm, fresh_key@, fresh_nonce@)
                && !header_too_long::<T, H>(header, key@, options@, fresh_key@)) ==> r is Ok,
    {
        match self {
            Compact::Encrypted(_) => Err(Error::UnsupportedOperation),
            Compact::Decrypted { header, payload } => {
                let algorithm = header.registered.cek_algorithm;
                let content = header.registered.enc_algorithm;
                let generated: Result<Vec<u8>, Error> = match content.cipher() {
                    Ok(_) => Ok(slice_to_vec(fresh_key)),
                    Err(e) => Err(e),
                };
                let cek = algorithm.cek_from(key, generated)?;
                let no_options = EncryptionOptions::NoOptions;
                let fresh_options = match content.cipher() {
                    Ok(_) => EncryptionOptions::AES_GCM { nonce: slice_to_vec(fresh_nonce) },
                    Err(_) => EncryptionOptions::NoOptions,
                };
                let direct = algorithm.is_direct();
                let key_option = if direct {
                    &no_options
                } else {
                    options
                };
                let content_option = if direct {
                    options
                } else {
                    &fresh_options
                };
                let octets = cek.octet_key()?;
                let wrapped = algorithm.wrap_key(octets, key, key_option)?;
                let mut updated = header.duplicate();
                updated.update_cek_algorithm(&wrapped);
                if updated.registered.compression_algorithm.is_some() {
                    return Err(Error::UnsupportedOperation);
                }
                let payload_bytes = payload.to_bytes()?;
                let header_bytes = updated.encode()?;
                let header_segment = base64url::encode_bytes(header_bytes.as_slice())?;
                proof {
                    base64url::lemma_encode_shape(header_bytes@);
                }
                let sealed = content.encrypt(
                    payload_bytes.as_slice(),
                    header_segment.as_slice(),
                    &cek,
                    content_option,
                )?;
                let ghost header_text = header_segment@;
                let mut compact = crate::compact::Compact::with_capacity(PARTS);
                compact.parts.push(header_segment);
                assert(compact@ =~= seq![header_text]);
                compact.push_bytes(wrapped.encrypted.as_slice())?;
                compact.push_bytes(sealed.nonce.as_slice())?;
                compact.push_bytes(sealed.encrypted.as_slice())?;
                compact.push_bytes(sealed.tag.as_slice())?;
                proof {
                    let parts = compact@;
                    assert(parts =~= seq![
                        header_text,
                        base64url::encode(wrapped@.encrypted),
                        base64url::encode(sealed@.nonce),
                        base64url::encode(sealed@.encrypted),
                        base64url::encode(sealed@.tag),
                    ]);
                    if private_reads_back::<H>(header@.private) {
                        if !algorithm.spec_is_direct() {
                            let extracted = updated@.cek_algorithm.encryption_result(
                                wrapped@.encrypted,
                            );
                            assert(extracted.additional_data =~= wrapped@.additional_data);
                            assert(extracted == wrapped@);
                        }
                        lemma_decrypts_back::<T, H>(
                            header@,
                            payload@,
                            key@,
                            cek@,
                            wrapped@,
                            sealed@,
                            header_bytes@,
                            payload_bytes@,
                            parts,
                        );
                    }
                }
                Ok(Compact::Encrypted(compact))
            },
        }
    }

    /// Encrypts a decrypted token; an encrypted one is refused.
    ///
    /// In direct mode the key itself encrypts the content, under `options`.
    /// Otherwise a fresh random key encrypts the content under a fresh random
    /// nonce, and `options` go to wrapping that key under `key`.
    ///
    /// The outcome is that of `encrypt_with` for some key and nonce of the
    /// right lengths, or a cryptographic error where the random source
    /// failed. Where `can_encrypt` holds, nothing else makes it fail but a
    /// header whose text is longer than a segment holds.
    pub fn encrypt(&self, key: &Key, options: &EncryptionOptions) -> (r: Result<Self, Error>)
        ensures
            encrypt_outcome::<T, H>(self@, key@, options@, result_view(r)),
            encrypted_soundly::<T, H>(self@, key@, result_view(r)),
            encrypt_fails_only_for_its_means::<T, H>(self@, key@, options@, result_view(r)),
    {
        match self {
            Compact::Encrypted(_) => Err(Error::UnsupportedOperation),
            Compact::Decrypted { header, payload } => {
                let algorithm = header.registered.cek_algorithm;
                let content = header.registered.enc_algorithm;
                let nothing: Vec<u8> = Vec::new();
                let cipher = match content.cipher() {
                    Ok(cipher) => cipher,
                    Err(_) => {
                        let r = self.encrypt_with(
                            key,
                            options,
                            nothing.as_slice(),
                            nothing.as_slice(),
                        );
                        proof {
                            assert(fresh_fits(content, nothing@, nothing@));
                        }
                        return r;
                    },
                };
                if algorithm.is_direct() {
                    let unused_key = vec![0u8; cipher.key_len()];
                    let unused_nonce = vec![0u8; NONCE_LEN];
                    let r = self.encrypt_with(
                        key,
                        options,
                        unused_key.as_slice(),
                        unused_nonce.as_slice(),
                    );
                    proof {
                        assert(fresh_fits(content, unused_key@, unused_nonce@));
                    }
                    return r;
                }
                let fresh_nonce = match content.random_encryption_options() {
                    Ok(EncryptionOptions::AES_GCM { nonce }) => nonce,
                    Ok(EncryptionOptions::NoOptions) => Vec::new(),
                    Err(e) => { return Err(e); },
                };
                if algorithm.wrap_cipher().is_err() {
                    let r = self.encrypt_with(key, options, nothing.as_slice(), fresh_nonce.as_slice());
                    proof {
                        let spare_key = Seq::new(cipher.spec_key_len(), |i: int| 0u8);
                        assert(fresh_fits(content, spare_key, fresh_nonce@));
                        assert(spec_encrypt::<T, H>(
                            header@,
                            payload@,
                            key@,
                            options@,
                            spare_key,
                            fresh_nonce@,
                        ) == spec_encrypt::<T, H>(
                            header@,
                            payload@,
                            key@,
                            options@,
                            nothing@,
                            fresh_nonce@,
                        ));
                    }
                    return r;
                }
                let fresh_key = match content.generate_key() {
                    Ok(fresh_key) => fresh_key,
                    Err(e) => { return Err(e); },
                };
                let r = self.encrypt_with(key, options, fresh_key.as_slice(), fresh_nonce.as_slice());
                proof {
                    assert(fresh_fits(content, fresh_key@, fresh_nonce@));
                }
                r
            },
        }
    }

    /// Encrypts a decrypted token as `encrypt` does, and returns an encrypted
    /// one as it is.
    pub fn into_encrypted(self, key: &Key, options: &EncryptionOptions) -> (r: Result<Self, Error>)
        ensures
            self is Encrypted ==> r == Ok::<Self, Error>(self),
            self is Decrypted ==> encrypt_outcome::<T, H>(self@, key@, options@, result_view(r)),
            encrypted_soundly::<T, H>(self@, key@, result_view(r)),
            self is Decrypted ==> encrypt_fails_only_for_its_means::<T, H>(
                self@,
                key@,
                options@,
                result_view(r),
            ),
    {
        match self {
            Compact::Encrypted(_) => Ok(self),
            Compact::Decrypted { .. } => self.encrypt(key, options),
        }
    }

    /// Decrypts an encrypted token; a decrypted one is refused. The caller
    /// names the algorithms that it expects, so that nobody can make it
    /// decrypt under weaker ones by rewriting the header.
    pub fn decrypt(
        &self,
        key: &Key,
        cek_alg: KeyManagementAlgorithm,
        enc_alg: ContentEncryptionAlgorithm,
    ) -> (r: Result<Self, Error>)
        ensures
            result_view(r) == decrypt_outcome::<T, H>(self@, key@, cek_alg, enc_alg),
    {
        match self {
            Compact::Decrypted { .. } => Err(Error::UnsupportedOperation),
            Compact::Encrypted(encrypted) => {
                if encrypted.len() != PARTS {
                    return Err(
                        Error::DecodeError(
                            TokenError::PartsLengthError {
                                expected: PARTS,
                                actual: encrypted.len(),
                            },
                        ),
                    );
                }
                let mut header: Header<H> = encrypted.part(0)?;
                let encrypted_cek = encrypted.part_bytes(1)?;
                let nonce = encrypted.part_bytes(2)?;
                let encrypted_payload = encrypted.part_bytes(3)?;
                let tag = encrypted.part_bytes(4)?;
                if header.registered.cek_algorithm != cek_alg || header.registered.enc_algorithm
                    != enc_alg {
                    return Err(Error::ValidationError(ValidationError::WrongAlgorithmHeader));
                }
                let cek_encryption_result = header.extract_cek_encryption_result(
                    encrypted_cek.as_slice(),
                );
                let cek = header.registered.cek_algorithm.unwrap_key(
                    &cek_encryption_result,
                    header.registered.enc_algorithm,
                    key,
                )?;
                let encrypted_payload_result = EncryptionResult {
                    nonce,
                    tag,
                    encrypted: encrypted_payload,
                    additional_data: slice_to_vec(encrypted.parts[0].as_slice()),
                };
                let payload = header.registered.enc_algorithm.decrypt(
                    &encrypted_payload_result,
                    &cek,
                )?;
                if header.registered.compression_algorithm.is_some() {
                    return Err(Error::UnsupportedOperation);
                }
                let payload = T::from_bytes(payload.as_slice())?;
                Ok(Compact::new_decrypted(header, payload))
            },
        }
    }

    /// Decrypts an encrypted token as `decrypt` does, and returns a decrypted
    /// one as it is.
    pub fn into_decrypted(
        self,
        key: &Key,
        cek_alg: KeyManagementAlgorithm,
        enc_alg: ContentEncryptionAlgorithm,
    ) -> (r: Result<Self, Error>)
        ensures
            self is Decrypted ==> r == Ok::<Self, Error>(self),
            self is Encrypted ==> result_view(r) == decrypt_outcome::<T, H>(
                self@,
                key@,
                cek_alg,
                enc_alg,
            ),
    {
        match self {
            Compact::Encrypted(_) => self.decrypt(key, cek_alg, enc_alg),
            Compact::Decrypted { .. } => Ok(self),
        }
    }

    /// The wire text of an encrypted token: its segments joined by dots. A
    /// decrypted token has no wire form and is refused.
    pub fn encode(&self) -> (r: Result<Vec<u8>, Error>)
        ensures
            match self@ {
                CompactView::Encrypted(parts) => r matches Ok(wire) && wire@ == crate::compact::join(
                    parts,
                ),
                CompactView::Decrypted { .. } => r == Err::<Vec<u8>, Error>(
                    Error::UnsupportedOperation,
                ),
            },
    {
        match self {
            Compact::Decrypted { .. } => Err(Error::UnsupportedOperation),
            Compact::Encrypted(encoded) => Ok(encoded.encode()),
        }
    }

    /// The segments of an encrypted token.
    pub fn encrypted(&self) -> (r: Result<&crate::compact::Compact, Error>)
        ensures
            match r {
                Ok(compact) => *self == Compact::<T, H>::Encrypted(*compact),
                Err(e) => self is Decrypted && e == Error::UnsupportedOperation,
            },
    {
        match self {
            Compact::Decrypted { .. } => Err(Error::UnsupportedOperation),
            Compact::Encrypted(encoded) => Ok(encoded),
        }
    }

    /// The segments of an encrypted token, to change them.
    pub fn encrypted_mut(&mut self) -> (r: Result<&mut crate::compact::Compact, Error>)
        ensures
            match r {
                Ok(compact) => *old(self) == Compact::<T, H>::Encrypted(*compact) && *final(self)
                    == Compact::<T, H>::Encrypted(*final(compact)),
                Err(e) => *old(self) is Decrypted && e == Error::UnsupportedOperation && *final(self) == *old(self),
            },
    {
        match self {
            Compact::Decrypted { .. } => Err(Error::UnsupportedOperation),
            Compact::Encrypted(encoded) => Ok(encoded),
        }
    }

    /// The payload of a decrypted token.
    pub fn payload(&self) -> (r: Result<&T, Error>)
        ensures
            match r {
                Ok(payload) => self is Decrypted && self->payload == *payload,
                Err(e) => self is Encrypted && e == Error::UnsupportedOperation,
            },
    {
        match self {
            Compact::Decrypted { payload, .. } => Ok(payload),
            Compact::Encrypted(_) => Err(Error::UnsupportedOperation),
        }
    }

    /// The payload of a decrypted token, to change it.
    pub fn payload_mut(&mut self) -> (r: Result<&mut T, Error>)
        ensures
            match r {
                Ok(payload) => *old(self) is Decrypted && (*old(self))->payload == *payload && *final(self) == (Compact::Decrypted {
                    header: (*old(self))->header,
                    payload: *final(payload),
                }),
                Err(e) => *old(self) is Encrypted && e == Error::UnsupportedOperation && *final(self) == *old(self),
            },
    {
        match self {
            Compact::Decrypted { payload, .. } => Ok(payload),
            Compact::Encrypted(_) => Err(Error::UnsupportedOperation),
        }
    }

    /// The header of a decrypted token.
    pub fn header(&self) -> (r: Result<&Header<H>, Error>)
        ensures
            match r {
                Ok(header) => self is Decrypted && self->header == *header,
                Err(e) => self is Encrypted && e == Error::UnsupportedOperation,
            },
    {
        match self {
            Compact::Decrypted { header, .. } => Ok(header),
            Compact::Encrypted(_) => Err(Error::UnsupportedOperation),
        }
    }

    /// The header of a decrypted token, to change it.
    pub fn header_mut(&mut self) -> (r: Result<&mut Header<H>, Error>)
        ensures
            match r {
                Ok(header) => *old(self) is Decrypted && (*old(self))->header == *header && *final(self) == (Compact::Decrypted {
                    header: *final(header),
                    payload: (*old(self))->payload,
                }),
                Err(e) => *old(self) is Encrypted && e == Error::UnsupportedOperation && *final(self) == *old(self),
            },
    {
        match self {
            Compact::Decrypted { header, .. } => Ok(header),
            Compact::Encrypted(_) => Err(Error::UnsupportedOperation),
        }
    }

    /// The header and the payload of a token that is known to be decrypted.
    /// To call this on an encrypted token is a programming error, which the
    /// precondition rules out; `header` and `payload` are there for a token
    /// whose state is not known.
    pub fn unwrap_decrypted(self) -> (r: (Header<H>, T))
        requires
            self is Decrypted,
        ensures
            self == (Compact::Decrypted { header: r.0, payload: r.1 }),
    {
        match self {
            Compact::Decrypted { header, payload } => (header, payload),
            Compact::Encrypted(_) => vstd::pervasive::unreached(),
        }
    }

    /// The segments of a token that is known to be encrypted. To call this
    /// on a decrypted token is a programming error, which the precondition
    /// rules out; `encrypted` is there for a token whose state is not known.
    pub fn unwrap_encrypted(self) -> (compact: crate::compact::Compact)
        requires
            self is Encrypted,
        ensures
            self == Compact::<T, H>::Encrypted(compact),
    {
        match self {
            Compact::Decrypted { .. } => vstd::pervasive::unreached(),
            Compact::Encrypted(compact) => compact,
        }
    }

    /// Validates the claims of a decrypted token: `check` is run on the
    /// payload, and what it refuses is a validation error. An encrypted token
    /// has no claims to look at and is refused. The check is the caller's,
    /// who knows the claims and the time of day.
    pub fn validate<F: FnOnce(&T) -> Result<(), ValidationError>>(&self, check: F) -> (r: Result<
        (),
        Error,
    >)
        requires
            self is Decrypted ==> call_requires(check, (&self->payload,)),
        ensures
            self is Encrypted ==> r == Err::<(), Error>(Error::UnsupportedOperation),
            self is Decrypted ==> match r {
                Ok(_) => call_ensures(check, (&self->payload,), Ok::<(), ValidationError>(())),
                Err(Error::ValidationError(refused)) => call_ensures(
                    check,
                    (&self->payload,),
                    Err::<(), ValidationError>(refused),
                ),
                Err(_) => false,
            },
    {
        let payload = self.payload()?;
        let verdict = check(payload);
        match verdict {
            Ok(passed) => {
                assert(passed == ());
                Ok(())
            },
            Err(refused) => Err(Error::ValidationError(refused)),
        }
    }
}

} // verus!
