//! What encrypting and decrypting give, as functions of what goes in: the
//! statement that the engine's functions are proved against.

use crate::base64url;
use crate::compact::{spec_part, spec_part_bytes, spec_segment, CompactPart};
use crate::errors::{Error, TokenError, ValidationError};
use crate::jwa::aes_gcm::{MAX_IN_OUT_LEN, NONCE_LEN};
use crate::jwa::{
    ContentEncryptionAlgorithm, EncryptionOptionsView, EncryptionResultView, KeyManagementAlgorithm,
};
use crate::jwe::header::{
    header_from_bytes, header_to_bytes, private_fits, private_reads_back, Header, HeaderView,
    PrivateHeader,
};
use crate::jwe::CompactView;
use crate::jwk::KeyView;
use vstd::prelude::*;

verus! {

/// The number of segments of a token: header, wrapped key, nonce, ciphertext
/// and tag.
pub const PARTS: usize = 5;

/// The options that go to the key wrapping: none in direct mode, where
/// nothing is wrapped, and the caller's otherwise.
pub open spec fn key_options(
    algorithm: KeyManagementAlgorithm,
    options: EncryptionOptionsView,
) -> EncryptionOptionsView {
    if algorithm.spec_is_direct() {
        EncryptionOptionsView::NoOptions
    } else {
        options
    }
}

/// The options that go to the content encryption: the caller's in direct
/// mode; otherwise fresh ones, which hold the nonce `fresh_nonce` for the
/// algorithms that the library has a cipher for.
pub open spec fn content_options(
    algorithm: KeyManagementAlgorithm,
    content: ContentEncryptionAlgorithm,
    options: EncryptionOptionsView,
    fresh_nonce: Seq<u8>,
) -> EncryptionOptionsView {
    if algorithm.spec_is_direct() {
        options
    } else if content.spec_cipher() is Ok {
        EncryptionOptionsView::AES_GCM { nonce: fresh_nonce }
    } else {
        EncryptionOptionsView::NoOptions
    }
}

/// The outcome of generating a key for `content`, when the random source
/// gave `fresh_key`.
pub open spec fn generated_key(content: ContentEncryptionAlgorithm, fresh_key: Seq<u8>) -> Result<
    Seq<u8>,
    Error,
> {
    match content.spec_cipher() {
        Ok(_) => Ok(fresh_key),
        Err(e) => Err(e),
    }
}

/// Whether `fresh_key` and `fresh_nonce` have the lengths that the content
/// algorithm takes, where the library has a cipher for it.
pub open spec fn fresh_fits(
    content: ContentEncryptionAlgorithm,
    fresh_key: Seq<u8>,
    fresh_nonce: Seq<u8>,
) -> bool {
    content.spec_cipher() matches Ok(cipher) ==> fresh_key.len() == cipher.spec_key_len()
        && fresh_nonce.len() == NONCE_LEN
}

/// The segments of the token that a header, the parts of a wrapped key and of
/// an encrypted payload make, or the error of the first that has no segment.
pub open spec fn assembled(
    header_segment: Seq<u8>,
    wrapped: EncryptionResultView,
    sealed: EncryptionResultView,
) -> Result<Seq<Seq<u8>>, Error> {
    match spec_segment(Ok(wrapped.encrypted)) {
        Err(e) => Err(e),
        Ok(key_segment) => match spec_segment(Ok(sealed.nonce)) {
            Err(e) => Err(e),
            Ok(nonce_segment) => match spec_segment(Ok(sealed.encrypted)) {
                Err(e) => Err(e),
                Ok(text_segment) => match spec_segment(Ok(sealed.tag)) {
                    Err(e) => Err(e),
                    Ok(tag_segment) => Ok(
                        seq![
                            header_segment,
                            key_segment,
                            nonce_segment,
                            text_segment,
                            tag_segment,
                        ],
                    ),
                },
            },
        },
    }
}

/// The content-encryption key and its wrapped form, when the random source
/// gave `fresh_key`: the key is the management key itself in direct mode,
/// where it must be symmetric, and `fresh_key` otherwise; it is wrapped under
/// the management key with the options that go to the key wrapping.
pub open spec fn wrapped_key<V>(
    header: HeaderView<V>,
    key: KeyView,
    options: EncryptionOptionsView,
    fresh_key: Seq<u8>,
) -> Result<(KeyView, EncryptionResultView), Error> {
    let algorithm = header.registered.cek_algorithm;
    let content = header.registered.enc_algorithm;
    match algorithm.spec_cek(key, generated_key(content, fresh_key)) {
        Err(e) => Err(e),
        Ok(cek) => match cek.octet_key() {
            Err(e) => Err(e),
            Ok(octets) => match algorithm.spec_wrap_key(octets, key, key_options(algorithm, options)) {
                Err(e) => Err(e),
                Ok(wrapped) => Ok((cek, wrapped)),
            },
        },
    }
}

/// The segments that encrypting gives once the content-encryption key `cek`
/// is wrapped as `wrapped`: the header takes the nonce and the tag of the
/// wrapped key; a header that names a compression is refused; the payload is
/// put into bytes; the text of the header's segment is the additional data
/// under which the payload is encrypted; and the five segments are put
/// together.
pub open spec fn sealed_with<T: CompactPart, H: PrivateHeader>(
    header: HeaderView<H::V>,
    payload: T::V,
    cek: KeyView,
    wrapped: EncryptionResultView,
    options: EncryptionOptionsView,
) -> Result<Seq<Seq<u8>>, Error> {
    let header = header.updated(wrapped);
    if header.registered.compression_algorithm is Some {
        Err(Error::UnsupportedOperation)
    } else {
        match T::spec_to_bytes(payload) {
            Err(e) => Err(e),
            Ok(payload_bytes) => match spec_segment(header_to_bytes::<H>(header)) {
                Err(e) => Err(e),
                Ok(header_segment) => match header.registered.enc_algorithm.spec_encrypt(
                    payload_bytes,
                    header_segment,
                    cek,
                    options,
                ) {
                    Err(e) => Err(e),
                    Ok(sealed) => assembled(header_segment, wrapped, sealed),
                },
            },
        }
    }
}

/// The segments that encrypting a header and a payload gives, when the random
/// source gave `fresh_key` and `fresh_nonce`: the content-encryption key is
/// come by and wrapped as `wrapped_key` says, and the rest is `sealed_with`.
pub open spec fn spec_encrypt<T: CompactPart, H: PrivateHeader>(
    header: HeaderView<H::V>,
    payload: T::V,
    key: KeyView,
    options: EncryptionOptionsView,
    fresh_key: Seq<u8>,
    fresh_nonce: Seq<u8>,
) -> Result<Seq<Seq<u8>>, Error> {
    match wrapped_key(header, key, options, fresh_key) {
        Err(e) => Err(e),
        Ok(derived) => sealed_with::<T, H>(
            header,
            payload,
            derived.0,
            derived.1,
            content_options(
                header.registered.cek_algorithm,
                header.registered.enc_algorithm,
                options,
                fresh_nonce,
            ),
        ),
    }
}

/// Whether a header, a payload, a key and options are such that encrypting is
/// owed success: both algorithms are ones that the library has a cipher for,
/// no compression is named, the key is symmetric and as long as the cipher
/// takes that it goes to, the options hold a nonce of 96 bits, the caller's
/// own fields fit, and the payload has bytes, no more than the cipher
/// encrypts at once and a segment holds.
pub open spec fn can_encrypt<T: CompactPart, H: PrivateHeader>(
    header: HeaderView<H::V>,
    payload: T::V,
    key: KeyView,
    options: EncryptionOptionsView,
) -> bool {
    let algorithm = header.registered.cek_algorithm;
    let content = header.registered.enc_algorithm;
    &&& header.registered.compression_algorithm is None
    &&& content.spec_cipher() is Ok
    &&& algorithm.spec_is_direct() || algorithm.spec_wrap_cipher() is Ok
    &&& key matches KeyView::Octet(octets) && octets.len() == if algorithm.spec_is_direct() {
        content.spec_cipher()->Ok_0.spec_key_len()
    } else {
        algorithm.spec_wrap_cipher()->Ok_0.spec_key_len()
    }
    &&& options matches EncryptionOptionsView::AES_GCM { nonce } && nonce.len() == NONCE_LEN
    &&& private_fits::<H>(header.private)
    &&& T::spec_to_bytes(payload) matches Ok(bytes) && bytes.len() <= MAX_IN_OUT_LEN && bytes.len()
        <= base64url::max_encode_len()
}

/// Whether the text of the header, as it stands once the key is wrapped, is
/// longer than a segment holds: the one thing that `can_encrypt` leaves open.
pub open spec fn header_too_long<T: CompactPart, H: PrivateHeader>(
    header: HeaderView<H::V>,
    key: KeyView,
    options: EncryptionOptionsView,
    fresh_key: Seq<u8>,
) -> bool {
    wrapped_key(header, key, options, fresh_key) matches Ok(derived) && header_to_bytes::<H>(
        header.updated(derived.1),
    ) matches Ok(text) && text.len() > base64url::max_encode_len()
}

/// What four segments of a token stand for: the wrapped key, the nonce, the
/// ciphertext and the tag.
pub struct Body {
    pub wrapped: Seq<u8>,
    pub nonce: Seq<u8>,
    pub ciphertext: Seq<u8>,
    pub tag: Seq<u8>,
}

/// The bytes of the segments after the header, or the error of the first
/// that is not base64url text.
pub open spec fn spec_body(parts: Seq<Seq<u8>>) -> Result<Body, Error> {
    match spec_part_bytes(parts, 1) {
        Err(e) => Err(e),
        Ok(wrapped) => match spec_part_bytes(parts, 2) {
            Err(e) => Err(e),
            Ok(nonce) => match spec_part_bytes(parts, 3) {
                Err(e) => Err(e),
                Ok(ciphertext) => match spec_part_bytes(parts, 4) {
                    Err(e) => Err(e),
                    Ok(tag) => Ok(Body { wrapped, nonce, ciphertext, tag }),
                },
            },
        },
    }
}

/// The payload bytes that a token holds, once its header and body are read:
/// the key-management fields of the header make, with the wrapped key, what
/// the content-encryption key is unwrapped from, and the payload is decrypted
/// under it, with the header's segment as it stands on the wire as the
/// additional data.
pub open spec fn decrypted_bytes<P>(
    header: HeaderView<P>,
    header_segment: Seq<u8>,
    body: Body,
    key: KeyView,
) -> Result<Seq<u8>, Error> {
    let algorithm = header.registered.cek_algorithm;
    let content = header.registered.enc_algorithm;
    match algorithm.spec_unwrap_key(
        header.cek_algorithm.encryption_result(body.wrapped),
        content,
        key,
    ) {
        Err(e) => Err(e),
        Ok(cek) => content.spec_decrypt(
            EncryptionResultView {
                nonce: body.nonce,
                encrypted: body.ciphertext,
                tag: body.tag,
                additional_data: header_segment,
            },
            cek,
        ),
    }
}

/// The header and the payload bytes that opening a token gives: the payload
/// is decrypted, a header that names a compression is refused, and the
/// key-management fields leave the header.
pub open spec fn opened_with<P>(
    header: HeaderView<P>,
    header_segment: Seq<u8>,
    body: Body,
    key: KeyView,
) -> Result<(HeaderView<P>, Seq<u8>), Error> {
    match decrypted_bytes(header, header_segment, body, key) {
        Err(e) => Err(e),
        Ok(plaintext) => if header.registered.compression_algorithm is Some {
            Err(Error::UnsupportedOperation)
        } else {
            Ok((header.stripped(), plaintext))
        },
    }
}

/// The header and the payload that decrypting the segments `parts` gives.
/// There must be five segments; the first must hold a header and the others
/// base64url text; the header must name the algorithms that the caller
/// expects; and the rest is `opened_with`, and reading the payload from its
/// bytes.
pub open spec fn spec_decrypt<T: CompactPart, H: PrivateHeader>(
    parts: Seq<Seq<u8>>,
    key: KeyView,
    cek_alg: KeyManagementAlgorithm,
    enc_alg: ContentEncryptionAlgorithm,
) -> Result<(HeaderView<H::V>, T::V), Error> {
    if parts.len() != PARTS {
        Err(
            Error::DecodeError(
                TokenError::PartsLengthError { expected: PARTS, actual: parts.len() as usize },
            ),
        )
    } else {
        match spec_part::<Header<H>>(parts, 0) {
            Err(e) => Err(e),
            Ok(header) => match spec_body(parts) {
                Err(e) => Err(e),
                Ok(body) => if header.registered.cek_algorithm != cek_alg
                    || header.registered.enc_algorithm != enc_alg {
                    Err(Error::ValidationError(ValidationError::WrongAlgorithmHeader))
                } else {
                    match opened_with(header, parts[0], body, key) {
                        Err(e) => Err(e),
                        Ok(opened) => match T::spec_from_bytes(opened.1) {
                            Err(e) => Err(e),
                            Ok(payload) => Ok((opened.0, payload)),
                        },
                    }
                },
            },
        }
    }
}

/// Whether decrypting `parts` with other algorithms expected than those that
/// `header` names is refused for the algorithms' sake.
pub open spec fn refuses_other_algorithms<T: CompactPart, H: PrivateHeader>(
    parts: Seq<Seq<u8>>,
    key: KeyView,
    header: HeaderView<H::V>,
) -> bool {
    forall|cek_alg: KeyManagementAlgorithm, enc_alg: ContentEncryptionAlgorithm|
        cek_alg != header.registered.cek_algorithm || enc_alg != header.registered.enc_algorithm
            ==> #[trigger] spec_decrypt::<T, H>(parts, key, cek_alg, enc_alg) == Err::<
            (HeaderView<H::V>, T::V),
            Error,
        >(Error::ValidationError(ValidationError::WrongAlgorithmHeader))
}

/// Whether a payload is read back from the bytes that it makes.
pub open spec fn payload_reads_back<T: CompactPart>(payload: T::V) -> bool {
    T::spec_to_bytes(payload) matches Ok(bytes) ==> T::spec_from_bytes(bytes) == Ok::<T::V, Error>(
        payload,
    )
}

/// Whether decrypting `parts` under `key`, with the algorithms that `header`
/// names expected, gives `payload` and `header` without its key-management
/// fields: what holds of a token that was encrypted from them.
pub open spec fn decrypts_to<T: CompactPart, H: PrivateHeader>(
    parts: Seq<Seq<u8>>,
    key: KeyView,
    header: HeaderView<H::V>,
    payload: T::V,
) -> bool {
    spec_decrypt::<T, H>(
        parts,
        key,
        header.registered.cek_algorithm,
        header.registered.enc_algorithm,
    ) == Ok::<(HeaderView<H::V>, T::V), Error>((header.stripped(), payload))
}

/// Whether encrypting a token draws on the random source: it does where the
/// mode is not direct and the library has a cipher for the content algorithm.
pub open spec fn draws_randomness<V>(header: HeaderView<V>) -> bool {
    !header.registered.cek_algorithm.spec_is_direct()
        && header.registered.enc_algorithm.spec_cipher() is Ok
}

/// The encrypted token of the segments, or the error in their place.
pub open spec fn as_encrypted<P, V>(parts: Result<Seq<Seq<u8>>, Error>) -> Result<
    CompactView<P, V>,
    Error,
> {
    match parts {
        Ok(parts) => Ok(CompactView::Encrypted(parts)),
        Err(e) => Err(e),
    }
}

/// The decrypted token of a header and a payload, or the error in their
/// place.
pub open spec fn as_decrypted<P, V>(opened: Result<(HeaderView<V>, P), Error>) -> Result<
    CompactView<P, V>,
    Error,
> {
    match opened {
        Ok(opened) => Ok(CompactView::Decrypted { header: opened.0, payload: opened.1 }),
        Err(e) => Err(e),
    }
}

/// Whether `r` is an outcome of encrypting `token`: an encrypted token is
/// refused; a decrypted one gives what `spec_encrypt` gives for some key and
/// nonce of the right lengths, or a cryptographic error where the random
/// source was drawn on and failed.
pub open spec fn encrypt_outcome<T: CompactPart, H: PrivateHeader>(
    token: CompactView<T::V, H::V>,
    key: KeyView,
    options: EncryptionOptionsView,
    r: Result<CompactView<T::V, H::V>, Error>,
) -> bool {
    match token {
        CompactView::Encrypted(_) => r == Err::<CompactView<T::V, H::V>, Error>(
            Error::UnsupportedOperation,
        ),
        CompactView::Decrypted { header, payload } => {
            ||| draws_randomness(header) && r == Err::<CompactView<T::V, H::V>, Error>(
                Error::UnspecifiedCryptographicError,
            )
            ||| exists|fresh_key: Seq<u8>, fresh_nonce: Seq<u8>|
                fresh_fits(header.registered.enc_algorithm, fresh_key, fresh_nonce) && r
                    == as_encrypted::<T::V, H::V>(
                    #[trigger] spec_encrypt::<T, H>(
                        header,
                        payload,
                        key,
                        options,
                        fresh_key,
                        fresh_nonce,
                    ),
                )
        },
    }
}

/// Whether `r`, where `token` is one that encrypting is owed success on, is a
/// token, or else fails for the means alone: with a cryptographic error where
/// the random source was drawn on and failed, or with `UnsupportedOperation`
/// where the text of the header is longer than a segment holds.
pub open spec fn encrypt_fails_only_for_its_means<T: CompactPart, H: PrivateHeader>(
    token: CompactView<T::V, H::V>,
    key: KeyView,
    options: EncryptionOptionsView,
    r: Result<CompactView<T::V, H::V>, Error>,
) -> bool {
    (token matches CompactView::Decrypted { header, payload } && can_encrypt::<T, H>(
        header,
        payload,
        key,
        options,
    )) ==> match r {
        Ok(_) => true,
        Err(e) => e == Error::UnsupportedOperation || (e == Error::UnspecifiedCryptographicError
            && draws_randomness(token->header)),
    }
}

/// Whether `r`, where it is a token that was encrypted from `token`, has five
/// segments, is refused where other algorithms are expected, and decrypts to
/// the payload and to the header without its key-management fields, as far
/// as the payload and the caller's own fields are read back from what they
/// make.
pub open spec fn encrypted_soundly<T: CompactPart, H: PrivateHeader>(
    token: CompactView<T::V, H::V>,
    key: KeyView,
    r: Result<CompactView<T::V, H::V>, Error>,
) -> bool {
    match (token, r) {
        (CompactView::Decrypted { header, payload }, Ok(CompactView::Encrypted(parts))) => {
            &&& parts.len() == PARTS
            &&& private_reads_back::<H>(header.private) ==> refuses_other_algorithms::<T, H>(
                parts,
                key,
                header,
            )
            &&& payload_reads_back::<T>(payload) && private_reads_back::<H>(header.private)
                ==> decrypts_to::<T, H>(parts, key, header, payload)
        },
        (CompactView::Decrypted { .. }, Ok(CompactView::Decrypted { .. })) => false,
        _ => true,
    }
}

/// What decrypting `token` gives: a decrypted token is refused, and an
/// encrypted one gives what `spec_decrypt` gives.
pub open spec fn decrypt_outcome<T: CompactPart, H: PrivateHeader>(
    token: CompactView<T::V, H::V>,
    key: KeyView,
    cek_alg: KeyManagementAlgorithm,
    enc_alg: ContentEncryptionAlgorithm,
) -> Result<CompactView<T::V, H::V>, Error> {
    match token {
        CompactView::Decrypted { .. } => Err(Error::UnsupportedOperation),
        CompactView::Encrypted(parts) => as_decrypted(
            spec_decrypt::<T, H>(parts, key, cek_alg, enc_alg),
        ),
    }
}

/// What the round trip rests on, stated of the values that encrypting goes
/// through: a token that is put together from a header that reads back, a
/// wrapped key that unwraps and a sealed payload that opens is refused where
/// other algorithms are expected, and decrypts to the header without its
/// key-management fields and to the payload.
pub proof fn lemma_decrypts_back<T: CompactPart, H: PrivateHeader>(
    header: HeaderView<H::V>,
    payload: T::V,
    key: KeyView,
    cek: KeyView,
    wrapped: EncryptionResultView,
    sealed: EncryptionResultView,
    header_bytes: Seq<u8>,
    payload_bytes: Seq<u8>,
    parts: Seq<Seq<u8>>,
)
    requires
        header.registered.cek_algorithm.spec_unwrap_key(
            header.updated(wrapped).cek_algorithm.encryption_result(wrapped.encrypted),
            header.registered.enc_algorithm,
            key,
        ) == Ok::<KeyView, Error>(cek),
        header_from_bytes::<H>(header_bytes) == Ok::<HeaderView<H::V>, Error>(
            header.updated(wrapped),
        ),
        header.registered.compression_algorithm is None,
        header.registered.enc_algorithm.spec_decrypt(sealed, cek) == Ok::<Seq<u8>, Error>(
            payload_bytes,
        ),
        sealed.additional_data == base64url::encode(header_bytes),
        payload_reads_back::<T>(payload) ==> T::spec_from_bytes(payload_bytes) == Ok::<T::V, Error>(
            payload,
        ),
        spec_segment(Ok(header_bytes)) is Ok,
        assembled(base64url::encode(header_bytes), wrapped, sealed) == Ok::<
            Seq<Seq<u8>>,
            Error,
        >(parts),
    ensures
        refuses_other_algorithms::<T, H>(parts, key, header),
        payload_reads_back::<T>(payload) ==> decrypts_to::<T, H>(parts, key, header, payload),
{
    base64url::lemma_decode_bytes_of_encoded(header_bytes);
    base64url::lemma_decode_bytes_of_encoded(wrapped.encrypted);
    base64url::lemma_decode_bytes_of_encoded(sealed.nonce);
    base64url::lemma_decode_bytes_of_encoded(sealed.encrypted);
    base64url::lemma_decode_bytes_of_encoded(sealed.tag);
    let updated = header.updated(wrapped);
    assert(spec_part::<Header<H>>(parts, 0) == Ok::<HeaderView<H::V>, Error>(updated));
    let body = Body {
        wrapped: wrapped.encrypted,
        nonce: sealed.nonce,
        ciphertext: sealed.encrypted,
        tag: sealed.tag,
    };
    assert(spec_body(parts) == Ok::<Body, Error>(body));
    let again = EncryptionResultView {
        nonce: body.nonce,
        encrypted: body.ciphertext,
        tag: body.tag,
        additional_data: parts[0],
    };
    assert(again == sealed);
    assert(updated.stripped() == header.stripped());
    assert(opened_with(updated, parts[0], body, key) == Ok::<(HeaderView<H::V>, Seq<u8>), Error>(
        (header.stripped(), payload_bytes),
    ));
}

} // verus!
