//! What holds of every token, stated over the engine's specification and
//! proved from it.

use crate::base64url;
use crate::compact::{
    count_dots, dotless, lemma_split_join, lemma_split_shape, spec_part, spec_part_bytes, split,
    CompactPart,
};
use crate::errors::{Error, TokenError, ValidationError};
use crate::jwa::{
    ContentEncryptionAlgorithm, EncryptionOptionsView, EncryptionResultView, KeyManagementAlgorithm,
};
use crate::jwe::fields::Object;
use crate::jwe::header::{
    private_reads_back, Empty, Header, HeaderView, OpenFields, PrivateHeader,
};
use crate::jwe::model::{
    decrypt_outcome, decrypted_bytes, encrypted_soundly, payload_reads_back, spec_body,
    spec_decrypt, spec_encrypt, wrapped_key, Body, PARTS,
};
use crate::jwe::CompactView;
use crate::jwk::KeyView;
use vstd::prelude::*;

verus! {

/// What encrypting gave, decrypting takes back: a token that `encrypt`,
/// `encrypt_with` or `into_encrypted` returned for a header and a payload
/// decrypts, under the same key and with the header's algorithms expected, to
/// the payload and to the header without its key-management fields. This
/// holds of every payload and of all the caller's own fields that are read
/// back from what they make, as bytes and the two kinds of fields that the
/// library has are.
pub proof fn law_round_trip<T: CompactPart, H: PrivateHeader>(
    header: HeaderView<H::V>,
    payload: T::V,
    key: KeyView,
    encrypted: CompactView<T::V, H::V>,
)
    requires
        encrypted_soundly::<T, H>(CompactView::Decrypted { header, payload }, key, Ok(encrypted)),
        payload_reads_back::<T>(payload),
        private_reads_back::<H>(header.private),
    ensures
        decrypt_outcome::<T, H>(
            encrypted,
            key,
            header.registered.cek_algorithm,
            header.registered.enc_algorithm,
        ) == Ok::<CompactView<T::V, H::V>, Error>(
            CompactView::Decrypted { header: header.stripped(), payload },
        ),
{
}

/// Bytes are read back from the bytes that they make, and so are the two
/// kinds of own fields that the library has: for them the round trip holds
/// without a condition. A token that is the payload of another is read back
/// where it has a segment and no segment of it holds a dot.
pub proof fn law_round_trip_of_bytes(
    payload: Seq<u8>,
    token: Seq<Seq<u8>>,
    none: Empty,
    open: Object,
)
    ensures
        payload_reads_back::<Vec<u8>>(payload),
        private_reads_back::<Empty>(none),
        private_reads_back::<OpenFields>(open),
        token.len() >= 1 && (forall|i: int| 0 <= i < token.len() ==> dotless(#[trigger] token[i]))
            ==> payload_reads_back::<crate::compact::Compact>(token),
{
    if token.len() >= 1 && (forall|i: int| 0 <= i < token.len() ==> dotless(#[trigger] token[i])) {
        lemma_split_join(token);
    }
}

/// Whatever the key, the options and the randomness, a token that encrypting
/// gives has exactly five segments.
pub proof fn law_five_segments<T: CompactPart, H: PrivateHeader>(
    header: HeaderView<H::V>,
    payload: T::V,
    key: KeyView,
    options: EncryptionOptionsView,
    fresh_key: Seq<u8>,
    fresh_nonce: Seq<u8>,
)
    ensures
        spec_encrypt::<T, H>(header, payload, key, options, fresh_key, fresh_nonce) matches Ok(
            parts,
        ) ==> parts.len() == PARTS,
{
}

/// A token whose header names other algorithms than the caller expects is
/// refused with `WrongAlgorithmHeader`, whatever the key: a header that was
/// rewritten cannot choose the algorithm under which the token is opened.
pub proof fn law_algorithm_confusion<T: CompactPart, H: PrivateHeader>(
    parts: Seq<Seq<u8>>,
    key: KeyView,
    header: HeaderView<H::V>,
    cek_alg: KeyManagementAlgorithm,
    enc_alg: ContentEncryptionAlgorithm,
)
    requires
        parts.len() == PARTS,
        spec_part::<Header<H>>(parts, 0) == Ok::<HeaderView<H::V>, Error>(header),
        spec_body(parts) is Ok,
        header.registered.cek_algorithm != cek_alg || header.registered.enc_algorithm != enc_alg,
    ensures
        spec_decrypt::<T, H>(parts, key, cek_alg, enc_alg) == Err::<
            (HeaderView<H::V>, T::V),
            Error,
        >(Error::ValidationError(ValidationError::WrongAlgorithmHeader)),
{
}

/// A token that does not have five segments is refused with
/// `PartsLengthError`, which tells how many there are.
pub proof fn law_segment_count<T: CompactPart, H: PrivateHeader>(
    parts: Seq<Seq<u8>>,
    key: KeyView,
    cek_alg: KeyManagementAlgorithm,
    enc_alg: ContentEncryptionAlgorithm,
)
    requires
        parts.len() != PARTS,
        parts.len() <= usize::MAX,
    ensures
        spec_decrypt::<T, H>(parts, key, cek_alg, enc_alg) == Err::<
            (HeaderView<H::V>, T::V),
            Error,
        >(
            Error::DecodeError(
                TokenError::PartsLengthError { expected: PARTS, actual: parts.len() as usize },
            ),
        ),
{
}

/// A wire text has one segment more than it has dots, so a text with other
/// than four dots is refused for its number of segments.
pub proof fn law_wire_segment_count<T: CompactPart, H: PrivateHeader>(
    wire: Seq<u8>,
    key: KeyView,
    cek_alg: KeyManagementAlgorithm,
    enc_alg: ContentEncryptionAlgorithm,
)
    requires
        count_dots(wire) != 4,
        count_dots(wire) < usize::MAX,
    ensures
        decrypt_outcome::<T, H>(CompactView::Encrypted(split(wire)), key, cek_alg, enc_alg) == Err::<
            CompactView<T::V, H::V>,
            Error,
        >(
            Error::DecodeError(
                TokenError::PartsLengthError {
                    expected: PARTS,
                    actual: (count_dots(wire) + 1) as usize,
                },
            ),
        ),
{
    lemma_split_shape(wire);
    law_segment_count::<T, H>(split(wire), key, cek_alg, enc_alg);
}

/// A header that names a compression is never encrypted, and once the
/// content-encryption key is come by and wrapped the refusal is
/// `UnsupportedOperation`.
pub proof fn law_compression_refused_encrypting<T: CompactPart, H: PrivateHeader>(
    header: HeaderView<H::V>,
    payload: T::V,
    key: KeyView,
    options: EncryptionOptionsView,
    fresh_key: Seq<u8>,
    fresh_nonce: Seq<u8>,
)
    requires
        header.registered.compression_algorithm is Some,
    ensures
        spec_encrypt::<T, H>(header, payload, key, options, fresh_key, fresh_nonce) is Err,
        wrapped_key(header, key, options, fresh_key) is Ok ==> spec_encrypt::<T, H>(
            header,
            payload,
            key,
            options,
            fresh_key,
            fresh_nonce,
        ) == Err::<Seq<Seq<u8>>, Error>(Error::UnsupportedOperation),
{
}

/// A token whose header names a compression is never opened, and once the
/// payload is decrypted the refusal is `UnsupportedOperation`.
pub proof fn law_compression_refused_decrypting<T: CompactPart, H: PrivateHeader>(
    parts: Seq<Seq<u8>>,
    key: KeyView,
    header: HeaderView<H::V>,
    body: Body,
)
    requires
        parts.len() == PARTS,
        spec_part::<Header<H>>(parts, 0) == Ok::<HeaderView<H::V>, Error>(header),
        spec_body(parts) == Ok::<Body, Error>(body),
        header.registered.compression_algorithm is Some,
    ensures
        forall|cek_alg: KeyManagementAlgorithm, enc_alg: ContentEncryptionAlgorithm|
            #[trigger] spec_decrypt::<T, H>(parts, key, cek_alg, enc_alg) is Err,
        decrypted_bytes(header, parts[0], body, key) is Ok ==> spec_decrypt::<T, H>(
            parts,
            key,
            header.registered.cek_algorithm,
            header.registered.enc_algorithm,
        ) == Err::<(HeaderView<H::V>, T::V), Error>(Error::UnsupportedOperation),
{
}

/// In direct mode the content-encryption key is the management key itself,
/// and the segment of the wrapped key stands for no bytes at all.
pub proof fn law_direct_mode<T: CompactPart, H: PrivateHeader>(
    header: HeaderView<H::V>,
    payload: T::V,
    key: KeyView,
    options: EncryptionOptionsView,
    fresh_key: Seq<u8>,
    fresh_nonce: Seq<u8>,
)
    requires
        header.registered.cek_algorithm == KeyManagementAlgorithm::DirectSymmetricKey,
    ensures
        wrapped_key(header, key, options, fresh_key) matches Ok(derived) ==> derived.0 == key
            && derived.1 == EncryptionResultView::empty(),
        spec_encrypt::<T, H>(header, payload, key, options, fresh_key, fresh_nonce) matches Ok(
            parts,
        ) ==> parts[1] == Seq::<u8>::empty() && spec_part_bytes(parts, 1) == Ok::<Seq<u8>, Error>(
            Seq::empty(),
        ),
{
    base64url::lemma_decode_encode(Seq::<u8>::empty());
    assert(base64url::encode(Seq::<u8>::empty()) =~= Seq::<u8>::empty());
}

} // verus!
