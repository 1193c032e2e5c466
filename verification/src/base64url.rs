//! Unpadded base64url (RFC 4648, section 5), the text form of every segment.

use crate::errors::Error;
use vstd::prelude::*;

verus! {

/// The decoder's own error, carried from the call to where it is mapped.
#[verifier::external_type_specification]
#[verifier::external_body]
pub struct ExDecodeError(data_encoding::DecodeError);

/// The character, as its ASCII code, that stands for the six-bit value `v`.
pub open spec fn symbol(v: int) -> u8 {
    if v < 26 {
        (65 + v) as u8
    } else if v < 52 {
        (71 + v) as u8
    } else if v < 62 {
        (v - 4) as u8
    } else if v == 62 {
        45u8
    } else {
        95u8
    }
}

/// Whether `c` is one of the 64 characters of the alphabet.
pub open spec fn is_symbol(c: u8) -> bool {
    (65 <= c <= 90) || (97 <= c <= 122) || (48 <= c <= 57) || c == 45 || c == 95
}

/// The high six bits of the first byte of a group.
pub open spec fn sextet0(b0: u8) -> int {
    b0 as int / 4
}

/// The low two bits of the first byte and the high four of the second.
pub open spec fn sextet1(b0: u8, b1: u8) -> int {
    b0 as int % 4 * 16 + b1 as int / 16
}

/// The low four bits of the second byte and the high two of the third.
pub open spec fn sextet2(b1: u8, b2: u8) -> int {
    b1 as int % 16 * 4 + b2 as int / 64
}

/// The low six bits of the third byte of a group.
pub open spec fn sextet3(b2: u8) -> int {
    b2 as int % 64
}

/// The text of `data`: three bytes give four characters, a last group of one
/// or two bytes gives two or three with the missing bits zero, and nothing is
/// padded.
pub open spec fn encode(data: Seq<u8>) -> Seq<u8>
    decreases data.len(),
{
    if data.len() == 0 {
        Seq::empty()
    } else if data.len() == 1 {
        seq![symbol(sextet0(data[0])), symbol(sextet1(data[0], 0))]
    } else if data.len() == 2 {
        seq![
            symbol(sextet0(data[0])),
            symbol(sextet1(data[0], data[1])),
            symbol(sextet2(data[1], 0)),
        ]
    } else {
        seq![
            symbol(sextet0(data[0])),
            symbol(sextet1(data[0], data[1])),
            symbol(sextet2(data[1], data[2])),
            symbol(sextet3(data[2])),
        ] + encode(data.skip(3))
    }
}

/// The bytes that `text` stands for, if it is the text of any.
pub open spec fn decode(text: Seq<u8>) -> Option<Seq<u8>> {
    if exists|data: Seq<u8>| encode(data) == text {
        Some(choose|data: Seq<u8>| encode(data) == text)
    } else {
        None
    }
}

/// The length of the text of `n` bytes.
pub open spec fn encoded_len(n: nat) -> nat {
    ((4 * n + 2) / 3) as nat
}

/// The text of `n` bytes has `encoded_len(n)` characters, all of the alphabet.
pub proof fn lemma_encode_shape(data: Seq<u8>)
    ensures
        encode(data).len() == encoded_len(data.len()),
        forall|i: int| 0 <= i < encode(data).len() ==> is_symbol(#[trigger] encode(data)[i]),
    decreases data.len(),
{
    if data.len() >= 3 {
        lemma_encode_shape(data.skip(3));
    }
}

/// `symbol` maps the 64 six-bit values to 64 different characters.
pub proof fn lemma_symbol_injective(a: int, b: int)
    requires
        0 <= a < 64,
        0 <= b < 64,
        symbol(a) == symbol(b),
    ensures
        a == b,
{
}

/// The first four characters of the text of three bytes or more, and the rest.
proof fn lemma_encode_group(data: Seq<u8>)
    requires
        data.len() >= 3,
    ensures
        encode(data).len() >= 4,
        encode(data)[0] == symbol(sextet0(data[0])),
        encode(data)[1] == symbol(sextet1(data[0], data[1])),
        encode(data)[2] == symbol(sextet2(data[1], data[2])),
        encode(data)[3] == symbol(sextet3(data[2])),
        encode(data).skip(4) == encode(data.skip(3)),
{
    let head = seq![
        symbol(sextet0(data[0])),
        symbol(sextet1(data[0], data[1])),
        symbol(sextet2(data[1], data[2])),
        symbol(sextet3(data[2])),
    ];
    assert(encode(data) == head + encode(data.skip(3)));
    assert((head + encode(data.skip(3))).skip(4) =~= encode(data.skip(3)));
}

/// Two byte strings with the same text are the same.
pub proof fn lemma_encode_injective(a: Seq<u8>, b: Seq<u8>)
    requires
        encode(a) == encode(b),
    ensures
        a == b,
    decreases a.len(),
{
    lemma_encode_shape(a);
    lemma_encode_shape(b);
    let ea = encode(a);
    let eb = encode(b);
    if a.len() == 0 {
        assert(b.len() == 0);
        assert(a =~= b);
    } else if a.len() == 1 {
        assert(b.len() == 1);
        assert(ea[0] == symbol(sextet0(a[0])) && eb[0] == symbol(sextet0(b[0])));
        assert(ea[1] == symbol(sextet1(a[0], 0)) && eb[1] == symbol(sextet1(b[0], 0)));
        lemma_symbol_injective(sextet0(a[0]), sextet0(b[0]));
        lemma_symbol_injective(sextet1(a[0], 0), sextet1(b[0], 0));
        assert(a =~= b);
    } else if a.len() == 2 {
        assert(b.len() == 2);
        assert(ea[0] == symbol(sextet0(a[0])) && eb[0] == symbol(sextet0(b[0])));
        assert(ea[1] == symbol(sextet1(a[0], a[1])) && eb[1] == symbol(sextet1(b[0], b[1])));
        assert(ea[2] == symbol(sextet2(a[1], 0)) && eb[2] == symbol(sextet2(b[1], 0)));
        lemma_symbol_injective(sextet0(a[0]), sextet0(b[0]));
        lemma_symbol_injective(sextet1(a[0], a[1]), sextet1(b[0], b[1]));
        lemma_symbol_injective(sextet2(a[1], 0), sextet2(b[1], 0));
        assert(a =~= b);
    } else {
        assert(b.len() >= 3);
        lemma_encode_group(a);
        lemma_encode_group(b);
        lemma_symbol_injective(sextet0(a[0]), sextet0(b[0]));
        lemma_symbol_injective(sextet1(a[0], a[1]), sextet1(b[0], b[1]));
        lemma_symbol_injective(sextet2(a[1], a[2]), sextet2(b[1], b[2]));
        lemma_symbol_injective(sextet3(a[2]), sextet3(b[2]));
        lemma_encode_injective(a.skip(3), b.skip(3));
        assert(a =~= seq![a[0], a[1], a[2]] + a.skip(3));
        assert(b =~= seq![b[0], b[1], b[2]] + b.skip(3));
    }
}

/// Decoding the text of `data` gives `data` back.
pub proof fn lemma_decode_encode(data: Seq<u8>)
    ensures
        decode(encode(data)) == Some(data),
{
    let found = choose|d: Seq<u8>| encode(d) == encode(data);
    lemma_encode_injective(found, data);
}

/// A text that decodes is the text of what it decodes to.
pub proof fn lemma_encode_decode(text: Seq<u8>)
    requires
        decode(text) is Some,
    ensures
        encode(decode(text)->0) == text,
{
}

/// The largest input for which the encoder documents that it does not panic.
pub open spec fn max_encode_len() -> int {
    usize::MAX as int / 512
}

/// The largest input for which the decoder documents that it does not panic.
pub open spec fn max_decode_len() -> int {
    usize::MAX as int / 8
}

/// `data_encoding::BASE64URL_NOPAD.encode`: the RFC 4648 text of `data` in the
/// URL-safe alphabet without padding, as bytes. Trusted.
#[verifier::external_body]
fn encode_unpadded(data: &[u8]) -> (text: Vec<u8>)
    requires
        data.len() <= max_encode_len(),
    ensures
        text@ == encode(data@),
{
    data_encoding::BASE64URL_NOPAD.encode(data).into_bytes()
}

/// `data_encoding::BASE64URL_NOPAD.decode`: the encoding is canonical, so the
/// decoder accepts exactly the texts that the encoder can produce, and what it
/// returns encodes to the text again. Trusted.
#[verifier::external_body]
fn decode_unpadded(text: &[u8]) -> (r: Result<Vec<u8>, data_encoding::DecodeError>)
    requires
        text.len() <= max_decode_len(),
    ensures
        match r {
            Ok(data) => encode(data@) == text@,
            Err(_) => forall|data: Seq<u8>| encode(data) != text@,
        },
{
    data_encoding::BASE64URL_NOPAD.decode(text)
}

/// Encodes `data`. Inputs beyond the encoder's documented limit are refused.
pub fn encode_bytes(data: &[u8]) -> (r: Result<Vec<u8>, Error>)
    ensures
        match r {
            Ok(text) => data.len() <= max_encode_len() && text@ == encode(data@),
            Err(e) => data.len() > max_encode_len() && e == Error::UnsupportedOperation,
        },
{
    if data.len() > usize::MAX / 512 {
        return Err(Error::UnsupportedOperation);
    }
    Ok(encode_unpadded(data))
}

/// What `decode_bytes` returns on `text`.
pub open spec fn spec_decode_bytes(text: Seq<u8>) -> Result<Seq<u8>, Error> {
    if text.len() <= max_decode_len() && decode(text) is Some {
        Ok(decode(text)->0)
    } else {
        Err(Error::DecodeBase64)
    }
}

/// Decodes `text`, which must be canonical: of the alphabet, of a possible
/// length, and with zero bits where the last character has bits to spare.
pub fn decode_bytes(text: &[u8]) -> (r: Result<Vec<u8>, Error>)
    ensures
        match r {
            Ok(data) => spec_decode_bytes(text@) == Ok::<Seq<u8>, Error>(data@),
            Err(e) => spec_decode_bytes(text@) == Err::<Seq<u8>, Error>(e),
        },
{
    if text.len() > usize::MAX / 8 {
        return Err(Error::DecodeBase64);
    }
    match decode_unpadded(text) {
        Ok(data) => {
            proof {
                lemma_decode_encode(data@);
            }
            Ok(data)
        },
        Err(_) => Err(Error::DecodeBase64),
    }
}

/// Decoding what `encode_bytes` made gives the bytes back.
pub proof fn lemma_decode_bytes_of_encoded(data: Seq<u8>)
    requires
        data.len() <= max_encode_len(),
    ensures
        spec_decode_bytes(encode(data)) == Ok::<Seq<u8>, Error>(data),
{
    lemma_decode_encode(data);
    lemma_encode_shape(data);
}

} // verus!
