//! Key material, as the algorithms take it.

use crate::errors::{Error, KeyType};
use vstd::prelude::*;
use vstd::slice::slice_to_vec;

verus! {

/// A key: the octets of a symmetric key, or an elliptic-curve key pair in its
/// PKCS#8 encoding.
#[derive(Debug, Clone, PartialEq, Eq)]
pub enum Key {
    /// A symmetric key.
    Octet(Vec<u8>),
    /// An elliptic-curve key pair, which the symmetric algorithms refuse.
    EllipticCurve(Vec<u8>),
}

/// What a `Key` holds.
pub enum KeyView {
    Octet(Seq<u8>),
    EllipticCurve(Seq<u8>),
}

impl KeyView {
    /// The kind of the key.
    pub open spec fn key_type(self) -> KeyType {
        match self {
            KeyView::Octet(_) => KeyType::Octet,
            KeyView::EllipticCurve(_) => KeyType::EllipticCurve,
        }
    }

    /// The octets of a symmetric key; any other key is of the wrong kind.
    pub open spec fn octet_key(self) -> Result<Seq<u8>, Error> {
        match self {
            KeyView::Octet(value) => Ok(value),
            KeyView::EllipticCurve(_) => Err(
                Error::WrongKeyType { expected: KeyType::Octet, actual: KeyType::EllipticCurve },
            ),
        }
    }
}

impl View for Key {
    type V = KeyView;

    open spec fn view(&self) -> KeyView {
        match self {
            Key::Octet(value) => KeyView::Octet(value@),
            Key::EllipticCurve(value) => KeyView::EllipticCurve(value@),
        }
    }
}

impl Key {
    /// A symmetric key with the given octets.
    pub fn new_octet_key(value: &[u8]) -> (key: Key)
        ensures
            key@ == KeyView::Octet(value@),
    {
        Key::Octet(slice_to_vec(value))
    }

    /// The kind of the key.
    pub fn key_type(&self) -> (kind: KeyType)
        ensures
            kind == self@.key_type(),
    {
        match self {
            Key::Octet(_) => KeyType::Octet,
            Key::EllipticCurve(_) => KeyType::EllipticCurve,
        }
    }

    /// The octets of a symmetric key.
    pub fn octet_key(&self) -> (r: Result<&[u8], Error>)
        ensures
            match r {
                Ok(value) => self@.octet_key() == Ok::<Seq<u8>, Error>(value@),
                Err(e) => self@.octet_key() == Err::<Seq<u8>, Error>(e),
            },
    {
        match self {
            Key::Octet(value) => Ok(value.as_slice()),
            Key::EllipticCurve(_) => Err(
                Error::WrongKeyType { expected: KeyType::Octet, actual: KeyType::EllipticCurve },
            ),
        }
    }

    /// A copy of the key.
    pub fn duplicate(&self) -> (key: Key)
        ensures
            key@ == self@,
    {
        match self {
            Key::Octet(value) => Key::Octet(slice_to_vec(value.as_slice())),
            Key::EllipticCurve(value) => Key::EllipticCurve(slice_to_vec(value.as_slice())),
        }
    }
}

} // verus!
