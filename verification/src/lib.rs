//! JSON Web Encryption in its five-segment compact serialization.
//!
//! The crate comes by a content-encryption key and wraps it under a
//! key-management algorithm, authenticates the encoded header as additional
//! data, encrypts the payload and frames the result as
//! `header.key.nonce.ciphertext.tag`, each segment in unpadded base64url; and it
//! takes such a token apart again, refusing one whose header names other
//! algorithms than the caller expects.
//!
//! Every function carries a contract. Verus proves the contracts of the
//! library's own code; those of the few functions that call into the `ring`,
//! `serde_json` and `data_encoding` crates say what is believed of these
//! crates, and each says so.
//!
//! - `base64url`: the text form of a segment
//! - `compact`: segments joined by dots
//! - `json`: JSON objects as lists of members
//! - `jwk`: key material
//! - `jwa`: the algorithms
//! - `jwe`: the header and the engine
//! - `errors`: what can go wrong
//! - `text`: comparing strings

pub mod base64url;
pub mod compact;
pub mod errors;
pub mod json;
pub mod jwa;
pub mod jwe;
pub mod jwk;
pub mod text;
