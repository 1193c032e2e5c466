//! The header of a token: the registered fields, the fields that the
//! key-management algorithm adds, and the caller's own. On the wire the three
//! groups are one flat JSON object; in memory they are apart.

use crate::compact::CompactPart;
use crate::errors::Error;
use crate::json::{
    all_plain_values, all_values, distinct_keys, json_object_members, json_object_text, json_value,
    lemma_object_keys, lemma_object_len, members_view, object_of, read_object, read_value,
    write_object, Member,
};
use crate::jwa::{
    ContentEncryptionAlgorithm, EncryptionResult, EncryptionResultView, KeyManagementAlgorithm,
};
use crate::jwe::fields::{
    bytes_read_back, copy_bytes, copy_members, copy_strings, copy_text, find, get_bytes,
    get_strings, get_text, push_optional_bytes, push_optional_strings, push_optional_text,
    push_text, put_bytes, put_strings, put_text, read_byte_list, read_text, read_text_list,
    strings_read_back, text_reads_back, Object,
};
use crate::jwe::keys::{
    all_unrecognized, is_recognized, lemma_keys, recognized, unrecognized, unrecognized_members,
};
use crate::text::same_text;
use vstd::prelude::*;
use vstd::slice::slice_to_vec;

verus! {

/// How the plaintext was compressed before it was encrypted. The library
/// compresses nothing: a header that names an algorithm is carried, and
/// encrypting or decrypting under it is refused.
#[derive(Debug, Clone, PartialEq, Eq)]
pub enum CompressionAlgorithm {
    /// DEFLATE, named `DEF`.
    Deflate,
    /// Another algorithm, under its own name.
    Other(String),
}

/// What a `CompressionAlgorithm` holds.
pub enum CompressionAlgorithmView {
    Deflate,
    Other(Seq<char>),
}

impl CompressionAlgorithmView {
    /// The algorithm's name in a header.
    pub open spec fn spec_name(self) -> Seq<char> {
        match self {
            CompressionAlgorithmView::Deflate => "DEF"@,
            CompressionAlgorithmView::Other(name) => name,
        }
    }

    /// The algorithm of a name: `DEF` is DEFLATE, and every other name stands
    /// for itself.
    pub open spec fn spec_from_name(name: Seq<char>) -> CompressionAlgorithmView {
        if name == "DEF"@ {
            CompressionAlgorithmView::Deflate
        } else {
            CompressionAlgorithmView::Other(name)
        }
    }

    /// Whether the algorithm is the one of its name: all are, but an `Other`
    /// that calls itself `DEF`.
    pub open spec fn canonical(self) -> bool {
        self != CompressionAlgorithmView::Other("DEF"@)
    }
}

impl View for CompressionAlgorithm {
    type V = CompressionAlgorithmView;

    open spec fn view(&self) -> CompressionAlgorithmView {
        match self {
            CompressionAlgorithm::Deflate => CompressionAlgorithmView::Deflate,
            CompressionAlgorithm::Other(name) => CompressionAlgorithmView::Other(name@),
        }
    }
}

impl CompressionAlgorithm {
    /// The algorithm's name in a header.
    pub fn name(&self) -> (name: String)
        ensures
            name@ == self@.spec_name(),
    {
        match self {
            CompressionAlgorithm::Deflate => "DEF".to_owned(),
            CompressionAlgorithm::Other(name) => name.clone(),
        }
    }

    /// The algorithm of a name.
    pub fn from_name(name: String) -> (algorithm: CompressionAlgorithm)
        ensures
            algorithm@ == CompressionAlgorithmView::spec_from_name(name@),
    {
        if same_text(name.as_str(), "DEF") {
            CompressionAlgorithm::Deflate
        } else {
            CompressionAlgorithm::Other(name)
        }
    }

    /// A copy of the algorithm.
    pub fn duplicate(&self) -> (algorithm: CompressionAlgorithm)
        ensures
            algorithm@ == self@,
    {
        match self {
            CompressionAlgorithm::Deflate => CompressionAlgorithm::Deflate,
            CompressionAlgorithm::Other(name) => CompressionAlgorithm::Other(name.clone()),
        }
    }
}

/// The registered fields of a header.
#[derive(Debug, Clone, PartialEq, Eq)]
pub struct RegisteredHeader {
    /// How the content-encryption key is come by (`alg`).
    pub cek_algorithm: KeyManagementAlgorithm,
    /// How the content is encrypted (`enc`).
    pub enc_algorithm: ContentEncryptionAlgorithm,
    /// How the plaintext was compressed (`zip`). Not supported: see
    /// `CompressionAlgorithm`.
    pub compression_algorithm: Option<CompressionAlgorithm>,
    /// The media type of the whole token (`typ`).
    pub media_type: Option<String>,
    /// The content type of the payload (`cty`), such as `JWT` for a nested token.
    pub content_type: Option<String>,
    /// Where the key set is found (`jku`). Carried as it is.
    pub web_key_url: Option<String>,
    /// The key (`jwk`). Carried as it is.
    pub web_key: Option<String>,
    /// The identifier of the key (`kid`). Carried as it is.
    pub key_id: Option<String>,
    /// Where the certificate is found (`x5u`). Carried as it is.
    pub x509_url: Option<String>,
    /// The certificate chain (`x5c`). Carried as it is.
    pub x509_chain: Option<Vec<String>>,
    /// The certificate's thumbprint (`x5t`). Carried as it is.
    pub x509_fingerprint: Option<String>,
    /// The extensions that the reader must understand (`crit`). Carried as it is: nothing here enforces it.
    pub critical: Option<Vec<String>>,
}

/// What a `RegisteredHeader` holds.
pub struct RegisteredHeaderView {
    pub cek_algorithm: KeyManagementAlgorithm,
    pub enc_algorithm: ContentEncryptionAlgorithm,
    pub compression_algorithm: Option<CompressionAlgorithmView>,
    pub media_type: Option<Seq<char>>,
    pub content_type: Option<Seq<char>>,
    pub web_key_url: Option<Seq<char>>,
    pub web_key: Option<Seq<char>>,
    pub key_id: Option<Seq<char>>,
    pub x509_url: Option<Seq<char>>,
    pub x509_chain: Option<Seq<Seq<char>>>,
    pub x509_fingerprint: Option<Seq<char>>,
    pub critical: Option<Seq<Seq<char>>>,
}

impl View for RegisteredHeader {
    type V = RegisteredHeaderView;

    open spec fn view(&self) -> RegisteredHeaderView {
        RegisteredHeaderView {
            cek_algorithm: self.cek_algorithm,
            enc_algorithm: self.enc_algorithm,
            compression_algorithm: match self.compression_algorithm {
                Some(algorithm) => Some(algorithm@),
                None => None,
            },
            media_type: self.media_type.deep_view(),
            content_type: self.content_type.deep_view(),
            web_key_url: self.web_key_url.deep_view(),
            web_key: self.web_key.deep_view(),
            key_id: self.key_id.deep_view(),
            x509_url: self.x509_url.deep_view(),
            x509_chain: self.x509_chain.deep_view(),
            x509_fingerprint: self.x509_fingerprint.deep_view(),
            critical: self.critical.deep_view(),
        }
    }
}

impl RegisteredHeaderView {
    /// The fields that a header has when only the algorithms are named.
    pub open spec fn of_algorithms(
        cek_algorithm: KeyManagementAlgorithm,
        enc_algorithm: ContentEncryptionAlgorithm,
    ) -> RegisteredHeaderView {
        RegisteredHeaderView {
            cek_algorithm,
            enc_algorithm,
            compression_algorithm: None,
            media_type: None,
            content_type: None,
            web_key_url: None,
            web_key: None,
            key_id: None,
            x509_url: None,
            x509_chain: None,
            x509_fingerprint: None,
            critical: None,
        }
    }

    /// The name of the compression algorithm, where one is set.
    pub open spec fn compression_name(self) -> Option<Seq<char>> {
        match self.compression_algorithm {
            Some(algorithm) => Some(algorithm.spec_name()),
            None => None,
        }
    }

    /// `object` with the fields put under their keys. A field that is not set
    /// puts nothing.
    pub open spec fn put(self, object: Object) -> Object {
        let object = put_text(object, "alg"@, Some(self.cek_algorithm.spec_name()));
        let object = put_text(object, "enc"@, Some(self.enc_algorithm.spec_name()));
        let object = put_text(object, "zip"@, self.compression_name());
        let object = put_text(object, "typ"@, self.media_type);
        let object = put_text(object, "cty"@, self.content_type);
        let object = put_text(object, "jku"@, self.web_key_url);
        let object = put_text(object, "jwk"@, self.web_key);
        let object = put_text(object, "kid"@, self.key_id);
        let object = put_text(object, "x5u"@, self.x509_url);
        let object = put_strings(object, "x5c"@, self.x509_chain);
        let object = put_text(object, "x5t"@, self.x509_fingerprint);
        put_strings(object, "crit"@, self.critical)
    }

    /// The algorithm under `alg`, which must be there and be a name.
    pub open spec fn read_cek_algorithm(object: Object) -> Option<KeyManagementAlgorithm> {
        match get_text(object, "alg"@) {
            Some(Some(name)) => KeyManagementAlgorithm::spec_from_name(name),
            _ => None,
        }
    }

    /// The algorithm under `enc`, which must be there and be a name.
    pub open spec fn read_enc_algorithm(object: Object) -> Option<ContentEncryptionAlgorithm> {
        match get_text(object, "enc"@) {
            Some(Some(name)) => ContentEncryptionAlgorithm::spec_from_name(name),
            _ => None,
        }
    }

    /// The algorithm under `zip`, where there is one.
    pub open spec fn read_compression(object: Object) -> Option<Option<CompressionAlgorithmView>> {
        match get_text(object, "zip"@) {
            Some(Some(name)) => Some(Some(CompressionAlgorithmView::spec_from_name(name))),
            Some(None) => Some(None),
            None => None,
        }
    }

    /// The fields that `object` holds under their keys, if each is of its
    /// kind and both algorithms are named.
    pub open spec fn read(object: Object) -> Option<RegisteredHeaderView> {
        if Self::read_cek_algorithm(object) is Some && Self::read_enc_algorithm(object) is Some
            && Self::read_compression(object) is Some
            && get_text(object, "typ"@) is Some
            && get_text(object, "cty"@) is Some
            && get_text(object, "jku"@) is Some
            && get_text(object, "jwk"@) is Some
            && get_text(object, "kid"@) is Some
            && get_text(object, "x5u"@) is Some
            && get_text(object, "x5t"@) is Some
            && get_strings(object, "x5c"@) is Some && get_strings(object, "crit"@) is Some {
            Some(
                RegisteredHeaderView {
                    cek_algorithm: Self::read_cek_algorithm(object)->0,
                    enc_algorithm: Self::read_enc_algorithm(object)->0,
                    compression_algorithm: Self::read_compression(object)->0,
                    media_type: get_text(object, "typ"@)->0,
                    content_type: get_text(object, "cty"@)->0,
                    web_key_url: get_text(object, "jku"@)->0,
                    web_key: get_text(object, "jwk"@)->0,
                    key_id: get_text(object, "kid"@)->0,
                    x509_url: get_text(object, "x5u"@)->0,
                    x509_chain: get_strings(object, "x5c"@)->0,
                    x509_fingerprint: get_text(object, "x5t"@)->0,
                    critical: get_strings(object, "crit"@)->0,
                },
            )
        } else {
            None
        }
    }

    /// Whether the text of each field reads back as the field.
    pub open spec fn reads_back(self) -> bool {
        &&& text_reads_back(Some(self.cek_algorithm.spec_name()))
        &&& text_reads_back(Some(self.enc_algorithm.spec_name()))
        &&& text_reads_back(self.compression_name())
        &&& text_reads_back(self.media_type)
        &&& text_reads_back(self.content_type)
        &&& text_reads_back(self.web_key_url)
        &&& text_reads_back(self.web_key)
        &&& text_reads_back(self.key_id)
        &&& text_reads_back(self.x509_url)
        &&& text_reads_back(self.x509_fingerprint)
        &&& strings_read_back(self.x509_chain)
        &&& strings_read_back(self.critical)
    }

    /// Whether the compression algorithm, where one is set, is the one of its
    /// name.
    pub open spec fn canonical(self) -> bool {
        self.compression_algorithm matches Some(algorithm) ==> algorithm.canonical()
    }
}

impl Default for RegisteredHeader {
    fn default() -> (header: RegisteredHeader)
        ensures
            header@ == RegisteredHeaderView::of_algorithms(
                KeyManagementAlgorithm::DirectSymmetricKey,
                ContentEncryptionAlgorithm::A128GCM,
            ),
    {
        RegisteredHeader {
            cek_algorithm: KeyManagementAlgorithm::DirectSymmetricKey,
            enc_algorithm: ContentEncryptionAlgorithm::A128GCM,
            compression_algorithm: None,
            media_type: None,
            content_type: None,
            web_key_url: None,
            web_key: None,
            key_id: None,
            x509_url: None,
            x509_chain: None,
            x509_fingerprint: None,
            critical: None,
        }
    }
}

impl RegisteredHeader {
    /// A copy of the fields.
    pub fn duplicate(&self) -> (header: RegisteredHeader)
        ensures
            header@ == self@,
    {
        RegisteredHeader {
            cek_algorithm: self.cek_algorithm,
            enc_algorithm: self.enc_algorithm,
            compression_algorithm: match &self.compression_algorithm {
                Some(algorithm) => Some(algorithm.duplicate()),
                None => None,
            },
            media_type: copy_text(&self.media_type),
            content_type: copy_text(&self.content_type),
            web_key_url: copy_text(&self.web_key_url),
            web_key: copy_text(&self.web_key),
            key_id: copy_text(&self.key_id),
            x509_url: copy_text(&self.x509_url),
            x509_chain: copy_strings(&self.x509_chain),
            x509_fingerprint: copy_text(&self.x509_fingerprint),
            critical: copy_strings(&self.critical),
        }
    }

    /// Appends the members that the fields make.
    pub(crate) fn push_members(&self, members: &mut Vec<Member>)
        ensures
            object_of(members_view(final(members)@)) == self@.put(
                object_of(members_view(old(members)@)),
            ),
            all_values(members_view(final(members)@)) <==> all_values(
                members_view(old(members)@),
            ),
            self@.reads_back(),
    {
        push_text(members, "alg", self.cek_algorithm.name());
        push_text(members, "enc", self.enc_algorithm.name());
        match &self.compression_algorithm {
            Some(algorithm) => {
                let name = algorithm.name();
                push_text(members, "zip", name.as_str());
            },
            None => {},
        }
        push_optional_text(members, "typ", &self.media_type);
        push_optional_text(members, "cty", &self.content_type);
        push_optional_text(members, "jku", &self.web_key_url);
        push_optional_text(members, "jwk", &self.web_key);
        push_optional_text(members, "kid", &self.key_id);
        push_optional_text(members, "x5u", &self.x509_url);
        push_optional_strings(members, "x5c", &self.x509_chain);
        push_optional_text(members, "x5t", &self.x509_fingerprint);
        push_optional_strings(members, "crit", &self.critical);
    }

    /// The fields that the members hold under their keys.
    pub(crate) fn read_members(members: &Vec<Member>) -> (r: Option<RegisteredHeader>)
        requires
            distinct_keys(members_view(members@)),
            all_plain_values(members_view(members@)),
        ensures
            match r {
                Some(header) => RegisteredHeaderView::read(object_of(members_view(members@)))
                    == Some(header@),
                None => RegisteredHeaderView::read(object_of(members_view(members@))) is None,
            },
    {
        let cek_algorithm = match read_text(members, "alg") {
            Some(Some(name)) => KeyManagementAlgorithm::from_name(name.as_str()),
            _ => None,
        };
        let enc_algorithm = match read_text(members, "enc") {
            Some(Some(name)) => ContentEncryptionAlgorithm::from_name(name.as_str()),
            _ => None,
        };
        let compression_algorithm = match read_text(members, "zip") {
            Some(Some(name)) => Some(Some(CompressionAlgorithm::from_name(name))),
            Some(None) => Some(None),
            None => None,
        };
        let media_type = read_text(members, "typ");
        let content_type = read_text(members, "cty");
        let web_key_url = read_text(members, "jku");
        let web_key = read_text(members, "jwk");
        let key_id = read_text(members, "kid");
        let x509_url = read_text(members, "x5u");
        let x509_chain = read_text_list(members, "x5c");
        let x509_fingerprint = read_text(members, "x5t");
        let critical = read_text_list(members, "crit");
        match (cek_algorithm, enc_algorithm, compression_algorithm, media_type, content_type) {
            (
                Some(cek_algorithm),
                Some(enc_algorithm),
                Some(compression_algorithm),
                Some(media_type),
                Some(content_type),
            ) => match (web_key_url, web_key, key_id, x509_url, x509_chain) {
                (Some(web_key_url), Some(web_key), Some(key_id), Some(x509_url), Some(x509_chain)) => {
                    match (x509_fingerprint, critical) {
                        (Some(x509_fingerprint), Some(critical)) => Some(
                            RegisteredHeader {
                                cek_algorithm,
                                enc_algorithm,
                                compression_algorithm,
                                media_type,
                                content_type,
                                web_key_url,
                                web_key,
                                key_id,
                                x509_url,
                                x509_chain,
                                x509_fingerprint,
                                critical,
                            },
                        ),
                        _ => None,
                    }
                },
                _ => None,
            },
            _ => None,
        }
    }
}

/// The fields that the key-management algorithm adds to a header. They are
/// filled in while a token is encrypted and taken out again when it is
/// decrypted: a caller has no need to set them.
#[derive(Debug, Clone, PartialEq, Eq)]
pub struct CekAlgorithmHeader {
    /// The nonce under which the content-encryption key was wrapped (`iv`).
    pub nonce: Option<Vec<u8>>,
    /// The authentication tag of the wrapped key (`tag`).
    pub tag: Option<Vec<u8>>,
}

/// What a `CekAlgorithmHeader` holds.
pub struct CekAlgorithmHeaderView {
    pub nonce: Option<Seq<u8>>,
    pub tag: Option<Seq<u8>>,
}

impl View for CekAlgorithmHeader {
    type V = CekAlgorithmHeaderView;

    open spec fn view(&self) -> CekAlgorithmHeaderView {
        CekAlgorithmHeaderView { nonce: self.nonce.deep_view(), tag: self.tag.deep_view() }
    }
}

impl CekAlgorithmHeaderView {
    /// The fields with nothing set.
    pub open spec fn empty() -> CekAlgorithmHeaderView {
        CekAlgorithmHeaderView { nonce: None, tag: None }
    }

    /// `object` with the fields put under their keys.
    pub open spec fn put(self, object: Object) -> Object {
        put_bytes(put_bytes(object, "iv"@, self.nonce), "tag"@, self.tag)
    }

    /// The fields that `object` holds under their keys, if each is a list of
    /// bytes.
    pub open spec fn read(object: Object) -> Option<CekAlgorithmHeaderView> {
        if get_bytes(object, "iv"@) is Some && get_bytes(object, "tag"@) is Some {
            Some(
                CekAlgorithmHeaderView {
                    nonce: get_bytes(object, "iv"@)->0,
                    tag: get_bytes(object, "tag"@)->0,
                },
            )
        } else {
            None
        }
    }

    /// Whether the text of each field reads back as the field.
    pub open spec fn reads_back(self) -> bool {
        bytes_read_back(self.nonce) && bytes_read_back(self.tag)
    }

    /// The fields after a key was wrapped: the nonce and the tag of the
    /// result replace what was set, where the result has any.
    pub open spec fn updated(self, encrypted: EncryptionResultView) -> CekAlgorithmHeaderView {
        CekAlgorithmHeaderView {
            nonce: if encrypted.nonce.len() > 0 {
                Some(encrypted.nonce)
            } else {
                self.nonce
            },
            tag: if encrypted.tag.len() > 0 {
                Some(encrypted.tag)
            } else {
                self.tag
            },
        }
    }

    /// The encryption result that the fields and a wrapped key make up: a
    /// field that is not set counts as empty, and no additional data was
    /// authenticated.
    pub open spec fn encryption_result(self, wrapped: Seq<u8>) -> EncryptionResultView {
        EncryptionResultView {
            nonce: match self.nonce {
                Some(nonce) => nonce,
                None => Seq::empty(),
            },
            encrypted: wrapped,
            tag: match self.tag {
                Some(tag) => tag,
                None => Seq::empty(),
            },
            additional_data: Seq::empty(),
        }
    }
}

impl Default for CekAlgorithmHeader {
    fn default() -> (header: CekAlgorithmHeader)
        ensures
            header@ == CekAlgorithmHeaderView::empty(),
    {
        CekAlgorithmHeader { nonce: None, tag: None }
    }
}

impl CekAlgorithmHeader {
    /// A copy of the fields.
    pub fn duplicate(&self) -> (header: CekAlgorithmHeader)
        ensures
            header@ == self@,
    {
        CekAlgorithmHeader { nonce: copy_bytes(&self.nonce), tag: copy_bytes(&self.tag) }
    }

    /// Appends the members that the fields make.
    pub(crate) fn push_members(&self, members: &mut Vec<Member>)
        ensures
            object_of(members_view(final(members)@)) == self@.put(
                object_of(members_view(old(members)@)),
            ),
            all_values(members_view(final(members)@)) <==> all_values(
                members_view(old(members)@),
            ),
            self@.reads_back(),
    {
        push_optional_bytes(members, "iv", &self.nonce);
        push_optional_bytes(members, "tag", &self.tag);
    }

    /// The fields that the members hold under their keys.
    pub(crate) fn read_members(members: &Vec<Member>) -> (r: Option<CekAlgorithmHeader>)
        requires
            distinct_keys(members_view(members@)),
            all_plain_values(members_view(members@)),
        ensures
            match r {
                Some(header) => CekAlgorithmHeaderView::read(object_of(members_view(members@)))
                    == Some(header@),
                None => CekAlgorithmHeaderView::read(object_of(members_view(members@))) is None,
            },
    {
        let nonce = read_byte_list(members, "iv");
        let tag = read_byte_list(members, "tag");
        match (nonce, tag) {
            (Some(nonce), Some(tag)) => Some(CekAlgorithmHeader { nonce, tag }),
            _ => None,
        }
    }
}

/// The caller's own fields of a header: a type that gives its members and is
/// read from the members of an object that no other group claims.
pub trait PrivateHeader: Sized + View {
    /// The object that the fields make: from each key to the JSON text of its
    /// value.
    spec fn spec_object(value: Self::V) -> Object;

    /// The fields that are read from `object`, if it holds what they need.
    spec fn spec_from_object(object: Object) -> Option<Self::V>;

    /// The members that the fields make: each key once, and each value one
    /// JSON value with nothing around it.
    fn to_members(&self) -> (members: Vec<Member>)
        ensures
            distinct_keys(members_view(members@)),
            all_plain_values(members_view(members@)),
            object_of(members_view(members@)) == Self::spec_object(self@),
    ;

    /// The fields that `members` hold. No recognized key is among them.
    fn from_members(members: &Vec<Member>) -> (r: Option<Self>)
        requires
            distinct_keys(members_view(members@)),
            all_plain_values(members_view(members@)),
        ensures
            match r {
                Some(value) => Self::spec_from_object(object_of(members_view(members@))) == Some(
                    value@,
                ),
                None => Self::spec_from_object(object_of(members_view(members@))) is None,
            },
    ;

    /// A copy of the fields.
    fn duplicate(&self) -> (copy: Self)
        ensures
            copy@ == self@,
    ;
}

/// No fields of the caller's own. Members that nothing recognizes are passed
/// over when a header of this kind is read.
#[derive(Debug, Clone, Copy, PartialEq, Eq, Structural)]
pub struct Empty {}

impl View for Empty {
    type V = Empty;

    open spec fn view(&self) -> Empty {
        *self
    }
}

impl Default for Empty {
    fn default() -> (empty: Empty)
        ensures
            empty == (Empty {  }),
    {
        Empty {  }
    }
}

impl PrivateHeader for Empty {
    open spec fn spec_object(value: Empty) -> Object {
        Map::empty()
    }

    open spec fn spec_from_object(object: Object) -> Option<Empty> {
        Some(Empty {  })
    }

    fn to_members(&self) -> (members: Vec<Member>) {
        Vec::new()
    }

    fn from_members(members: &Vec<Member>) -> (r: Option<Empty>) {
        Some(Empty {  })
    }

    fn duplicate(&self) -> (copy: Empty) {
        Empty {  }
    }
}

/// The caller's own fields kept as they stand on the wire: every member that
/// no other group claims, under its key, as the JSON text of its value. No
/// key occurs twice, and every value is one JSON value with nothing around
/// it.
#[derive(Debug, PartialEq, Eq)]
pub struct OpenFields {
    members: Vec<Member>,
}

impl Clone for OpenFields {
    fn clone(&self) -> (copy: OpenFields)
        ensures
            copy@ == self@,
    {
        proof {
            use_type_invariant(self);
        }
        OpenFields { members: copy_members(&self.members) }
    }
}

impl View for OpenFields {
    type V = Object;

    closed spec fn view(&self) -> Object {
        object_of(members_view(self.members@))
    }
}

impl OpenFields {
    #[verifier::type_invariant]
    spec fn well_formed(self) -> bool {
        distinct_keys(members_view(self.members@)) && all_plain_values(
            members_view(self.members@),
        )
    }

    /// No fields.
    pub fn new() -> (fields: OpenFields)
        ensures
            fields@ == Map::<Seq<char>, Seq<char>>::empty(),
    {
        OpenFields { members: Vec::new() }
    }

    /// The fields that `members` make, if no key occurs twice among them and
    /// every value is one JSON value with nothing around it.
    pub fn from_list(members: Vec<Member>) -> (r: Option<OpenFields>)
        ensures
            match r {
                Some(fields) => {
                    &&& distinct_keys(members_view(members@))
                    &&& all_plain_values(members_view(members@))
                    &&& fields@ == object_of(members_view(members@))
                },
                None => !distinct_keys(members_view(members@)) || !all_plain_values(
                    members_view(members@),
                ),
            },
    {
        let ghost all = members_view(members@);
        let mut i: usize = 0;
        while i < members.len()
            invariant
                i <= members.len(),
                all == members_view(members@),
                forall|a: int, b: int| 0 <= a < b < i ==> (#[trigger] all[a]).0 != (#[trigger] all[b]).0,
                forall|a: int| 0 <= a < i ==> json_value(#[trigger] all[a].1) == Some(all[a].1),
            decreases members.len() - i,
        {
            match read_value(members[i].value.as_str()) {
                Some(value) => {
                    if !same_text(value.as_str(), members[i].value.as_str()) {
                        assert(json_value(all[i as int].1) != Some(all[i as int].1));
                        return None;
                    }
                },
                None => {
                    assert(json_value(all[i as int].1) != Some(all[i as int].1));
                    return None;
                },
            }
            let mut j: usize = 0;
            while j < i
                invariant
                    j <= i,
                    i < members.len(),
                    all == members_view(members@),
                    forall|a: int| 0 <= a < j ==> (#[trigger] all[a]).0 != all[i as int].0,
                decreases i - j,
            {
                if same_text(members[j].key.as_str(), members[i].key.as_str()) {
                    assert(all[j as int].0 == all[i as int].0);
                    return None;
                }
                j += 1;
            }
            i += 1;
        }
        Some(OpenFields { members })
    }

    /// The number of fields.
    pub fn len(&self) -> (len: usize)
        ensures
            len == self@.dom().len(),
    {
        proof {
            use_type_invariant(self);
            lemma_object_len(members_view(self.members@));
        }
        self.members.len()
    }

    /// The JSON text of the value under `key`, if there is one.
    pub fn get(&self, key: &str) -> (r: Option<String>)
        ensures
            r.deep_view() == if self@.dom().contains(key@) {
                Some(self@[key@])
            } else {
                None
            },
    {
        proof {
            use_type_invariant(self);
        }
        match find(&self.members, key) {
            Some(i) => Some(self.members[i].value.clone()),
            None => None,
        }
    }

    /// The members that the fields are, in their order.
    pub fn members(&self) -> (members: Vec<Member>)
        ensures
            distinct_keys(members_view(members@)),
            all_plain_values(members_view(members@)),
            object_of(members_view(members@)) == self@,
    {
        proof {
            use_type_invariant(self);
        }
        copy_members(&self.members)
    }
}

impl PrivateHeader for OpenFields {
    open spec fn spec_object(value: Object) -> Object {
        value
    }

    open spec fn spec_from_object(object: Object) -> Option<Object> {
        Some(object)
    }

    fn to_members(&self) -> (members: Vec<Member>) {
        self.members()
    }

    fn from_members(members: &Vec<Member>) -> (r: Option<OpenFields>) {
        Some(OpenFields { members: copy_members(members) })
    }

    fn duplicate(&self) -> (copy: OpenFields) {
        proof {
            use_type_invariant(self);
        }
        OpenFields { members: copy_members(&self.members) }
    }
}

/// Whether the caller's own fields can stand in a header: none of them under
/// a recognized key.
pub open spec fn private_fits<H: PrivateHeader>(value: H::V) -> bool {
    all_unrecognized(H::spec_object(value))
}

/// Whether the caller's own fields are read back from the object that they
/// make.
pub open spec fn private_reads_back<H: PrivateHeader>(value: H::V) -> bool {
    H::spec_from_object(H::spec_object(value)) == Some(value)
}

/// A header: the registered fields, the key-management fields and the
/// caller's own.
#[derive(Debug, Clone, PartialEq, Eq)]
pub struct Header<T> {
    /// The registered fields.
    pub registered: RegisteredHeader,
    /// The fields of the key-management algorithm.
    pub cek_algorithm: CekAlgorithmHeader,
    /// The caller's own fields.
    pub private: T,
}

/// What a `Header` holds.
pub struct HeaderView<P> {
    pub registered: RegisteredHeaderView,
    pub cek_algorithm: CekAlgorithmHeaderView,
    pub private: P,
}

impl<P> HeaderView<P> {
    /// The header without its key-management fields.
    pub open spec fn stripped(self) -> HeaderView<P> {
        HeaderView { cek_algorithm: CekAlgorithmHeaderView::empty(), ..self }
    }

    /// The header after a key was wrapped.
    pub open spec fn updated(self, encrypted: EncryptionResultView) -> HeaderView<P> {
        HeaderView { cek_algorithm: self.cek_algorithm.updated(encrypted), ..self }
    }
}

impl<T: View> View for Header<T> {
    type V = HeaderView<T::V>;

    open spec fn view(&self) -> HeaderView<T::V> {
        HeaderView {
            registered: self.registered@,
            cek_algorithm: self.cek_algorithm@,
            private: self.private@,
        }
    }
}

/// The object that a header makes: the caller's own fields, and the other
/// fields under their keys.
pub open spec fn header_object<H: PrivateHeader>(header: HeaderView<H::V>) -> Object {
    header.cek_algorithm.put(header.registered.put(H::spec_object(header.private)))
}

/// The JSON text of a header. A header whose own fields do not fit has none.
pub open spec fn header_to_bytes<H: PrivateHeader>(header: HeaderView<H::V>) -> Result<
    Seq<u8>,
    Error,
> {
    if private_fits::<H>(header.private) {
        Ok(json_object_text(header_object::<H>(header)))
    } else {
        Err(Error::JsonError)
    }
}

/// The header that `object` holds: each recognized key goes to the group that
/// owns it, and what stands under the other keys goes to the caller's own
/// fields.
pub open spec fn header_read<H: PrivateHeader>(object: Object) -> Option<HeaderView<H::V>> {
    if RegisteredHeaderView::read(object) is Some && CekAlgorithmHeaderView::read(object) is Some
        && H::spec_from_object(unrecognized(object)) is Some {
        Some(
            HeaderView {
                registered: RegisteredHeaderView::read(object)->0,
                cek_algorithm: CekAlgorithmHeaderView::read(object)->0,
                private: H::spec_from_object(unrecognized(object))->0,
            },
        )
    } else {
        None
    }
}

/// The header that `bytes` are the JSON text of.
pub open spec fn header_from_bytes<H: PrivateHeader>(bytes: Seq<u8>) -> Result<
    HeaderView<H::V>,
    Error,
> {
    match json_object_members(bytes) {
        Some(object) => match header_read::<H>(object) {
            Some(header) => Ok(header),
            None => Err(Error::JsonError),
        },
        None => Err(Error::JsonError),
    }
}

/// Whether a header is read back from the text that it makes: the text of
/// each field reads back, the compression algorithm is the one of its name,
/// and the caller's own fields are read back from what they make.
pub open spec fn header_reads_back<H: PrivateHeader>(header: HeaderView<H::V>) -> bool {
    &&& header.registered.reads_back()
    &&& header.registered.canonical()
    &&& header.cek_algorithm.reads_back()
    &&& private_reads_back::<H>(header.private)
}

/// Putting the registered fields changes nothing under other keys.
proof fn lemma_registered_frame(header: RegisteredHeaderView, base: Object, key: Seq<char>)
    requires
        !is_recognized(key) || key == "iv"@ || key == "tag"@,
    ensures
        header.put(base).dom().contains(key) == base.dom().contains(key),
        base.dom().contains(key) ==> header.put(base)[key] == base[key],
{
    lemma_keys();
}

/// The registered fields are read back from an object that they were put
/// into, whatever stands under other keys.
proof fn lemma_registered_reads_back(header: RegisteredHeaderView, base: Object)
    requires
        header.reads_back(),
        header.canonical(),
        all_unrecognized(base),
    ensures
        RegisteredHeaderView::read(header.put(base)) == Some(header),
{
    lemma_keys();
    header.cek_algorithm.lemma_name_round_trip();
    header.enc_algorithm.lemma_name_round_trip();
    let object = header.put(base);
    assert(!base.dom().contains("alg"@) && !base.dom().contains("enc"@) && !base.dom().contains(
        "zip"@,
    ) && !base.dom().contains("typ"@) && !base.dom().contains("cty"@) && !base.dom().contains(
        "jku"@,
    ) && !base.dom().contains("jwk"@) && !base.dom().contains("kid"@) && !base.dom().contains(
        "x5u"@,
    ) && !base.dom().contains("x5c"@) && !base.dom().contains("x5t"@) && !base.dom().contains(
        "crit"@,
    )) by {
        assert(is_recognized("alg"@) && is_recognized("enc"@) && is_recognized("zip"@)
            && is_recognized("typ"@) && is_recognized("cty"@) && is_recognized("jku"@)
            && is_recognized("jwk"@) && is_recognized("kid"@) && is_recognized("x5u"@)
            && is_recognized("x5c"@) && is_recognized("x5t"@) && is_recognized("crit"@));
    }
    assert(RegisteredHeaderView::read_cek_algorithm(object) == Some(header.cek_algorithm));
    assert(RegisteredHeaderView::read_enc_algorithm(object) == Some(header.enc_algorithm));
    assert(RegisteredHeaderView::read_compression(object) == Some(header.compression_algorithm));
    assert(get_text(object, "typ"@) == Some(header.media_type));
    assert(get_text(object, "cty"@) == Some(header.content_type));
    assert(get_text(object, "jku"@) == Some(header.web_key_url));
    assert(get_text(object, "jwk"@) == Some(header.web_key));
    assert(get_text(object, "kid"@) == Some(header.key_id));
    assert(get_text(object, "x5u"@) == Some(header.x509_url));
    assert(get_strings(object, "x5c"@) == Some(header.x509_chain));
    assert(get_text(object, "x5t"@) == Some(header.x509_fingerprint));
    assert(get_strings(object, "crit"@) == Some(header.critical));
}

/// Putting the key-management fields changes nothing under other keys.
proof fn lemma_cek_frame(header: CekAlgorithmHeaderView, base: Object, key: Seq<char>)
    requires
        key != "iv"@,
        key != "tag"@,
    ensures
        header.put(base).dom().contains(key) == base.dom().contains(key),
        base.dom().contains(key) ==> header.put(base)[key] == base[key],
{
}

/// The key-management fields are read back from an object that they were put
/// into, if nothing stood under their keys.
proof fn lemma_cek_reads_back(header: CekAlgorithmHeaderView, base: Object)
    requires
        header.reads_back(),
        !base.dom().contains("iv"@),
        !base.dom().contains("tag"@),
    ensures
        CekAlgorithmHeaderView::read(header.put(base)) == Some(header),
{
    lemma_keys();
    let object = header.put(base);
    assert(get_bytes(object, "iv"@) == Some(header.nonce));
    assert(get_bytes(object, "tag"@) == Some(header.tag));
}

/// Two objects that hold the same under the keys of the registered fields
/// give the same registered fields.
proof fn lemma_registered_read_frame(left: Object, right: Object)
    requires
        forall|key: Seq<char>|
            is_recognized(key) && key != "iv"@ && key != "tag"@ ==> (#[trigger] left.dom().contains(
                key,
            ) == right.dom().contains(key) && (left.dom().contains(key) ==> left[key]
                == right[key])),
    ensures
        RegisteredHeaderView::read(left) == RegisteredHeaderView::read(right),
{
    lemma_keys();
    assert(get_text(left, "alg"@) == get_text(right, "alg"@));
    assert(get_text(left, "enc"@) == get_text(right, "enc"@));
    assert(get_text(left, "zip"@) == get_text(right, "zip"@));
    assert(get_text(left, "typ"@) == get_text(right, "typ"@));
    assert(get_text(left, "cty"@) == get_text(right, "cty"@));
    assert(get_text(left, "jku"@) == get_text(right, "jku"@));
    assert(get_text(left, "jwk"@) == get_text(right, "jwk"@));
    assert(get_text(left, "kid"@) == get_text(right, "kid"@));
    assert(get_text(left, "x5u"@) == get_text(right, "x5u"@));
    assert(get_strings(left, "x5c"@) == get_strings(right, "x5c"@));
    assert(get_text(left, "x5t"@) == get_text(right, "x5t"@));
    assert(get_strings(left, "crit"@) == get_strings(right, "crit"@));
}

/// A header is read back from the object that it makes.
pub proof fn lemma_header_reads_back<H: PrivateHeader>(header: HeaderView<H::V>)
    requires
        header_reads_back::<H>(header),
        private_fits::<H>(header.private),
    ensures
        header_read::<H>(header_object::<H>(header)) == Some(header),
{
    let base = H::spec_object(header.private);
    let middle = header.registered.put(base);
    let object = header.cek_algorithm.put(middle);
    lemma_registered_reads_back(header.registered, base);
    assert(!middle.dom().contains("iv"@) && !middle.dom().contains("tag"@)) by {
        lemma_registered_frame(header.registered, base, "iv"@);
        lemma_registered_frame(header.registered, base, "tag"@);
        assert(is_recognized("iv"@) && is_recognized("tag"@));
    }
    lemma_cek_reads_back(header.cek_algorithm, middle);
    assert(RegisteredHeaderView::read(object) == RegisteredHeaderView::read(middle)) by {
        assert forall|key: Seq<char>|
            is_recognized(key) && key != "iv"@ && key != "tag"@ implies (
        #[trigger] object.dom().contains(key) == middle.dom().contains(key) && (
        object.dom().contains(key) ==> object[key] == middle[key])) by {
            lemma_cek_frame(header.cek_algorithm, middle, key);
        }
        lemma_registered_read_frame(object, middle);
    }
    assert(unrecognized(object) =~= base) by {
        assert forall|key: Seq<char>| !is_recognized(key) implies (#[trigger] object.dom().contains(
            key,
        ) == base.dom().contains(key) && (base.dom().contains(key) ==> object[key]
            == base[key])) by {
            assert(key != "iv"@ && key != "tag"@);
            lemma_cek_frame(header.cek_algorithm, middle, key);
            lemma_registered_frame(header.registered, base, key);
        }
    }
}

impl Header<Empty> {
    /// A header with the registered fields given and nothing else set.
    pub fn from_registered_header(registered: RegisteredHeader) -> (header: Header<Empty>)
        ensures
            header == (Header {
                registered,
                cek_algorithm: CekAlgorithmHeader { nonce: None, tag: None },
                private: Empty {  },
            }),
    {
        Header {
            registered,
            cek_algorithm: CekAlgorithmHeader { nonce: None, tag: None },
            private: Empty {  },
        }
    }
}

impl From<RegisteredHeader> for Header<Empty> {
    fn from(registered: RegisteredHeader) -> (header: Header<Empty>) {
        Header::from_registered_header(registered)
    }
}

impl vstd::std_specs::convert::FromSpecImpl<RegisteredHeader> for Header<Empty> {
    open spec fn obeys_from_spec() -> bool {
        true
    }

    open spec fn from_spec(registered: RegisteredHeader) -> Header<Empty> {
        Header {
            registered,
            cek_algorithm: CekAlgorithmHeader { nonce: None, tag: None },
            private: Empty {  },
        }
    }
}

impl<H: PrivateHeader> Header<H> {
    /// A copy of the header.
    pub fn duplicate(&self) -> (header: Header<H>)
        ensures
            header@ == self@,
    {
        Header {
            registered: self.registered.duplicate(),
            cek_algorithm: self.cek_algorithm.duplicate(),
            private: self.private.duplicate(),
        }
    }

    /// Takes the nonce and the tag of a wrapped key into the key-management
    /// fields. A result without one of them, as direct mode gives it, leaves
    /// that field as it is.
    pub fn update_cek_algorithm(&mut self, encrypted: &EncryptionResult)
        ensures
            final(self)@ == old(self)@.updated(encrypted@),
    {
        if encrypted.nonce.len() > 0 {
            let nonce = slice_to_vec(encrypted.nonce.as_slice());
            assert(nonce.deep_view() =~= encrypted.nonce@);
            self.cek_algorithm.nonce = Some(nonce);
        }
        if encrypted.tag.len() > 0 {
            let tag = slice_to_vec(encrypted.tag.as_slice());
            assert(tag.deep_view() =~= encrypted.tag@);
            self.cek_algorithm.tag = Some(tag);
        }
    }

    /// Makes the encryption result that stands for the wrapped key out of
    /// the key-management fields, and clears those fields: a header that is
    /// handed to the caller never carries them.
    pub fn extract_cek_encryption_result(&mut self, encrypted_payload: &[u8]) -> (result:
        EncryptionResult)
        ensures
            result@ == old(self)@.cek_algorithm.encryption_result(encrypted_payload@),
            final(self)@ == old(self)@.stripped(),
    {
        let nonce = match &self.cek_algorithm.nonce {
            Some(nonce) => {
                assert(nonce.deep_view() =~= nonce@);
                slice_to_vec(nonce.as_slice())
            },
            None => Vec::new(),
        };
        let tag = match &self.cek_algorithm.tag {
            Some(tag) => {
                assert(tag.deep_view() =~= tag@);
                slice_to_vec(tag.as_slice())
            },
            None => Vec::new(),
        };
        let result = EncryptionResult {
            encrypted: slice_to_vec(encrypted_payload),
            nonce,
            tag,
            additional_data: Vec::new(),
        };
        self.cek_algorithm = CekAlgorithmHeader::default();
        result
    }

    /// The JSON text of the header: one object with every field that is set
    /// under its key, the keys in their order as strings. It reads back as the
    /// header where the compression algorithm is the one of its name and the
    /// caller's own fields are read back from what they make. A header whose
    /// own fields use a recognized key has no text.
    pub fn encode(&self) -> (r: Result<Vec<u8>, Error>)
        ensures
            match r {
                Ok(bytes) => header_to_bytes::<H>(self@) == Ok::<Seq<u8>, Error>(bytes@),
                Err(e) => header_to_bytes::<H>(self@) == Err::<Seq<u8>, Error>(e),
            },
            r matches Ok(bytes) ==> json_object_members(bytes@) == Some(header_object::<H>(self@)),
            r matches Ok(bytes) ==> (self@.registered.canonical() && private_reads_back::<H>(
                self@.private,
            ) ==> header_from_bytes::<H>(bytes@) == Ok::<HeaderView<H::V>, Error>(self@)),
    {
        let mut members = self.private.to_members();
        let ghost private = members_view(members@);
        let mut i: usize = 0;
        while i < members.len()
            invariant
                i <= members.len(),
                private == members_view(members@),
                object_of(private) == H::spec_object(self@.private),
                forall|j: int| 0 <= j < i ==> !is_recognized((#[trigger] private[j]).0),
            decreases members.len() - i,
        {
            if recognized(members[i].key.as_str()) {
                proof {
                    lemma_object_keys(private, private[i as int].0);
                }
                return Err(Error::JsonError);
            }
            i += 1;
        }
        proof {
            assert forall|key: Seq<char>| object_of(private).dom().contains(key) implies
                !is_recognized(key) by {
                lemma_object_keys(private, key);
                let j = choose|j: int| 0 <= j < private.len() && (#[trigger] private[j]).0 == key;
                assert(!is_recognized(private[j].0));
            }
            assert forall|j: int| 0 <= j < private.len() implies json_value(
                #[trigger] private[j].1,
            ) is Some by {
                assert(json_value(private[j].1) == Some(private[j].1));
            }
        }
        self.registered.push_members(&mut members);
        self.cek_algorithm.push_members(&mut members);
        match write_object(&members) {
            Some(bytes) => {
                proof {
                    if self@.registered.canonical() && private_reads_back::<H>(self@.private) {
                        lemma_header_reads_back::<H>(self@);
                    }
                }
                Ok(bytes)
            },
            None => Err(Error::JsonError),
        }
    }

    /// The header that `bytes` are the JSON text of.
    pub fn decode(bytes: &[u8]) -> (r: Result<Header<H>, Error>)
        ensures
            match r {
                Ok(header) => header_from_bytes::<H>(bytes@) == Ok::<HeaderView<H::V>, Error>(
                    header@,
                ),
                Err(e) => header_from_bytes::<H>(bytes@) == Err::<HeaderView<H::V>, Error>(e),
            },
    {
        let members = match read_object(bytes) {
            Some(members) => members,
            None => { return Err(Error::JsonError); },
        };
        let registered = RegisteredHeader::read_members(&members);
        let cek_algorithm = CekAlgorithmHeader::read_members(&members);
        let rest = unrecognized_members(&members);
        let private = H::from_members(&rest);
        match (registered, cek_algorithm, private) {
            (Some(registered), Some(cek_algorithm), Some(private)) => Ok(
                Header { registered, cek_algorithm, private },
            ),
            _ => Err(Error::JsonError),
        }
    }
}

impl<H: PrivateHeader> CompactPart for Header<H> {
    open spec fn spec_to_bytes(value: HeaderView<H::V>) -> Result<Seq<u8>, Error> {
        header_to_bytes::<H>(value)
    }

    open spec fn spec_from_bytes(bytes: Seq<u8>) -> Result<HeaderView<H::V>, Error> {
        header_from_bytes::<H>(bytes)
    }

    fn to_bytes(&self) -> (r: Result<Vec<u8>, Error>) {
        self.encode()
    }

    fn from_bytes(bytes: &[u8]) -> (r: Result<Header<H>, Error>) {
        Header::decode(bytes)
    }
}

} // verus!
