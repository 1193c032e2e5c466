//! The names under which the algorithms stand in a header.

use crate::jwa::{ContentEncryptionAlgorithm, KeyManagementAlgorithm};
use crate::text::same_text;
use vstd::prelude::*;

verus! {

impl ContentEncryptionAlgorithm {
    /// The algorithm's name in a header.
    pub open spec fn spec_name(self) -> Seq<char> {
        match self {
            ContentEncryptionAlgorithm::A128CBC_HS256 => "A128CBC-HS256"@,
            ContentEncryptionAlgorithm::A192CBC_HS384 => "A192CBC-HS384"@,
            ContentEncryptionAlgorithm::A256CBC_HS512 => "A256CBC-HS512"@,
            ContentEncryptionAlgorithm::A128GCM => "A128GCM"@,
            ContentEncryptionAlgorithm::A192GCM => "A192GCM"@,
            ContentEncryptionAlgorithm::A256GCM => "A256GCM"@,
        }
    }

    /// The algorithm of a name, if the name is one.
    pub open spec fn spec_from_name(name: Seq<char>) -> Option<ContentEncryptionAlgorithm> {
        if name == "A128CBC-HS256"@ {
            Some(ContentEncryptionAlgorithm::A128CBC_HS256)
        } else if name == "A192CBC-HS384"@ {
            Some(ContentEncryptionAlgorithm::A192CBC_HS384)
        } else if name == "A256CBC-HS512"@ {
            Some(ContentEncryptionAlgorithm::A256CBC_HS512)
        } else if name == "A128GCM"@ {
            Some(ContentEncryptionAlgorithm::A128GCM)
        } else if name == "A192GCM"@ {
            Some(ContentEncryptionAlgorithm::A192GCM)
        } else if name == "A256GCM"@ {
            Some(ContentEncryptionAlgorithm::A256GCM)
        } else {
            None
        }
    }

    /// The algorithm's name in a header.
    pub fn name(self) -> (name: &'static str)
        ensures
            name@ == self.spec_name(),
    {
        match self {
            ContentEncryptionAlgorithm::A128CBC_HS256 => "A128CBC-HS256",
            ContentEncryptionAlgorithm::A192CBC_HS384 => "A192CBC-HS384",
            ContentEncryptionAlgorithm::A256CBC_HS512 => "A256CBC-HS512",
            ContentEncryptionAlgorithm::A128GCM => "A128GCM",
            ContentEncryptionAlgorithm::A192GCM => "A192GCM",
            ContentEncryptionAlgorithm::A256GCM => "A256GCM",
        }
    }

    /// The algorithm of a name, if the name is one.
    pub fn from_name(name: &str) -> (r: Option<ContentEncryptionAlgorithm>)
        ensures
            r == Self::spec_from_name(name@),
    {
        if same_text(name, "A128CBC-HS256") {
            Some(ContentEncryptionAlgorithm::A128CBC_HS256)
        } else if same_text(name, "A192CBC-HS384") {
            Some(ContentEncryptionAlgorithm::A192CBC_HS384)
        } else if same_text(name, "A256CBC-HS512") {
            Some(ContentEncryptionAlgorithm::A256CBC_HS512)
        } else if same_text(name, "A128GCM") {
            Some(ContentEncryptionAlgorithm::A128GCM)
        } else if same_text(name, "A192GCM") {
            Some(ContentEncryptionAlgorithm::A192GCM)
        } else if same_text(name, "A256GCM") {
            Some(ContentEncryptionAlgorithm::A256GCM)
        } else {
            None
        }
    }

    /// Each algorithm is the algorithm of its name.
    pub proof fn lemma_name_round_trip(self)
        ensures
            Self::spec_from_name(self.spec_name()) == Some(self),
    {
        reveal_strlit("A128CBC-HS256");
        reveal_strlit("A192CBC-HS384");
        reveal_strlit("A256CBC-HS512");
        reveal_strlit("A128GCM");
        reveal_strlit("A192GCM");
        reveal_strlit("A256GCM");
        assert("A128CBC-HS256"@.len() == 13 && "A128CBC-HS256"@[1] == '1' && "A128CBC-HS256"@[2]
            == '2');
        assert("A192CBC-HS384"@.len() == 13 && "A192CBC-HS384"@[1] == '1' && "A192CBC-HS384"@[2]
            == '9');
        assert("A256CBC-HS512"@.len() == 13 && "A256CBC-HS512"@[1] == '2');
        assert("A128GCM"@.len() == 7 && "A128GCM"@[1] == '1' && "A128GCM"@[2] == '2');
        assert("A192GCM"@.len() == 7 && "A192GCM"@[1] == '1' && "A192GCM"@[2] == '9');
        assert("A256GCM"@.len() == 7 && "A256GCM"@[1] == '2');
    }
}

impl KeyManagementAlgorithm {
    /// The algorithm's name in a header.
    pub open spec fn spec_name(self) -> Seq<char> {
        match self {
            KeyManagementAlgorithm::RSA1_5 => "RSA1_5"@,
            KeyManagementAlgorithm::RSA_OAEP => "RSA-OAEP"@,
            KeyManagementAlgorithm::RSA_OAEP_256 => "RSA-OAEP-256"@,
            KeyManagementAlgorithm::A128KW => "A128KW"@,
            KeyManagementAlgorithm::A192KW => "A192KW"@,
            KeyManagementAlgorithm::A256KW => "A256KW"@,
            KeyManagementAlgorithm::DirectSymmetricKey => "dir"@,
            KeyManagementAlgorithm::ECDH_ES => "ECDH-ES"@,
            KeyManagementAlgorithm::ECDH_ES_A128KW => "ECDH-ES+A128KW"@,
            KeyManagementAlgorithm::ECDH_ES_A192KW => "ECDH-ES+A192KW"@,
            KeyManagementAlgorithm::ECDH_ES_A256KW => "ECDH-ES+A256KW"@,
            KeyManagementAlgorithm::A128GCMKW => "A128GCMKW"@,
            KeyManagementAlgorithm::A192GCMKW => "A192GCMKW"@,
            KeyManagementAlgorithm::A256GCMKW => "A256GCMKW"@,
            KeyManagementAlgorithm::PBES2_HS256_A128KW => "PBES2-HS256+A128KW"@,
            KeyManagementAlgorithm::PBES2_HS384_A192KW => "PBES2-HS384+A192KW"@,
            KeyManagementAlgorithm::PBES2_HS512_A256KW => "PBES2-HS512+A256KW"@,
        }
    }

    /// The algorithm of a name, if the name is one.
    pub open spec fn spec_from_name(name: Seq<char>) -> Option<KeyManagementAlgorithm> {
        if name == "RSA1_5"@ {
            Some(KeyManagementAlgorithm::RSA1_5)
        } else if name == "RSA-OAEP"@ {
            Some(KeyManagementAlgorithm::RSA_OAEP)
        } else if name == "RSA-OAEP-256"@ {
            Some(KeyManagementAlgorithm::RSA_OAEP_256)
        } else if name == "A128KW"@ {
            Some(KeyManagementAlgorithm::A128KW)
        } else if name == "A192KW"@ {
            Some(KeyManagementAlgorithm::A192KW)
        } else if name == "A256KW"@ {
            Some(KeyManagementAlgorithm::A256KW)
        } else if name == "dir"@ {
            Some(KeyManagementAlgorithm::DirectSymmetricKey)
        } else if name == "ECDH-ES"@ {
            Some(KeyManagementAlgorithm::ECDH_ES)
        } else if name == "ECDH-ES+A128KW"@ {
            Some(KeyManagementAlgorithm::ECDH_ES_A128KW)
        } else if name == "ECDH-ES+A192KW"@ {
            Some(KeyManagementAlgorithm::ECDH_ES_A192KW)
        } else if name == "ECDH-ES+A256KW"@ {
            Some(KeyManagementAlgorithm::ECDH_ES_A256KW)
        } else if name == "A128GCMKW"@ {
            Some(KeyManagementAlgorithm::A128GCMKW)
        } else if name == "A192GCMKW"@ {
            Some(KeyManagementAlgorithm::A192GCMKW)
        } else if name == "A256GCMKW"@ {
            Some(KeyManagementAlgorithm::A256GCMKW)
        } else if name == "PBES2-HS256+A128KW"@ {
            Some(KeyManagementAlgorithm::PBES2_HS256_A128KW)
        } else if name == "PBES2-HS384+A192KW"@ {
            Some(KeyManagementAlgorithm::PBES2_HS384_A192KW)
        } else if name == "PBES2-HS512+A256KW"@ {
            Some(KeyManagementAlgorithm::PBES2_HS512_A256KW)
        } else {
            None
        }
    }

    /// The algorithm's name in a header.
    pub fn name(self) -> (name: &'static str)
        ensures
            name@ == self.spec_name(),
    {
        match self {
            KeyManagementAlgorithm::RSA1_5 => "RSA1_5",
            KeyManagementAlgorithm::RSA_OAEP => "RSA-OAEP",
            KeyManagementAlgorithm::RSA_OAEP_256 => "RSA-OAEP-256",
            KeyManagementAlgorithm::A128KW => "A128KW",
            KeyManagementAlgorithm::A192KW => "A192KW",
            KeyManagementAlgorithm::A256KW => "A256KW",
            KeyManagementAlgorithm::DirectSymmetricKey => "dir",
            KeyManagementAlgorithm::ECDH_ES => "ECDH-ES",
            KeyManagementAlgorithm::ECDH_ES_A128KW => "ECDH-ES+A128KW",
            KeyManagementAlgorithm::ECDH_ES_A192KW => "ECDH-ES+A192KW",
            KeyManagementAlgorithm::ECDH_ES_A256KW => "ECDH-ES+A256KW",
            KeyManagementAlgorithm::A128GCMKW => "A128GCMKW",
            KeyManagementAlgorithm::A192GCMKW => "A192GCMKW",
            KeyManagementAlgorithm::A256GCMKW => "A256GCMKW",
            KeyManagementAlgorithm::PBES2_HS256_A128KW => "PBES2-HS256+A128KW",
            KeyManagementAlgorithm::PBES2_HS384_A192KW => "PBES2-HS384+A192KW",
            KeyManagementAlgorithm::PBES2_HS512_A256KW => "PBES2-HS512+A256KW",
        }
    }

    /// The algorithm of a name, if the name is one.
    pub fn from_name(name: &str) -> (r: Option<KeyManagementAlgorithm>)
        ensures
            r == Self::spec_from_name(name@),
    {
        if same_text(name, "RSA1_5") {
            Some(KeyManagementAlgorithm::RSA1_5)
        } else if same_text(name, "RSA-OAEP") {
            Some(KeyManagementAlgorithm::RSA_OAEP)
        } else if same_text(name, "RSA-OAEP-256") {
            Some(KeyManagementAlgorithm::RSA_OAEP_256)
        } else if same_text(name, "A128KW") {
            Some(KeyManagementAlgorithm::A128KW)
        } else if same_text(name, "A192KW") {
            Some(KeyManagementAlgorithm::A192KW)
        } else if same_text(name, "A256KW") {
            Some(KeyManagementAlgorithm::A256KW)
        } else if same_text(name, "dir") {
            Some(KeyManagementAlgorithm::DirectSymmetricKey)
        } else if same_text(name, "ECDH-ES") {
            Some(KeyManagementAlgorithm::ECDH_ES)
        } else if same_text(name, "ECDH-ES+A128KW") {
            Some(KeyManagementAlgorithm::ECDH_ES_A128KW)
        } else if same_text(name, "ECDH-ES+A192KW") {
            Some(KeyManagementAlgorithm::ECDH_ES_A192KW)
        } else if same_text(name, "ECDH-ES+A256KW") {
            Some(KeyManagementAlgorithm::ECDH_ES_A256KW)
        } else if same_text(name, "A128GCMKW") {
            Some(KeyManagementAlgorithm::A128GCMKW)
        } else if same_text(name, "A192GCMKW") {
            Some(KeyManagementAlgorithm::A192GCMKW)
        } else if same_text(name, "A256GCMKW") {
            Some(KeyManagementAlgorithm::A256GCMKW)
        } else if same_text(name, "PBES2-HS256+A128KW") {
            Some(KeyManagementAlgorithm::PBES2_HS256_A128KW)
        } else if same_text(name, "PBES2-HS384+A192KW") {
            Some(KeyManagementAlgorithm::PBES2_HS384_A192KW)
        } else if same_text(name, "PBES2-HS512+A256KW") {
            Some(KeyManagementAlgorithm::PBES2_HS512_A256KW)
        } else {
            None
        }
    }

    /// Each algorithm is the algorithm of its name.
    pub proof fn lemma_name_round_trip(self)
        ensures
            Self::spec_from_name(self.spec_name()) == Some(self),
    {
        reveal_strlit("RSA1_5");
        reveal_strlit("RSA-OAEP");
        reveal_strlit("RSA-OAEP-256");
        reveal_strlit("A128KW");
        reveal_strlit("A192KW");
        reveal_strlit("A256KW");
        reveal_strlit("dir");
        reveal_strlit("ECDH-ES");
        reveal_strlit("ECDH-ES+A128KW");
        reveal_strlit("ECDH-ES+A192KW");
        reveal_strlit("ECDH-ES+A256KW");
        reveal_strlit("A128GCMKW");
        reveal_strlit("A192GCMKW");
        reveal_strlit("A256GCMKW");
        reveal_strlit("PBES2-HS256+A128KW");
        reveal_strlit("PBES2-HS384+A192KW");
        reveal_strlit("PBES2-HS512+A256KW");
        assert("RSA1_5"@.len() == 6 && "RSA1_5"@[0] == 'R' && "RSA1_5"@[1] == 'S' && "RSA1_5"@[2] == 'A');
        assert("RSA-OAEP"@.len() == 8);
        assert("RSA-OAEP-256"@.len() == 12);
        assert("A128KW"@.len() == 6 && "A128KW"@[0] == 'A' && "A128KW"@[1] == '1' && "A128KW"@[2] == '2');
        assert("A192KW"@.len() == 6 && "A192KW"@[0] == 'A' && "A192KW"@[1] == '1' && "A192KW"@[2] == '9');
        assert("A256KW"@.len() == 6 && "A256KW"@[0] == 'A' && "A256KW"@[1] == '2' && "A256KW"@[2] == '5');
        assert("dir"@.len() == 3);
        assert("ECDH-ES"@.len() == 7);
        assert("ECDH-ES+A128KW"@.len() == 14 && "ECDH-ES+A128KW"@[9] == '1' && "ECDH-ES+A128KW"@[10] == '2');
        assert("ECDH-ES+A192KW"@.len() == 14 && "ECDH-ES+A192KW"@[9] == '1' && "ECDH-ES+A192KW"@[10] == '9');
        assert("ECDH-ES+A256KW"@.len() == 14 && "ECDH-ES+A256KW"@[9] == '2' && "ECDH-ES+A256KW"@[10] == '5');
        assert("A128GCMKW"@.len() == 9 && "A128GCMKW"@[1] == '1' && "A128GCMKW"@[2] == '2');
        assert("A192GCMKW"@.len() == 9 && "A192GCMKW"@[1] == '1' && "A192GCMKW"@[2] == '9');
        assert("A256GCMKW"@.len() == 9 && "A256GCMKW"@[1] == '2' && "A256GCMKW"@[2] == '5');
        assert("PBES2-HS256+A128KW"@.len() == 18 && "PBES2-HS256+A128KW"@[8] == '2');
        assert("PBES2-HS384+A192KW"@.len() == 18 && "PBES2-HS384+A192KW"@[8] == '3');
        assert("PBES2-HS512+A256KW"@.len() == 18 && "PBES2-HS512+A256KW"@[8] == '5');
    }
}

} // verus!
