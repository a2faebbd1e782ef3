//! Host keys: the signature schemes, and a private key of each ready to sign.

use crate::algorithm::is_path_segment;
use crate::crypto::{
    ecdsa_p256_from_pkcs8, ecdsa_p256_generate_pkcs8, ecdsa_sign, ed25519_generate_pkcs8,
    ed25519_key, ed25519_pkcs8_accepted, ed25519_signed,
};
use crate::error::{Error, ErrorKind};
use ring::signature::{EcdsaKeyPair, Ed25519KeyPair, Signature};
use vstd::prelude::*;

verus! {

/// The upper-case form of an ASCII letter; any other character is itself.
pub open spec fn ascii_upper(c: char) -> char {
    if 'a' <= c && c <= 'z' {
        ((c as u8 - 32) as u8) as char
    } else {
        c
    }
}

/// `text` with each ASCII letter in upper case.
pub open spec fn upper(text: Seq<char>) -> Seq<char> {
    text.map_values(|c: char| ascii_upper(c))
}

/// The signature schemes a host key can belong to.
#[derive(Clone, Copy, Debug, PartialEq, Eq, Hash, Structural)]
pub enum HostKeyAlgorithm {
    /// ECDSA over P-256 with SHA-256, signatures in ASN.1.
    Ecdsa256,
    Ed25519,
}

/// The supported schemes, in the order in which keys are loaded and listed.
pub open spec fn supported() -> Seq<HostKeyAlgorithm> {
    seq![HostKeyAlgorithm::Ecdsa256, HostKeyAlgorithm::Ed25519]
}

pub const HOST_KEYS: [HostKeyAlgorithm; 2] = [HostKeyAlgorithm::Ecdsa256, HostKeyAlgorithm::Ed25519];

impl HostKeyAlgorithm {
    pub open spec fn spec_id(&self) -> Seq<char> {
        match self {
            HostKeyAlgorithm::Ecdsa256 => "ecdsa-sha2-nistp256"@,
            HostKeyAlgorithm::Ed25519 => "ssh-ed25519"@,
        }
    }

    pub open spec fn spec_name(&self) -> Seq<char> {
        match self {
            HostKeyAlgorithm::Ecdsa256 => "ecdsa_nistp256"@,
            HostKeyAlgorithm::Ed25519 => "ed25519"@,
        }
    }

    /// The name of the file that holds this scheme's key.
    pub open spec fn spec_key_file_name(&self) -> Seq<char> {
        "ssh_"@ + self.spec_name() + "_key.pem"@
    }

    /// The label of the PEM block that holds this scheme's key.
    pub open spec fn spec_pem_tag(&self) -> Seq<char> {
        upper(self.spec_name()) + " PRIVATE KEY"@
    }

    /// How long a freshly generated PKCS#8 document of this scheme is.
    pub open spec fn spec_document_len(&self) -> nat {
        match self {
            HostKeyAlgorithm::Ecdsa256 => 138,
            HostKeyAlgorithm::Ed25519 => 85,
        }
    }

    /// Where this scheme stands among the supported ones.
    pub open spec fn spec_position(&self) -> int {
        match self {
            HostKeyAlgorithm::Ecdsa256 => 0,
            HostKeyAlgorithm::Ed25519 => 1,
        }
    }

    /// The identifier sent on the wire.
    pub fn id(&self) -> (id: &'static str)
        ensures
            id@ == self.spec_id(),
    {
        match self {
            HostKeyAlgorithm::Ecdsa256 => "ecdsa-sha2-nistp256",
            HostKeyAlgorithm::Ed25519 => "ssh-ed25519",
        }
    }

    /// The friendly name, fit to stand in a file name.
    pub fn name(&self) -> (name: &'static str)
        ensures
            name@ == self.spec_name(),
            is_path_segment(name@),
    {
        proof {
            reveal_strlit("ecdsa_nistp256");
            reveal_strlit("ed25519");
        }
        match self {
            HostKeyAlgorithm::Ecdsa256 => "ecdsa_nistp256",
            HostKeyAlgorithm::Ed25519 => "ed25519",
        }
    }

    /// `ssh_<name>_key.pem`.
    pub fn key_file_name(&self) -> (file: &'static str)
        ensures
            file@ == self.spec_key_file_name(),
            is_path_segment(file@),
    {
        proof {
            reveal_strlit("ssh_");
            reveal_strlit("_key.pem");
            reveal_strlit("ecdsa_nistp256");
            reveal_strlit("ed25519");
            reveal_strlit("ssh_ecdsa_nistp256_key.pem");
            reveal_strlit("ssh_ed25519_key.pem");
            assert("ssh_ecdsa_nistp256_key.pem"@ =~= "ssh_"@ + "ecdsa_nistp256"@ + "_key.pem"@);
            assert("ssh_ed25519_key.pem"@ =~= "ssh_"@ + "ed25519"@ + "_key.pem"@);
        }
        match self {
            HostKeyAlgorithm::Ecdsa256 => "ssh_ecdsa_nistp256_key.pem",
            HostKeyAlgorithm::Ed25519 => "ssh_ed25519_key.pem",
        }
    }

    /// `<NAME> PRIVATE KEY`, the name in upper case. There is no hyphen in it.
    pub fn pem_tag(&self) -> (tag: &'static str)
        ensures
            tag@ == self.spec_pem_tag(),
            tag@.len() > 0,
            forall|i: int| 0 <= i < tag@.len() ==> tag@[i] != '-',
    {
        proof {
            reveal_strlit(" PRIVATE KEY");
            reveal_strlit("ecdsa_nistp256");
            reveal_strlit("ed25519");
            reveal_strlit("ECDSA_NISTP256 PRIVATE KEY");
            reveal_strlit("ED25519 PRIVATE KEY");
            assert("ECDSA_NISTP256 PRIVATE KEY"@ =~= upper("ecdsa_nistp256"@) + " PRIVATE KEY"@);
            assert("ED25519 PRIVATE KEY"@ =~= upper("ed25519"@) + " PRIVATE KEY"@);
        }
        match self {
            HostKeyAlgorithm::Ecdsa256 => "ECDSA_NISTP256 PRIVATE KEY",
            HostKeyAlgorithm::Ed25519 => "ED25519 PRIVATE KEY",
        }
    }

    /// Where this scheme stands among the supported ones.
    pub fn position(&self) -> (index: usize)
        ensures
            index == self.spec_position(),
            index < supported().len(),
            supported()[index as int] == *self,
    {
        match self {
            HostKeyAlgorithm::Ecdsa256 => 0,
            HostKeyAlgorithm::Ed25519 => 1,
        }
    }

    /// Makes a fresh private key of this scheme and returns it as a PKCS#8
    /// document. Whether that succeeds is up to the system's random source.
    pub fn generate_key(&self) -> (res: Result<Vec<u8>, Error>)
        ensures
            res matches Err(e) ==> e.kind() == ErrorKind::Unspecified,
            res matches Ok(document) ==> document@.len() == self.spec_document_len(),
            res matches Ok(document) ==> (*self == HostKeyAlgorithm::Ed25519
                ==> ed25519_pkcs8_accepted(document@)),
    {
        let generated = match self {
            HostKeyAlgorithm::Ecdsa256 => ecdsa_p256_generate_pkcs8(),
            HostKeyAlgorithm::Ed25519 => ed25519_generate_pkcs8(),
        };
        match generated {
            Ok(document) => Ok(document),
            Err(e) => Err(Error::from(e)),
        }
    }
}

/// A key pair, and the PKCS#8 document it was decoded from. Only decoding
/// makes one, so the two always belong together.
pub struct Decoded<K> {
    pair: K,
    document: Ghost<Seq<u8>>,
}

impl<K> Decoded<K> {
    /// The key pair.
    pub closed spec fn pair(&self) -> K {
        self.pair
    }

    /// The document that the key pair was decoded from.
    pub closed spec fn document(&self) -> Seq<u8> {
        self.document@
    }
}

/// `core::fmt::Formatter`, handed through to the key pair's own `Debug`.
#[verifier::external_type_specification]
#[verifier::external_body]
pub struct ExFormatter<'a>(core::fmt::Formatter<'a>);

/// `core::fmt::Error`, handed back from the key pair's own `Debug`.
#[verifier::external_type_specification]
#[verifier::external_body]
pub struct ExFmtError(core::fmt::Error);

impl<K: core::fmt::Debug> core::fmt::Debug for Decoded<K> {
    /// `Debug::fmt` of the key pair. The document is not shown.
    #[verifier::external_body]
    fn fmt(&self, f: &mut core::fmt::Formatter<'_>) -> core::fmt::Result {
        self.pair.fmt(f)
    }
}

/// A private key, held in the form in which it signs.
#[derive(Debug)]
pub enum HostKey {
    Ecdsa256(Decoded<EcdsaKeyPair>),
    Ed25519(Decoded<Ed25519KeyPair>),
}

impl HostKey {
    pub open spec fn spec_algorithm(&self) -> HostKeyAlgorithm {
        match self {
            HostKey::Ecdsa256(_) => HostKeyAlgorithm::Ecdsa256,
            HostKey::Ed25519(_) => HostKeyAlgorithm::Ed25519,
        }
    }

    /// The PKCS#8 document that this key was decoded from.
    pub open spec fn document(&self) -> Seq<u8> {
        match self {
            HostKey::Ecdsa256(decoded) => decoded.document(),
            HostKey::Ed25519(decoded) => decoded.document(),
        }
    }

    /// Two Ed25519 keys with the same key pair and the same document are
    /// the same key.
    pub proof fn lemma_same_key(one: HostKey, other: HostKey)
        ensures
            (one matches HostKey::Ed25519(a) && other matches HostKey::Ed25519(b) && a.pair()
                == b.pair() && a.document() == b.document()) ==> one == other,
    {
    }

    /// The scheme this key belongs to.
    #[verifier::when_used_as_spec(spec_algorithm)]
    pub fn algorithm(&self) -> (algorithm: HostKeyAlgorithm)
        ensures
            algorithm == self.spec_algorithm(),
    {
        match self {
            HostKey::Ecdsa256(_) => HostKeyAlgorithm::Ecdsa256,
            HostKey::Ed25519(_) => HostKeyAlgorithm::Ed25519,
        }
    }

    /// Signs `msg`. An Ed25519 key always signs, and key and message decide
    /// the signature. An ECDSA key takes a nonce from the system's random
    /// source for each signature, and fails when that source or the primitive does.
    pub fn sign(&self, msg: &[u8]) -> (res: Result<Signature, Error>)
        ensures
            self.algorithm() == HostKeyAlgorithm::Ed25519 ==> res is Ok,
            res matches Err(e) ==> e.kind() == ErrorKind::Unspecified,
            *self matches HostKey::Ed25519(decoded) ==> res == Ok::<Signature, Error>(
                ed25519_signed(decoded.pair(), msg@),
            ),
    {
        match self {
            HostKey::Ecdsa256(decoded) => match ecdsa_sign(&decoded.pair, msg) {
                Ok(signature) => Ok(signature),
                Err(e) => Err(Error::from(e)),
            },
            HostKey::Ed25519(decoded) => Ok(decoded.pair.sign(msg)),
        }
    }

    /// The supported schemes.
    pub fn algorithms() -> (list: &'static [HostKeyAlgorithm])
        ensures
            list@ == supported(),
    {
        &HOST_KEYS
    }

    /// Rebuilds a key of `algorithm` from its PKCS#8 document. Bytes that are
    /// not such a document are rejected. The key that comes back is the one
    /// decoded from these bytes, and for Ed25519 the bytes decide it.
    pub fn decode(algorithm: HostKeyAlgorithm, pkcs8: &[u8]) -> (res: Result<HostKey, Error>)
        ensures
            res matches Ok(key) ==> key.algorithm() == algorithm && key.document() == pkcs8@,
            res matches Err(e) ==> e.kind() == ErrorKind::KeyRejected,
            algorithm == HostKeyAlgorithm::Ed25519 ==> (res is Ok <==> ed25519_pkcs8_accepted(
                pkcs8@,
            )),
            res matches Ok(HostKey::Ed25519(decoded)) ==> decoded.pair() == ed25519_key(pkcs8@),
    {
        match algorithm {
            HostKeyAlgorithm::Ecdsa256 => match ecdsa_p256_from_pkcs8(pkcs8) {
                Ok(pair) => Ok(HostKey::Ecdsa256(Decoded { pair, document: Ghost(pkcs8@) })),
                Err(e) => Err(Error::from(e)),
            },
            HostKeyAlgorithm::Ed25519 => match Ed25519KeyPair::from_pkcs8(pkcs8) {
                Ok(pair) => Ok(HostKey::Ed25519(Decoded { pair, document: Ghost(pkcs8@) })),
                Err(e) => Err(Error::from(e)),
            },
        }
    }
}

/// Each supported scheme stands once in the list, at its position.
pub proof fn lemma_supported_lists_each_once(algorithm: HostKeyAlgorithm)
    ensures
        0 <= algorithm.spec_position() < supported().len(),
        supported()[algorithm.spec_position()] == algorithm,
        forall|i: int|
            0 <= i < supported().len() && supported()[i] == algorithm ==> i
                == algorithm.spec_position(),
{
}

/// Two schemes that differ have different identifiers, different names,
/// different key files and different PEM tags.
pub proof fn lemma_schemes_are_told_apart(a: HostKeyAlgorithm, b: HostKeyAlgorithm)
    requires
        a != b,
    ensures
        a.spec_id() != b.spec_id(),
        a.spec_name() != b.spec_name(),
        a.spec_key_file_name() != b.spec_key_file_name(),
        a.spec_pem_tag() != b.spec_pem_tag(),
{
    reveal_strlit("ecdsa-sha2-nistp256");
    reveal_strlit("ssh-ed25519");
    reveal_strlit("ecdsa_nistp256");
    reveal_strlit("ed25519");
    reveal_strlit("ssh_");
    reveal_strlit("_key.pem");
    reveal_strlit(" PRIVATE KEY");
    let ecdsa = HostKeyAlgorithm::Ecdsa256;
    let ed = HostKeyAlgorithm::Ed25519;
    assert(ecdsa.spec_id().len() != ed.spec_id().len());
    assert(ecdsa.spec_name().len() != ed.spec_name().len());
    assert(ecdsa.spec_key_file_name().len() != ed.spec_key_file_name().len());
    assert(ecdsa.spec_pem_tag().len() != ed.spec_pem_tag().len());
}

/// An Ed25519 key signs every message, and the same message the same way
/// each time.
pub proof fn lemma_ed25519_signs_one_way(
    key: HostKey,
    msg: &[u8],
    first: Result<Signature, Error>,
    second: Result<Signature, Error>,
)
    requires
        key.algorithm() == HostKeyAlgorithm::Ed25519,
        call_ensures(HostKey::sign, (&key, msg), first),
        call_ensures(HostKey::sign, (&key, msg), second),
    ensures
        first is Ok,
        first == second,
{
}

/// Two Ed25519 keys decoded from the same document are the same key: they
/// sign every message, and each message the same way.
pub proof fn lemma_same_document_same_signature(
    pkcs8: &[u8],
    one: HostKey,
    other: HostKey,
    msg: &[u8],
    first: Result<Signature, Error>,
    second: Result<Signature, Error>,
)
    requires
        call_ensures(HostKey::decode, (HostKeyAlgorithm::Ed25519, pkcs8), Ok(one)),
        call_ensures(HostKey::decode, (HostKeyAlgorithm::Ed25519, pkcs8), Ok(other)),
        call_ensures(HostKey::sign, (&one, msg), first),
        call_ensures(HostKey::sign, (&other, msg), second),
    ensures
        one == other,
        first is Ok,
        first == second,
{
}

/// Decoding a document that key generation has returned, under the scheme it
/// was generated for, gives a key of that scheme whenever it gives a key, and
/// for Ed25519 it always gives one. An ECDSA key is built with a draw from the
/// system's random source, so there decoding can fail, as a rejection.
pub proof fn lemma_generated_key_decodes(
    algorithm: HostKeyAlgorithm,
    document: Vec<u8>,
    pkcs8: &[u8],
    decoded: Result<HostKey, Error>,
)
    requires
        call_ensures(HostKeyAlgorithm::generate_key, (&algorithm,), Ok(document)),
        pkcs8@ == document@,
        call_ensures(HostKey::decode, (algorithm, pkcs8), decoded),
    ensures
        document@.len() == algorithm.spec_document_len(),
        decoded matches Ok(key) ==> key.algorithm() == algorithm && key.document() == document@,
        decoded matches Err(e) ==> algorithm == HostKeyAlgorithm::Ecdsa256 && e.kind()
            == ErrorKind::KeyRejected,
        algorithm == HostKeyAlgorithm::Ed25519 ==> decoded is Ok,
{
}

} // verus!
