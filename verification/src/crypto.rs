//! The calls into `ring`.
//!
//! Nothing in this file is proved. Each item states what `ring` documents of
//! the function it names, and the rest of the library is proved from these
//! statements.

use ring::error::{KeyRejected, Unspecified};
use ring::rand::SystemRandom;
use ring::signature::{EcdsaKeyPair, Ed25519KeyPair, Signature, ECDSA_P256_SHA256_ASN1_SIGNING};
use vstd::prelude::*;

verus! {

/// `ring::signature::EcdsaKeyPair`: an ECDSA private key, ready to sign.
#[verifier::external_type_specification]
#[verifier::external_body]
pub struct ExEcdsaKeyPair(EcdsaKeyPair);

/// `ring::signature::Ed25519KeyPair`: an Ed25519 private key, ready to sign.
#[verifier::external_type_specification]
#[verifier::external_body]
pub struct ExEd25519KeyPair(Ed25519KeyPair);

/// `ring::signature::Signature`: the bytes of a signature.
#[verifier::external_type_specification]
#[verifier::external_body]
pub struct ExSignature(Signature);

/// Whether `ring::signature::Ed25519KeyPair::from_pkcs8` accepts `pkcs8`:
/// whether the bytes are an unencrypted PKCS#8 v2 Ed25519 private key whose
/// public and private halves agree.
pub uninterp spec fn ed25519_pkcs8_accepted(pkcs8: Seq<u8>) -> bool;

/// The key pair that `ring::signature::Ed25519KeyPair::from_pkcs8` builds
/// from `pkcs8` where it accepts the bytes. It works the pair out from the
/// seed in the document and draws on nothing else, so the bytes decide it.
pub uninterp spec fn ed25519_key(pkcs8: Seq<u8>) -> Ed25519KeyPair;

/// `ring::signature::Ed25519KeyPair::from_pkcs8` parses the bytes and nothing
/// else decides its answer, so it succeeds on exactly the accepted documents,
/// and then with the one key pair that the bytes decide.
pub assume_specification[ Ed25519KeyPair::from_pkcs8 ](pkcs8: &[u8]) -> (res: Result<
    Ed25519KeyPair,
    KeyRejected,
>)
    ensures
        res is Ok <==> ed25519_pkcs8_accepted(pkcs8@),
        res matches Ok(pair) ==> pair == ed25519_key(pkcs8@),
;

/// `ring::signature::Ed25519KeyPair::generate_pkcs8`, on the system's random
/// source. What it returns is the serialized form of a key pair it has just
/// made, in the format that `from_pkcs8` reads, so `from_pkcs8` accepts it.
/// The document is a fixed frame of 21 bytes round a seed and a public key of
/// 32 bytes each. Whether the call succeeds is up to the random source.
#[verifier::external_body]
pub(crate) fn ed25519_generate_pkcs8() -> (res: Result<Vec<u8>, Unspecified>)
    ensures
        res matches Ok(document) ==> ed25519_pkcs8_accepted(document@),
        res matches Ok(document) ==> document@.len() == 85,
{
    match Ed25519KeyPair::generate_pkcs8(&SystemRandom::new()) {
        Ok(document) => Ok(document.as_ref().to_vec()),
        Err(e) => Err(e),
    }
}

/// The signature that `ring::signature::Ed25519KeyPair::sign` gives with
/// `pair` on `msg`. Ed25519 takes its nonce from the key and the message and
/// draws on no random source, so the two decide the signature.
pub uninterp spec fn ed25519_signed(pair: Ed25519KeyPair, msg: Seq<u8>) -> Signature;

/// `ring::signature::Ed25519KeyPair::sign`, which cannot fail and gives the
/// one signature that key pair and message decide.
pub assume_specification[ Ed25519KeyPair::sign ](pair: &Ed25519KeyPair, msg: &[u8]) -> (signature:
    Signature)
    ensures
        signature == ed25519_signed(*pair, msg@),
;

/// `ring::signature::EcdsaKeyPair::generate_pkcs8` for P-256 with SHA-256 and
/// ASN.1 signatures, on the system's random source. The document is a fixed
/// frame of 41 bytes round a private key of 32 bytes and a public key of 65.
/// Whether the call succeeds is up to the random source.
#[verifier::external_body]
pub(crate) fn ecdsa_p256_generate_pkcs8() -> (res: Result<Vec<u8>, Unspecified>)
    ensures
        res matches Ok(document) ==> document@.len() == 138,
{
    match EcdsaKeyPair::generate_pkcs8(&ECDSA_P256_SHA256_ASN1_SIGNING, &SystemRandom::new()) {
        Ok(document) => Ok(document.as_ref().to_vec()),
        Err(e) => Err(e),
    }
}

/// `ring::signature::EcdsaKeyPair::from_pkcs8` for P-256 with SHA-256 and ASN.1
/// signatures. It draws from the system's random source while it builds the
/// key pair, so the bytes alone do not decide the outcome and nothing is
/// claimed of it.
#[verifier::external_body]
pub(crate) fn ecdsa_p256_from_pkcs8(pkcs8: &[u8]) -> (res: Result<EcdsaKeyPair, KeyRejected>) {
    EcdsaKeyPair::from_pkcs8(&ECDSA_P256_SHA256_ASN1_SIGNING, pkcs8)
}

/// `ring::signature::EcdsaKeyPair::sign`, on the system's random source. Each
/// signature takes a fresh nonce from it. Nothing is claimed of the outcome.
#[verifier::external_body]
pub(crate) fn ecdsa_sign(pair: &EcdsaKeyPair, msg: &[u8]) -> (res: Result<Signature, Unspecified>) {
    pair.sign(&SystemRandom::new(), msg)
}

} // verus!
