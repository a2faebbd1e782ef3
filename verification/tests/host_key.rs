use bridge_core::error::ErrorKind;
use bridge_core::host_key::{HostKey, HostKeyAlgorithm};
use ring::signature::{
    EcdsaKeyPair, Ed25519KeyPair, KeyPair, UnparsedPublicKey, ECDSA_P256_SHA256_ASN1,
    ECDSA_P256_SHA256_ASN1_SIGNING, ED25519,
};

/// The public half of the key in `document`, worked out by `ring` alone.
fn public_key(algorithm: HostKeyAlgorithm, document: &[u8]) -> Vec<u8> {
    match algorithm {
        HostKeyAlgorithm::Ecdsa256 => {
            EcdsaKeyPair::from_pkcs8(&ECDSA_P256_SHA256_ASN1_SIGNING, document)
                .unwrap()
                .public_key()
                .as_ref()
                .to_vec()
        }
        HostKeyAlgorithm::Ed25519 => Ed25519KeyPair::from_pkcs8(document)
            .unwrap()
            .public_key()
            .as_ref()
            .to_vec(),
    }
}

fn verifies(algorithm: HostKeyAlgorithm, public: &[u8], msg: &[u8], signature: &[u8]) -> bool {
    match algorithm {
        HostKeyAlgorithm::Ecdsa256 => UnparsedPublicKey::new(&ECDSA_P256_SHA256_ASN1, public)
            .verify(msg, signature)
            .is_ok(),
        HostKeyAlgorithm::Ed25519 => UnparsedPublicKey::new(&ED25519, public)
            .verify(msg, signature)
            .is_ok(),
    }
}

#[test]
fn a_generated_key_decodes_under_its_algorithm() {
    for algorithm in HostKey::algorithms() {
        let document = algorithm.generate_key().unwrap();
        let key = HostKey::decode(*algorithm, &document).unwrap();
        assert_eq!(key.algorithm(), *algorithm);
    }
}

#[test]
fn generated_keys_differ() {
    for algorithm in HostKey::algorithms() {
        let first = algorithm.generate_key().unwrap();
        let second = algorithm.generate_key().unwrap();
        assert_ne!(first, second);
    }
}

#[test]
fn a_generated_document_is_pkcs8() {
    let ed25519 = HostKeyAlgorithm::Ed25519.generate_key().unwrap();
    assert_eq!(ed25519.len(), 85);
    assert_eq!(ed25519[0], 0x30);
    let ecdsa = HostKeyAlgorithm::Ecdsa256.generate_key().unwrap();
    assert_eq!(ecdsa.len(), 138);
    assert_eq!(ecdsa[0], 0x30);
}

#[test]
fn decode_rejects_what_is_no_key() {
    for algorithm in HostKey::algorithms() {
        for bytes in [&b""[..], &b"not a key"[..], &[0x30u8, 0x00][..]] {
            let error = HostKey::decode(*algorithm, bytes).err().unwrap();
            assert_eq!(error.kind(), ErrorKind::KeyRejected);
            assert_eq!(error.message(), "crypto keys were rejected");
        }
    }
}

#[test]
fn decode_rejects_a_key_of_another_algorithm() {
    let ed25519 = HostKeyAlgorithm::Ed25519.generate_key().unwrap();
    let ecdsa = HostKeyAlgorithm::Ecdsa256.generate_key().unwrap();
    let error = HostKey::decode(HostKeyAlgorithm::Ecdsa256, &ed25519).err().unwrap();
    assert_eq!(error.kind(), ErrorKind::KeyRejected);
    let error = HostKey::decode(HostKeyAlgorithm::Ed25519, &ecdsa).err().unwrap();
    assert_eq!(error.kind(), ErrorKind::KeyRejected);
}

#[test]
fn decode_rejects_a_truncated_key() {
    for algorithm in HostKey::algorithms() {
        let document = algorithm.generate_key().unwrap();
        let error = HostKey::decode(*algorithm, &document[..document.len() - 1]).err().unwrap();
        assert_eq!(error.kind(), ErrorKind::KeyRejected);
    }
}

#[test]
fn decode_rejects_a_key_with_one_byte_changed() {
    for algorithm in HostKey::algorithms() {
        let mut document = algorithm.generate_key().unwrap();
        let last = document.len() - 1;
        document[last] ^= 0x01;
        let error = HostKey::decode(*algorithm, &document).err().unwrap();
        assert_eq!(error.kind(), ErrorKind::KeyRejected);
    }
}

#[test]
fn a_signature_verifies_under_the_public_key() {
    let messages: [&[u8]; 3] = [b"", b"hello", &[0u8; 1000]];
    for algorithm in HostKey::algorithms() {
        let document = algorithm.generate_key().unwrap();
        let key = HostKey::decode(*algorithm, &document).unwrap();
        let public = public_key(*algorithm, &document);
        for msg in messages {
            let signature = key.sign(msg).unwrap();
            assert!(verifies(*algorithm, &public, msg, signature.as_ref()));
        }
    }
}

#[test]
fn a_signature_does_not_verify_for_another_message_or_key() {
    for algorithm in HostKey::algorithms() {
        let document = algorithm.generate_key().unwrap();
        let key = HostKey::decode(*algorithm, &document).unwrap();
        let public = public_key(*algorithm, &document);
        let signature = key.sign(b"one message").unwrap();
        assert!(!verifies(*algorithm, &public, b"another message", signature.as_ref()));

        let other = algorithm.generate_key().unwrap();
        let other_public = public_key(*algorithm, &other);
        assert!(!verifies(*algorithm, &other_public, b"one message", signature.as_ref()));
    }
}

#[test]
fn ed25519_signs_the_same_message_the_same_way() {
    let document = HostKeyAlgorithm::Ed25519.generate_key().unwrap();
    let key = HostKey::decode(HostKeyAlgorithm::Ed25519, &document).unwrap();
    let again = HostKey::decode(HostKeyAlgorithm::Ed25519, &document).unwrap();
    let first = key.sign(b"message").unwrap();
    let repeated = key.sign(b"message").unwrap();
    assert_eq!(first.as_ref(), repeated.as_ref());
    let second = again.sign(b"message").unwrap();
    assert_eq!(first.as_ref(), second.as_ref());
    assert_eq!(first.as_ref().len(), 64);
    assert_ne!(first.as_ref(), key.sign(b"massage").unwrap().as_ref());
}

#[test]
fn ecdsa_signs_with_a_fresh_nonce() {
    let document = HostKeyAlgorithm::Ecdsa256.generate_key().unwrap();
    let key = HostKey::decode(HostKeyAlgorithm::Ecdsa256, &document).unwrap();
    let first = key.sign(b"message").unwrap();
    let second = key.sign(b"message").unwrap();
    assert_ne!(first.as_ref(), second.as_ref());
}

#[test]
fn ed25519_decodes_a_known_key() {
    // The key pair of RFC 8410, section 10.3, with its public key attached.
    let document: [u8; 85] = [
        0x30, 0x53, 0x02, 0x01, 0x01, 0x30, 0x05, 0x06, 0x03, 0x2b, 0x65, 0x70, 0x04, 0x22, 0x04,
        0x20, 0xd4, 0xee, 0x72, 0xdb, 0xf9, 0x13, 0x58, 0x4a, 0xd5, 0xb6, 0xd8, 0xf1, 0xf7, 0x69,
        0xf8, 0xad, 0x3a, 0xfe, 0x7c, 0x28, 0xcb, 0xf1, 0xd4, 0xfb, 0xe0, 0x97, 0xa8, 0x8f, 0x44,
        0x75, 0x58, 0x42, 0xa1, 0x23, 0x03, 0x21, 0x00, 0x19, 0xbf, 0x44, 0x09, 0x69, 0x84, 0xcd,
        0xfe, 0x85, 0x41, 0xba, 0xc1, 0x67, 0xdc, 0x3b, 0x96, 0xc8, 0x50, 0x86, 0xaa, 0x30, 0xb6,
        0xb6, 0xcb, 0x0c, 0x5c, 0x38, 0xad, 0x70, 0x31, 0x66, 0xe1,
    ];
    let key = HostKey::decode(HostKeyAlgorithm::Ed25519, &document).unwrap();
    assert_eq!(key.algorithm(), HostKeyAlgorithm::Ed25519);
    let signature = key.sign(b"known").unwrap();
    assert!(verifies(HostKeyAlgorithm::Ed25519, &document[53..], b"known", signature.as_ref()));
}

#[test]
fn a_key_shows_its_key_pair_and_not_its_private_key() {
    let document = HostKeyAlgorithm::Ed25519.generate_key().unwrap();
    let key = HostKey::decode(HostKeyAlgorithm::Ed25519, &document).unwrap();
    let pair = Ed25519KeyPair::from_pkcs8(&document).unwrap();
    assert_eq!(format!("{:?}", key), format!("Ed25519({:?})", pair));

    let document = HostKeyAlgorithm::Ecdsa256.generate_key().unwrap();
    let key = HostKey::decode(HostKeyAlgorithm::Ecdsa256, &document).unwrap();
    let pair = EcdsaKeyPair::from_pkcs8(&ECDSA_P256_SHA256_ASN1_SIGNING, &document).unwrap();
    assert_eq!(format!("{:?}", key), format!("Ecdsa256({:?})", pair));
}
