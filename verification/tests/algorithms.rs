use bridge_core::algorithm::SshAlgorithm;
use bridge_core::host_key::{HostKey, HostKeyAlgorithm, HOST_KEYS};
use bridge_core::kex::KexAlgorithm;

#[test]
fn host_key_algorithms_have_their_wire_ids() {
    assert_eq!(HostKeyAlgorithm::Ecdsa256.id(), "ecdsa-sha2-nistp256");
    assert_eq!(HostKeyAlgorithm::Ed25519.id(), "ssh-ed25519");
}

#[test]
fn host_key_algorithms_have_their_names() {
    assert_eq!(HostKeyAlgorithm::Ecdsa256.name(), "ecdsa_nistp256");
    assert_eq!(HostKeyAlgorithm::Ed25519.name(), "ed25519");
}

#[test]
fn key_files_are_named_after_the_algorithm() {
    assert_eq!(HostKeyAlgorithm::Ecdsa256.key_file_name(), "ssh_ecdsa_nistp256_key.pem");
    assert_eq!(HostKeyAlgorithm::Ed25519.key_file_name(), "ssh_ed25519_key.pem");
    for algorithm in HostKey::algorithms() {
        assert_eq!(algorithm.key_file_name(), format!("ssh_{}_key.pem", algorithm.name()));
    }
}

#[test]
fn pem_tags_are_the_name_in_upper_case() {
    assert_eq!(HostKeyAlgorithm::Ecdsa256.pem_tag(), "ECDSA_NISTP256 PRIVATE KEY");
    assert_eq!(HostKeyAlgorithm::Ed25519.pem_tag(), "ED25519 PRIVATE KEY");
    for algorithm in HostKey::algorithms() {
        assert_eq!(
            algorithm.pem_tag(),
            format!("{} PRIVATE KEY", algorithm.name().to_ascii_uppercase())
        );
    }
}

#[test]
fn names_are_path_segments() {
    for algorithm in HostKey::algorithms() {
        for text in [algorithm.name(), algorithm.key_file_name()] {
            assert!(!text.is_empty());
            assert!(!text.contains('/'));
            assert!(!text.contains('\\'));
            assert!(!text.contains('\0'));
        }
    }
    for algorithm in [KexAlgorithm::Curve25519, KexAlgorithm::EcdhP256] {
        assert!(!algorithm.name().is_empty());
        assert!(!algorithm.name().contains('/'));
        assert!(!algorithm.name().contains('\0'));
    }
}

#[test]
fn the_supported_algorithms_are_listed_in_order() {
    assert_eq!(
        HostKey::algorithms(),
        &[HostKeyAlgorithm::Ecdsa256, HostKeyAlgorithm::Ed25519]
    );
    assert_eq!(HostKey::algorithms(), &HOST_KEYS);
}

#[test]
fn each_algorithm_stands_at_its_position() {
    assert_eq!(HostKeyAlgorithm::Ecdsa256.position(), 0);
    assert_eq!(HostKeyAlgorithm::Ed25519.position(), 1);
    for (index, algorithm) in HostKey::algorithms().iter().enumerate() {
        assert_eq!(algorithm.position(), index);
    }
}

#[test]
fn algorithms_are_told_apart() {
    let a = HostKeyAlgorithm::Ecdsa256;
    let b = HostKeyAlgorithm::Ed25519;
    assert_ne!(a, b);
    assert_ne!(a.id(), b.id());
    assert_ne!(a.name(), b.name());
    assert_ne!(a.key_file_name(), b.key_file_name());
    assert_ne!(a.pem_tag(), b.pem_tag());
}

#[test]
fn kex_algorithms_have_their_wire_ids() {
    assert_eq!(KexAlgorithm::Curve25519.id(), "curve25519-sha256");
    assert_eq!(KexAlgorithm::EcdhP256.id(), "ecdh-sha2-nistp256");
}

#[test]
fn kex_algorithms_have_their_names() {
    assert_eq!(KexAlgorithm::Curve25519.name(), "curve25519");
    assert_eq!(KexAlgorithm::EcdhP256.name(), "ecdh_p256");
}
