//! Key exchange methods.

use crate::algorithm::SshAlgorithm;
use vstd::prelude::*;

verus! {

#[derive(Clone, Copy, Debug, PartialEq, Eq, Hash, Structural)]
pub enum KexAlgorithm {
    Curve25519,
    EcdhP256,
}

impl SshAlgorithm for KexAlgorithm {
    open spec fn spec_id(&self) -> Seq<char> {
        match self {
            KexAlgorithm::Curve25519 => "curve25519-sha256"@,
            KexAlgorithm::EcdhP256 => "ecdh-sha2-nistp256"@,
        }
    }

    open spec fn spec_name(&self) -> Seq<char> {
        match self {
            KexAlgorithm::Curve25519 => "curve25519"@,
            KexAlgorithm::EcdhP256 => "ecdh_p256"@,
        }
    }

    fn id(&self) -> (id: &'static str) {
        match self {
            KexAlgorithm::Curve25519 => "curve25519-sha256",
            KexAlgorithm::EcdhP256 => "ecdh-sha2-nistp256",
        }
    }

    fn name(&self) -> (name: &'static str) {
        proof {
            reveal_strlit("curve25519");
            reveal_strlit("ecdh_p256");
        }
        match self {
            KexAlgorithm::Curve25519 => "curve25519",
            KexAlgorithm::EcdhP256 => "ecdh_p256",
        }
    }
}

} // verus!
