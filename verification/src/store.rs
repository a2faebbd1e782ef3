//! The host keys of a running server: one of each supported scheme.

use crate::host_key::{supported, HostKey, HostKeyAlgorithm};
use vstd::prelude::*;

verus! {

/// `keys` begins the list of one key per supported scheme, in their order.
pub open spec fn is_partial(keys: Seq<HostKey>) -> bool {
    &&& keys.len() <= supported().len()
    &&& forall|i: int| 0 <= i < keys.len() ==> (#[trigger] keys[i]).algorithm() == supported()[i]
}

/// `keys` is the list of one key per supported scheme, in their order.
pub open spec fn is_complete(keys: Seq<HostKey>) -> bool {
    is_partial(keys) && keys.len() == supported().len()
}

/// A complete list holds exactly one key of each supported scheme: the key at
/// the scheme's position is of that scheme, and no other key is.
pub proof fn lemma_complete_holds_each_once(keys: Seq<HostKey>, algorithm: HostKeyAlgorithm)
    requires
        is_complete(keys),
    ensures
        0 <= algorithm.spec_position() < keys.len(),
        keys[algorithm.spec_position()].algorithm() == algorithm,
        forall|i: int|
            0 <= i < keys.len() && (#[trigger] keys[i]).algorithm() == algorithm ==> i
                == algorithm.spec_position(),
{
}

/// One key of each supported scheme, and never fewer.
#[derive(Debug)]
pub struct HostKeyStore {
    keys: Vec<HostKey>,
}

impl View for HostKeyStore {
    type V = Seq<HostKey>;

    closed spec fn view(&self) -> Seq<HostKey> {
        self.keys@
    }
}

impl HostKeyStore {
    #[verifier::type_invariant]
    spec fn complete(&self) -> bool {
        is_complete(self.keys@)
    }

    /// The key that the store holds for `algorithm`.
    pub open spec fn key_of(&self, algorithm: HostKeyAlgorithm) -> HostKey {
        self@[algorithm.spec_position()]
    }

    pub(crate) fn from_complete(keys: Vec<HostKey>) -> (store: Self)
        requires
            is_complete(keys@),
        ensures
            store@ == keys@,
    {
        HostKeyStore { keys }
    }

    /// A store of `keys`, where they are one key per supported scheme in
    /// their order, and nothing otherwise.
    pub fn new(keys: Vec<HostKey>) -> (res: Option<Self>)
        ensures
            res is Some <==> is_complete(keys@),
            res matches Some(store) ==> store@ == keys@,
    {
        let algorithms = HostKey::algorithms();
        if keys.len() != algorithms.len() {
            return None;
        }
        let mut i: usize = 0;
        while i < keys.len()
            invariant
                i <= keys.len() == algorithms.len(),
                algorithms@ == supported(),
                forall|j: int| 0 <= j < i ==> (#[trigger] keys@[j]).algorithm() == supported()[j],
            decreases keys.len() - i,
        {
            if keys[i].algorithm() != algorithms[i] {
                return None;
            }
            i += 1;
        }
        Some(HostKeyStore { keys })
    }

    /// How many keys the store holds: one per supported scheme.
    pub fn len(&self) -> (n: usize)
        ensures
            n == self@.len(),
            n == supported().len(),
            is_complete(self@),
    {
        proof {
            use_type_invariant(self);
        }
        self.keys.len()
    }

    /// The key of `algorithm`. There always is one.
    pub fn get(&self, algorithm: HostKeyAlgorithm) -> (key: &HostKey)
        ensures
            *key == self.key_of(algorithm),
            key.algorithm() == algorithm,
    {
        proof {
            use_type_invariant(self);
        }
        &self.keys[algorithm.position()]
    }
}

} // verus!
