//! What every negotiable SSH algorithm exposes.

use vstd::prelude::*;

verus! {

/// No path separator and no NUL, and at least one character: the text can
/// stand as one segment of a file path.
pub open spec fn is_path_segment(text: Seq<char>) -> bool {
    &&& text.len() > 0
    &&& forall|i: int|
        0 <= i < text.len() ==> text[i] != '/' && text[i] != '\\' && text[i] != '\0'
}

pub trait SshAlgorithm {
    /// The identifier sent on the wire.
    spec fn spec_id(&self) -> Seq<char>;

    /// The friendly name.
    spec fn spec_name(&self) -> Seq<char>;

    /// Returns the SSH id.
    /// For example, the Ed25519 host key algorithm has the id `ssh-ed25519`.
    fn id(&self) -> (id: &'static str)
        ensures
            id@ == self.spec_id(),
    ;

    /// Returns the algorithm's friendly name, which is fit to stand in a
    /// file name.
    fn name(&self) -> (name: &'static str)
        ensures
            name@ == self.spec_name(),
            is_path_segment(name@),
    ;
}

} // verus!
