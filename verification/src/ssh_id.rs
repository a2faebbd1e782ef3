//! The identification string that opens every SSH connection.

use crate::error::{Error, ErrorKind};
use vstd::prelude::*;
use vstd::slice::slice_to_vec;
use vstd::string::StringSliceAdditionalSpecFns;

verus! {

/// The longest identification string the protocol admits, terminator
/// included. A receiver reads into a buffer of this many bytes.
pub const MAX_ID_LEN: usize = 255;

/// `SSH-2.0-`, with which every identification string begins.
pub const ID_PREFIX: [u8; 8] = [0x53, 0x53, 0x48, 0x2d, 0x32, 0x2e, 0x30, 0x2d];

/// Carriage return and line feed, with which every identification string ends.
pub const ID_TERMINATOR: [u8; 2] = [0x0d, 0x0a];

/// The bytes of the prefix.
pub open spec fn id_prefix() -> Seq<u8> {
    ID_PREFIX@
}

/// The bytes of the terminator.
pub open spec fn id_terminator() -> Seq<u8> {
    ID_TERMINATOR@
}

/// The wire format: the prefix, anything, the terminator, and no more than
/// `MAX_ID_LEN` bytes in all.
pub open spec fn is_identification(bytes: Seq<u8>) -> bool {
    &&& bytes.len() <= MAX_ID_LEN
    &&& id_prefix().is_prefix_of(bytes)
    &&& id_terminator().is_suffix_of(bytes)
}

/// The identification string that announces `software`.
pub open spec fn banner(software: Seq<u8>) -> Seq<u8> {
    id_prefix() + software + id_terminator()
}

/// `bytes` without its last two.
pub open spec fn trim(bytes: Seq<u8>) -> Seq<u8> {
    bytes.subrange(0, bytes.len() - 2)
}

/// An identification string never has fewer than ten bytes, and trimming it
/// takes off the terminator and nothing else: the prefix stays, and putting the
/// terminator back gives the string again.
pub proof fn lemma_trim_removes_terminator(bytes: Seq<u8>)
    requires
        is_identification(bytes),
    ensures
        bytes.len() >= 10,
        trim(bytes) + id_terminator() == bytes,
        id_prefix().is_prefix_of(trim(bytes)),
{
    let n = bytes.len() as int;
    assert(bytes.subrange(0, 8) == id_prefix());
    assert(bytes.subrange(n - 2, n) == id_terminator());
    assert(bytes[7] == id_prefix()[7]);
    if n < 10 {
        if n == 9 {
            assert(bytes[7] == bytes.subrange(n - 2, n)[0]);
        } else {
            assert(bytes[7] == bytes.subrange(n - 2, n)[1]);
        }
    }
    assert(trim(bytes) + id_terminator() =~= bytes);
    assert(trim(bytes).subrange(0, 8) =~= bytes.subrange(0, 8));
}

/// Whatever software label is announced, the banner is an identification
/// string as long as it fits, and its trimmed form is the prefix and the label.
pub proof fn lemma_banner_is_identification(software: Seq<u8>)
    requires
        software.len() + 10 <= MAX_ID_LEN,
    ensures
        is_identification(banner(software)),
        banner(software).len() == software.len() + 10,
        trim(banner(software)) == id_prefix() + software,
{
    let b = banner(software);
    assert(b.subrange(0, 8) =~= id_prefix());
    assert(b.subrange(b.len() - 2, b.len() as int) =~= id_terminator());
    assert(trim(b) =~= id_prefix() + software);
}

/// An identification string, held with its terminator.
#[derive(Debug)]
pub struct SshId {
    buf: Vec<u8>,
}

impl View for SshId {
    type V = Seq<u8>;

    closed spec fn view(&self) -> Seq<u8> {
        self.buf@
    }
}

fn starts_with(bytes: &[u8], prefix: &[u8]) -> (found: bool)
    ensures
        found == prefix@.is_prefix_of(bytes@),
{
    if bytes.len() < prefix.len() {
        return false;
    }
    let mut i: usize = 0;
    while i < prefix.len()
        invariant
            i <= prefix.len() <= bytes.len(),
            forall|j: int| 0 <= j < i ==> bytes@[j] == prefix@[j],
        decreases prefix.len() - i,
    {
        if bytes[i] != prefix[i] {
            assert(bytes@.subrange(0, prefix@.len() as int)[i as int] != prefix@[i as int]);
            return false;
        }
        i += 1;
    }
    assert(bytes@.subrange(0, prefix@.len() as int) =~= prefix@);
    true
}

fn ends_with(bytes: &[u8], suffix: &[u8]) -> (found: bool)
    ensures
        found == suffix@.is_suffix_of(bytes@),
{
    if bytes.len() < suffix.len() {
        return false;
    }
    let skip: usize = bytes.len() - suffix.len();
    let mut i: usize = 0;
    while i < suffix.len()
        invariant
            i <= suffix.len() <= bytes.len(),
            skip == bytes.len() - suffix.len(),
            forall|j: int| 0 <= j < i ==> bytes@[skip + j] == suffix@[j],
        decreases suffix.len() - i,
    {
        if bytes[skip + i] != suffix[i] {
            assert(bytes@.subrange(skip as int, bytes@.len() as int)[i as int] != suffix@[i as int]);
            return false;
        }
        i += 1;
    }
    assert(bytes@.subrange(skip as int, bytes@.len() as int) =~= suffix@);
    true
}

impl SshId {
    #[verifier::type_invariant]
    spec fn well_formed(&self) -> bool {
        is_identification(self.buf@)
    }

    /// The identification string of `software`: the prefix, the label's bytes
    /// and the terminator.
    pub fn new(software: &str) -> (id: Self)
        requires
            software.spec_bytes().len() + 10 <= MAX_ID_LEN,
        ensures
            id@ == banner(software.spec_bytes()),
            is_identification(id@),
    {
        let mut buf = slice_to_vec(ID_PREFIX.as_slice());
        let mut label = slice_to_vec(software.as_bytes());
        let mut terminator = slice_to_vec(ID_TERMINATOR.as_slice());
        buf.append(&mut label);
        buf.append(&mut terminator);
        proof {
            lemma_banner_is_identification(software.spec_bytes());
        }
        SshId { buf }
    }

    /// Takes what one read from a peer delivered as that peer's complete
    /// identification string, and accepts it exactly when it has the wire
    /// format.
    pub fn from_bytes(received: &[u8]) -> (res: Result<Self, Error>)
        ensures
            res is Ok <==> is_identification(received@),
            res matches Ok(id) ==> id@ == received@,
            res matches Err(e) ==> e.kind() == ErrorKind::InvalidIdentification,
            !id_terminator().is_suffix_of(received@) ==> res is Err,
            !id_prefix().is_prefix_of(received@) ==> res is Err,
    {
        if received.len() <= MAX_ID_LEN && starts_with(received, ID_PREFIX.as_slice())
            && ends_with(received, ID_TERMINATOR.as_slice()) {
            Ok(SshId { buf: slice_to_vec(received) })
        } else {
            Err(Error::InvalidIdentification)
        }
    }

    /// The whole string, as it goes on the wire.
    pub fn buf(&self) -> (bytes: &[u8])
        ensures
            bytes@ == self@,
            is_identification(bytes@),
    {
        proof {
            use_type_invariant(self);
        }
        self.buf.as_slice()
    }

    /// The string without its terminator.
    pub fn buf_trimmed(&self) -> (bytes: &[u8])
        ensures
            bytes@ == trim(self@),
            bytes@ + id_terminator() == self@,
            id_prefix().is_prefix_of(bytes@),
    {
        proof {
            use_type_invariant(self);
            lemma_trim_removes_terminator(self.buf@);
        }
        let end: usize = self.buf.len() - 2;
        let whole = self.buf.as_slice();
        &whole[0..end]
    }
}

} // verus!
