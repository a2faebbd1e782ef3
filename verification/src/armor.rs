//! Key files: a PKCS#8 document in a PEM container.
//!
//! The container format is `pem`'s business. The two calls into it stand
//! first, stated and not proved. What follows them is proved.

use crate::crypto::{ed25519_key, ed25519_pkcs8_accepted};
use crate::error::{Error, ErrorKind};
use crate::host_key::{HostKey, HostKeyAlgorithm};
use vstd::prelude::*;
use vstd::utf8::encode_utf8;

verus! {

/// What `pem::parse` makes of `input`: the contents of the first PEM block
/// in it, or `None` where it reports an error.
pub uninterp spec fn pem_parsed(input: Seq<u8>) -> Option<Seq<u8>>;

/// What `pem::encode` makes of a block with this tag and these contents.
pub uninterp spec fn pem_encoded(tag: Seq<char>, contents: Seq<u8>) -> Seq<char>;

/// `pem::parse`, keeping the contents of the block and dropping its tag.
#[verifier::external_body]
pub(crate) fn pem_parse(input: &[u8]) -> (res: Result<Vec<u8>, pem::PemError>)
    ensures
        res matches Ok(contents) ==> pem_parsed(input@) == Some(contents@),
        res is Err ==> pem_parsed(input@) is None,
{
    match pem::parse(input) {
        Ok(block) => Ok(block.contents),
        Err(e) => Err(e),
    }
}

/// A tag that `pem::parse` finds again as it was written: not empty, and
/// with no hyphen in it.
pub open spec fn is_plain_tag(tag: Seq<char>) -> bool {
    tag.len() > 0 && forall|i: int| 0 <= i < tag.len() ==> tag[i] != '-'
}

/// `pem::encode`, on a block made of `tag` and `contents`.
///
/// Under a plain tag, `pem::parse` reads the contents back out of the text.
/// The text is the line `-----BEGIN <tag>-----`, the contents in base64 with
/// padding, 64 characters to a line, and the line `-----END <tag>-----`.
/// `pem::parse` takes the tag up to the first run of five hyphens, the data up
/// to the first `-----END `, finds the two tags equal, joins the lines and
/// decodes them in the same base64. No hyphen is in base64 or in a plain
/// tag, so each part ends where it was written to end.
#[verifier::external_body]
pub(crate) fn pem_encode(tag: &str, contents: Vec<u8>) -> (text: String)
    ensures
        text@ == pem_encoded(tag@, contents@),
        is_plain_tag(tag@) ==> pem_parsed(encode_utf8(text@)) == Some(contents@),
{
    pem::encode(&pem::Pem { tag: tag.to_owned(), contents })
}

/// What reading a key file of `algorithm` with this content may give. A
/// content that is no PEM container fails as such. Otherwise the block's
/// contents are decoded: the key that comes out is of `algorithm` and is the
/// one decoded from those contents, a failure is a rejection, and an Ed25519
/// key comes out exactly when the contents are an accepted document, and is
/// then the key that they decide.
pub open spec fn reads_as(
    algorithm: HostKeyAlgorithm,
    content: Seq<u8>,
    res: Result<HostKey, Error>,
) -> bool {
    match pem_parsed(content) {
        None => res matches Err(e) && e.kind() == ErrorKind::PemDecoding,
        Some(document) => {
            &&& res matches Ok(key) ==> key.algorithm() == algorithm && key.document() == document
            &&& res matches Ok(HostKey::Ed25519(decoded)) ==> decoded.pair() == ed25519_key(document)
            &&& res matches Err(e) ==> e.kind() == ErrorKind::KeyRejected
            &&& algorithm == HostKeyAlgorithm::Ed25519 ==> (res is Ok <==> ed25519_pkcs8_accepted(
                document,
            ))
        },
    }
}

/// Reads the key of `algorithm` out of the content of its key file. The tag
/// of the block is not looked at.
pub fn read_key_file(algorithm: HostKeyAlgorithm, content: &[u8]) -> (res: Result<HostKey, Error>)
    ensures
        reads_as(algorithm, content@, res),
{
    match pem_parse(content) {
        Ok(document) => HostKey::decode(algorithm, document.as_slice()),
        Err(e) => Err(Error::from(e)),
    }
}

/// The content of the key file that holds `document` as the key of
/// `algorithm`: one PEM block under the algorithm's tag, out of which the
/// document is read back.
pub fn write_key_file(algorithm: HostKeyAlgorithm, document: Vec<u8>) -> (text: String)
    ensures
        text@ == pem_encoded(algorithm.spec_pem_tag(), document@),
        pem_parsed(encode_utf8(text@)) == Some(document@),
{
    pem_encode(algorithm.pem_tag(), document)
}

/// A key file that was written for a document reads back as the key of that
/// document. Reading it fails only as a rejection of the document, and for
/// Ed25519 exactly when the document is not an accepted one.
pub proof fn lemma_key_file_reads_back(
    algorithm: HostKeyAlgorithm,
    document: Vec<u8>,
    text: String,
    content: &[u8],
    read: Result<HostKey, Error>,
)
    requires
        call_ensures(write_key_file, (algorithm, document), text),
        content@ == encode_utf8(text@),
        call_ensures(read_key_file, (algorithm, content), read),
    ensures
        read matches Ok(key) ==> key.algorithm() == algorithm && key.document() == document@,
        read matches Ok(HostKey::Ed25519(decoded)) ==> decoded.pair() == ed25519_key(document@),
        read matches Err(e) ==> e.kind() == ErrorKind::KeyRejected,
        algorithm == HostKeyAlgorithm::Ed25519 ==> (read is Ok <==> ed25519_pkcs8_accepted(
            document@,
        )),
{
}

} // verus!
