//! Loading the host keys from a directory.
//!
//! The library decides and the caller touches the disk. The schemes are
//! taken in their order. A key file that exists is read and never replaced,
//! one that is missing is generated and written. The first failure ends the
//! load, and the store comes out only when it holds a key of every scheme.
//!
//! `load_keys` is the whole load at once, for a caller that holds the
//! contents of the key files and writes afterwards. `LoadStep` is the same
//! load one step at a time, for a caller that reads and writes as it goes:
//! each step but the last asks for one thing, to make the directory, to read
//! a key file or to write one, and hands over a request that the caller
//! answers to get the next step. Both take each key from `load_or_generate`.

use crate::armor::{pem_encoded, pem_parsed, read_key_file, reads_as, write_key_file};
use crate::crypto::{ed25519_key, ed25519_pkcs8_accepted};
use crate::error::{Error, ErrorKind};
use crate::host_key::{supported, HostKey, HostKeyAlgorithm};
use crate::store::{is_complete, is_partial, HostKeyStore};
use vstd::prelude::*;
use vstd::utf8::encode_utf8;

verus! {

/// There is a file, and its content is no PEM container.
pub open spec fn unreadable(file: Option<Seq<u8>>) -> bool {
    file matches Some(content) && pem_parsed(content) is None
}

/// There is a file, and reading it as the key of `algorithm` is sure to
/// fail: its content is no PEM container, or the scheme is Ed25519 and the
/// block's contents are no accepted document.
pub open spec fn cannot_be_read(algorithm: HostKeyAlgorithm, file: Option<Seq<u8>>) -> bool {
    file matches Some(content) && match pem_parsed(content) {
        None => true,
        Some(document) => algorithm == HostKeyAlgorithm::Ed25519 && !ed25519_pkcs8_accepted(
            document,
        ),
    }
}

/// The bytes of a file's content, if there is a file.
pub open spec fn content_of(existing: Option<&[u8]>) -> Option<Seq<u8>> {
    match existing {
        Some(content) => Some(content@),
        None => None,
    }
}

/// What generating the key of `algorithm` may give: the key, which is of
/// `algorithm`, with the content of the file that is to hold it, a PEM block
/// under the algorithm's tag round the very document that the key was
/// decoded from, which has the length of a fresh document and is read back
/// out of the text; or the failure of
/// the random source or the primitive. An ECDSA key is built with a draw
/// from the random source and can be rejected then. A generated Ed25519 key
/// is never rejected, and is the key that its document decides.
pub open spec fn generates(algorithm: HostKeyAlgorithm, res: Result<(HostKey, String), Error>) -> bool {
    match res {
        Ok((key, text)) => {
            &&& key.algorithm() == algorithm
            &&& text@ == pem_encoded(algorithm.spec_pem_tag(), key.document())
            &&& pem_parsed(encode_utf8(text@)) == Some(key.document())
            &&& key.document().len() == algorithm.spec_document_len()
            &&& key matches HostKey::Ed25519(decoded) ==> ed25519_pkcs8_accepted(key.document())
                && decoded.pair() == ed25519_key(key.document())
        },
        Err(e) => {
            ||| e.kind() == ErrorKind::Unspecified
            ||| algorithm == HostKeyAlgorithm::Ecdsa256 && e.kind() == ErrorKind::KeyRejected
        },
    }
}

/// What `load_or_generate` may give for a key file with the content
/// `existing`, or for a missing one. Text to write comes back exactly when the
/// file was missing.
pub open spec fn loads_or_generates(
    algorithm: HostKeyAlgorithm,
    existing: Option<Seq<u8>>,
    res: Result<(HostKey, Option<String>), Error>,
) -> bool {
    match existing {
        Some(content) => match res {
            Ok((key, text)) => text is None && reads_as(algorithm, content, Ok(key)),
            Err(e) => reads_as(algorithm, content, Err(e)),
        },
        None => match res {
            Ok((key, text)) => text matches Some(t) && generates(algorithm, Ok((key, t))),
            Err(e) => generates(algorithm, Err(e)),
        },
    }
}

/// Turns a freshly generated `document` into the key it encodes and the
/// content of the file that is to hold it.
pub fn adopt_document(algorithm: HostKeyAlgorithm, document: Vec<u8>) -> (res: Result<
    (HostKey, String),
    Error,
>)
    ensures
        res matches Ok((key, text)) ==> key.algorithm() == algorithm && key.document()
            == document@ && text@ == pem_encoded(algorithm.spec_pem_tag(), document@),
        res matches Ok((_, text)) ==> pem_parsed(encode_utf8(text@)) == Some(document@),
        res matches Ok((HostKey::Ed25519(decoded), _)) ==> decoded.pair() == ed25519_key(
            document@,
        ),
        res matches Err(e) ==> e.kind() == ErrorKind::KeyRejected,
        algorithm == HostKeyAlgorithm::Ed25519 ==> (res is Ok <==> ed25519_pkcs8_accepted(
            document@,
        )),
{
    match HostKey::decode(algorithm, document.as_slice()) {
        Ok(key) => Ok((key, write_key_file(algorithm, document))),
        Err(e) => Err(e),
    }
}

/// The key of `algorithm`: read from `existing`, the content of its key file,
/// or generated where there is no file. A generated key comes with the
/// content of the file to write. A file that cannot be read as a key is an
/// error, and nothing is generated in its place.
pub fn load_or_generate(algorithm: HostKeyAlgorithm, existing: Option<&[u8]>) -> (res: Result<
    (HostKey, Option<String>),
    Error,
>)
    ensures
        loads_or_generates(algorithm, content_of(existing), res),
        existing is Some ==> (res matches Ok((_, text)) ==> text is None),
        unreadable(content_of(existing)) ==> (res matches Err(e) && e.kind()
            == ErrorKind::PemDecoding),
        cannot_be_read(algorithm, content_of(existing)) ==> res is Err,
{
    match existing {
        Some(content) => match read_key_file(algorithm, content) {
            Ok(key) => Ok((key, None)),
            Err(e) => Err(e),
        },
        None => match algorithm.generate_key() {
            Ok(document) => match adopt_document(algorithm, document) {
                Ok((key, text)) => Ok((key, Some(text))),
                Err(e) => Err(e),
            },
            Err(e) => Err(e),
        },
    }
}

/// The content of the key file of the scheme at `index`, where `existing`
/// lists the contents in the order of the schemes. A scheme that the list
/// does not reach has no file.
pub open spec fn file_at(existing: Seq<Option<Vec<u8>>>, index: int) -> Option<Seq<u8>> {
    if 0 <= index < existing.len() {
        match existing[index] {
            Some(content) => Some(content@),
            None => None,
        }
    } else {
        None
    }
}

/// The load fails with `error` at the scheme at `index`, and no scheme
/// before it has a file that is sure to fail.
pub open spec fn fails_first_at(existing: Seq<Option<Vec<u8>>>, index: int, error: Error) -> bool {
    &&& 0 <= index < supported().len()
    &&& loads_or_generates(supported()[index], file_at(existing, index), Err(error))
    &&& forall|j: int|
        0 <= j < index ==> !#[trigger] cannot_be_read(supported()[j], file_at(existing, j))
}

/// Loads the key of every supported scheme, in their order, from the
/// contents of the key files as `existing` lists them.
///
/// What comes back is the store of all the keys and, for each scheme, the
/// content of the key file to write: there is one exactly for the schemes
/// that had no file. The first key that cannot be had fails the whole load
/// with its error, and then nothing comes back to use or to write. A file
/// that is sure to fail fails the load wherever it stands.
pub fn load_keys(existing: &[Option<Vec<u8>>]) -> (res: Result<
    (HostKeyStore, Vec<Option<String>>),
    Error,
>)
    ensures
        match res {
            Ok((store, written)) => {
                &&& is_complete(store@)
                &&& written@.len() == supported().len()
                &&& forall|i: int|
                    0 <= i < supported().len() ==> #[trigger] loads_or_generates(
                        supported()[i],
                        file_at(existing@, i),
                        Ok((store@[i], written@[i])),
                    )
                &&& forall|i: int|
                    0 <= i < supported().len() ==> ((#[trigger] written@[i]) is Some <==> file_at(
                        existing@,
                        i,
                    ) is None)
            },
            Err(e) => exists|i: int| #[trigger] fails_first_at(existing@, i, e),
        },
        (exists|i: int|
            0 <= i < supported().len() && #[trigger] cannot_be_read(
                supported()[i],
                file_at(existing@, i),
            )) ==> res is Err,
{
    let algorithms = HostKey::algorithms();
    let mut keys: Vec<HostKey> = Vec::new();
    let mut written: Vec<Option<String>> = Vec::new();
    let mut i: usize = 0;
    while i < algorithms.len()
        invariant
            i <= algorithms.len(),
            algorithms@ == supported(),
            keys@.len() == i,
            written@.len() == i,
            is_partial(keys@),
            forall|j: int|
                0 <= j < i ==> #[trigger] loads_or_generates(
                    supported()[j],
                    file_at(existing@, j),
                    Ok((keys@[j], written@[j])),
                ),
            forall|j: int|
                0 <= j < i ==> ((#[trigger] written@[j]) is Some <==> file_at(existing@, j) is None),
            forall|j: int|
                0 <= j < i ==> !#[trigger] cannot_be_read(supported()[j], file_at(existing@, j)),
        decreases algorithms.len() - i,
    {
        let file: Option<&[u8]> = if i < existing.len() {
            match &existing[i] {
                Some(content) => Some(content.as_slice()),
                None => None,
            }
        } else {
            None
        };
        assert(content_of(file) == file_at(existing@, i as int));
        match load_or_generate(algorithms[i], file) {
            Ok((key, text)) => {
                keys.push(key);
                written.push(text);
            },
            Err(e) => {
                assert(fails_first_at(existing@, i as int, e));
                return Err(e);
            },
        }
        i += 1;
    }
    Ok((HostKeyStore::from_complete(keys), written))
}

/// The content of the key file of the scheme at `index` once a load has
/// been through: what the load gave to write, where it gave something, and
/// what was there before, where it gave nothing.
pub open spec fn file_after(
    existing: Seq<Option<Vec<u8>>>,
    written: Seq<Option<String>>,
    index: int,
) -> Option<Seq<u8>> {
    if 0 <= index < written.len() && written[index] is Some {
        Some(encode_utf8(written[index]->0@))
    } else {
        file_at(existing, index)
    }
}

/// A load that comes after a load that succeeded, and finds the files as
/// that one left them, reads every key and generates none. Where it succeeds
/// it gives nothing to write, and each key is decoded from the document that
/// the key of the first load was decoded from; an Ed25519 key is the same key.
/// It can only fail on an ECDSA key, which is built with a draw from the
/// random source, and then as a rejection.
pub proof fn lemma_reload_gives_the_same_keys(
    existing: &[Option<Vec<u8>>],
    store: HostKeyStore,
    written: Vec<Option<String>>,
    found: &[Option<Vec<u8>>],
    reloaded: Result<(HostKeyStore, Vec<Option<String>>), Error>,
)
    requires
        call_ensures(load_keys, (existing,), Ok((store, written))),
        forall|i: int|
            0 <= i < supported().len() ==> #[trigger] file_at(found@, i) == file_after(
                existing@,
                written@,
                i,
            ),
        call_ensures(load_keys, (found,), reloaded),
    ensures
        match reloaded {
            Ok((second, rewritten)) => forall|i: int|
                0 <= i < supported().len() ==> {
                    &&& (#[trigger] rewritten@[i]) is None
                    &&& second@[i].document() == store@[i].document()
                    &&& supported()[i] == HostKeyAlgorithm::Ed25519 ==> second@[i] == store@[i]
                },
            Err(e) => e.kind() == ErrorKind::KeyRejected,
        },
{
    assert forall|i: int| 0 <= i < supported().len() implies {
        &&& #[trigger] file_at(found@, i) matches Some(content)
        &&& pem_parsed(content) == Some(store@[i].document())
        &&& supported()[i] == HostKeyAlgorithm::Ed25519 ==> ed25519_pkcs8_accepted(
            store@[i].document(),
        )
    } by {
        assert(loads_or_generates(
            supported()[i],
            file_at(existing@, i),
            Ok((store@[i], written@[i])),
        ));
        assert(written@[i] is Some <==> file_at(existing@, i) is None);
    }
    match reloaded {
        Ok((second, rewritten)) => {
            assert forall|i: int| 0 <= i < supported().len() implies {
                &&& (#[trigger] rewritten@[i]) is None
                &&& second@[i].document() == store@[i].document()
                &&& supported()[i] == HostKeyAlgorithm::Ed25519 ==> second@[i] == store@[i]
            } by {
                assert(file_at(found@, i) is Some);
                assert(loads_or_generates(
                    supported()[i],
                    file_at(found@, i),
                    Ok((second@[i], rewritten@[i])),
                ));
                assert(loads_or_generates(
                    supported()[i],
                    file_at(existing@, i),
                    Ok((store@[i], written@[i])),
                ));
                HostKey::lemma_same_key(second@[i], store@[i]);
            }
        },
        Err(e) => {
            let i = choose|i: int| #[trigger] fails_first_at(found@, i, e);
            assert(file_at(found@, i) is Some);
        },
    }
}

/// The request to make the key directory.
#[derive(Debug)]
pub struct DirectoryRequest {
    sealed: (),
}

/// The request to read the key file of the next scheme.
#[derive(Debug)]
pub struct ReadRequest {
    keys: Vec<HostKey>,
}

/// The request to write the key file of a key that has just been generated.
#[derive(Debug)]
pub struct WriteRequest {
    keys: Vec<HostKey>,
    pending: HostKey,
}

/// One step of a load: what the caller is to do next, or how the load ended.
#[derive(Debug)]
#[allow(inconsistent_fields)]
pub enum LoadStep {
    /// Make the directory, and its parents where they are missing. That it
    /// is there already is no failure.
    CreateDirectory { request: DirectoryRequest },
    /// Look for the file of this name in the directory and read it.
    ReadFile { request: ReadRequest, name: &'static str },
    /// Write `text` to the file of this name in the directory.
    WriteFile { request: WriteRequest, name: &'static str, text: String },
    /// Every key is loaded.
    Done { store: HostKeyStore },
    /// The load has failed, and no store comes out of it.
    Failed { error: Error },
}

impl View for ReadRequest {
    type V = Seq<HostKey>;

    /// The keys loaded so far, in the order of the supported schemes.
    closed spec fn view(&self) -> Seq<HostKey> {
        self.keys@
    }
}

impl View for WriteRequest {
    type V = Seq<HostKey>;

    /// The keys loaded so far, in the order of the supported schemes.
    closed spec fn view(&self) -> Seq<HostKey> {
        self.keys@
    }
}

impl LoadStep {
    /// The keys that are loaded as of this step.
    pub open spec fn keys(self) -> Seq<HostKey> {
        match self {
            LoadStep::ReadFile { request, .. } => request@,
            LoadStep::WriteFile { request, .. } => request@,
            LoadStep::Done { store } => store@,
            _ => Seq::empty(),
        }
    }

    /// This step is how a load goes on that has `keys` and nothing pending:
    /// with a key of every scheme it is done and hands out the store of
    /// them, otherwise it asks for the key file of the next scheme.
    pub open spec fn proceeds_from(self, keys: Seq<HostKey>) -> bool {
        if keys.len() >= supported().len() {
            self matches LoadStep::Done { store } && store@ == keys
        } else {
            &&& self matches LoadStep::ReadFile { request, name }
            &&& request@ == keys
            &&& name@ == supported()[keys.len() as int].spec_key_file_name()
        }
    }

    /// Begins a load. The first thing to do is to make sure of the directory.
    pub fn start() -> (step: LoadStep)
        ensures
            step is CreateDirectory,
    {
        LoadStep::CreateDirectory { request: DirectoryRequest { sealed: () } }
    }

    /// Goes on from `keys`, which hold a key for each scheme so far: to the
    /// next key file, or to the store when none is left.
    fn proceed(keys: Vec<HostKey>) -> (step: LoadStep)
        requires
            is_partial(keys@),
        ensures
            step.proceeds_from(keys@),
            step.keys() == keys@,
            step matches LoadStep::Done { store } ==> is_complete(store@),
    {
        let algorithms = HostKey::algorithms();
        if keys.len() >= algorithms.len() {
            LoadStep::Done { store: HostKeyStore::from_complete(keys) }
        } else {
            let name = algorithms[keys.len()].key_file_name();
            LoadStep::ReadFile { request: ReadRequest { keys }, name }
        }
    }
}

impl DirectoryRequest {
    /// The directory is there. The load turns to the first key file.
    pub fn created(self) -> (step: LoadStep)
        ensures
            step.proceeds_from(Seq::empty()),
            step matches LoadStep::Done { store } ==> is_complete(store@),
    {
        LoadStep::proceed(Vec::new())
    }

    /// The directory could not be made. The load fails with that.
    pub fn failed(self, source: std::io::Error) -> (step: LoadStep)
        ensures
            step == (LoadStep::Failed { error: Error::FileWriteError(source) }),
    {
        LoadStep::Failed { error: Error::from(source) }
    }
}

impl ReadRequest {
    #[verifier::type_invariant]
    spec fn well_formed(&self) -> bool {
        is_partial(self.keys@) && self.keys@.len() < supported().len()
    }

    /// The scheme whose key file is asked for.
    pub open spec fn algorithm(&self) -> HostKeyAlgorithm {
        supported()[self@.len() as int]
    }

    /// Takes the content of the file, or that there is no file.
    ///
    /// A file is read as the key: the load goes on with it, or fails where
    /// the content is no key, and asks for nothing to be written. Where
    /// there is no file, a key is generated, and the step asks for its file
    /// to be written before the load goes on.
    pub fn answer(self, existing: Option<&[u8]>) -> (step: LoadStep)
        ensures
            match step {
                LoadStep::Failed { error } => loads_or_generates(
                    self.algorithm(),
                    content_of(existing),
                    Err(error),
                ),
                LoadStep::WriteFile { request, name, text } => {
                    &&& existing is None
                    &&& request@ == self@
                    &&& name@ == self.algorithm().spec_key_file_name()
                    &&& generates(self.algorithm(), Ok((request.pending(), text)))
                },
                LoadStep::CreateDirectory { .. } => false,
                _ => {
                    &&& existing matches Some(content)
                    &&& step.keys().len() == self@.len() + 1
                    &&& step.keys().drop_last() == self@
                    &&& reads_as(self.algorithm(), content@, Ok(step.keys().last()))
                    &&& step.proceeds_from(step.keys())
                },
            },
            existing is Some ==> !(step is WriteFile),
            step matches LoadStep::Done { store } ==> is_complete(store@),
            unreadable(content_of(existing)) ==> (step matches LoadStep::Failed { error }
                && error.kind() == ErrorKind::PemDecoding),
            cannot_be_read(self.algorithm(), content_of(existing)) ==> step is Failed,
    {
        proof {
            use_type_invariant(&self);
        }
        let ReadRequest { mut keys } = self;
        let algorithm = HostKey::algorithms()[keys.len()];
        match load_or_generate(algorithm, existing) {
            Ok((key, None)) => {
                let ghost before = keys@;
                keys.push(key);
                assert(keys@.drop_last() =~= before);
                LoadStep::proceed(keys)
            },
            Ok((key, Some(text))) => LoadStep::WriteFile {
                request: WriteRequest { keys, pending: key },
                name: algorithm.key_file_name(),
                text,
            },
            Err(error) => LoadStep::Failed { error },
        }
    }

    /// The file could not be read. The load fails with that.
    pub fn failed(self, source: std::io::Error) -> (step: LoadStep)
        ensures
            step == (LoadStep::Failed { error: Error::FileWriteError(source) }),
    {
        LoadStep::Failed { error: Error::from(source) }
    }
}

impl WriteRequest {
    #[verifier::type_invariant]
    spec fn well_formed(&self) -> bool {
        &&& is_partial(self.keys@)
        &&& self.keys@.len() < supported().len()
        &&& self.pending.algorithm() == supported()[self.keys@.len() as int]
    }

    /// The key that waits for its file to be written.
    pub closed spec fn pending(&self) -> HostKey {
        self.pending
    }

    /// The file is written. The key counts as loaded from now on, and the
    /// load goes on with it.
    pub fn written(self) -> (step: LoadStep)
        ensures
            step.proceeds_from(self@.push(self.pending())),
            step matches LoadStep::Done { store } ==> is_complete(store@),
    {
        proof {
            use_type_invariant(&self);
        }
        let WriteRequest { mut keys, pending } = self;
        keys.push(pending);
        LoadStep::proceed(keys)
    }

    /// The file could not be written. The load fails with that, and the key
    /// is dropped.
    pub fn failed(self, source: std::io::Error) -> (step: LoadStep)
        ensures
            step == (LoadStep::Failed { error: Error::FileWriteError(source) }),
    {
        LoadStep::Failed { error: Error::from(source) }
    }
}

} // verus!
