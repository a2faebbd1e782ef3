//! The error type shared by key handling and the identification exchange.

use vstd::prelude::*;
use vstd::std_specs::convert::FromSpecImpl;

verus! {

/// `std::io::Error`, carried unopened from the caller that did the I/O.
#[verifier::external_type_specification]
#[verifier::external_body]
pub struct ExIoError(std::io::Error);

/// `ring::error::Unspecified`, the failure `ring` reports without detail.
#[verifier::external_type_specification]
#[verifier::external_body]
pub struct ExUnspecified(ring::error::Unspecified);

/// `ring::error::KeyRejected`, the reason `ring` gives for refusing a key.
#[verifier::external_type_specification]
#[verifier::external_body]
pub struct ExKeyRejected(ring::error::KeyRejected);

/// `pem::PemError`, the reason `pem` gives for refusing a container.
#[verifier::external_type_specification]
#[verifier::external_body]
pub struct ExPemError(pem::PemError);

/// What went wrong, without the detail the underlying library attached.
#[derive(Clone, Copy, Debug, PartialEq, Eq, Structural)]
pub enum ErrorKind {
    /// A file or stream could not be read or written.
    Io,
    /// A signing or key generation primitive failed.
    Unspecified,
    /// Bytes did not form a key of the claimed algorithm.
    KeyRejected,
    /// A key file was not a PEM container.
    PemDecoding,
    /// A peer's identification string was malformed.
    InvalidIdentification,
}

impl ErrorKind {
    /// The fixed text shown for each kind.
    pub open spec fn spec_message(self) -> Seq<char> {
        match self {
            ErrorKind::Io => "io operation failed"@,
            ErrorKind::Unspecified => "ring operation failed"@,
            ErrorKind::KeyRejected => "crypto keys were rejected"@,
            ErrorKind::PemDecoding => "failed to decode pem key"@,
            ErrorKind::InvalidIdentification => "invalid id string"@,
        }
    }

    pub fn message(&self) -> (text: &'static str)
        ensures
            text@ == self.spec_message(),
    {
        match self {
            ErrorKind::Io => "io operation failed",
            ErrorKind::Unspecified => "ring operation failed",
            ErrorKind::KeyRejected => "crypto keys were rejected",
            ErrorKind::PemDecoding => "failed to decode pem key",
            ErrorKind::InvalidIdentification => "invalid id string",
        }
    }
}

#[derive(Debug)]
pub enum Error {
    FileWriteError(std::io::Error),
    RingUnspecified(ring::error::Unspecified),
    KeyRejected(ring::error::KeyRejected),
    PemDecodingError(pem::PemError),
    InvalidIdentification,
}

impl Error {
    pub open spec fn spec_kind(&self) -> ErrorKind {
        match self {
            Error::FileWriteError(_) => ErrorKind::Io,
            Error::RingUnspecified(_) => ErrorKind::Unspecified,
            Error::KeyRejected(_) => ErrorKind::KeyRejected,
            Error::PemDecodingError(_) => ErrorKind::PemDecoding,
            Error::InvalidIdentification => ErrorKind::InvalidIdentification,
        }
    }

    #[verifier::when_used_as_spec(spec_kind)]
    pub fn kind(&self) -> (kind: ErrorKind)
        ensures
            kind == self.spec_kind(),
    {
        match self {
            Error::FileWriteError(_) => ErrorKind::Io,
            Error::RingUnspecified(_) => ErrorKind::Unspecified,
            Error::KeyRejected(_) => ErrorKind::KeyRejected,
            Error::PemDecodingError(_) => ErrorKind::PemDecoding,
            Error::InvalidIdentification => ErrorKind::InvalidIdentification,
        }
    }

    /// The text shown for this error: that of its kind.
    pub fn message(&self) -> (text: &'static str)
        ensures
            text@ == self.spec_kind().spec_message(),
    {
        self.kind().message()
    }
}

impl From<std::io::Error> for Error {
    fn from(source: std::io::Error) -> (error: Error) {
        Error::FileWriteError(source)
    }
}

impl FromSpecImpl<std::io::Error> for Error {
    open spec fn obeys_from_spec() -> bool {
        true
    }

    open spec fn from_spec(source: std::io::Error) -> Error {
        Error::FileWriteError(source)
    }
}

impl From<ring::error::Unspecified> for Error {
    fn from(source: ring::error::Unspecified) -> (error: Error) {
        Error::RingUnspecified(source)
    }
}

impl FromSpecImpl<ring::error::Unspecified> for Error {
    open spec fn obeys_from_spec() -> bool {
        true
    }

    open spec fn from_spec(source: ring::error::Unspecified) -> Error {
        Error::RingUnspecified(source)
    }
}

impl From<ring::error::KeyRejected> for Error {
    fn from(source: ring::error::KeyRejected) -> (error: Error) {
        Error::KeyRejected(source)
    }
}

impl FromSpecImpl<ring::error::KeyRejected> for Error {
    open spec fn obeys_from_spec() -> bool {
        true
    }

    open spec fn from_spec(source: ring::error::KeyRejected) -> Error {
        Error::KeyRejected(source)
    }
}

impl From<pem::PemError> for Error {
    fn from(source: pem::PemError) -> (error: Error) {
        Error::PemDecodingError(source)
    }
}

impl FromSpecImpl<pem::PemError> for Error {
    open spec fn obeys_from_spec() -> bool {
        true
    }

    open spec fn from_spec(source: pem::PemError) -> Error {
        Error::PemDecodingError(source)
    }
}

} // verus!
