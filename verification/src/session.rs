//! The first exchange on a connection: each side tells the other who it is.
//!
//! The library decides and the caller moves the bytes. The server's
//! identification string goes out first, in full, so that a peer that waits
//! for it before it sends its own is not kept waiting. Then one read of at
//! most `MAX_ID_LEN` bytes is taken as the peer's whole string. The exchange
//! is made once: it ends established, rejected or closed, and is not tried
//! again.

use crate::error::{Error, ErrorKind};
use crate::ssh_id::{is_identification, SshId, MAX_ID_LEN};
use vstd::prelude::*;

verus! {

/// What is known of a peer once the exchange has succeeded.
#[derive(Debug)]
pub struct Session {
    ssh_id: SshId,
}

impl Session {
    /// The peer's identification string.
    pub closed spec fn spec_ssh_id(&self) -> SshId {
        self.ssh_id
    }

    /// The session with the peer that has sent `ssh_id`.
    pub fn new(ssh_id: SshId) -> (session: Self)
        ensures
            session.spec_ssh_id() == ssh_id,
    {
        Session { ssh_id }
    }

    /// The peer's identification string.
    pub fn ssh_id(&self) -> (ssh_id: &SshId)
        ensures
            *ssh_id == self.spec_ssh_id(),
    {
        &self.ssh_id
    }
}

/// The request to send the server's identification string.
#[derive(Debug)]
pub struct SendRequest {
    sealed: (),
}

/// The request to read the peer's identification string.
#[derive(Debug)]
pub struct ReceiveRequest {
    sealed: (),
}

/// One step of the exchange: what the caller is to do next, or how it ended.
#[derive(Debug)]
#[allow(inconsistent_fields)]
pub enum ExchangeStep<'a> {
    /// Write all of `banner` to the peer, before anything else.
    Send { request: SendRequest, banner: &'a [u8] },
    /// Read once from the peer, into a buffer of `capacity` bytes.
    Receive { request: ReceiveRequest, capacity: usize },
    /// Both sides have identified themselves.
    Established { session: Session },
    /// The peer did not send an identification string. The connection is
    /// to be closed without a word.
    Rejected { error: Error },
    /// The connection broke during the exchange.
    Closed { error: Error },
}

impl<'a> ExchangeStep<'a> {
    /// Begins the exchange on a new connection, as the server that
    /// identifies itself with `server`.
    pub fn start(server: &'a SshId) -> (step: ExchangeStep<'a>)
        ensures
            step matches ExchangeStep::Send { banner, .. } && banner@ == server@,
    {
        ExchangeStep::Send { request: SendRequest { sealed: () }, banner: server.buf() }
    }
}

impl SendRequest {
    /// The server's string is on its way. Now the peer's is read.
    pub fn sent<'a>(self) -> (step: ExchangeStep<'a>)
        ensures
            step matches ExchangeStep::Receive { capacity, .. } && capacity == MAX_ID_LEN,
    {
        ExchangeStep::Receive { request: ReceiveRequest { sealed: () }, capacity: MAX_ID_LEN }
    }

    /// The server's string could not be written.
    pub fn failed<'a>(self, source: std::io::Error) -> (step: ExchangeStep<'a>)
        ensures
            step == (ExchangeStep::Closed { error: Error::FileWriteError(source) }),
    {
        ExchangeStep::Closed { error: Error::from(source) }
    }
}

impl ReceiveRequest {
    /// Takes what the read delivered as the peer's whole string. The
    /// exchange is established exactly when that is an identification
    /// string, which the session then holds. Anything else, an empty read
    /// too, ends it rejected.
    pub fn received<'a>(self, bytes: &[u8]) -> (step: ExchangeStep<'a>)
        ensures
            match step {
                ExchangeStep::Established { session } => is_identification(bytes@)
                    && session.spec_ssh_id()@ == bytes@,
                ExchangeStep::Rejected { error } => !is_identification(bytes@) && error.kind()
                    == ErrorKind::InvalidIdentification,
                _ => false,
            },
    {
        match SshId::from_bytes(bytes) {
            Ok(ssh_id) => ExchangeStep::Established { session: Session::new(ssh_id) },
            Err(error) => ExchangeStep::Rejected { error },
        }
    }

    /// The read failed or the peer closed the connection.
    pub fn failed<'a>(self, source: std::io::Error) -> (step: ExchangeStep<'a>)
        ensures
            step == (ExchangeStep::Closed { error: Error::FileWriteError(source) }),
    {
        ExchangeStep::Closed { error: Error::from(source) }
    }
}

} // verus!
