//! The ground an SSH server stands on: its host keys, and the identification
//! strings that both sides send before anything else.
//!
//! Signing, key generation and the PKCS#8 and PEM formats are `ring`'s and
//! `pem`'s. The calls into them are in `crypto` and at the head of `armor`,
//! each with a statement of what is taken on trust; the `Debug` form of a
//! key, which is its key pair's own, is in `host_key`. Everything else is
//! proved: which requests a load makes and in which order, that a key file
//! is never replaced, that a key is the one decoded from its file, that a
//! store holds one key of every scheme, what an identification string is and
//! when a peer's is accepted.
//!
//! The library does no I/O. Where disk or network come in, it hands out
//! steps that say what to do, and takes back what happened.

pub mod algorithm;
pub mod armor;
pub mod crypto;
pub mod error;
pub mod host_key;
pub mod kex;
pub mod loader;
pub mod server;
pub mod session;
pub mod settings;
pub mod ssh_id;
pub mod store;
