//! What a running server holds: its settings and its host keys.

use crate::settings::Settings;
use crate::store::HostKeyStore;
use vstd::prelude::*;

verus! {

#[derive(Debug)]
pub struct Server {
    settings: Settings,
    keys: HostKeyStore,
}

impl Server {
    pub closed spec fn spec_settings(&self) -> Settings {
        self.settings
    }

    pub closed spec fn spec_keys(&self) -> HostKeyStore {
        self.keys
    }

    pub fn new(settings: Settings, keys: HostKeyStore) -> (server: Self)
        ensures
            server.spec_settings() == settings,
            server.spec_keys() == keys,
    {
        Self { settings, keys }
    }

    /// Get a reference to the server's settings.
    pub fn settings(&self) -> (settings: &Settings)
        ensures
            *settings == self.spec_settings(),
    {
        &self.settings
    }

    /// Get a reference to the server's keys.
    pub fn keys(&self) -> (keys: &HostKeyStore)
        ensures
            *keys == self.spec_keys(),
    {
        &self.keys
    }
}

} // verus!
