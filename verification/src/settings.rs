//! What an operator can set: where to listen, how many clients to serve,
//! where the host keys are kept.

use vstd::prelude::*;
use vstd::string::StringExecFns;

verus! {

/// The directory of the host keys where none is set.
pub fn default_keys_dir() -> (dir: String)
    ensures
        dir@ == "./keys/"@,
{
    String::from_str("./keys/")
}

/// The address to listen on where none is set.
pub fn default_addr() -> (addr: String)
    ensures
        addr@ == "0.0.0.0:22"@,
{
    String::from_str("0.0.0.0:22")
}

/// The number of clients served at once where none is set.
pub fn default_max_clients() -> (max: u16)
    ensures
        max == u16::MAX,
{
    u16::MAX
}

#[derive(Debug)]
pub struct ServerSettings {
    addr: String,
    max_clients: u16,
}

impl ServerSettings {
    pub closed spec fn spec_addr(&self) -> Seq<char> {
        self.addr@
    }

    pub closed spec fn spec_max_clients(&self) -> u16 {
        self.max_clients
    }

    /// The settings with what is set, and the default for what is not.
    pub fn new(addr: Option<String>, max_clients: Option<u16>) -> (settings: Self)
        ensures
            settings.spec_addr() == match addr {
                Some(a) => a@,
                None => "0.0.0.0:22"@,
            },
            settings.spec_max_clients() == match max_clients {
                Some(m) => m,
                None => u16::MAX,
            },
    {
        ServerSettings {
            addr: match addr {
                Some(a) => a,
                None => default_addr(),
            },
            max_clients: match max_clients {
                Some(m) => m,
                None => default_max_clients(),
            },
        }
    }

    /// Get a reference to the server settings's addr.
    pub fn addr(&self) -> (addr: &str)
        ensures
            addr@ == self.spec_addr(),
    {
        self.addr.as_str()
    }

    /// Get a reference to the server settings's max clients.
    pub fn max_clients(&self) -> (max: &u16)
        ensures
            *max == self.spec_max_clients(),
    {
        &self.max_clients
    }
}

impl Default for ServerSettings {
    fn default() -> (settings: Self)
        ensures
            settings.spec_addr() == "0.0.0.0:22"@,
            settings.spec_max_clients() == u16::MAX,
    {
        ServerSettings { addr: default_addr(), max_clients: default_max_clients() }
    }
}

#[derive(Debug)]
pub struct Settings {
    server: ServerSettings,
    keys_dir: String,
}

impl Settings {
    pub closed spec fn spec_server(&self) -> ServerSettings {
        self.server
    }

    pub closed spec fn spec_keys_dir(&self) -> Seq<char> {
        self.keys_dir@
    }

    /// The settings with what is set, and the default for what is not.
    pub fn new(server: Option<ServerSettings>, keys_dir: Option<String>) -> (settings: Self)
        ensures
            match server {
                Some(s) => settings.spec_server() == s,
                None => settings.spec_server().spec_addr() == "0.0.0.0:22"@
                    && settings.spec_server().spec_max_clients() == u16::MAX,
            },
            settings.spec_keys_dir() == match keys_dir {
                Some(d) => d@,
                None => "./keys/"@,
            },
    {
        Settings {
            server: match server {
                Some(s) => s,
                None => ServerSettings::default(),
            },
            keys_dir: match keys_dir {
                Some(d) => d,
                None => default_keys_dir(),
            },
        }
    }

    /// Get a reference to the settings' server.
    pub fn server(&self) -> (server: &ServerSettings)
        ensures
            *server == self.spec_server(),
    {
        &self.server
    }

    /// Get a reference to the settings' keys dir.
    pub fn keys_dir(&self) -> (dir: &str)
        ensures
            dir@ == self.spec_keys_dir(),
    {
        self.keys_dir.as_str()
    }
}

} // verus!
