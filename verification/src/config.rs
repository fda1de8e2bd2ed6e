//! The configuration as values: servers and their credentials, and what an
//! initialization sets up.
//!
//! Tables keyed by name are lists of named entries here, in the order in which
//! they were written; a name is looked up from the front.

use vstd::prelude::*;
use vstd::string::*;
use crate::ssh::{opt_view, Client, ClientView, SshError};
use crate::text::str_eq;

verus! {

/// One server as configured.
#[derive(Debug)]
pub struct ServerConfig {
    pub host: String,
    pub port: Option<u16>,
    pub username: String,
    pub keypath: Option<String>,
    pub password: Option<String>,
    pub use_password: Option<bool>,
}

/// A server under its name.
#[derive(Debug)]
pub struct ServerEntry {
    pub name: String,
    pub config: ServerConfig,
}

/// Which credential a server's configuration selects.
#[derive(Debug, Clone, Copy, PartialEq, Eq, Structural)]
pub enum Credential {
    /// The private key at the configured path.
    PrivateKey,
    /// The configured password.
    Password,
    /// A password that the operator is asked for.
    Prompt,
    /// None: the configuration is in error.
    Missing,
}

impl ServerConfig {
    /// The credential selected: a key path before a password, a password
    /// before a prompt.
    pub open spec fn credential(&self) -> Credential {
        if self.keypath is Some {
            Credential::PrivateKey
        } else if self.password is Some {
            Credential::Password
        } else if self.use_password == Some(true) {
            Credential::Prompt
        } else {
            Credential::Missing
        }
    }

    /// The client that this configuration describes.
    pub open spec fn client(&self) -> ClientView {
        ClientView {
            host: self.host@,
            port: match self.port {
                Some(p) => p,
                None => 22,
            },
            username: self.username@,
            password: if self.keypath is None {
                opt_view(self.password)
            } else {
                None
            },
            keypath: opt_view(self.keypath),
        }
    }

    /// The credential that this configuration selects.
    pub fn select_credential(&self) -> (c: Credential)
        ensures
            c == self.credential(),
    {
        if self.keypath.is_some() {
            Credential::PrivateKey
        } else if self.password.is_some() {
            Credential::Password
        } else if self.uses_password() {
            Credential::Prompt
        } else {
            Credential::Missing
        }
    }

    /// Whether the server is marked for password authentication.
    pub fn uses_password(&self) -> (r: bool)
        ensures
            r == (self.use_password == Some(true)),
    {
        match self.use_password {
            Some(b) => b,
            None => false,
        }
    }

    /// The port to connect to: the configured one, else 22.
    pub fn effective_port(&self) -> (p: u16)
        ensures
            p == self.client().port,
    {
        match self.port {
            Some(p) => p,
            None => 22,
        }
    }

    /// The client for this server: its address, port 22 unless one is
    /// configured, and the one credential selected, a key path before a
    /// password. A server that selects no credential is a configuration in
    /// error, and no client is built for it. Where the operator is to be
    /// asked, the answer is stored as the password before this is called.
    pub fn build_client(&self) -> (r: Result<Client, SshError>)
        ensures
            self.credential() == Credential::Missing ==> r matches Err(SshError::NoAuthMethod),
            self.credential() != Credential::Missing ==> (r matches Ok(c) && c@ == self.client()),
    {
        match self.select_credential() {
            Credential::Missing => {
                return Err(SshError::NoAuthMethod);
            },
            _ => {},
        }
        let mut client = Client::new(self.host.clone(), self.username.clone());
        client.with_port(self.effective_port());
        match &self.keypath {
            Some(keypath) => {
                client.with_private_key(keypath.clone());
            },
            None => {
                match &self.password {
                    Some(password) => {
                        client.with_password(password.clone());
                    },
                    None => {},
                }
            },
        }
        Ok(client)
    }

    /// Whether the server selects a credential at all.
    pub fn has_credential(&self) -> (r: bool)
        ensures
            r == (self.credential() != Credential::Missing),
    {
        match self.select_credential() {
            Credential::Missing => false,
            _ => true,
        }
    }
}

/// The position of the first entry named `name`, or the length where there
/// is none.
pub open spec fn server_index(servers: Seq<ServerEntry>, name: Seq<char>) -> int
    decreases servers.len(),
{
    if servers.len() == 0 {
        0
    } else if servers[0].name@ == name {
        0
    } else {
        1 + server_index(servers.drop_first(), name)
    }
}

pub proof fn lemma_server_index(servers: Seq<ServerEntry>, name: Seq<char>)
    ensures
        0 <= server_index(servers, name) <= servers.len(),
        server_index(servers, name) < servers.len() ==> servers[server_index(servers, name)].name@
            == name,
        forall|j: int| 0 <= j < server_index(servers, name) ==> servers[j].name@ != name,
    decreases servers.len(),
{
    if servers.len() > 0 && servers[0].name@ != name {
        let rest = servers.drop_first();
        lemma_server_index(rest, name);
        assert forall|j: int| 0 <= j < server_index(servers, name) implies servers[j].name@
            != name by {
            if j > 0 {
                assert(servers[j] == rest[j - 1]);
            }
        }
    }
}

/// The position of the server named `name`, if there is one.
pub fn find_server(servers: &Vec<ServerEntry>, name: &str) -> (r: Option<usize>)
    ensures
        match r {
            Some(i) => i == server_index(servers@, name@) && i < servers.len(),
            None => server_index(servers@, name@) == servers.len(),
        },
{
    let mut i: usize = 0;
    while i < servers.len()
        invariant
            i <= servers.len(),
            forall|j: int| 0 <= j < i ==> servers@[j].name@ != name@,
        decreases servers.len() - i,
    {
        if str_eq(servers[i].name.as_str(), name) {
            proof {
                lemma_server_index(servers@, name@);
                let f = server_index(servers@, name@);
                if f > i {
                    assert(servers@[i as int].name@ != name@);
                }
            }
            return Some(i);
        }
        i += 1;
    }
    proof {
        lemma_server_index(servers@, name@);
    }
    None
}

/// The two top-level sections of the configuration file.
#[derive(Debug)]
pub struct Config {
    pub init: Option<InitConfig>,
    pub manage: Option<ManageConfig>,
}

impl Default for Config {
    /// A configuration with neither section.
    fn default() -> (c: Config)
        ensures
            c.init is None,
            c.manage is None,
    {
        Config { init: None, manage: None }
    }
}

/// What an initialization does to each of its servers.
#[derive(Debug)]
pub struct InitConfig {
    pub server: Option<Vec<ServerEntry>>,
    pub new_username: String,
    pub new_password: String,
    pub sshd: Option<SshdConfig>,
    pub firewall: Option<FirewallConfig>,
    pub fail2ban: Option<Fail2banConfig>,
    pub packages: Option<Vec<String>>,
    pub commands: Option<Vec<String>>,
}

/// The servers under management.
#[derive(Debug)]
pub struct ManageConfig {
    pub server: Option<Vec<ServerEntry>>,
}

/// Whether the packet filter admits what is not listed or drops it.
#[derive(Debug, Clone, Copy, PartialEq, Eq, Structural)]
pub enum FirewallPolicy {
    /// Drop everything but what is allowed.
    Whitelist,
    /// Accept everything but what is denied.
    Blacklist,
}

/// The packet filter to set up.
#[derive(Debug)]
pub struct FirewallConfig {
    pub policy: FirewallPolicy,
    pub enable_icmp: bool,
    pub allow_ping: Option<bool>,
    pub allow_ports: Option<Vec<String>>,
    pub deny_ports: Option<Vec<String>>,
}

/// A key and its value, as written in an option table.
#[derive(Debug)]
pub struct KeyValue {
    pub key: String,
    pub value: String,
}

/// The SSH daemon's new settings.
#[derive(Debug)]
pub struct SshdConfig {
    pub new_port: Option<u16>,
    pub public_key: Option<String>,
    pub options: Option<Vec<KeyValue>>,
}

/// The intrusion prevention to set up.
#[derive(Debug)]
pub struct Fail2banConfig {
    /// The jail file verbatim; where set, `jail` is not read.
    pub content: Option<String>,
    pub backend: Option<String>,
    pub jail: Option<Vec<JailEntry>>,
}

/// A jail under its name.
#[derive(Debug)]
pub struct JailEntry {
    pub name: String,
    pub config: Fail2banJailConfig,
}

/// One jail.
#[derive(Debug)]
pub struct Fail2banJailConfig {
    pub enabled: bool,
    pub port: String,
    pub filter: String,
    pub maxretry: u16,
    pub findtime: u16,
    pub bantime: u16,
    pub logpath: Option<String>,
    pub ignoreip: Option<Vec<String>>,
    pub options: Option<Vec<KeyValue>>,
}

} // verus!
