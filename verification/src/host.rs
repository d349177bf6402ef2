//! A host to connect to, and the name under which its key is looked up.

use vstd::prelude::*;
use vstd::string::*;

use crate::text::append_decimal;

verus! {

/// One host as the user configured it.
#[derive(Clone, PartialEq, Eq)]
pub struct Host {
    /// The alias by which the user knows the host.
    pub name: String,
    /// The address to connect to.
    pub hostname: String,
    pub port: u16,
    /// The login name.
    pub user: String,
    /// The private key file to try before the default ones.
    pub identity_file: Option<String>,
    pub password: Option<String>,
    /// The `ProxyJump` value, where the host is reached through bastions.
    pub proxy_jump: Option<String>,
}

impl Host {
    /// The address as `hostname:port`.
    pub open spec fn address_text(self) -> Seq<char> {
        self.hostname@ + ":"@ + crate::text::decimal(self.port as nat)
    }

    /// The address as `hostname:port`.
    pub fn address(&self) -> (text: String)
        ensures
            text@ == self.address_text(),
            text@ == self.hostname@ + ":"@ + crate::text::decimal(self.port as nat),
    {
        let mut text = self.hostname.clone();
        text.append(":");
        append_decimal(&mut text, self.port as u32);
        text
    }
}

/// The host-key verifier of one connection: the name and port under which the
/// server's key is looked up in `known_hosts`.
#[derive(Clone, Debug, PartialEq, Eq)]
pub struct KnownHostsHandler {
    /// Hostname used for the lookup.
    pub host: String,
    /// Port used for the lookup.
    pub port: u16,
}

/// The host-key verifier for `host`. The lookup uses the host's own hostname
/// and port, also where it is reached through a tunnel.
pub fn known_hosts_handler(host: &Host) -> (handler: KnownHostsHandler)
    ensures
        handler == (KnownHostsHandler { host: host.hostname, port: host.port }),
        handler.host@ == host.hostname@ && handler.port == host.port,
{
    KnownHostsHandler { host: host.hostname.clone(), port: host.port }
}

} // verus!
