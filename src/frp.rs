//! Settings of the forwarding tunnel that exposes the receive port through
//! a frp server, and the text of the client's configuration file.

use crate::engine::UdpMessageHandler;
use crate::text::{decimal, push_decimal};
use vstd::prelude::*;

verus! {

/// Where the tunnel client connects, and what it forwards.
#[derive(Debug)]
pub struct FrpConfig {
    pub server_addr: String,
    pub server_port: u16,
    pub token: Option<String>,
    pub local_port: u16,
    pub remote_port: Option<u16>,
    pub protocol: String,
    pub name: String,
}

/// The tunnel's state as the command loop shows it.
#[derive(Debug)]
pub struct FrpStatus {
    pub is_running: bool,
    pub config: FrpConfig,
    pub config_path: String,
}

/// `key = "value"` on a line of its own.
pub open spec fn quoted_line(key: Seq<char>, value: Seq<char>) -> Seq<char> {
    key + " = \""@ + value + "\"\n"@
}

/// `key = n` on a line of its own.
pub open spec fn number_line(key: Seq<char>, n: nat) -> Seq<char> {
    key + " = "@ + decimal(n) + "\n"@
}

/// The configuration file of the tunnel client: the server section, then
/// one proxy section; the token and the remote port only where set.
pub open spec fn config_text(c: FrpConfig) -> Seq<char> {
    quoted_line("serverAddr"@, c.server_addr@) + number_line("serverPort"@, c.server_port as nat)
        + match c.token {
        Some(t) => quoted_line("auth.token"@, t@),
        None => Seq::empty(),
    } + "\n[[proxies]]\n"@ + quoted_line("name"@, c.name@) + quoted_line("type"@, c.protocol@)
        + number_line("localPort"@, c.local_port as nat) + match c.remote_port {
        Some(p) => number_line("remotePort"@, p as nat),
        None => Seq::empty(),
    }
}

fn push_quoted_line(s: &mut String, key: &str, value: &str)
    ensures
        final(s)@ == old(s)@ + quoted_line(key@, value@),
{
    s.append(key);
    s.append(" = \"");
    s.append(value);
    s.append("\"\n");
    assert(final(s)@ =~= old(s)@ + quoted_line(key@, value@));
}

fn push_number_line(s: &mut String, key: &str, n: u16)
    ensures
        final(s)@ == old(s)@ + number_line(key@, n as nat),
{
    s.append(key);
    s.append(" = ");
    push_decimal(s, n as u64);
    s.append("\n");
    assert(final(s)@ =~= old(s)@ + number_line(key@, n as nat));
}

impl FrpConfig {
    /// The text of the client's configuration file for these settings.
    pub fn generate_config(&self) -> (r: String)
        ensures
            r@ == config_text(*self),
    {
        let mut s = String::new();
        push_quoted_line(&mut s, "serverAddr", self.server_addr.as_str());
        push_number_line(&mut s, "serverPort", self.server_port);
        let ghost head = s@;
        match &self.token {
            Some(t) => push_quoted_line(&mut s, "auth.token", t.as_str()),
            None => {},
        }
        s.append("\n[[proxies]]\n");
        push_quoted_line(&mut s, "name", self.name.as_str());
        push_quoted_line(&mut s, "type", self.protocol.as_str());
        push_number_line(&mut s, "localPort", self.local_port);
        match self.remote_port {
            Some(p) => push_number_line(&mut s, "remotePort", p),
            None => {},
        }
        assert(s@ =~= config_text(*self));
        s
    }
}

/// The server settings used until the tunnel is configured: frp.example.com
/// port 7000, no token, no remote port, TCP, proxy name `nchat`.
pub open spec fn is_default_server(c: FrpConfig) -> bool {
    &&& c.server_addr@ == "frp.example.com"@
    &&& c.server_port == 7000
    &&& c.token is None
    &&& c.remote_port is None
    &&& c.protocol@ == "tcp"@
    &&& c.name@ == "nchat"@
}

/// `a` and `b` agree on everything but the local port.
pub open spec fn same_server(a: FrpConfig, b: FrpConfig) -> bool {
    &&& a.server_addr == b.server_addr
    &&& a.server_port == b.server_port
    &&& a.token == b.token
    &&& a.remote_port == b.remote_port
    &&& a.protocol == b.protocol
    &&& a.name == b.name
}

/// The settings used until the tunnel is configured, forwarding port 7000.
pub fn default_frp_config() -> (r: FrpConfig)
    ensures
        is_default_server(r),
        r.local_port == 7000,
{
    FrpConfig {
        server_addr: String::from_str("frp.example.com"),
        server_port: 7000,
        token: None,
        local_port: 7000,
        remote_port: None,
        protocol: String::from_str("tcp"),
        name: String::from_str("nchat"),
    }
}

impl UdpMessageHandler {
    /// The tunnel settings for the given server, forwarding the receive
    /// port, or 8080 while no receiver is active, over TCP.
    pub fn configure_frp(&self, server_addr: &str, server_port: u16, token: Option<&str>) -> (r:
        FrpConfig)
        ensures
            r.server_addr@ == server_addr@,
            r.server_port == server_port,
            r.token is Some <==> token is Some,
            token is Some ==> r.token->0@ == token->0@,
            r.local_port == match self@.receive_port {
                Some(p) => p,
                None => 8080u16,
            },
            r.remote_port is None,
            r.protocol@ == "tcp"@,
            r.name@ == "nchat"@,
    {
        let token = match token {
            Some(t) => Some(String::from_str(t)),
            None => None,
        };
        let local_port = match self.receive_port() {
            Some(p) => p,
            None => 8080,
        };
        FrpConfig {
            server_addr: String::from_str(server_addr),
            server_port,
            token,
            local_port,
            remote_port: None,
            protocol: String::from_str("tcp"),
            name: String::from_str("nchat"),
        }
    }

    /// The tunnel settings to start from: `config`, or the defaults, with
    /// the local port set to the receive port while a receiver is active.
    pub fn init_frp(&self, config: Option<FrpConfig>) -> (r: FrpConfig)
        ensures
            match config {
                Some(c) => same_server(r, c),
                None => is_default_server(r),
            },
            r.local_port == match self@.receive_port {
                Some(p) => p,
                None => match config {
                    Some(c) => c.local_port,
                    None => 7000u16,
                },
            },
    {
        let mut c = match config {
            Some(c) => c,
            None => default_frp_config(),
        };
        match self.receive_port() {
            Some(p) => {
                c.local_port = p;
            },
            None => {},
        }
        c
    }
}

} // verus!
